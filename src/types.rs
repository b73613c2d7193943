use vstd::prelude::*;

use crate::BASE_ADDR;

verus! {

/// All possible errors in this crate
#[derive(Debug)]
pub enum Error<E> {
    /// I²C communication error
    I2C(E),
    /// Invalid input data provided
    InvalidInputData,
}

/// Status
#[derive(Debug, Clone, Copy, PartialEq, Eq, Structural)]
pub struct Status {
    /// Whether data is ready
    pub data_ready: bool,
    /// Whether the temperature high threshold was exceeded
    pub high_temp_threshold_exceeded: bool,
    /// Whether the temperature low threshold was exceeded
    pub low_temp_threshold_exceeded: bool,
    /// Whether the humidity high threshold was exceeded
    pub high_humidity_threshold_exceeded: bool,
    /// Whether the humidity low threshold was exceeded
    pub low_humidity_threshold_exceeded: bool,
}

/// Two status snapshots are equal exactly when all five flags agree, one by
/// one; a difference in any single flag makes them unequal.
pub proof fn lemma_status_eq_iff_flags(a: Status, b: Status)
    ensures
        (a == b) <==> {
            &&& a.data_ready == b.data_ready
            &&& a.high_temp_threshold_exceeded == b.high_temp_threshold_exceeded
            &&& a.low_temp_threshold_exceeded == b.low_temp_threshold_exceeded
            &&& a.high_humidity_threshold_exceeded == b.high_humidity_threshold_exceeded
            &&& a.low_humidity_threshold_exceeded == b.low_humidity_threshold_exceeded
        },
{
}

/// Measurement mode
#[derive(Debug, Clone, Copy, PartialEq, Eq, Structural)]
pub enum MeasurementMode {
    /// Temperature and humidity (default)
    TemperatureAndHumidity,
    /// Temperature only
    TemperatureOnly,
}

impl Default for MeasurementMode {
    fn default() -> (r: Self)
        ensures
            r == MeasurementMode::TemperatureAndHumidity,
    {
        MeasurementMode::TemperatureAndHumidity
    }
}

impl MeasurementMode {
    /// The humidity field of a measurement taken in this mode, given the
    /// humidity reading: present in `TemperatureAndHumidity` mode and absent
    /// in `TemperatureOnly` mode, whatever the reading.
    pub fn humidity_field<T>(self, reading: T) -> (r: Option<T>)
        ensures
            self == MeasurementMode::TemperatureOnly ==> r is None,
            self == MeasurementMode::TemperatureAndHumidity ==> r == Some(reading),
    {
        match self {
            MeasurementMode::TemperatureAndHumidity => Some(reading),
            MeasurementMode::TemperatureOnly => None,
        }
    }
}

/// Possible slave addresses
#[derive(Debug, Clone, Copy, PartialEq, Eq, Structural)]
pub enum SlaveAddr {
    /// Default slave address
    Default,
    /// Alternative slave address providing bit value for the SDO pin
    Alternative(bool),
}

impl Default for SlaveAddr {
    /// Default slave address
    fn default() -> (r: Self)
        ensures
            r == SlaveAddr::Default,
    {
        SlaveAddr::Default
    }
}

impl SlaveAddr {
    /// The bus address that a selection stands for: the base address, with
    /// bit 0 set when the SDO pin is high.
    pub open spec fn spec_addr(self) -> u8 {
        match self {
            SlaveAddr::Default => BASE_ADDR,
            SlaveAddr::Alternative(false) => BASE_ADDR,
            SlaveAddr::Alternative(true) => BASE_ADDR | 1,
        }
    }

    /// Physical 7-bit bus address for this selection.
    pub fn addr(self) -> (r: u8)
        ensures
            r == self.spec_addr(),
            r < 128,
    {
        proof {
            lemma_address_resolution();
        }
        match self {
            SlaveAddr::Default => BASE_ADDR,
            SlaveAddr::Alternative(false) => BASE_ADDR,
            SlaveAddr::Alternative(true) => BASE_ADDR | 1,
        }
    }
}

/// The default selection and the alternative one with the SDO pin low both
/// resolve to the base address; with the pin high the selection resolves to
/// the base address with bit 0 set, which differs from it; every resolved
/// address fits in 7 bits.
pub proof fn lemma_address_resolution()
    ensures
        SlaveAddr::Default.spec_addr() == BASE_ADDR,
        SlaveAddr::Alternative(false).spec_addr() == BASE_ADDR,
        SlaveAddr::Alternative(true).spec_addr() == BASE_ADDR | 1,
        SlaveAddr::Alternative(true).spec_addr() != SlaveAddr::Alternative(false).spec_addr(),
        SlaveAddr::Alternative(true).spec_addr() == 0x41,
        forall|s: SlaveAddr| #[trigger] s.spec_addr() < 128,
{
    assert((0x40u8 | 1u8) == 0x41u8) by (bit_vector);
}

/// The default address selection resolves to the base address constant.
pub proof fn lemma_default_selection_is_base_address()
    ensures
        SlaveAddr::Default.spec_addr() == BASE_ADDR,
{
}

/// Possible automatic measurement mode choices.
#[derive(Copy, Debug, PartialEq, Eq, Clone, Structural)]
pub enum AutomaticMeasurementMode {
    /// Disable automatic measurement
    Disabled,
    /// Measure once every two minutes
    TwoMinutes,
    /// Measure once every minute
    OneMinute,
    /// Measure once every ten seconds
    TenSeconds,
    /// Measure once every five seconds
    FiveSeconds,
    /// Measure once per second
    OneHertz,
    /// Measure twice per second
    TwoHertz,
    /// Measure five times per second
    FiveHertz,
}

impl AutomaticMeasurementMode {
    /// Configuration-register encoding of each mode.
    pub open spec fn spec_bits(self) -> u8 {
        match self {
            AutomaticMeasurementMode::Disabled => 0b00000000,
            AutomaticMeasurementMode::TwoMinutes => 0b00010100,
            AutomaticMeasurementMode::OneMinute => 0b00100100,
            AutomaticMeasurementMode::TenSeconds => 0b00110100,
            AutomaticMeasurementMode::FiveSeconds => 0b01000100,
            AutomaticMeasurementMode::OneHertz => 0b01010100,
            AutomaticMeasurementMode::TwoHertz => 0b01100100,
            AutomaticMeasurementMode::FiveHertz => 0b01110100,
        }
    }

    /// Value written to the configuration register for this mode.
    pub fn bits(self) -> (r: u8)
        ensures
            r == self.spec_bits(),
    {
        match self {
            AutomaticMeasurementMode::Disabled => 0b00000000,
            AutomaticMeasurementMode::TwoMinutes => 0b00010100,
            AutomaticMeasurementMode::OneMinute => 0b00100100,
            AutomaticMeasurementMode::TenSeconds => 0b00110100,
            AutomaticMeasurementMode::FiveSeconds => 0b01000100,
            AutomaticMeasurementMode::OneHertz => 0b01010100,
            AutomaticMeasurementMode::TwoHertz => 0b01100100,
            AutomaticMeasurementMode::FiveHertz => 0b01110100,
        }
    }
}

/// No two automatic measurement modes share a register encoding.
pub proof fn lemma_automatic_mode_bits_injective(a: AutomaticMeasurementMode, b: AutomaticMeasurementMode)
    ensures
        a.spec_bits() == b.spec_bits() <==> a == b,
{
}

} // verus!
