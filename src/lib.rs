//! Register-level vocabulary for a temperature and relative-humidity sensor
//! on a two-wire addressed bus: bus addressing, configuration encodings,
//! status flags and the error type of the surrounding driver.
use vstd::prelude::*;

pub mod types;

pub use types::{AutomaticMeasurementMode, Error, MeasurementMode, SlaveAddr, Status};

verus! {

/// Factory-default 7-bit bus address of the device.
pub const BASE_ADDR: u8 = 0x40;

} // verus!
