use vstd::prelude::*;

verus! {

/// The ways in which talking to the sensor can fail.
#[derive(Debug, Clone, Copy, PartialEq, Eq, Structural)]
pub enum Error {
    /// Failed to compensate a raw measurement
    CompensationFailed,
    /// I2C bus error
    I2C,
    /// Failed to parse sensor data
    InvalidData,
    /// No calibration data is available (initialisation has not completed)
    NoCalibrationData,
    /// Chip ID doesn't match expected value
    UnsupportedChip,
}

} // verus!
