use vstd::prelude::*;

verus! {

/// Bus address of the sensor.
pub const I2C_ADDRESS: u16 = 0x76;

/// Chip identity register and the value a BME280 holds there.
pub const CHIP_ID_ADDR: u8 = 0xD0;
pub const CHIP_ID: u8 = 0x60;

/// Soft-reset register and the command that triggers a reset.
pub const RESET_ADDR: u8 = 0xE0;
pub const RESET_COMMAND: u8 = 0xB6;

/// Configuration registers.
pub const CTRL_HUM_ADDR: u8 = 0xF2;
pub const CTRL_MEAS_ADDR: u8 = 0xF4;
pub const CONFIG_ADDR: u8 = 0xF5;

/// Temperature/pressure calibration block (0x88..=0xA1; the last byte is dig_h1).
pub const PT_CALIB_ADDR: u8 = 0x88;
pub const PT_CALIB_LEN: usize = 26;

/// Humidity calibration block (0xE1..=0xE7).
pub const H_CALIB_ADDR: u8 = 0xE1;
pub const H_CALIB_LEN: usize = 7;

/// Measurement data block: pressure (3), temperature (3), humidity (2).
pub const DATA_ADDR: u8 = 0xF7;
pub const DATA_LEN: usize = 8;

} // verus!
