//! Driver logic for the BME280 temperature, pressure and humidity sensor:
//! register encodings, calibration parsing, raw sample decoding and the
//! initialisation / measurement life cycle, all independent of the bus.

pub mod api;
pub mod calibration;
pub mod config;
pub mod driver;
pub mod error;
pub mod registers;
pub mod sample;
