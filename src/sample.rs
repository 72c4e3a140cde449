use vstd::prelude::*;

use crate::registers::DATA_LEN;

verus! {

/// The three uncompensated ADC readings of one measurement.
#[derive(Debug, Clone, Copy, PartialEq, Eq, Structural)]
pub struct RawSample {
    pub pressure: u32,
    pub temperature: u32,
    pub humidity: u32,
}

/// A 20-bit reading stored MSB first in three bytes, the last byte holding
/// the low four bits in its upper nibble.
pub open spec fn field20(msb: u8, lsb: u8, xlsb: u8) -> int {
    msb as int * 4096 + lsb as int * 16 + xlsb as int / 16
}

/// A 16-bit reading stored MSB first in two bytes.
pub open spec fn field16(msb: u8, lsb: u8) -> int {
    msb as int * 256 + lsb as int
}

/// `s` is the sample that the data block `d` encodes: pressure in bytes 0..3,
/// temperature in bytes 3..6, humidity in bytes 6..8.
pub open spec fn is_sample_of(s: RawSample, d: Seq<u8>) -> bool {
    &&& s.pressure == field20(d[0], d[1], d[2])
    &&& s.temperature == field20(d[3], d[4], d[5])
    &&& s.humidity == field16(d[6], d[7])
}

fn read_field20(msb: u8, lsb: u8, xlsb: u8) -> (r: u32)
    ensures
        r == field20(msb, lsb, xlsb),
        r < 0x10_0000,
{
    (msb as u32) * 4096 + (lsb as u32) * 16 + (xlsb as u32) / 16
}

impl RawSample {
    /// Splits the 8-byte data block into its three raw readings.
    pub fn decode(data: &[u8; DATA_LEN]) -> (r: RawSample)
        ensures
            is_sample_of(r, data@),
            r.pressure < 0x10_0000,
            r.temperature < 0x10_0000,
            r.humidity < 0x1_0000,
    {
        let pressure = read_field20(data[0], data[1], data[2]);
        let temperature = read_field20(data[3], data[4], data[5]);
        let humidity = (data[6] as u32) * 256 + (data[7] as u32);
        RawSample { pressure, temperature, humidity }
    }
}

} // verus!
