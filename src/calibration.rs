use vstd::prelude::*;

use crate::error::Error;
use crate::registers::{H_CALIB_LEN, PT_CALIB_LEN};

verus! {

/// Factory calibration coefficients of one sensor, plus the fine temperature
/// that temperature compensation leaves for pressure and humidity compensation.
#[derive(Debug, Clone, Copy, PartialEq, Eq, Structural)]
pub struct CalibrationData {
    pub dig_t1: u16,
    pub dig_t2: i16,
    pub dig_t3: i16,
    pub dig_p1: u16,
    pub dig_p2: i16,
    pub dig_p3: i16,
    pub dig_p4: i16,
    pub dig_p5: i16,
    pub dig_p6: i16,
    pub dig_p7: i16,
    pub dig_p8: i16,
    pub dig_p9: i16,
    pub dig_h1: u8,
    pub dig_h2: i16,
    pub dig_h3: u8,
    pub dig_h4: i16,
    pub dig_h5: i16,
    pub dig_h6: i8,
    pub t_fine: i32,
}

/// The unsigned 16-bit value whose low byte is `lo` and high byte is `hi`.
pub open spec fn le_u16(lo: u8, hi: u8) -> int {
    hi as int * 256 + lo as int
}

/// Two's complement reading of a 16-bit pattern `v` (0 <= v < 2^16).
pub open spec fn signed16(v: int) -> int {
    if v >= 0x8000 {
        v - 0x10000
    } else {
        v
    }
}

/// Two's complement reading of an 8-bit pattern `v` (0 <= v < 2^8).
pub open spec fn signed8(v: int) -> int {
    if v >= 0x80 {
        v - 0x100
    } else {
        v
    }
}

/// Unsigned little-endian coefficient stored at byte `i` of `b`.
pub open spec fn coeff_u16(b: Seq<u8>, i: int) -> int {
    le_u16(b[i], b[i + 1])
}

/// Signed little-endian coefficient stored at byte `i` of `b`.
pub open spec fn coeff_i16(b: Seq<u8>, i: int) -> int {
    signed16(coeff_u16(b, i))
}

/// `c` holds the temperature and pressure coefficients stored in `pt`.
pub open spec fn temp_pressure_coeffs_of(c: CalibrationData, pt: Seq<u8>) -> bool {
    &&& c.dig_t1 == coeff_u16(pt, 0)
    &&& c.dig_t2 == coeff_i16(pt, 2)
    &&& c.dig_t3 == coeff_i16(pt, 4)
    &&& c.dig_p1 == coeff_u16(pt, 6)
    &&& c.dig_p2 == coeff_i16(pt, 8)
    &&& c.dig_p3 == coeff_i16(pt, 10)
    &&& c.dig_p4 == coeff_i16(pt, 12)
    &&& c.dig_p5 == coeff_i16(pt, 14)
    &&& c.dig_p6 == coeff_i16(pt, 16)
    &&& c.dig_p7 == coeff_i16(pt, 18)
    &&& c.dig_p8 == coeff_i16(pt, 20)
    &&& c.dig_p9 == coeff_i16(pt, 22)
}

/// `c` holds the humidity coefficients: `dig_h1` is the last byte of the
/// temperature/pressure block, the others come from the humidity block `h`,
/// with `dig_h4` and `dig_h5` as 12-bit values sharing the nibbles of `h[4]`.
pub open spec fn humidity_coeffs_of(c: CalibrationData, pt: Seq<u8>, h: Seq<u8>) -> bool {
    &&& c.dig_h1 == pt[25]
    &&& c.dig_h2 == coeff_i16(h, 0)
    &&& c.dig_h3 == h[2]
    &&& c.dig_h4 == h[3] as int * 16 + h[4] as int % 16
    &&& c.dig_h5 == h[5] as int * 16 + h[4] as int / 16
    &&& c.dig_h6 == signed8(h[6] as int)
}

/// `c` is the calibration set that the two raw blocks encode, with the fine
/// temperature not yet computed.
pub open spec fn is_parse_of(c: CalibrationData, pt: Seq<u8>, h: Seq<u8>) -> bool {
    &&& temp_pressure_coeffs_of(c, pt)
    &&& humidity_coeffs_of(c, pt, h)
    &&& c.t_fine == 0
}

/// The denominator of pressure compensation, scaled to an integer. Pressure
/// compensation divides by
/// `(1 + ((p3 * v^2 / 2^19 + p2 * v) / 2^19) / 2^15) * p1` with
/// `v = t_fine / 2 - 64000`; writing `w = t_fine - 128000`, that denominator is
/// exactly `p1 * pressure_denominator_scaled(c) / 2^55`.
pub open spec fn pressure_denominator_scaled(c: CalibrationData) -> int {
    let w = c.t_fine - 128000;
    0x80_0000_0000_0000 + c.dig_p3 * (w * w) + 0x10_0000 * (c.dig_p2 * w)
}

/// Pressure compensation is defined: its denominator is strictly positive.
pub open spec fn pressure_defined(c: CalibrationData) -> bool {
    c.dig_p1 > 0 && pressure_denominator_scaled(c) > 0
}

impl CalibrationData {
    /// Checks that pressure compensation may divide by its denominator, given
    /// the fine temperature currently held; fails with `InvalidData` when the
    /// denominator is not strictly positive. The sign is decided exactly, in
    /// integer arithmetic.
    pub fn check_pressure_denominator(&self) -> (r: Result<(), Error>)
        ensures
            pressure_defined(*self) ==> r is Ok,
            !pressure_defined(*self) ==> r == Err::<(), Error>(Error::InvalidData),
    {
        if self.dig_p1 == 0 {
            return Err(Error::InvalidData);
        }
        let w: i128 = self.t_fine as i128 - 128000;
        let p2: i128 = self.dig_p2 as i128;
        let p3: i128 = self.dig_p3 as i128;
        proof {
            assert(0 <= w * w <= 0x1_0000_0000_0000_0000) by (nonlinear_arith)
                requires
                    -0x1_0000_0000 <= w <= 0x1_0000_0000,
            ;
            assert(-0x1_0000_0000_0000_0000_0000 <= p3 * (w * w) <= 0x1_0000_0000_0000_0000_0000)
                by (nonlinear_arith)
                requires
                    -0x8000 <= p3 <= 0x8000,
                    0 <= w * w <= 0x1_0000_0000_0000_0000,
            ;
            assert(-0x8000_0000_0000 <= p2 * w <= 0x8000_0000_0000) by (nonlinear_arith)
                requires
                    -0x8000 <= p2 <= 0x8000,
                    -0x1_0000_0000 <= w <= 0x1_0000_0000,
            ;
        }
        let quadratic: i128 = p3 * (w * w);
        let linear: i128 = 0x10_0000 * (p2 * w);
        if 0x80_0000_0000_0000 + quadratic + linear > 0 {
            Ok(())
        } else {
            Err(Error::InvalidData)
        }
    }
}

fn concat_bytes(msb: u8, lsb: u8) -> (r: u16)
    ensures
        r == le_u16(lsb, msb),
{
    (msb as u16) * 256 + (lsb as u16)
}

fn as_signed16(v: u16) -> (r: i16)
    ensures
        r == signed16(v as int),
{
    if v >= 0x8000 {
        (v as i32 - 0x10000) as i16
    } else {
        v as i16
    }
}

fn as_signed8(v: u8) -> (r: i8)
    ensures
        r == signed8(v as int),
{
    if v >= 0x80 {
        (v as i16 - 0x100) as i8
    } else {
        v as i8
    }
}

/// Decodes the two raw calibration blocks read from the sensor. Total: every
/// pair of blocks of the right lengths gives a coefficient set.
pub fn parse_calib_data(pt_data: &[u8; PT_CALIB_LEN], h_data: &[u8; H_CALIB_LEN]) -> (r:
    CalibrationData)
    ensures
        is_parse_of(r, pt_data@, h_data@),
{
    let dig_t1 = concat_bytes(pt_data[1], pt_data[0]);
    let dig_t2 = as_signed16(concat_bytes(pt_data[3], pt_data[2]));
    let dig_t3 = as_signed16(concat_bytes(pt_data[5], pt_data[4]));
    let dig_p1 = concat_bytes(pt_data[7], pt_data[6]);
    let dig_p2 = as_signed16(concat_bytes(pt_data[9], pt_data[8]));
    let dig_p3 = as_signed16(concat_bytes(pt_data[11], pt_data[10]));
    let dig_p4 = as_signed16(concat_bytes(pt_data[13], pt_data[12]));
    let dig_p5 = as_signed16(concat_bytes(pt_data[15], pt_data[14]));
    let dig_p6 = as_signed16(concat_bytes(pt_data[17], pt_data[16]));
    let dig_p7 = as_signed16(concat_bytes(pt_data[19], pt_data[18]));
    let dig_p8 = as_signed16(concat_bytes(pt_data[21], pt_data[20]));
    let dig_p9 = as_signed16(concat_bytes(pt_data[23], pt_data[22]));

    let dig_h1 = pt_data[25];
    let dig_h2 = as_signed16(concat_bytes(h_data[1], h_data[0]));
    let dig_h3 = h_data[2];
    let dig_h4 = (h_data[3] as i16) * 16 + (h_data[4] % 16) as i16;
    let dig_h5 = (h_data[5] as i16) * 16 + (h_data[4] / 16) as i16;
    let dig_h6 = as_signed8(h_data[6]);

    CalibrationData {
        dig_t1,
        dig_t2,
        dig_t3,
        dig_p1,
        dig_p2,
        dig_p3,
        dig_p4,
        dig_p5,
        dig_p6,
        dig_p7,
        dig_p8,
        dig_p9,
        dig_h1,
        dig_h2,
        dig_h3,
        dig_h4,
        dig_h5,
        dig_h6,
        t_fine: 0,
    }
}

/// Parsing is deterministic: the same two blocks always describe one and the
/// same coefficient set, so re-parsing identical bytes gives identical
/// coefficients.
pub proof fn lemma_parse_deterministic(
    pt1: Seq<u8>,
    h1: Seq<u8>,
    pt2: Seq<u8>,
    h2: Seq<u8>,
    c1: CalibrationData,
    c2: CalibrationData,
)
    requires
        pt1.len() == PT_CALIB_LEN,
        h1.len() == H_CALIB_LEN,
        pt1 == pt2,
        h1 == h2,
        is_parse_of(c1, pt1, h1),
        is_parse_of(c2, pt2, h2),
    ensures
        c1 == c2,
{
}

} // verus!
