//! Decoding raw register bytes into signed axis readings.
//!
//! Each axis arrives as a big-endian pair of bytes whose top twelve bits
//! carry a two's-complement reading; the low four bits are padding.

use vstd::prelude::*;

verus! {

/// The twelve-bit field carried by one axis pair: the big-endian sixteen-bit
/// value with its four padding bits discarded.
pub open spec fn axis_field(msb: u8, lsb: u8) -> int {
    (msb * 256 + lsb) / 16
}

/// The signed reading an axis pair denotes: its twelve-bit field taken as a
/// two's-complement number, so a field with bit eleven set stands for
/// `field - 4096`.
pub open spec fn axis_value(msb: u8, lsb: u8) -> int {
    if axis_field(msb, lsb) >= 2048 {
        axis_field(msb, lsb) - 4096
    } else {
        axis_field(msb, lsb)
    }
}

/// Decode one axis pair (most significant byte first) into its signed
/// reading, which always lies in `-2048 ..= 2047`.
pub fn decode_axis(msb: u8, lsb: u8) -> (r: i16)
    ensures
        r as int == axis_value(msb, lsb),
        -2048 <= r as int <= 2047,
{
    let combined: u16 = ((msb as u16) << 8u16) | (lsb as u16);
    let field: u16 = combined >> 4u16;
    proof {
        assert((((msb as u16) << 8u16) | (lsb as u16)) >> 4u16
            == ((msb as u16) * 256 + (lsb as u16)) / 16) by (bit_vector);
    }
    if field >= 2048 {
        (field as i32 - 4096) as i16
    } else {
        field as i16
    }
}

/// Decode the six-byte sample buffer into the three signed axis readings,
/// in the order X, Y, Z.
pub fn decode_sample(raw: &Vec<u8>) -> (r: Vec<i16>)
    requires
        raw@.len() == 6,
    ensures
        r@.len() == 3,
        r@[0] as int == axis_value(raw@[0], raw@[1]),
        r@[1] as int == axis_value(raw@[2], raw@[3]),
        r@[2] as int == axis_value(raw@[4], raw@[5]),
{
    let mut out: Vec<i16> = Vec::new();
    out.push(decode_axis(raw[0], raw[1]));
    out.push(decode_axis(raw[2], raw[3]));
    out.push(decode_axis(raw[4], raw[5]));
    out
}

} // verus!
