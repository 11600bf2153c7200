//! Decoding of the sensor's binary record.
//!
//! In raw tristimulus mode the color sensor publishes its reading as one
//! binary record of four little-endian signed 16-bit values; the first three
//! are the red, green and blue channels.

use vstd::prelude::*;
use crate::color::RawColor;

verus! {

/// The value of a little-endian signed 16-bit integer with low byte `b0` and
/// high byte `b1`.
pub open spec fn i16_le(b0: u8, b1: u8) -> int {
    let u = b0 + 256 * b1;
    if u < 32768 {
        u
    } else {
        u - 65536
    }
}

/// The number of bytes of a complete sensor record: four signed 16-bit
/// values.
pub const RECORD_BYTES: usize = 8;

fn decode_channel(b0: u8, b1: u8) -> (v: i32)
    ensures
        v == i16_le(b0, b1),
{
    let u: u32 = b0 as u32 + 256 * (b1 as u32);
    if u < 32768 {
        u as i32
    } else {
        u as i32 - 65536
    }
}

/// Decodes a raw color from one binary sensor record: the first three
/// little-endian signed 16-bit values are the red, green and blue channels.
/// Returns `None` when the record is shorter than a complete reading.
pub fn decode_raw_color(data: &Vec<u8>) -> (c: Option<RawColor>)
    ensures
        data@.len() >= RECORD_BYTES ==> c == Some(
            (
                i16_le(data@[0], data@[1]) as i32,
                i16_le(data@[2], data@[3]) as i32,
                i16_le(data@[4], data@[5]) as i32,
            ),
        ),
        data@.len() < RECORD_BYTES ==> c is None,
{
    if data.len() < RECORD_BYTES {
        return None;
    }
    let r: i32 = decode_channel(data[0], data[1]);
    let g: i32 = decode_channel(data[2], data[3]);
    let b: i32 = decode_channel(data[4], data[5]);
    Some((r, g, b))
}

} // verus!
