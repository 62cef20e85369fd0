//! Colours of the display.
use vstd::prelude::*;

verus! {

/// A colour as red, green and blue channels.
#[derive(Debug, Clone, Copy, PartialEq, Eq, Structural)]
pub struct Rgb(pub u8, pub u8, pub u8);

/// A colour channel from the lowest byte of `v`, with its two lowest bits set.
pub open spec fn hex_channel(v: u32) -> u8 {
    ((v & 0xffu32) | 3u32) as u8
}

/// The lowest byte of `v`, with its two lowest bits set.
fn channel(v: u32) -> (r: u8)
    ensures
        r == hex_channel(v),
{
    let b: u32 = (v & 0xffu32) | 3u32;
    assert(b <= 0xff) by (bit_vector)
        requires b == (v & 0xffu32) | 3u32;
    b as u8
}

impl Rgb {
    /// The colour written as `0xRRGGBB`, with the two lowest bits of each channel set.
    pub fn from_hex(hex: u32) -> (r: Self)
        ensures
            r.0 == hex_channel(hex >> 16u32),
            r.1 == hex_channel(hex >> 8u32),
            r.2 == hex_channel(hex),
    {
        Rgb(channel(hex >> 16u32), channel(hex >> 8u32), channel(hex))
    }
}

} // verus!
