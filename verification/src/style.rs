//! Colors by number.

use vstd::prelude::*;

verus! {

/// A color in four channels of eight bits: red, green, blue, and alpha, which
/// is how much the color covers what is beneath it.
#[derive(Debug, Clone, Copy, PartialEq, Eq, Structural)]
pub struct Rgba {
    pub r: u8,
    pub g: u8,
    pub b: u8,
    pub a: u8,
}

/// The channel of `rgb` that stands `place` channels from the right: the digit
/// of `rgb` at that place when it is written to the base 256.
pub open spec fn channel(rgb: u32, place: nat) -> u32 {
    if place == 0 {
        rgb % 256
    } else if place == 1 {
        (rgb / 256) % 256
    } else {
        (rgb / 65536) % 256
    }
}

/// The color that the six hexadecimal digits `0xRRGGBB` give, covering all
/// that is beneath it. Digits above those six are not looked at.
pub fn color(rgb: u32) -> (color: Rgba)
    ensures
        color.r == channel(rgb, 2),
        color.g == channel(rgb, 1),
        color.b == channel(rgb, 0),
        color.a == 255,
{
    let r: u32 = (rgb & 0xFF0000) >> 16;
    let g: u32 = (rgb & 0x00FF00) >> 8;
    let b: u32 = rgb & 0x0000FF;
    assert(r == (rgb / 65536) % 256 && g == (rgb / 256) % 256 && b == rgb % 256) by (bit_vector)
        requires
            r == (rgb & 0xFF0000) >> 16,
            g == (rgb & 0x00FF00) >> 8,
            b == rgb & 0x0000FF,
    ;
    Rgba { r: r as u8, g: g as u8, b: b as u8, a: 255 }
}

/// Two numbers that agree in their six lowest hexadecimal digits give the
/// same color.
pub proof fn lemma_color_looks_at_six_digits(rgb: u32, other: u32)
    requires
        rgb % 16777216 == other % 16777216,
    ensures
        channel(rgb, 0) == channel(other, 0),
        channel(rgb, 1) == channel(other, 1),
        channel(rgb, 2) == channel(other, 2),
{
    assert(rgb % 16777216 == other % 16777216 ==> rgb % 256 == other % 256 && (rgb / 256) % 256
        == (other / 256) % 256 && (rgb / 65536) % 256 == (other / 65536) % 256) by (bit_vector);
}

} // verus!
