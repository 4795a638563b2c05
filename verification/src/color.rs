//! The palette: one fixed linear scheme from intensity to RGB.

use vstd::prelude::*;

verus! {

/// An RGB triple, eight bits per channel.
#[derive(Clone, Copy, Debug, PartialEq, Eq, Structural)]
pub struct Color {
    pub r: u8,
    pub g: u8,
    pub b: u8,
}

/// Green channel for intensity `i`: six tenths of it, rounded down.
pub open spec fn green_level(i: int) -> int {
    6 * i / 10
}

/// Blue channel for intensity `i`: eight tenths of it, rounded down.
pub open spec fn blue_level(i: int) -> int {
    8 * i / 10
}

/// The color of intensity `i`: red carries the intensity itself, green and
/// blue are scaled down.
pub open spec fn shade(i: u8) -> Color {
    Color { r: i, g: green_level(i as int) as u8, b: blue_level(i as int) as u8 }
}

/// Maps an intensity to its color.
pub fn color_for_intensity(intensity: u8) -> (c: Color)
    ensures
        c == shade(intensity),
{
    let wide: u16 = intensity as u16;
    let g: u16 = wide * 6 / 10;
    let b: u16 = wide * 8 / 10;
    Color { r: intensity, g: g as u8, b: b as u8 }
}

/// A brighter intensity never gives a darker channel.
pub proof fn lemma_shade_monotonic(lo: u8, hi: u8)
    requires
        lo <= hi,
    ensures
        shade(lo).r <= shade(hi).r,
        shade(lo).g <= shade(hi).g,
        shade(lo).b <= shade(hi).b,
{
}

/// The ends of the scale: intensity 0 is black, and intensity 255 is the
/// brightest color of the palette.
pub proof fn lemma_shade_ends()
    ensures
        shade(0) == (Color { r: 0, g: 0, b: 0 }),
        shade(255) == (Color { r: 255, g: 153, b: 204 }),
{
}

} // verus!
