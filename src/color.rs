use vstd::prelude::*;

verus! {

/// A displayable RGB color with one byte per channel.
#[derive(Clone, Copy, Debug, PartialEq, Eq, Structural)]
pub struct Color {
    pub r: u8,
    pub g: u8,
    pub b: u8,
}

/// The `0x00RRGGBB` word that a display buffer holds for `c`.
pub open spec fn packed(c: Color) -> int {
    c.r as int * 65536 + c.g as int * 256 + c.b as int
}

impl Color {
    pub open spec fn black_spec() -> Color {
        Color { r: 0, g: 0, b: 0 }
    }

    pub fn new(r: u8, g: u8, b: u8) -> (c: Color)
        ensures
            c.r == r,
            c.g == g,
            c.b == b,
    {
        Color { r, g, b }
    }

    /// The color that contributes nothing.
    pub fn black() -> (c: Color)
        ensures
            c == Color::black_spec(),
    {
        Color { r: 0, g: 0, b: 0 }
    }

    /// Packs the channels as `0x00RRGGBB`.
    pub fn to_u32(&self) -> (v: u32)
        ensures
            v == packed(*self),
    {
        (self.r as u32) * 65536 + (self.g as u32) * 256 + (self.b as u32)
    }
}

} // verus!
