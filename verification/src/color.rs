//! RGBA colors and their packed single-integer form.

use vstd::prelude::*;

verus! {

/// An 8-bit-per-channel RGBA color.
#[derive(Clone, Copy, Debug, PartialEq, Eq, Structural)]
pub struct Color {
    pub r: u8,
    pub g: u8,
    pub b: u8,
    pub a: u8,
}

/// The ARGB packing of a color as a signed 32-bit value: alpha in the top
/// byte, then red, green, blue, interpreted in two's complement.
pub open spec fn spec_wayland_color(c: Color) -> int {
    c.a * 0x1000000 + c.r * 0x10000 + c.g * 0x100 + c.b - (if c.a >= 128 {
        0x100000000int
    } else {
        0int
    })
}

impl Color {
    pub fn new(r: u8, g: u8, b: u8, a: u8) -> (c: Self)
        ensures
            c == (Color { r, g, b, a }),
    {
        Self { r, g, b, a }
    }

    pub fn new_mono(mono: u8, a: u8) -> (c: Self)
        ensures
            c == (Color { r: mono, g: mono, b: mono, a }),
    {
        Self { r: mono, g: mono, b: mono, a }
    }

    pub fn from_tuple(tuple: (u8, u8, u8), a: u8) -> (c: Self)
        ensures
            c == (Color { r: tuple.0, g: tuple.1, b: tuple.2, a }),
    {
        Self::new(tuple.0, tuple.1, tuple.2, a)
    }

    /// Packs the color into the 0xAARRGGBB form the window system takes,
    /// as a signed 32-bit value.
    pub fn get_wayland_color(self) -> (packed: i32)
        ensures
            packed == spec_wayland_color(self),
    {
        let wide: i64 = (self.a as i64) * 0x1000000 + (self.r as i64) * 0x10000 + (self.g as i64)
            * 0x100 + (self.b as i64);
        if wide >= 0x80000000 {
            (wide - 0x100000000) as i32
        } else {
            wide as i32
        }
    }
}

} // verus!
