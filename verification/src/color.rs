//! Colours, and the 64-entry master palette of the NES picture processor.
use vstd::prelude::*;

verus! {

/// A colour with 8-bit red, green, blue and alpha channels.
#[derive(Clone, Copy, PartialEq, Eq, Structural, Debug)]
pub struct Color {
    pub r: u8,
    pub g: u8,
    pub b: u8,
    pub a: u8,
}

impl Color {
    /// An opaque colour from its three channels.
    pub fn from_rgb(r: u8, g: u8, b: u8) -> (c: Color)
        ensures
            c == (Color { r, g, b, a: 255 }),
    {
        Color { r, g, b, a: 255 }
    }

    pub open spec fn spec_white() -> Color {
        Color { r: 255, g: 255, b: 255, a: 255 }
    }

    pub open spec fn spec_transparent() -> Color {
        Color { r: 0, g: 0, b: 0, a: 0 }
    }

    /// Opaque white.
    pub fn white() -> (c: Color)
        ensures
            c == Color::spec_white(),
    {
        Color { r: 255, g: 255, b: 255, a: 255 }
    }

    /// Fully transparent black.
    pub fn transparent() -> (c: Color)
        ensures
            c == Color::spec_transparent(),
    {
        Color { r: 0, g: 0, b: 0, a: 0 }
    }
}

/// The red, green and blue channels of entry `i` (taken modulo 64) of the
/// NES master palette.
pub open spec fn nes_rgb(i: u8) -> (u8, u8, u8) {
    match i % 64 {
        0x00 => (0x62, 0x62, 0x62),
        0x01 => (0x00, 0x2c, 0x7c),
        0x02 => (0x11, 0x15, 0x9c),
        0x03 => (0x36, 0x03, 0x9c),
        0x04 => (0x55, 0x00, 0x7c),
        0x05 => (0x67, 0x00, 0x44),
        0x06 => (0x67, 0x07, 0x03),
        0x07 => (0x55, 0x1c, 0x00),
        0x08 => (0x36, 0x32, 0x00),
        0x09 => (0x11, 0x44, 0x00),
        0x0A => (0x00, 0x4e, 0x00),
        0x0B => (0x00, 0x4c, 0x03),
        0x0C => (0x00, 0x40, 0x44),
        0x0D => (0x00, 0x00, 0x00),
        0x0E => (0x00, 0x00, 0x00),
        0x0F => (0x00, 0x00, 0x00),
        0x10 => (0xab, 0xab, 0xab),
        0x11 => (0x12, 0x60, 0xce),
        0x12 => (0x3d, 0x42, 0xfa),
        0x13 => (0x6e, 0x29, 0xfa),
        0x14 => (0x99, 0x1c, 0xce),
        0x15 => (0xb1, 0x1e, 0x81),
        0x16 => (0xb1, 0x2f, 0x29),
        0x17 => (0x99, 0x4a, 0x00),
        0x18 => (0x6e, 0x69, 0x00),
        0x19 => (0x3d, 0x82, 0x00),
        0x1A => (0x12, 0x8f, 0x00),
        0x1B => (0x00, 0x8d, 0x29),
        0x1C => (0x00, 0x7c, 0x81),
        0x1D => (0x00, 0x00, 0x00),
        0x1E => (0x00, 0x00, 0x00),
        0x1F => (0x00, 0x00, 0x00),
        0x20 => (0xff, 0xff, 0xff),
        0x21 => (0x60, 0xb2, 0xff),
        0x22 => (0x8d, 0x92, 0xff),
        0x23 => (0xc0, 0x78, 0xff),
        0x24 => (0xec, 0x6a, 0xff),
        0x25 => (0xff, 0x6d, 0xd4),
        0x26 => (0xff, 0x7f, 0x79),
        0x27 => (0xec, 0x9b, 0x2a),
        0x28 => (0xc0, 0xba, 0x00),
        0x29 => (0x8d, 0xd4, 0x00),
        0x2A => (0x60, 0xe2, 0x2a),
        0x2B => (0x47, 0xe0, 0x79),
        0x2C => (0x47, 0xce, 0xd4),
        0x2D => (0x4e, 0x4e, 0x4e),
        0x2E => (0x00, 0x00, 0x00),
        0x2F => (0x00, 0x00, 0x00),
        0x30 => (0xff, 0xff, 0xff),
        0x31 => (0xbf, 0xe0, 0xff),
        0x32 => (0xd1, 0xd3, 0xff),
        0x33 => (0xe6, 0xc9, 0xff),
        0x34 => (0xf7, 0xc3, 0xff),
        0x35 => (0xff, 0xc4, 0xee),
        0x36 => (0xff, 0xcb, 0xc9),
        0x37 => (0xf7, 0xd7, 0xa9),
        0x38 => (0xe6, 0xe3, 0x97),
        0x39 => (0xd1, 0xee, 0x97),
        0x3A => (0xbf, 0xf3, 0xa9),
        0x3B => (0xb5, 0xf2, 0xc9),
        0x3C => (0xb5, 0xeb, 0xee),
        0x3D => (0xb8, 0xb8, 0xb8),
        0x3E => (0x00, 0x00, 0x00),
        0x3F => (0x00, 0x00, 0x00),
        _ => (0xFF, 0x00, 0x00),
    }
}

/// The opaque colour that the NES shows for palette byte `n`; only the low
/// six bits of `n` select the colour.
pub open spec fn spec_nes_color(n: u8) -> Color {
    let (r, g, b) = nes_rgb(n);
    Color { r, g, b, a: 255 }
}

/// Looks up palette byte `n` in the NES master palette.
pub fn nes_color(n: u8) -> (c: Color)
    ensures
        c == spec_nes_color(n),
{
    match n % 0x40 {
        0x00 => Color::from_rgb(0x62, 0x62, 0x62),
        0x01 => Color::from_rgb(0x00, 0x2c, 0x7c),
        0x02 => Color::from_rgb(0x11, 0x15, 0x9c),
        0x03 => Color::from_rgb(0x36, 0x03, 0x9c),
        0x04 => Color::from_rgb(0x55, 0x00, 0x7c),
        0x05 => Color::from_rgb(0x67, 0x00, 0x44),
        0x06 => Color::from_rgb(0x67, 0x07, 0x03),
        0x07 => Color::from_rgb(0x55, 0x1c, 0x00),
        0x08 => Color::from_rgb(0x36, 0x32, 0x00),
        0x09 => Color::from_rgb(0x11, 0x44, 0x00),
        0x0A => Color::from_rgb(0x00, 0x4e, 0x00),
        0x0B => Color::from_rgb(0x00, 0x4c, 0x03),
        0x0C => Color::from_rgb(0x00, 0x40, 0x44),
        0x0D => Color::from_rgb(0x00, 0x00, 0x00),
        0x0E => Color::from_rgb(0x00, 0x00, 0x00),
        0x0F => Color::from_rgb(0x00, 0x00, 0x00),
        0x10 => Color::from_rgb(0xab, 0xab, 0xab),
        0x11 => Color::from_rgb(0x12, 0x60, 0xce),
        0x12 => Color::from_rgb(0x3d, 0x42, 0xfa),
        0x13 => Color::from_rgb(0x6e, 0x29, 0xfa),
        0x14 => Color::from_rgb(0x99, 0x1c, 0xce),
        0x15 => Color::from_rgb(0xb1, 0x1e, 0x81),
        0x16 => Color::from_rgb(0xb1, 0x2f, 0x29),
        0x17 => Color::from_rgb(0x99, 0x4a, 0x00),
        0x18 => Color::from_rgb(0x6e, 0x69, 0x00),
        0x19 => Color::from_rgb(0x3d, 0x82, 0x00),
        0x1A => Color::from_rgb(0x12, 0x8f, 0x00),
        0x1B => Color::from_rgb(0x00, 0x8d, 0x29),
        0x1C => Color::from_rgb(0x00, 0x7c, 0x81),
        0x1D => Color::from_rgb(0x00, 0x00, 0x00),
        0x1E => Color::from_rgb(0x00, 0x00, 0x00),
        0x1F => Color::from_rgb(0x00, 0x00, 0x00),
        0x20 => Color::from_rgb(0xff, 0xff, 0xff),
        0x21 => Color::from_rgb(0x60, 0xb2, 0xff),
        0x22 => Color::from_rgb(0x8d, 0x92, 0xff),
        0x23 => Color::from_rgb(0xc0, 0x78, 0xff),
        0x24 => Color::from_rgb(0xec, 0x6a, 0xff),
        0x25 => Color::from_rgb(0xff, 0x6d, 0xd4),
        0x26 => Color::from_rgb(0xff, 0x7f, 0x79),
        0x27 => Color::from_rgb(0xec, 0x9b, 0x2a),
        0x28 => Color::from_rgb(0xc0, 0xba, 0x00),
        0x29 => Color::from_rgb(0x8d, 0xd4, 0x00),
        0x2A => Color::from_rgb(0x60, 0xe2, 0x2a),
        0x2B => Color::from_rgb(0x47, 0xe0, 0x79),
        0x2C => Color::from_rgb(0x47, 0xce, 0xd4),
        0x2D => Color::from_rgb(0x4e, 0x4e, 0x4e),
        0x2E => Color::from_rgb(0x00, 0x00, 0x00),
        0x2F => Color::from_rgb(0x00, 0x00, 0x00),
        0x30 => Color::from_rgb(0xff, 0xff, 0xff),
        0x31 => Color::from_rgb(0xbf, 0xe0, 0xff),
        0x32 => Color::from_rgb(0xd1, 0xd3, 0xff),
        0x33 => Color::from_rgb(0xe6, 0xc9, 0xff),
        0x34 => Color::from_rgb(0xf7, 0xc3, 0xff),
        0x35 => Color::from_rgb(0xff, 0xc4, 0xee),
        0x36 => Color::from_rgb(0xff, 0xcb, 0xc9),
        0x37 => Color::from_rgb(0xf7, 0xd7, 0xa9),
        0x38 => Color::from_rgb(0xe6, 0xe3, 0x97),
        0x39 => Color::from_rgb(0xd1, 0xee, 0x97),
        0x3A => Color::from_rgb(0xbf, 0xf3, 0xa9),
        0x3B => Color::from_rgb(0xb5, 0xf2, 0xc9),
        0x3C => Color::from_rgb(0xb5, 0xeb, 0xee),
        0x3D => Color::from_rgb(0xb8, 0xb8, 0xb8),
        0x3E => Color::from_rgb(0x00, 0x00, 0x00),
        0x3F => Color::from_rgb(0x00, 0x00, 0x00),
        _ => Color::from_rgb(0xFF, 0x00, 0x00),
    }
}

/// Only the low six bits of a palette byte matter: bytes that agree modulo 64
/// show the same colour, and every colour of the master palette is opaque.
pub proof fn lemma_nes_color_periodic(n: u8, m: u8)
    requires
        n % 64 == m % 64,
    ensures
        spec_nes_color(n) == spec_nes_color(m),
        spec_nes_color(n).a == 255,
{
}

} // verus!
