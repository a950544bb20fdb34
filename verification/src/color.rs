//! Colours and their packed 32-bit encodings.

use vstd::prelude::*;

verus! {

/// A colour as four 8-bit channels: alpha, red, green, blue.
#[derive(Clone, Copy, Debug, PartialEq, Eq, Structural)]
pub enum Color {
    ARGB(u8, u8, u8, u8),
}

impl Color {
    /// The alpha channel.
    pub open spec fn alpha(self) -> u8 {
        self->0
    }

    /// The red channel.
    pub open spec fn red(self) -> u8 {
        self->1
    }

    /// The green channel.
    pub open spec fn green(self) -> u8 {
        self->2
    }

    /// The blue channel.
    pub open spec fn blue(self) -> u8 {
        self->3
    }
}

/// The number whose four bytes are, from the most significant down,
/// alpha, red, green and blue.
pub open spec fn argb_value(alpha: u8, red: u8, green: u8, blue: u8) -> nat {
    (alpha as nat) * 0x100_0000 + (red as nat) * 0x1_0000 + (green as nat) * 0x100 + (blue as nat)
}

/// The number whose three low bytes are, from the least significant up,
/// red, green and blue, and whose top byte is zero.
pub open spec fn rgb_value(red: u8, green: u8, blue: u8) -> nat {
    (red as nat) + (green as nat) * 0x100 + (blue as nat) * 0x1_0000
}

/// Packs four channels into one word, alpha in the top byte and blue in
/// the bottom one.
pub fn argb(alpha: u8, red: u8, green: u8, blue: u8) -> (packed: u32)
    ensures
        packed as nat == argb_value(alpha, red, green, blue),
{
    let packed: u32 = ((alpha as u32) << 24) | ((red as u32) << 16) | ((green as u32) << 8) | (
    blue as u32);
    assert(packed == (alpha as u32) * 0x100_0000 + (red as u32) * 0x1_0000 + (green as u32) * 0x100
        + (blue as u32)) by (bit_vector)
        requires
            packed == ((alpha as u32) << 24) | ((red as u32) << 16) | ((green as u32) << 8) | (
            blue as u32),
    ;
    packed
}

/// Packs a colour as `argb` packs its channels.
pub fn color_to_argb(color: Color) -> (packed: u32)
    ensures
        packed as nat == argb_value(color.alpha(), color.red(), color.green(), color.blue()),
{
    match color {
        Color::ARGB(a, r, g, b) => argb(a, r, g, b),
    }
}

/// Packs the three colour channels of a colour as a GDI colour reference:
/// red in the bottom byte, then green, then blue. The alpha channel is
/// dropped.
pub fn color_to_rgb(color: Color) -> (packed: u32)
    ensures
        packed as nat == rgb_value(color.red(), color.green(), color.blue()),
{
    match color {
        Color::ARGB(_, r, g, b) => {
            let packed: u32 = (r as u32) | ((g as u32) << 8) | ((b as u32) << 16);
            assert(packed == (r as u32) + (g as u32) * 0x100 + (b as u32) * 0x1_0000)
                by (bit_vector)
                requires
                    packed == (r as u32) | ((g as u32) << 8) | ((b as u32) << 16),
            ;
            packed
        },
    }
}

} // verus!
