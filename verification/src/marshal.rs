//! Values in the form in which the native drawing interfaces take them.

use crate::color::Color;
use crate::command::AlignMode;
use vstd::prelude::*;

verus! {

/// The text format flag of GDI for text at the top of its rectangle.
pub const FORMAT_TOP: u32 = 0x0;

/// The text format flag of GDI for left-aligned text.
pub const FORMAT_LEFT: u32 = 0x0;

/// The text format flag of GDI for horizontally centred text.
pub const FORMAT_CENTER: u32 = 0x1;

/// The text format flag of GDI for right-aligned text.
pub const FORMAT_RIGHT: u32 = 0x2;

/// The text format flag of GDI for text at the bottom of its rectangle.
pub const FORMAT_BOTTOM: u32 = 0x8;

/// The GDI text format that stands for an alignment. Flexible alignment
/// draws as left alignment does.
pub open spec fn format_of(align: AlignMode) -> u32 {
    match align {
        AlignMode::CenterAligned => FORMAT_CENTER,
        AlignMode::RightAligned => FORMAT_RIGHT,
        AlignMode::LeftAligned => FORMAT_LEFT,
        AlignMode::TopAligned => FORMAT_TOP,
        AlignMode::BottomAligned => FORMAT_BOTTOM,
        AlignMode::Flex => FORMAT_LEFT,
    }
}

/// The GDI text format with which a text is drawn under an alignment.
pub fn text_format(align: AlignMode) -> (format: u32)
    ensures
        format == format_of(align),
{
    match align {
        AlignMode::CenterAligned => FORMAT_CENTER,
        AlignMode::RightAligned => FORMAT_RIGHT,
        AlignMode::LeftAligned => FORMAT_LEFT,
        AlignMode::TopAligned => FORMAT_TOP,
        AlignMode::BottomAligned => FORMAT_BOTTOM,
        AlignMode::Flex => FORMAT_LEFT,
    }
}

/// An 8-bit channel on the 16-bit scale of the X rendering interfaces: the
/// channel times 255, which always fits.
pub fn channel_to_u16(channel: u8) -> (wide: u16)
    ensures
        wide == channel * 255,
{
    (channel as u16) * 255
}

/// The red, green and blue channels of a colour on the 16-bit scale of the
/// X colour interfaces, each from its own channel.
pub fn color_to_rgb16(color: Color) -> (wide: (u16, u16, u16))
    ensures
        wide.0 == color.red() * 255,
        wide.1 == color.green() * 255,
        wide.2 == color.blue() * 255,
{
    match color {
        Color::ARGB(_, r, g, b) => (channel_to_u16(r), channel_to_u16(g), channel_to_u16(b)),
    }
}

/// The edges of a rectangle.
#[derive(Clone, Copy, Debug, PartialEq, Eq, Structural)]
pub struct Corners {
    pub left: u32,
    pub top: u32,
    pub right: u32,
    pub bottom: u32,
}

/// The edges of the rectangle at (x, y) of the given width and height, where
/// the right and the bottom edge both fit in 32 bits; else nothing.
pub open spec fn corners_of(x: u32, y: u32, width: u32, height: u32) -> Option<Corners> {
    if x + width <= u32::MAX && y + height <= u32::MAX {
        Some(Corners { left: x, top: y, right: (x + width) as u32, bottom: (y + height) as u32 })
    } else {
        None
    }
}

/// The edges of the rectangle at (x, y) of the given width and height, or
/// `None` where the right or the bottom edge would lie beyond what 32 bits
/// hold.
pub fn rectangle_corners(x: u32, y: u32, width: u32, height: u32) -> (corners: Option<Corners>)
    ensures
        corners == corners_of(x, y, width, height),
{
    if width <= u32::MAX - x && height <= u32::MAX - y {
        Some(Corners { left: x, top: y, right: x + width, bottom: y + height })
    } else {
        None
    }
}

} // verus!
