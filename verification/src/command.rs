//! Drawing commands and the modes under which a surface carries them out.

use crate::color::Color;
use vstd::prelude::*;
use vstd::std_specs::cmp::PartialEqSpecImpl;

verus! {

/// How a surface sizes what it draws.
#[derive(Clone, Copy, Debug, PartialEq, Eq, Structural)]
pub enum LayoutMode {
    NoCare,
    AdjustSize,
}

/// How a surface aligns what it draws within the given rectangle.
#[derive(Clone, Copy, Debug, PartialEq, Eq, Structural)]
pub enum AlignMode {
    CenterAligned,
    RightAligned,
    LeftAligned,
    TopAligned,
    BottomAligned,
    Flex,
}

/// One drawing instruction. The order of commands in a buffer is the order
/// in which they are painted.
#[derive(Debug)]
pub enum Command {
    /// Fill the whole surface with a colour.
    Clear(Color),
    /// Fill the rectangle at (x, y) of the given width and height. The fifth
    /// field is the corner radius, as the bit pattern of a double-precision
    /// number, or `None` for square corners.
    FillRectangle(u32, u32, u32, u32, Option<u64>, Color),
    /// Write a text in a colour into the rectangle at (x, y) of the given
    /// width and height.
    WriteString(u32, u32, u32, u32, Color, String),
}

/// The mathematical value of a `Command`: the same variants, with the text as
/// a sequence of characters.
pub enum CommandView {
    Clear(Color),
    FillRectangle(u32, u32, u32, u32, Option<u64>, Color),
    WriteString(u32, u32, u32, u32, Color, Seq<char>),
}

impl View for Command {
    type V = CommandView;

    open spec fn view(&self) -> CommandView {
        match *self {
            Command::Clear(color) => CommandView::Clear(color),
            Command::FillRectangle(x, y, width, height, radius, color) => CommandView::FillRectangle(
                x,
                y,
                width,
                height,
                radius,
                color,
            ),
            Command::WriteString(x, y, width, height, color, text) => CommandView::WriteString(
                x,
                y,
                width,
                height,
                color,
                text@,
            ),
        }
    }
}

impl Clone for Command {
    /// A copy with the same variant and the same fields.
    fn clone(&self) -> (copy: Self)
        ensures
            copy == *self,
    {
        match self {
            Command::Clear(color) => Command::Clear(*color),
            Command::FillRectangle(x, y, width, height, radius, color) => Command::FillRectangle(
                *x,
                *y,
                *width,
                *height,
                *radius,
                *color,
            ),
            Command::WriteString(x, y, width, height, color, text) => Command::WriteString(
                *x,
                *y,
                *width,
                *height,
                *color,
                text.clone(),
            ),
        }
    }
}

impl PartialEq for Command {
    /// Two commands are equal when their values are.
    fn eq(&self, other: &Self) -> (equal: bool) {
        match (self, other) {
            (Command::Clear(c1), Command::Clear(c2)) => *c1 == *c2,
            (
                Command::FillRectangle(x1, y1, w1, h1, r1, c1),
                Command::FillRectangle(x2, y2, w2, h2, r2, c2),
            ) => {
                let same_radius = match (r1, r2) {
                    (Some(b1), Some(b2)) => *b1 == *b2,
                    (None, None) => true,
                    _ => false,
                };
                *x1 == *x2 && *y1 == *y2 && *w1 == *w2 && *h1 == *h2 && same_radius && *c1 == *c2
            },
            (
                Command::WriteString(x1, y1, w1, h1, c1, t1),
                Command::WriteString(x2, y2, w2, h2, c2, t2),
            ) => *x1 == *x2 && *y1 == *y2 && *w1 == *w2 && *h1 == *h2 && *c1 == *c2 && *t1 == *t2,
            _ => false,
        }
    }
}

impl PartialEqSpecImpl for Command {
    open spec fn obeys_eq_spec() -> bool {
        true
    }

    open spec fn eq_spec(&self, other: &Self) -> bool {
        self@ == other@
    }
}

} // verus!
