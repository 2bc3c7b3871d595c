//! What the game hands to whoever draws it: coloured squares in pixel
//! coordinates.

use vstd::prelude::*;
use crate::units::BLOCK_SIZE;

verus! {

/// The colours the game draws with.
#[derive(Clone, Copy, Debug, PartialEq, Eq, Structural)]
pub enum Color {
    /// Dark grey of a free tile.
    Background,
    Black,
    Green,
    White,
    Red,
}

impl Color {
    /// Red, green and blue parts of the colour.
    pub open spec fn spec_rgb(self) -> (u8, u8, u8) {
        match self {
            Color::Background => (21u8, 21u8, 21u8),
            Color::Black => (0u8, 0u8, 0u8),
            Color::Green => (0u8, 255u8, 0u8),
            Color::White => (255u8, 255u8, 255u8),
            Color::Red => (255u8, 0u8, 0u8),
        }
    }

    #[verifier::when_used_as_spec(spec_rgb)]
    pub fn rgb(self) -> (c: (u8, u8, u8))
        ensures
            c == self.spec_rgb(),
    {
        match self {
            Color::Background => (21, 21, 21),
            Color::Black => (0, 0, 0),
            Color::Green => (0, 255, 0),
            Color::White => (255, 255, 255),
            Color::Red => (255, 0, 0),
        }
    }
}

/// An axis-aligned filled rectangle: its top left corner, its width and
/// height, all in pixels, and its colour.
#[derive(Clone, Copy, Debug, PartialEq, Eq, Structural)]
pub struct Rect {
    pub x: i64,
    pub y: i64,
    pub width: i64,
    pub height: i64,
    pub color: Color,
}

impl Rect {
    /// Whether this is the square of one cell's size whose corner is at pixel
    /// `(x, y)`, filled with `color`.
    pub open spec fn is_block(self, x: int, y: int, color: Color) -> bool {
        &&& self.x == x
        &&& self.y == y
        &&& self.width == BLOCK_SIZE
        &&& self.height == BLOCK_SIZE
        &&& self.color == color
    }

    /// The square of one cell's size at pixel `(x, y)`.
    pub fn block(x: i64, y: i64, color: Color) -> (r: Rect)
        ensures
            r.is_block(x as int, y as int, color),
    {
        Rect { x, y, width: BLOCK_SIZE as i64, height: BLOCK_SIZE as i64, color }
    }
}

} // verus!
