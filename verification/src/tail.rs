//! One segment of the snake's tail.

use vstd::prelude::*;
use crate::render::{Color, Rect};

verus! {

/// A segment as a mathematical value, with unbounded pixel coordinates.
pub struct TailView {
    pub x: int,
    pub y: int,
    pub is_active: bool,
}

impl TailView {
    /// The segment after it has followed to pixel `(px, py)`.
    pub open spec fn update(self, px: int, py: int) -> TailView {
        if self.is_active {
            TailView { x: px, y: py, ..self }
        } else {
            self
        }
    }
}

/// The segments of a tail as mathematical values, in their order.
pub open spec fn tail_view(tail: Seq<Tail>) -> Seq<TailView> {
    tail.map_values(|t: Tail| t@)
}

/// A segment has no heading of its own: it goes where it is told, which is
/// where the part of the snake ahead of it has just been.
#[derive(Clone, Copy, Debug, PartialEq, Eq, Structural)]
pub struct Tail {
    /// Pixel position of the top left corner.
    pub x: i32,
    pub y: i32,
    /// An inactive segment stays where it is, and is not drawn.
    pub is_active: bool,
}

impl View for Tail {
    type V = TailView;

    open spec fn view(&self) -> TailView {
        TailView { x: self.x as int, y: self.y as int, is_active: self.is_active }
    }
}

impl Tail {
    /// An active segment at pixel `(x, y)`.
    pub fn new(x: i32, y: i32) -> (t: Tail)
        ensures
            t@ == (TailView { x: x as int, y: y as int, is_active: true }),
    {
        Tail { x, y, is_active: true }
    }

    /// Pixel position of the left edge.
    pub fn get_x(&self) -> (x: i32)
        ensures
            x == self@.x,
    {
        self.x
    }

    /// Pixel position of the top edge.
    pub fn get_y(&self) -> (y: i32)
        ensures
            y == self@.y,
    {
        self.y
    }

    /// The square to draw for the segment, if it is to be drawn at all.
    pub fn draw(&self) -> (r: Option<Rect>)
        ensures
            r is Some <==> self@.is_active,
            r matches Some(rect) ==> rect.is_block(self@.x, self@.y, Color::Red),
    {
        if !self.is_active {
            return None;
        }
        Some(Rect::block(self.x as i64, self.y as i64, Color::Red))
    }

    /// Moves the segment to pixel `(px, py)`, the place that the part of the
    /// snake ahead of it has just left.
    pub fn update(&mut self, px: i32, py: i32)
        ensures
            final(self)@ == old(self)@.update(px as int, py as int),
    {
        if !self.is_active {
            return;
        }
        self.x = px;
        self.y = py;
    }
}

} // verus!
