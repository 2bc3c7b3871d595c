//! One cell of the level.

use vstd::prelude::*;
use crate::render::{Color, Rect};
use crate::units::{pixel_of, BLOCK_SIZE};

verus! {

/// What a cell holds. A cell is exactly one of these at any time.
#[derive(Clone, Copy, Debug, PartialEq, Eq, Structural)]
pub enum TileType {
    /// A wall: the snake dies on it.
    Blocked,
    /// Free floor.
    NonBlocked,
    /// The goal the snake is after.
    Active,
    /// A goal that has been eaten.
    NonActive,
}

impl TileType {
    /// The colour a tile of this type is drawn in: walls black, the goal
    /// green, everything else in the background colour.
    pub open spec fn color(self) -> Color {
        match self {
            TileType::Active => Color::Green,
            TileType::Blocked => Color::Black,
            _ => Color::Background,
        }
    }
}

/// A tile of the level. Which cell it belongs to is told by its place in the
/// grid, not by the tile.
#[derive(Clone, Copy, Debug, PartialEq, Eq, Structural)]
pub struct Tile {
    pub tile_type: TileType,
}

impl Tile {
    /// A tile of the given type.
    pub fn new(tile: TileType) -> (t: Tile)
        ensures
            t.tile_type == tile,
    {
        Tile { tile_type: tile }
    }

    /// The rectangle to draw for this tile when it sits at grid coordinate
    /// `(x, y)`.
    pub fn draw_tile(&self, x: i32, y: i32) -> (r: Rect)
        ensures
            r.is_block(pixel_of(x as int), pixel_of(y as int), self.tile_type.color()),
    {
        let pos_x: i64 = (x as i64) * (BLOCK_SIZE as i64);
        let pos_y: i64 = (y as i64) * (BLOCK_SIZE as i64);
        let col: Color = match self.tile_type {
            TileType::Active => Color::Green,
            TileType::Blocked => Color::Black,
            _ => Color::Background,
        };
        Rect::block(pos_x, pos_y, col)
    }
}

} // verus!
