//! The snake's head: the one cell the player steers.

use vstd::prelude::*;
use crate::direction::Direction;
use crate::keys::KeyMap;
use crate::render::{Color, Rect};
use crate::units::{fits_i32, BLOCK_SIZE};

verus! {

/// The head as a mathematical value, with unbounded pixel coordinates.
pub struct HeadView {
    pub x: int,
    pub y: int,
    pub is_active: bool,
    pub dir: Direction,
}

/// The heading that results from heading `dir` with the keys in `keys` held
/// down. The keys are looked at in the order up, down, left, right; the first
/// one that is held and does not ask for a turn on the spot decides.
pub open spec fn steer(dir: Direction, keys: KeyMap) -> Direction {
    if keys.w && dir != Direction::Down {
        Direction::Up
    } else if keys.s && dir != Direction::Up {
        Direction::Down
    } else if keys.a && dir != Direction::Right {
        Direction::Left
    } else if keys.d && dir != Direction::Left {
        Direction::Right
    } else {
        dir
    }
}

impl HeadView {
    /// The head after it has looked at the keys.
    pub open spec fn inputs(self, keys: KeyMap) -> HeadView {
        if self.is_active {
            HeadView { dir: steer(self.dir, keys), ..self }
        } else {
            self
        }
    }

    /// The head after it has moved one cell along its heading.
    pub open spec fn update(self) -> HeadView {
        if self.is_active {
            HeadView {
                x: self.x + self.dir.dx() * BLOCK_SIZE,
                y: self.y + self.dir.dy() * BLOCK_SIZE,
                ..self
            }
        } else {
            self
        }
    }

    /// The head put back at pixel `(x, y)`, heading right.
    pub open spec fn reset(self, x: int, y: int) -> HeadView {
        HeadView { x, y, dir: Direction::Right, ..self }
    }

    /// Whether the head can move one cell in any direction without leaving
    /// the range of `i32`.
    pub open spec fn can_step(self) -> bool {
        &&& fits_i32(self.x - BLOCK_SIZE)
        &&& fits_i32(self.x + BLOCK_SIZE)
        &&& fits_i32(self.y - BLOCK_SIZE)
        &&& fits_i32(self.y + BLOCK_SIZE)
    }
}

/// A turn on the spot is never taken: whatever keys are held, the new heading
/// is not the opposite of the old one.
pub proof fn lemma_reversal_rejected(h: HeadView, keys: KeyMap)
    ensures
        h.inputs(keys).dir != h.dir.opposite(),
        steer(h.dir, keys) != h.dir.opposite(),
{
}

/// Whether the key that asks for heading `d` is held down.
pub open spec fn key_for(keys: KeyMap, d: Direction) -> bool {
    match d {
        Direction::Up => keys.w,
        Direction::Down => keys.s,
        Direction::Left => keys.a,
        Direction::Right => keys.d,
    }
}

/// A key that is held and does not ask for a turn on the spot is obeyed if no
/// key before it in the order is: a single such key always is.
pub proof fn lemma_single_key_obeyed(h: HeadView, keys: KeyMap, d: Direction)
    requires
        h.is_active,
        key_for(keys, d),
        d != h.dir.opposite(),
        forall|e: Direction| e != d ==> !key_for(keys, e),
    ensures
        h.inputs(keys).dir == d,
{
    assert(d == Direction::Up || !key_for(keys, Direction::Up));
    assert(d == Direction::Down || !key_for(keys, Direction::Down));
    assert(d == Direction::Left || !key_for(keys, Direction::Left));
    assert(d == Direction::Right || !key_for(keys, Direction::Right));
}

/// With no key held, or only the key that asks for a turn on the spot, the
/// heading stays as it is.
pub proof fn lemma_reversal_alone_keeps_heading(h: HeadView, keys: KeyMap)
    requires
        forall|d: Direction| d != h.dir.opposite() ==> !key_for(keys, d),
    ensures
        h.inputs(keys) == h,
{
    assert(h.dir == Direction::Down || !key_for(keys, Direction::Up));
    assert(h.dir == Direction::Up || !key_for(keys, Direction::Down));
    assert(h.dir == Direction::Right || !key_for(keys, Direction::Left));
    assert(h.dir == Direction::Left || !key_for(keys, Direction::Right));
}

/// The head of the snake.
#[derive(Clone, Copy, Debug, PartialEq, Eq, Structural)]
pub struct Head {
    /// Pixel position of the top left corner.
    pub x: i32,
    pub y: i32,
    /// An inactive head neither steers nor moves, and is not drawn.
    pub is_active: bool,
    pub dir: Direction,
}

impl View for Head {
    type V = HeadView;

    open spec fn view(&self) -> HeadView {
        HeadView { x: self.x as int, y: self.y as int, is_active: self.is_active, dir: self.dir }
    }
}

impl Head {
    /// An active head at pixel `(x, y)`.
    pub fn new(x: i32, y: i32, dir: Direction) -> (h: Head)
        ensures
            h@ == (HeadView { x: x as int, y: y as int, is_active: true, dir }),
    {
        Head { x, y, is_active: true, dir }
    }

    /// Puts the head back at pixel `(x, y)`, heading right.
    pub fn reset(&mut self, x: i32, y: i32)
        ensures
            final(self)@ == old(self)@.reset(x as int, y as int),
    {
        self.set_pos(x, y);
        self.set_direction(Direction::Right);
    }

    /// Puts the head at pixel `(x, y)`.
    pub fn set_pos(&mut self, x: i32, y: i32)
        ensures
            final(self)@ == (HeadView { x: x as int, y: y as int, ..old(self)@ }),
    {
        self.x = x;
        self.y = y;
    }

    /// Gives the head a heading, whatever its heading was.
    pub fn set_direction(&mut self, new_dir: Direction)
        ensures
            final(self)@ == (HeadView { dir: new_dir, ..old(self)@ }),
    {
        self.dir = new_dir;
    }

    /// Pixel position of the left edge.
    pub fn get_x(&self) -> (x: i32)
        ensures
            x == self@.x,
    {
        self.x
    }

    /// Pixel position of the top edge.
    pub fn get_y(&self) -> (y: i32)
        ensures
            y == self@.y,
    {
        self.y
    }

    /// The square to draw for the head, if it is to be drawn at all.
    pub fn draw(&self) -> (r: Option<Rect>)
        ensures
            r is Some <==> self@.is_active,
            r matches Some(rect) ==> rect.is_block(self@.x, self@.y, Color::White),
    {
        if !self.is_active {
            return None;
        }
        Some(Rect::block(self.x as i64, self.y as i64, Color::White))
    }

    /// Takes a new heading from the keys that are held down. A key that asks
    /// for the opposite of the current heading is passed over.
    pub fn inputs(&mut self, input_map: &KeyMap)
        ensures
            final(self)@ == old(self)@.inputs(*input_map),
            final(self)@.dir != old(self)@.dir.opposite(),
    {
        if !self.is_active {
            return;
        }
        if input_map.w && self.dir != Direction::Down {
            self.dir = Direction::Up;
            return;
        }
        if input_map.s && self.dir != Direction::Up {
            self.dir = Direction::Down;
            return;
        }
        if input_map.a && self.dir != Direction::Right {
            self.dir = Direction::Left;
            return;
        }
        if input_map.d && self.dir != Direction::Left {
            self.dir = Direction::Right;
            return;
        }
    }

    /// Moves the head one cell along its heading.
    pub fn update(&mut self)
        requires
            fits_i32(old(self)@.update().x),
            fits_i32(old(self)@.update().y),
        ensures
            final(self)@ == old(self)@.update(),
    {
        if !self.is_active {
            return;
        }
        let new_dir: (i32, i32) = self.dir.unit();
        self.x = self.x + new_dir.0 * BLOCK_SIZE;
        self.y = self.y + new_dir.1 * BLOCK_SIZE;
    }
}

} // verus!
