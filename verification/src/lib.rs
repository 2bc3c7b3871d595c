//! Rules of a grid-based snake game: the level grid, the snake's head and
//! tail segments, goal placement, and the per-frame update that ties them
//! together. Windowing, drawing and the clock are left to the caller, which
//! feeds events and elapsed time in and takes rectangles to draw back.

pub mod units;
pub mod direction;
pub mod render;
pub mod tile;
pub mod grid;
pub mod keys;
pub mod head;
pub mod tail;
pub mod snake;
pub mod goal;
pub mod game;
pub mod level;
