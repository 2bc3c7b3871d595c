//! The level: a fixed rectangle of tiles, stored row by row.

use vstd::prelude::*;
use crate::render::Rect;
use crate::tile::{Tile, TileType};
use crate::units::{cell_of, pixel_of, pixel_to_cell, BLOCK_SIZE};

verus! {

/// The grid as a mathematical value: its size and its tiles in row-major
/// order.
pub struct GridView {
    pub width: int,
    pub height: int,
    pub tiles: Seq<Tile>,
}

impl GridView {
    /// There is exactly one tile for each coordinate of the rectangle.
    pub open spec fn wf(self) -> bool {
        &&& 0 <= self.width
        &&& 0 <= self.height
        &&& self.tiles.len() == self.width * self.height
    }

    /// Whether `(x, y)` names a cell of the grid.
    pub open spec fn in_bounds(self, x: int, y: int) -> bool {
        0 <= x < self.width && 0 <= y < self.height
    }

    /// Where the tile of cell `(x, y)` is stored.
    pub open spec fn index(self, x: int, y: int) -> int {
        x + self.width * y
    }

    /// The type of the tile at `(x, y)`, if there is such a cell.
    pub open spec fn tile_type(self, x: int, y: int) -> Option<TileType> {
        if self.in_bounds(x, y) {
            Some(self.tiles[self.index(x, y)].tile_type)
        } else {
            None
        }
    }

    /// Whether `(x, y)` is a cell of the grid that holds a wall.
    pub open spec fn is_blocked(self, x: int, y: int) -> bool {
        self.tile_type(x, y) == Some(TileType::Blocked)
    }

    /// Whether `(x, y)` is a cell of the grid that holds the goal.
    pub open spec fn is_active(self, x: int, y: int) -> bool {
        self.tile_type(x, y) == Some(TileType::Active)
    }

    /// The grid with the tile at `(x, y)` set to `t`; the same grid if there
    /// is no such cell.
    pub open spec fn with_tile(self, x: int, y: int, t: TileType) -> GridView {
        if self.in_bounds(x, y) {
            GridView {
                tiles: self.tiles.update(self.index(x, y), Tile { tile_type: t }),
                ..self
            }
        } else {
            self
        }
    }

    /// The cell whose tile is stored in slot `i`, as `(x, y)`.
    pub open spec fn cell_at(self, i: int) -> (int, int) {
        (i % self.width, i / self.width)
    }

    /// The grid with the goal at `(x, y)`.
    pub open spec fn activate(self, x: int, y: int) -> GridView {
        self.with_tile(x, y, TileType::Active)
    }

    /// The grid with the tile at `(x, y)` marked as an eaten goal.
    pub open spec fn deactivate(self, x: int, y: int) -> GridView {
        self.with_tile(x, y, TileType::NonActive)
    }
}

/// Row-major storage gives every cell of the grid a slot of its own: the
/// index of a cell lies within the tiles, and column and row can be read
/// back from it.
pub proof fn lemma_index_row_major(g: GridView, x: int, y: int)
    requires
        g.wf(),
        g.in_bounds(x, y),
    ensures
        g.index(x, y) == x + g.width * y,
        0 <= g.index(x, y) < g.tiles.len(),
        g.index(x, y) % g.width == x,
        g.index(x, y) / g.width == y,
{
    let w = g.width;
    let h = g.height;
    assert(0 <= w * y && w * y + w <= w * h) by (nonlinear_arith)
        requires
            0 <= y < h,
            0 < w,
    ;
    vstd::arithmetic::div_mod::lemma_fundamental_div_mod_converse(x + w * y, w, y, x);
}

/// Every slot of the tiles belongs to a cell of the grid, and is the slot of
/// that cell.
pub proof fn lemma_cell_at(g: GridView, i: int)
    requires
        g.wf(),
        0 <= i < g.tiles.len(),
    ensures
        g.in_bounds(g.cell_at(i).0, g.cell_at(i).1),
        g.index(g.cell_at(i).0, g.cell_at(i).1) == i,
{
    let w = g.width;
    let h = g.height;
    assert(w > 0) by (nonlinear_arith)
        requires
            0 <= w,
            0 <= i < w * h,
    ;
    vstd::arithmetic::div_mod::lemma_fundamental_div_mod(i, w);
    assert(0 <= i / w < h) by (nonlinear_arith)
        requires
            0 < w,
            0 <= i < w * h,
            i == w * (i / w) + i % w,
            0 <= i % w < w,
    ;
}

/// Two different cells are never stored in the same slot.
pub proof fn lemma_index_injective(g: GridView, x1: int, y1: int, x2: int, y2: int)
    requires
        g.wf(),
        g.in_bounds(x1, y1),
        g.in_bounds(x2, y2),
        g.index(x1, y1) == g.index(x2, y2),
    ensures
        x1 == x2,
        y1 == y2,
{
    lemma_index_row_major(g, x1, y1);
    lemma_index_row_major(g, x2, y2);
}

/// Outside the grid, and in particular at any negative coordinate, no tile is
/// blocked or active, and activating or deactivating changes nothing.
pub proof fn lemma_outside_is_inert(g: GridView, x: int, y: int)
    requires
        x < 0 || y < 0 || x >= g.width || y >= g.height,
    ensures
        !g.is_blocked(x, y),
        !g.is_active(x, y),
        g.activate(x, y) == g,
        g.deactivate(x, y) == g,
{
}

/// Setting a tile changes that cell and no other, and keeps the grid's shape.
pub proof fn lemma_with_tile(g: GridView, x: int, y: int, t: TileType, x2: int, y2: int)
    requires
        g.wf(),
    ensures
        g.with_tile(x, y, t).wf(),
        g.with_tile(x, y, t).width == g.width,
        g.with_tile(x, y, t).height == g.height,
        g.with_tile(x, y, t).tile_type(x2, y2) == if g.in_bounds(x, y) && x2 == x && y2 == y {
            Some(t)
        } else {
            g.tile_type(x2, y2)
        },
{
    if g.in_bounds(x, y) {
        lemma_index_row_major(g, x, y);
        if g.in_bounds(x2, y2) {
            lemma_index_row_major(g, x2, y2);
            if g.index(x, y) == g.index(x2, y2) {
                lemma_index_injective(g, x, y, x2, y2);
            }
        }
    }
}

/// The level's tiles. The size is fixed when the grid is made; only the
/// types of single tiles change afterwards.
pub struct Grid {
    tiles: Vec<Tile>,
    width: i32,
    height: i32,
}

impl View for Grid {
    type V = GridView;

    closed spec fn view(&self) -> GridView {
        GridView { width: self.width as int, height: self.height as int, tiles: self.tiles@ }
    }
}

impl Grid {
    /// The invariant of every grid that this module hands out.
    pub open spec fn wf(&self) -> bool {
        self@.wf()
    }

    /// Makes a grid of `width` by `height` cells from tiles given row by row.
    /// There must be exactly one tile per cell; otherwise there is no such
    /// grid.
    pub fn new(width: i32, height: i32, map_data: Vec<Tile>) -> (g: Option<Grid>)
        ensures
            g is Some <==> 0 <= width && 0 <= height && map_data@.len() == width * height,
            g matches Some(grid) ==> grid.wf() && grid@ == (GridView {
                width: width as int,
                height: height as int,
                tiles: map_data@,
            }),
    {
        if width < 0 || height < 0 {
            return None;
        }
        assert(0 <= width * height <= 0x7fff_ffff * 0x7fff_ffff) by (nonlinear_arith)
            requires
                0 <= width <= 0x7fff_ffff,
                0 <= height <= 0x7fff_ffff,
        ;
        let cells: u64 = (width as u64) * (height as u64);
        if map_data.len() as u64 != cells {
            return None;
        }
        Some(Grid { tiles: map_data, width, height })
    }

    /// Makes the grid that fills a screen of `width` by `height` pixels: as
    /// many whole cells as fit each way.
    pub fn for_screen(width: u32, height: u32, map_data: Vec<Tile>) -> (g: Option<Grid>)
        ensures
            g is Some <==> map_data@.len() == (width as int / BLOCK_SIZE as int) * (height as int
                / BLOCK_SIZE as int),
            g matches Some(grid) ==> grid.wf() && grid@ == (GridView {
                width: width as int / BLOCK_SIZE as int,
                height: height as int / BLOCK_SIZE as int,
                tiles: map_data@,
            }),
    {
        let rows: i32 = (width / (BLOCK_SIZE as u32)) as i32;
        let cols: i32 = (height / (BLOCK_SIZE as u32)) as i32;
        Grid::new(rows, cols, map_data)
    }

    /// Number of columns.
    pub fn width(&self) -> (w: i32)
        ensures
            w == self@.width,
    {
        self.width
    }

    /// Number of rows.
    pub fn height(&self) -> (h: i32)
        ensures
            h == self@.height,
    {
        self.height
    }

    /// The slot of cell `(x, y)` in the row-major tiles, or `None` if the
    /// grid has no such cell.
    pub fn index(&self, x: i32, y: i32) -> (i: Option<usize>)
        requires
            self.wf(),
        ensures
            i is Some <==> self@.in_bounds(x as int, y as int),
            i matches Some(k) ==> k == x + self@.width * y && k < self@.tiles.len(),
    {
        if x < 0 || y < 0 || x >= self.width || y >= self.height {
            return None;
        }
        proof {
            lemma_index_row_major(self@, x as int, y as int);
            assert(0 <= self.width * y <= self.width * self.height) by (nonlinear_arith)
                requires
                    0 <= y < self.height,
                    0 <= self.width,
            ;
            assert(self.tiles@.len() == self.tiles.len() <= usize::MAX);
        }
        Some(x as usize + self.width as usize * y as usize)
    }

    /// The grid coordinate that the pixel `(x, y)` falls in. The result need
    /// not name a cell of this grid.
    pub fn get_tile_coord(&self, x: i32, y: i32) -> (c: (i32, i32))
        ensures
            c.0 == cell_of(x as int),
            c.1 == cell_of(y as int),
    {
        let cx: i32 = pixel_to_cell(x);
        let cy: i32 = pixel_to_cell(y);
        (cx, cy)
    }

    /// The type of the tile at `(x, y)`, or `None` outside the grid.
    pub fn tile_type(&self, x: i32, y: i32) -> (t: Option<TileType>)
        requires
            self.wf(),
        ensures
            t == self@.tile_type(x as int, y as int),
    {
        match self.index(x, y) {
            Some(k) => Some(self.tiles[k].tile_type),
            None => None,
        }
    }

    /// Whether `(x, y)` is a cell of the grid that holds the goal.
    pub fn is_tile_active(&self, x: i32, y: i32) -> (b: bool)
        requires
            self.wf(),
        ensures
            b == self@.is_active(x as int, y as int),
            x < 0 || y < 0 ==> !b,
    {
        match self.index(x, y) {
            Some(k) => self.tiles[k].tile_type == TileType::Active,
            None => false,
        }
    }

    /// Whether `(x, y)` is a cell of the grid that holds a wall.
    pub fn is_tile_blocked(&self, x: i32, y: i32) -> (b: bool)
        requires
            self.wf(),
        ensures
            b == self@.is_blocked(x as int, y as int),
            x < 0 || y < 0 ==> !b,
    {
        match self.index(x, y) {
            Some(k) => self.tiles[k].tile_type == TileType::Blocked,
            None => false,
        }
    }

    /// The rectangles to draw for the grid: one for each tile, in the order
    /// in which the tiles are stored, each at the place of its cell and in
    /// the colour of its type.
    pub fn draw(&self) -> (rects: Vec<Rect>)
        requires
            self.wf(),
        ensures
            rects@.len() == self@.tiles.len(),
            forall|i: int|
                0 <= i < rects@.len() ==> (#[trigger] rects@[i]).is_block(
                    pixel_of(self@.cell_at(i).0),
                    pixel_of(self@.cell_at(i).1),
                    self@.tiles[i].tile_type.color(),
                ),
    {
        let mut rects: Vec<Rect> = Vec::new();
        let n: usize = self.tiles.len();
        let mut i: usize = 0;
        while i < n
            invariant
                self.wf(),
                i <= n,
                n == self.tiles@.len(),
                rects@.len() == i,
                forall|j: int|
                    0 <= j < i ==> (#[trigger] rects@[j]).is_block(
                        pixel_of(self@.cell_at(j).0),
                        pixel_of(self@.cell_at(j).1),
                        self@.tiles[j].tile_type.color(),
                    ),
            decreases n - i,
        {
            proof {
                lemma_cell_at(self@, i as int);
            }
            let w: usize = self.width as usize;
            let x: i32 = (i % w) as i32;
            let y: i32 = (i / w) as i32;
            let r: Rect = self.tiles[i].draw_tile(x, y);
            rects.push(r);
            i = i + 1;
        }
        rects
    }

    fn set_tile(&mut self, x: i32, y: i32, t: TileType)
        requires
            old(self).wf(),
        ensures
            final(self).wf(),
            final(self)@ == old(self)@.with_tile(x as int, y as int, t),
    {
        match self.index(x, y) {
            Some(k) => {
                self.tiles.set(k, Tile { tile_type: t });
            },
            None => {},
        }
    }

    /// Makes the tile at `(x, y)` the goal. Does nothing outside the grid.
    pub fn activate_tile(&mut self, x: i32, y: i32)
        requires
            old(self).wf(),
        ensures
            final(self).wf(),
            final(self)@ == old(self)@.activate(x as int, y as int),
            x < 0 || y < 0 ==> final(self)@ == old(self)@,
    {
        self.set_tile(x, y, TileType::Active);
    }

    /// Marks the tile at `(x, y)` as an eaten goal. Does nothing outside the
    /// grid.
    pub fn deactivate_tile(&mut self, x: i32, y: i32)
        requires
            old(self).wf(),
        ensures
            final(self).wf(),
            final(self)@ == old(self)@.deactivate(x as int, y as int),
            x < 0 || y < 0 ==> final(self)@ == old(self)@,
    {
        self.set_tile(x, y, TileType::NonActive);
    }
}

} // verus!
