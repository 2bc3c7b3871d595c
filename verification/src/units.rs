//! Pixel and cell units shared by every part of the game.

use vstd::prelude::*;

verus! {

/// Side length of one grid cell, in pixels.
pub const BLOCK_SIZE: i32 = 25;

/// Whether `v` can be held in an `i32`.
pub open spec fn fits_i32(v: int) -> bool {
    i32::MIN <= v <= i32::MAX
}

/// The grid coordinate that a pixel coordinate falls in: the quotient by the
/// cell size, rounded towards zero.
pub open spec fn cell_of(p: int) -> int {
    if p >= 0 {
        p / (BLOCK_SIZE as int)
    } else {
        -((-p) / (BLOCK_SIZE as int))
    }
}

/// The pixel coordinate at which grid coordinate `c` starts.
pub open spec fn pixel_of(c: int) -> int {
    c * BLOCK_SIZE
}

/// Whether a pixel coordinate lies exactly on a cell boundary.
pub open spec fn grid_aligned(p: int) -> bool {
    p % (BLOCK_SIZE as int) == 0
}

/// Computes the grid coordinate of a pixel coordinate.
pub fn pixel_to_cell(p: i32) -> (c: i32)
    ensures
        c == cell_of(p as int),
{
    p / BLOCK_SIZE
}

/// Scaling a grid coordinate to pixels and back gives the same coordinate,
/// for negative coordinates too.
pub proof fn lemma_cell_of_pixel_of(c: int)
    ensures
        cell_of(pixel_of(c)) == c,
        grid_aligned(pixel_of(c)),
{
    assert((c * 25) / 25 == c && (c * 25) % 25 == 0) by (nonlinear_arith);
    assert(((-c) * 25) / 25 == -c) by (nonlinear_arith);
    assert(-(c * 25) == (-c) * 25);
}

/// A grid-aligned pixel coordinate is the start of the cell it falls in.
pub proof fn lemma_pixel_of_cell_of(p: int)
    requires
        grid_aligned(p),
    ensures
        pixel_of(cell_of(p)) == p,
{
    assert(p == 25 * (p / 25) + p % 25) by (nonlinear_arith);
    assert((-p) == 25 * ((-p) / 25) + (-p) % 25) by (nonlinear_arith);
    assert((-p) % 25 == 0) by (nonlinear_arith)
        requires
            p % 25 == 0,
    ;
}

} // verus!
