//! Where the next goal goes: a random cell away from the snake and not on a
//! wall.

use vstd::prelude::*;
use rand::Rng;
use crate::grid::{Grid, GridView};
use crate::head::{Head, HeadView};
use crate::tail::{tail_view, Tail, TailView};
use crate::units::{cell_of, pixel_to_cell};

verus! {

/// Draws a number with `rand::Rng::gen_range` from the generator that
/// `rand::thread_rng` hands out. Nothing here is proved: the contract is
/// taken from that method, which panics unless `low < high` and otherwise
/// returns a number that is at least `low` and below `high`. Which number is
/// not known, and two calls may differ.
#[verifier::external_body]
fn gen_range(low: i32, high: i32) -> (r: i32)
    requires
        low < high,
    ensures
        low <= r < high,
{
    rand::thread_rng().gen_range(low, high)
}

/// A random number between the two bounds, whichever of them is the smaller:
/// at least the smaller one and below the larger one. The bounds must
/// differ.
pub fn rand_range(min_value: i32, max_value: i32) -> (result: i32)
    requires
        min_value != max_value,
    ensures
        min_value < max_value ==> min_value <= result < max_value,
        max_value < min_value ==> max_value <= result < min_value,
{
    let min_v: i32 = if min_value <= max_value { min_value } else { max_value };
    let max_v: i32 = if min_value <= max_value { max_value } else { min_value };
    gen_range(min_v, max_v)
}

/// Whether the cell `(x, y)` is in the same column or in the same row as the
/// cell that the pixel `(px, py)` falls in.
pub open spec fn in_line_with(x: int, y: int, px: int, py: int) -> bool {
    x == cell_of(px) || y == cell_of(py)
}

/// Whether cell `(x, y)` may become the goal. It may not share a column or a
/// row with the head or with any segment, which rules out more than the cells
/// the snake is on, and it may not be a wall.
pub open spec fn goal_allowed(
    x: int,
    y: int,
    head: HeadView,
    tail: Seq<TailView>,
    map: GridView,
) -> bool {
    &&& !in_line_with(x, y, head.x, head.y)
    &&& forall|i: int| 0 <= i < tail.len() ==> !in_line_with(x, y, #[trigger] tail[i].x, tail[i].y)
    &&& !map.is_blocked(x, y)
}

/// The cells a goal is drawn from: `x` from 1 up to but not including
/// `rows - 1`, `y` from 1 up to but not including `cols - 1`. With `rows` the
/// width of a grid and `cols` its height, these are the cells off its rim.
pub open spec fn goal_candidate(x: int, y: int, rows: int, cols: int) -> bool {
    1 <= x < rows - 1 && 1 <= y < cols - 1
}

/// Whether every cell a goal is drawn from may become the goal.
pub open spec fn every_candidate_allowed(
    rows: int,
    cols: int,
    head: HeadView,
    tail: Seq<TailView>,
    map: GridView,
) -> bool {
    forall|x: int, y: int|
        goal_candidate(x, y, rows, cols) ==> #[trigger] goal_allowed(x, y, head, tail, map)
}

/// Decides whether the cell `(x, y)` may become the goal.
pub fn tile_allowed(x: i32, y: i32, head: &Head, tail: &Vec<Tail>, map: &Grid) -> (ok: bool)
    requires
        map.wf(),
    ensures
        ok == goal_allowed(x as int, y as int, head@, tail_view(tail@), map@),
{
    let ghost segments = tail_view(tail@);
    if x == pixel_to_cell(head.get_x()) || y == pixel_to_cell(head.get_y()) {
        return false;
    }
    let n: usize = tail.len();
    let mut i: usize = 0;
    while i < n
        invariant
            i <= n,
            n == tail@.len(),
            segments == tail_view(tail@),
            forall|j: int|
                0 <= j < i ==> !in_line_with(
                    x as int,
                    y as int,
                    #[trigger] segments[j].x,
                    segments[j].y,
                ),
        decreases n - i,
    {
        let t: &Tail = &tail[i];
        if pixel_to_cell(t.get_x()) == x || pixel_to_cell(t.get_y()) == y {
            assert(in_line_with(x as int, y as int, segments[i as int].x, segments[i as int].y));
            return false;
        }
        i = i + 1;
    }
    !map.is_tile_blocked(x, y)
}

/// Looks for a cell for the next goal: draws a random cell with `x` between 1
/// and `rows - 2` and `y` between 1 and `cols - 2`, and takes the first one
/// that is allowed, giving up after `attempts` draws. The limit is there
/// because on a crowded level a search without one need not end.
///
/// A cell that comes back is always allowed. Whether one comes back is a
/// matter of luck, except where the contract says otherwise: never when there
/// is no cell to draw from or no draw is made, and always when at least one
/// draw is made and every cell that can be drawn is allowed.
pub fn new_random_tile(
    rows: i32,
    cols: i32,
    current_head: &Head,
    current_tail: &Vec<Tail>,
    map_data: &Grid,
    attempts: u32,
) -> (found: Option<(i32, i32)>)
    requires
        map_data.wf(),
    ensures
        found matches Some((x, y)) ==> goal_candidate(x as int, y as int, rows as int, cols as int)
            && goal_allowed(
            x as int,
            y as int,
            current_head@,
            tail_view(current_tail@),
            map_data@,
        ),
        attempts == 0 || rows <= 2 || cols <= 2 ==> found is None,
        attempts > 0 && rows > 2 && cols > 2 && every_candidate_allowed(
            rows as int,
            cols as int,
            current_head@,
            tail_view(current_tail@),
            map_data@,
        ) ==> found is Some,
{
    if rows <= 2 || cols <= 2 {
        return None;
    }
    let ghost segments = tail_view(current_tail@);
    let mut left: u32 = attempts;
    while left > 0
        invariant
            rows > 2,
            cols > 2,
            map_data.wf(),
            left <= attempts,
            segments == tail_view(current_tail@),
            left < attempts ==> !every_candidate_allowed(
                rows as int,
                cols as int,
                current_head@,
                segments,
                map_data@,
            ),
        decreases left,
    {
        let rng_x: i32 = rand_range(1, rows - 1);
        let rng_y: i32 = rand_range(1, cols - 1);
        if tile_allowed(rng_x, rng_y, current_head, current_tail, map_data) {
            return Some((rng_x, rng_y));
        }
        assert(goal_candidate(rng_x as int, rng_y as int, rows as int, cols as int));
        left = left - 1;
    }
    None
}

} // verus!
