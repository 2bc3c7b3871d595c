//! The snake as a whole: a head and the segments that follow it.

use vstd::prelude::*;
use crate::direction::Direction;
use crate::head::{Head, HeadView};
use crate::tail::{tail_view, Tail, TailView};
use crate::units::{fits_i32, grid_aligned, BLOCK_SIZE};

verus! {

/// The snake as a mathematical value. Segment 0 is the one next to the head.
pub struct SnakeView {
    pub head: HeadView,
    pub tail: Seq<TailView>,
}

impl SnakeView {
    /// The pixel position of what segment `i` follows: the head for segment
    /// 0, segment `i - 1` for any other. For `i == tail.len()` this is the
    /// position of the snake's last part.
    pub open spec fn ahead_of(self, i: int) -> (int, int) {
        if i <= 0 {
            (self.head.x, self.head.y)
        } else {
            (self.tail[i - 1].x, self.tail[i - 1].y)
        }
    }

    /// The pixel position that a move leaves free behind the snake.
    pub open spec fn vacated(self) -> (int, int) {
        self.ahead_of(self.tail.len() as int)
    }

    /// The snake with one more active segment at pixel `(x, y)`, behind all
    /// the others.
    pub open spec fn grow(self, x: int, y: int) -> SnakeView {
        SnakeView { tail: self.tail.push(TailView { x, y, is_active: true }), ..self }
    }

    /// The snake without any segment, its head put back at pixel `(x, y)` and
    /// heading right.
    pub open spec fn reset_all(self, x: int, y: int) -> SnakeView {
        SnakeView { head: self.head.reset(x, y), tail: Seq::empty() }
    }

    /// The snake after one move: the head goes one cell along its heading,
    /// and every segment goes where the part ahead of it was before the move.
    pub open spec fn step(self) -> SnakeView {
        SnakeView {
            head: self.head.update(),
            tail: Seq::new(
                self.tail.len(),
                |i: int| self.tail[i].update(self.ahead_of(i).0, self.ahead_of(i).1),
            ),
        }
    }
}

/// Whether two pixel positions are exactly one cell apart, along a row or
/// along a column.
pub open spec fn one_cell_apart(a: (int, int), b: (int, int)) -> bool {
    ||| a.1 == b.1 && (a.0 - b.0 == BLOCK_SIZE || b.0 - a.0 == BLOCK_SIZE)
    ||| a.0 == b.0 && (a.1 - b.1 == BLOCK_SIZE || b.1 - a.1 == BLOCK_SIZE)
}

impl SnakeView {
    /// Whether the head and every segment are active.
    pub open spec fn alive(self) -> bool {
        &&& self.head.is_active
        &&& forall|i: int| 0 <= i < self.tail.len() ==> (#[trigger] self.tail[i]).is_active
    }

    /// Whether the head and every segment sit exactly on a cell.
    pub open spec fn aligned(self) -> bool {
        &&& grid_aligned(self.head.x)
        &&& grid_aligned(self.head.y)
        &&& forall|i: int|
            0 <= i < self.tail.len() ==> grid_aligned((#[trigger] self.tail[i]).x) && grid_aligned(
                self.tail[i].y,
            )
    }

    /// Whether every segment is one cell away from the part it follows.
    pub open spec fn chained(self) -> bool {
        forall|i: int|
            0 <= i < self.tail.len() ==> one_cell_apart(
                self.ahead_of(i),
                ((#[trigger] self.tail[i]).x, self.tail[i].y),
            )
    }

    /// The snake as the game keeps it: every part active and on a cell of
    /// its own, the parts forming one connected chain.
    pub open spec fn in_one_piece(self) -> bool {
        self.alive() && self.aligned() && self.chained()
    }
}

/// A move keeps the snake in one piece, and the position it leaves free is
/// one cell behind the snake's last part.
pub proof fn lemma_step_keeps_chain(s: SnakeView)
    requires
        s.in_one_piece(),
    ensures
        s.step().in_one_piece(),
        one_cell_apart(s.step().vacated(), s.vacated()),
        grid_aligned(s.vacated().0),
        grid_aligned(s.vacated().1),
{
    let t = s.step();
    assert forall|i: int| 0 <= i < t.tail.len() implies one_cell_apart(
        t.ahead_of(i),
        ((#[trigger] t.tail[i]).x, t.tail[i].y),
    ) by {
        assert(s.tail[i].is_active);
        if i > 0 {
            assert(s.tail[i - 1].is_active);
            assert(one_cell_apart(s.ahead_of(i - 1), (s.tail[i - 1].x, s.tail[i - 1].y)));
        }
    }
    assert forall|i: int| 0 <= i < t.tail.len() implies grid_aligned((#[trigger] t.tail[i]).x)
        && grid_aligned(t.tail[i].y) && t.tail[i].is_active by {
        assert(s.tail[i].is_active);
        if i > 0 {
            assert(grid_aligned(s.tail[i - 1].x));
        }
    }
    let n = s.tail.len() as int;
    if n > 0 {
        assert(s.tail[n - 1].is_active);
        assert(one_cell_apart(s.ahead_of(n - 1), (s.tail[n - 1].x, s.tail[n - 1].y)));
        assert(grid_aligned(s.tail[n - 1].x));
    }
}

/// Growing at the position a move has just left free keeps the snake in one
/// piece.
pub proof fn lemma_grow_keeps_chain(s: SnakeView)
    requires
        s.in_one_piece(),
    ensures
        s.step().grow(s.vacated().0, s.vacated().1).in_one_piece(),
{
    lemma_step_keeps_chain(s);
    let t = s.step();
    let g = t.grow(s.vacated().0, s.vacated().1);
    let n = s.tail.len() as int;
    assert forall|i: int| 0 <= i < g.tail.len() implies one_cell_apart(
        g.ahead_of(i),
        ((#[trigger] g.tail[i]).x, g.tail[i].y),
    ) by {
        if i < n {
            assert(g.tail[i] == t.tail[i]);
            assert(one_cell_apart(t.ahead_of(i), (t.tail[i].x, t.tail[i].y)));
            if i > 0 {
                assert(g.tail[i - 1] == t.tail[i - 1]);
            }
        } else {
            assert(g.ahead_of(i) == t.vacated());
        }
    }
    assert forall|i: int| 0 <= i < g.tail.len() implies grid_aligned((#[trigger] g.tail[i]).x)
        && grid_aligned(g.tail[i].y) && g.tail[i].is_active by {
        if i < n {
            assert(g.tail[i] == t.tail[i]);
        }
    }
}

/// A snake that has just been reset to a position on a cell is in one piece,
/// provided its head is active.
pub proof fn lemma_reset_in_one_piece(s: SnakeView, x: int, y: int)
    requires
        s.head.is_active,
        grid_aligned(x),
        grid_aligned(y),
    ensures
        s.reset_all(x, y).in_one_piece(),
{
}

/// After a move, every active segment is exactly where the part ahead of it
/// was before the move: segment 0 where the head was, segment `i` where
/// segment `i - 1` was. The head itself is one cell further along its
/// heading.
pub proof fn lemma_step_follows(s: SnakeView, i: int)
    requires
        0 <= i < s.tail.len(),
        s.tail[i].is_active,
    ensures
        s.step().tail.len() == s.tail.len(),
        i == 0 ==> s.step().tail[i].x == s.head.x && s.step().tail[i].y == s.head.y,
        i > 0 ==> s.step().tail[i].x == s.tail[i - 1].x && s.step().tail[i].y == s.tail[i - 1].y,
        s.step().tail[i].is_active,
{
}

/// A reset leaves no segment, and the head exactly at the spawn position,
/// heading right.
pub proof fn lemma_reset_all(s: SnakeView, x: int, y: int)
    ensures
        s.reset_all(x, y).tail.len() == 0,
        s.reset_all(x, y).head.x == x,
        s.reset_all(x, y).head.y == y,
        s.reset_all(x, y).head.dir == Direction::Right,
        s.reset_all(x, y).head.is_active == s.head.is_active,
{
}

/// Growing right after a move, at the position the move left free, puts the
/// new segment where the snake's last part was before the move.
pub proof fn lemma_grow_at_vacated(s: SnakeView)
    ensures
        ({
            let grown = s.step().grow(s.vacated().0, s.vacated().1);
            &&& grown.tail.len() == s.tail.len() + 1
            &&& grown.tail.last().x == s.vacated().0
            &&& grown.tail.last().y == s.vacated().1
            &&& grown.tail.last().is_active
            &&& grown.head == s.step().head
            &&& forall|i: int| 0 <= i < s.tail.len() ==> grown.tail[i] == s.step().tail[i]
        }),
{
}

/// The snake: its head and, from the head backwards, its segments.
pub struct Snake {
    pub head: Head,
    pub tail: Vec<Tail>,
}

impl View for Snake {
    type V = SnakeView;

    open spec fn view(&self) -> SnakeView {
        SnakeView { head: self.head@, tail: tail_view(self.tail@) }
    }
}

impl Snake {
    /// A snake that is only a head.
    pub fn new(head: Head) -> (s: Snake)
        ensures
            s@ == (SnakeView { head: head@, tail: Seq::empty() }),
    {
        let s = Snake { head, tail: Vec::new() };
        assert(s@.tail =~= Seq::empty());
        s
    }

    /// Appends an active segment at pixel `(x, y)`.
    pub fn grow(&mut self, x: i32, y: i32)
        ensures
            final(self)@ == old(self)@.grow(x as int, y as int),
    {
        self.tail.push(Tail::new(x, y));
        assert(self@.tail =~= old(self)@.grow(x as int, y as int).tail);
    }

    /// Drops every segment and puts the head back at pixel `(x, y)`, heading
    /// right.
    pub fn reset_all(&mut self, x: i32, y: i32)
        ensures
            final(self)@ == old(self)@.reset_all(x as int, y as int),
            final(self)@.tail.len() == 0,
            final(self)@.head.x == x,
            final(self)@.head.y == y,
            final(self)@.head.dir == Direction::Right,
    {
        self.head.reset(x, y);
        self.tail.clear();
        assert(self@.tail =~= Seq::empty());
    }

    /// Moves the whole snake by one cell and returns the pixel position that
    /// the move left free behind it.
    pub fn step(&mut self) -> (prev: (i32, i32))
        requires
            fits_i32(old(self)@.head.update().x),
            fits_i32(old(self)@.head.update().y),
        ensures
            final(self)@ == old(self)@.step(),
            prev.0 == old(self)@.vacated().0,
            prev.1 == old(self)@.vacated().1,
    {
        let ghost before = self@;
        let mut prev_x: i32 = self.head.get_x();
        let mut prev_y: i32 = self.head.get_y();
        self.head.update();
        let n: usize = self.tail.len();
        let mut i: usize = 0;
        while i < n
            invariant
                i <= n,
                n == self.tail@.len(),
                before.tail.len() == n,
                self.head@ == before.head.update(),
                forall|j: int| 0 <= j < i ==> #[trigger] self.tail@[j]@ == before.step().tail[j],
                forall|j: int| i <= j < n ==> #[trigger] self.tail@[j]@ == before.tail[j],
                prev_x == before.ahead_of(i as int).0,
                prev_y == before.ahead_of(i as int).1,
            decreases n - i,
        {
            let mut t: Tail = self.tail[i];
            let prev_tx: i32 = t.get_x();
            let prev_ty: i32 = t.get_y();
            t.update(prev_x, prev_y);
            self.tail.set(i, t);
            prev_x = prev_tx;
            prev_y = prev_ty;
            i = i + 1;
        }
        assert(self@.tail =~= before.step().tail);
        (prev_x, prev_y)
    }
}

} // verus!
