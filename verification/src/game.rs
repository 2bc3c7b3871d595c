//! One game: the level, the snake and the keys, and what a frame does to
//! them.
//!
//! The caller owns the window and the clock. It hands every window event to
//! [`Game::on_event`] and calls [`Game::frame`] once per frame with the time
//! since the snake last moved; the outcome tells it when to restart that
//! clock.

use vstd::prelude::*;
use crate::direction::Direction;
use crate::goal::{every_candidate_allowed, goal_allowed, goal_candidate, new_random_tile};
use crate::grid::{lemma_with_tile, Grid, GridView};
use crate::head::Head;
use crate::keys::{on_key_down, on_key_up, Key, KeyMap};
use crate::snake::{
    lemma_grow_keeps_chain, lemma_reset_in_one_piece, lemma_step_keeps_chain, Snake, SnakeView,
};
use crate::tail::Tail;
use crate::tile::TileType;
use crate::units::{cell_of, fits_i32, grid_aligned, BLOCK_SIZE};

verus! {

/// The snake moves once this many milliseconds have passed since its last
/// move.
pub const TICK_MS: i32 = 95;

/// What the window can report.
#[derive(Clone, Copy, Debug, PartialEq, Eq, Structural)]
pub enum Event {
    Closed,
    KeyPressed(Key),
    KeyReleased(Key),
    Other,
}

/// The game as a mathematical value.
pub struct GameView {
    pub map: GridView,
    pub snake: SnakeView,
    pub keys: KeyMap,
    /// Pixel position at which the head starts, and restarts after a crash.
    pub spawn_x: int,
    pub spawn_y: int,
    /// Set when a goal was eaten and the snake has not grown for it yet.
    pub add_segment: bool,
    pub pause: bool,
    pub is_running: bool,
}

/// The grid with the goal put on the cell that was found for it, if one was.
pub open spec fn place(map: GridView, goal: Option<(int, int)>) -> GridView {
    match goal {
        Some((x, y)) => map.activate(x, y),
        None => map,
    }
}

impl GameView {
    /// The game after the window reported `ev`.
    pub open spec fn on_event(self, ev: Event) -> GameView {
        match ev {
            Event::Closed => GameView { is_running: false, ..self },
            Event::KeyPressed(Key::Escape) => GameView { is_running: false, ..self },
            Event::KeyPressed(Key::P) => GameView { pause: !self.pause, ..self },
            Event::KeyPressed(key) => GameView { keys: self.keys.with_key(key, true), ..self },
            Event::KeyReleased(key) => GameView { keys: self.keys.with_key(key, false), ..self },
            Event::Other => self,
        }
    }

    /// The cell the head is on.
    pub open spec fn head_cell(self) -> (int, int) {
        (cell_of(self.snake.head.x), cell_of(self.snake.head.y))
    }

    /// The game with the snake back at its start: no segments, the head at
    /// the spawn position and heading right.
    pub open spec fn reset(self) -> GameView {
        GameView { snake: self.snake.reset_all(self.spawn_x, self.spawn_y), ..self }
    }

    /// The game after the head has looked at the keys.
    pub open spec fn steered(self) -> GameView {
        GameView {
            snake: SnakeView { head: self.snake.head.inputs(self.keys), ..self.snake },
            ..self
        }
    }

    /// Whether a segment of the tail is on cell `(hx, hy)`.
    pub open spec fn tail_on(self, hx: int, hy: int) -> bool {
        exists|i: int|
            0 <= i < self.snake.tail.len() && cell_of(#[trigger] self.snake.tail[i].x) == hx
                && cell_of(self.snake.tail[i].y) == hy
    }

    /// First check of a frame, with the head on cell `(hx, hy)`: on a wall
    /// the snake starts over.
    pub open spec fn wall_checked(self, hx: int, hy: int) -> GameView {
        if self.map.is_blocked(hx, hy) {
            self.reset()
        } else {
            self
        }
    }

    /// Second check: on the goal, the goal is eaten, a new one is put at
    /// `goal` if a place was found, and the snake is due to grow.
    pub open spec fn goal_checked(self, hx: int, hy: int, goal: Option<(int, int)>) -> GameView {
        if self.map.is_active(hx, hy) {
            GameView { map: place(self.map.deactivate(hx, hy), goal), add_segment: true, ..self }
        } else {
            self
        }
    }

    /// Third check: on a cell of its own tail the snake starts over.
    pub open spec fn tail_checked(self, hx: int, hy: int) -> GameView {
        if self.tail_on(hx, hy) {
            self.reset()
        } else {
            self
        }
    }

    /// Whether the head, once it has looked at the keys, is on the goal.
    pub open spec fn eats(self) -> bool {
        self.map.is_active(self.head_cell().0, self.head_cell().1)
    }

    /// The part of a frame that happens whether or not the snake moves:
    /// steering, then the three checks in their fixed order, all for the cell
    /// the head is on when the frame starts.
    pub open spec fn checked(self, goal: Option<(int, int)>) -> GameView {
        let (hx, hy) = self.head_cell();
        self.steered().wall_checked(hx, hy).goal_checked(hx, hy, goal).tail_checked(hx, hy)
    }

    /// The move: the snake goes one cell on and, if it is due to grow, gets a
    /// segment where its last part was.
    pub open spec fn ticked(self) -> GameView {
        if self.add_segment {
            GameView {
                snake: self.snake.step().grow(self.snake.vacated().0, self.snake.vacated().1),
                add_segment: false,
                ..self
            }
        } else {
            GameView { snake: self.snake.step(), ..self }
        }
    }

    /// One frame, `elapsed_ms` milliseconds after the snake last moved, where
    /// the search for a new goal, if one is made, ends with `goal`.
    pub open spec fn frame(self, elapsed_ms: int, goal: Option<(int, int)>) -> GameView {
        if self.pause {
            self
        } else if elapsed_ms >= TICK_MS {
            self.checked(goal).ticked()
        } else {
            self.checked(goal)
        }
    }

    /// Whether a frame can move the head without leaving the range of `i32`,
    /// from where it is and from the spawn position.
    pub open spec fn can_step(self) -> bool {
        &&& self.snake.head.can_step()
        &&& fits_i32(self.spawn_x - BLOCK_SIZE)
        &&& fits_i32(self.spawn_x + BLOCK_SIZE)
        &&& fits_i32(self.spawn_y - BLOCK_SIZE)
        &&& fits_i32(self.spawn_y + BLOCK_SIZE)
    }
}

/// What can happen to a game: the window reports an event, or a frame runs.
pub enum Input {
    Event(Event),
    Frame { elapsed_ms: int, goal: Option<(int, int)> },
}

impl Input {
    /// Whether this is a frame for which the tick interval has passed.
    pub open spec fn is_due(self) -> bool {
        self matches Input::Frame { elapsed_ms, .. } && elapsed_ms >= TICK_MS
    }
}

impl GameView {
    /// The game after one input.
    pub open spec fn apply(self, input: Input) -> GameView {
        match input {
            Input::Event(ev) => self.on_event(ev),
            Input::Frame { elapsed_ms, goal } => self.frame(elapsed_ms, goal),
        }
    }

    /// The game after a run of inputs, first to last.
    pub open spec fn run(self, inputs: Seq<Input>) -> GameView
        decreases inputs.len(),
    {
        if inputs.len() == 0 {
            self
        } else {
            self.run(inputs.drop_last()).apply(inputs.last())
        }
    }
}

/// A frame lengthens the tail by one segment at most, and only if it moves
/// the snake; a frame that moves the snake leaves it with no growth due.
pub proof fn lemma_frame_growth(g: GameView, elapsed_ms: int, goal: Option<(int, int)>)
    ensures
        g.checked(goal).snake.tail.len() <= g.snake.tail.len(),
        g.frame(elapsed_ms, goal).snake.tail.len() <= g.snake.tail.len() + 1,
        elapsed_ms < TICK_MS ==> g.frame(elapsed_ms, goal).snake.tail.len() <= g.snake.tail.len(),
        !g.pause && elapsed_ms >= TICK_MS ==> !g.frame(elapsed_ms, goal).add_segment,
{
}

/// The snake grows once per move at most, however often it is found on a
/// goal in between. Over any run of events and of frames that come before
/// the tick interval has passed, the tail gets no longer; the frame that then
/// moves the snake adds one segment at most, and leaves no growth due.
pub proof fn lemma_one_segment_per_tick(
    g: GameView,
    inputs: Seq<Input>,
    elapsed_ms: int,
    goal: Option<(int, int)>,
)
    requires
        forall|i: int| 0 <= i < inputs.len() ==> !(#[trigger] inputs[i]).is_due(),
    ensures
        g.run(inputs).snake.tail.len() <= g.snake.tail.len(),
        g.run(inputs).frame(elapsed_ms, goal).snake.tail.len() <= g.snake.tail.len() + 1,
        !g.run(inputs).pause && elapsed_ms >= TICK_MS ==> !g.run(inputs).frame(
            elapsed_ms,
            goal,
        ).add_segment,
    decreases inputs.len(),
{
    if inputs.len() > 0 {
        let before = g.run(inputs.drop_last());
        assert forall|i: int| 0 <= i < inputs.drop_last().len() implies !(
        #[trigger] inputs.drop_last()[i]).is_due() by {
            assert(inputs.drop_last()[i] == inputs[i]);
        }
        match inputs.last() {
            Input::Event(ev) => {
                lemma_one_segment_per_tick(g, inputs.drop_last(), 0, None);
            },
            Input::Frame { elapsed_ms: e, goal: found } => {
                assert(!inputs[inputs.len() - 1].is_due());
                lemma_one_segment_per_tick(g, inputs.drop_last(), e, found);
                lemma_frame_growth(before, e, found);
            },
        }
    }
    lemma_frame_growth(g.run(inputs), elapsed_ms, goal);
}

/// On a wall nothing else is looked at: the checks come to a reset and no
/// more, whatever the tile and the tail are.
pub proof fn lemma_wall_ends_checks(g: GameView, goal: Option<(int, int)>)
    requires
        g.map.is_blocked(g.head_cell().0, g.head_cell().1),
    ensures
        g.checked(goal) == g.steered().reset(),
{
    let (hx, hy) = g.head_cell();
    let r = g.steered().wall_checked(hx, hy);
    assert(r == g.steered().reset());
    assert(!r.map.is_active(hx, hy));
    assert(r.snake.tail.len() == 0);
    assert(!r.tail_on(hx, hy));
}

/// No input changes the size of the grid, and a frame changes at most two of
/// its tiles: the goal that was eaten and the goal that was put down.
pub proof fn lemma_frame_keeps_shape(g: GameView, elapsed_ms: int, goal: Option<(int, int)>)
    requires
        g.map.wf(),
    ensures
        g.frame(elapsed_ms, goal).map.wf(),
        g.frame(elapsed_ms, goal).map.width == g.map.width,
        g.frame(elapsed_ms, goal).map.height == g.map.height,
        forall|x: int, y: int|
            (x, y) != g.head_cell() && Some((x, y)) != goal ==> #[trigger] g.frame(
                elapsed_ms,
                goal,
            ).map.tile_type(x, y) == g.map.tile_type(x, y),
        !g.eats() ==> g.frame(elapsed_ms, goal).map == g.map,
{
    let (hx, hy) = g.head_cell();
    let eaten = g.map.deactivate(hx, hy);
    let after = g.frame(elapsed_ms, goal).map;
    assert(after == g.map || after == place(eaten, goal));
    assert forall|x: int, y: int| (x, y) != g.head_cell() && Some((x, y)) != goal implies (
    #[trigger] after.tile_type(x, y)) == g.map.tile_type(x, y) by {
        lemma_with_tile(g.map, hx, hy, TileType::NonActive, x, y);
        match goal {
            Some((gx, gy)) => {
                lemma_with_tile(eaten, gx, gy, TileType::Active, x, y);
            },
            None => {},
        }
    }
    lemma_with_tile(g.map, hx, hy, TileType::NonActive, 0, 0);
    match goal {
        Some((gx, gy)) => {
            lemma_with_tile(eaten, gx, gy, TileType::Active, 0, 0);
        },
        None => {},
    }
}

/// A frame keeps the snake in one piece: as long as the spawn position is on
/// a cell, a snake whose parts are active, on cells and connected stays so
/// through steering, resets, moves and growth.
pub proof fn lemma_frame_keeps_chain(g: GameView, elapsed_ms: int, goal: Option<(int, int)>)
    requires
        g.snake.in_one_piece(),
        grid_aligned(g.spawn_x),
        grid_aligned(g.spawn_y),
    ensures
        g.checked(goal).snake.in_one_piece(),
        g.frame(elapsed_ms, goal).snake.in_one_piece(),
{
    let (hx, hy) = g.head_cell();
    let s = g.steered();
    assert(s.snake.in_one_piece());
    lemma_reset_in_one_piece(s.snake, g.spawn_x, g.spawn_y);
    let w = s.wall_checked(hx, hy);
    assert(w.snake.in_one_piece());
    let e = w.goal_checked(hx, hy, goal);
    assert(e.snake == w.snake);
    lemma_reset_in_one_piece(e.snake, g.spawn_x, g.spawn_y);
    let c = e.tail_checked(hx, hy);
    assert(c.snake.in_one_piece());
    assert(c == g.checked(goal));
    lemma_step_keeps_chain(c.snake);
    lemma_grow_keeps_chain(c.snake);
}

/// What a frame did, as far as the caller has to act on it.
#[derive(Clone, Copy, Debug)]
pub struct FrameOutcome {
    /// The snake moved: the clock that times its moves is to be restarted.
    pub ticked: bool,
    /// The head was on the goal, and the goal was eaten.
    pub ate: bool,
    /// The cell of the new goal. `None` after a goal was eaten means that
    /// the search gave up and the level has no goal now.
    pub goal: Option<(i32, i32)>,
}

/// A cell as a pair of mathematical integers.
pub open spec fn cell_view(c: Option<(i32, i32)>) -> Option<(int, int)> {
    match c {
        Some((x, y)) => Some((x as int, y as int)),
        None => None,
    }
}

/// A game in progress.
pub struct Game {
    pub map: Grid,
    pub snake: Snake,
    pub keys: KeyMap,
    /// Pixel position at which the head starts, and restarts after a crash.
    pub spawn_x: i32,
    pub spawn_y: i32,
    /// Set when a goal was eaten and the snake has not grown for it yet.
    pub add_segment: bool,
    /// While set, frames do nothing.
    pub pause: bool,
    /// Cleared when the player asks to leave.
    pub is_running: bool,
}

impl View for Game {
    type V = GameView;

    open spec fn view(&self) -> GameView {
        GameView {
            map: self.map@,
            snake: self.snake@,
            keys: self.keys,
            spawn_x: self.spawn_x as int,
            spawn_y: self.spawn_y as int,
            add_segment: self.add_segment,
            pause: self.pause,
            is_running: self.is_running,
        }
    }
}

impl Game {
    /// The invariant of every game: its grid has one tile for each cell.
    pub open spec fn wf(&self) -> bool {
        self.map.wf()
    }

    /// A running game on `map`, not paused, with no key held, whose snake is
    /// a lone head at the pixel `(spawn_x, spawn_y)`, heading right.
    pub fn new(map: Grid, spawn_x: i32, spawn_y: i32) -> (g: Game)
        requires
            map.wf(),
        ensures
            g.wf(),
            g@.map == map@,
            g@.snake.tail.len() == 0,
            g@.snake.head.x == spawn_x,
            g@.snake.head.y == spawn_y,
            g@.snake.head.dir == Direction::Right,
            g@.snake.head.is_active,
            g@.keys == (KeyMap { w: false, a: false, s: false, d: false }),
            g@.spawn_x == spawn_x,
            g@.spawn_y == spawn_y,
            !g@.add_segment,
            !g@.pause,
            g@.is_running,
    {
        Game {
            map,
            snake: Snake::new(Head::new(spawn_x, spawn_y, Direction::Right)),
            keys: KeyMap::new(),
            spawn_x,
            spawn_y,
            add_segment: false,
            pause: false,
            is_running: true,
        }
    }

    /// Takes note of one window event: closing the window or pressing escape
    /// ends the game, `P` toggles the pause, and the steering keys are
    /// tracked as they go down and up.
    pub fn on_event(&mut self, ev: Event)
        requires
            old(self).wf(),
        ensures
            final(self).wf(),
            final(self)@ == old(self)@.on_event(ev),
    {
        match ev {
            Event::Closed => {
                self.is_running = false;
            },
            Event::KeyPressed(code) => match code {
                Key::Escape => {
                    self.is_running = false;
                },
                Key::P => {
                    self.pause = !self.pause;
                },
                Key::W => on_key_down(&mut self.keys, &Key::W),
                Key::A => on_key_down(&mut self.keys, &Key::A),
                Key::S => on_key_down(&mut self.keys, &Key::S),
                Key::D => on_key_down(&mut self.keys, &Key::D),
                _ => {},
            },
            Event::KeyReleased(code) => match code {
                Key::W => on_key_up(&mut self.keys, &Key::W),
                Key::A => on_key_up(&mut self.keys, &Key::A),
                Key::S => on_key_up(&mut self.keys, &Key::S),
                Key::D => on_key_up(&mut self.keys, &Key::D),
                _ => {},
            },
            _ => {},
        }
    }

    /// Whether [`Game::frame`] may be called: the head and the spawn position
    /// are far enough from the ends of the `i32` range.
    pub fn can_step(&self) -> (ok: bool)
        ensures
            ok == self@.can_step(),
    {
        let lo: i32 = i32::MIN + BLOCK_SIZE;
        let hi: i32 = i32::MAX - BLOCK_SIZE;
        let head_ok: bool = lo <= self.snake.head.x && self.snake.head.x <= hi
            && lo <= self.snake.head.y && self.snake.head.y <= hi;
        let spawn_ok: bool = lo <= self.spawn_x && self.spawn_x <= hi
            && lo <= self.spawn_y && self.spawn_y <= hi;
        head_ok && spawn_ok
    }

    /// Puts the snake back at its start.
    pub fn reset(&mut self)
        requires
            old(self).wf(),
        ensures
            final(self).wf(),
            final(self)@ == old(self)@.reset(),
    {
        self.snake.reset_all(self.spawn_x, self.spawn_y);
    }

    /// Whether a segment of the tail is on cell `(hx, hy)`.
    pub fn tail_on(&self, hx: i32, hy: i32) -> (hit: bool)
        ensures
            hit == self@.tail_on(hx as int, hy as int),
    {
        let n: usize = self.snake.tail.len();
        let mut i: usize = 0;
        while i < n
            invariant
                i <= n,
                n == self.snake.tail@.len(),
                forall|j: int|
                    0 <= j < i ==> !(cell_of(#[trigger] self@.snake.tail[j].x) == hx && cell_of(
                        self@.snake.tail[j].y,
                    ) == hy),
            decreases n - i,
        {
            let t: &Tail = &self.snake.tail[i];
            let c: (i32, i32) = self.map.get_tile_coord(t.get_x(), t.get_y());
            if c.0 == hx && c.1 == hy {
                assert(cell_of(self@.snake.tail[i as int].x) == hx);
                return true;
            }
            i = i + 1;
        }
        false
    }

    /// Looks for a cell for a new goal, as [`new_random_tile`] does on this
    /// game's grid and snake, and puts the goal there if one is found.
    pub fn place_goal(&mut self, attempts: u32) -> (goal: Option<(i32, i32)>)
        requires
            old(self).wf(),
        ensures
            final(self).wf(),
            final(self)@ == (GameView {
                map: place(old(self)@.map, cell_view(goal)),
                ..old(self)@
            }),
            goal matches Some((x, y)) ==> goal_candidate(
                x as int,
                y as int,
                old(self)@.map.width,
                old(self)@.map.height,
            ) && goal_allowed(
                x as int,
                y as int,
                old(self)@.snake.head,
                old(self)@.snake.tail,
                old(self)@.map,
            ),
            attempts == 0 || old(self)@.map.width <= 2 || old(self)@.map.height <= 2
                ==> goal is None,
            attempts > 0 && old(self)@.map.width > 2 && old(self)@.map.height > 2
                && every_candidate_allowed(
                old(self)@.map.width,
                old(self)@.map.height,
                old(self)@.snake.head,
                old(self)@.snake.tail,
                old(self)@.map,
            ) ==> goal is Some,
    {
        let rows: i32 = self.map.width();
        let cols: i32 = self.map.height();
        let goal = new_random_tile(
            rows,
            cols,
            &self.snake.head,
            &self.snake.tail,
            &self.map,
            attempts,
        );
        match goal {
            Some((x, y)) => {
                self.map.activate_tile(x, y);
            },
            None => {},
        }
        goal
    }

    /// Moves the snake one cell on and lets it grow if it is due to.
    pub fn tick(&mut self)
        requires
            old(self).wf(),
            fits_i32(old(self)@.snake.head.update().x),
            fits_i32(old(self)@.snake.head.update().y),
        ensures
            final(self).wf(),
            final(self)@ == old(self)@.ticked(),
    {
        let prev: (i32, i32) = self.snake.step();
        if self.add_segment {
            self.snake.grow(prev.0, prev.1);
            self.add_segment = false;
        }
    }

    /// Runs one frame, `elapsed_ms` milliseconds after the snake last moved.
    ///
    /// Nothing happens while the game is paused. Otherwise the head takes its
    /// heading from the keys, and the cell it is on is checked: on a wall the
    /// snake starts over; on the goal the goal is eaten, a new one is looked
    /// for with at most `attempts` draws, and the snake is due to grow; on a
    /// cell of its own tail the snake starts over. Then, if the tick interval
    /// has passed, the snake moves.
    pub fn frame(&mut self, elapsed_ms: i32, attempts: u32) -> (out: FrameOutcome)
        requires
            old(self).wf(),
            old(self)@.can_step(),
        ensures
            final(self).wf(),
            final(self)@ == old(self)@.frame(elapsed_ms as int, cell_view(out.goal)),
            out.ticked == (!old(self)@.pause && elapsed_ms >= TICK_MS),
            out.ate == (!old(self)@.pause && old(self)@.eats()),
            out.goal is Some ==> out.ate,
            out.goal matches Some((x, y)) ==> goal_candidate(
                x as int,
                y as int,
                old(self)@.map.width,
                old(self)@.map.height,
            ) && goal_allowed(
                x as int,
                y as int,
                old(self)@.steered().snake.head,
                old(self)@.snake.tail,
                old(self)@.map.deactivate(old(self)@.head_cell().0, old(self)@.head_cell().1),
            ),
            out.ate && attempts > 0 && old(self)@.map.width > 2 && old(self)@.map.height > 2
                && every_candidate_allowed(
                old(self)@.map.width,
                old(self)@.map.height,
                old(self)@.steered().snake.head,
                old(self)@.snake.tail,
                old(self)@.map.deactivate(old(self)@.head_cell().0, old(self)@.head_cell().1),
            ) ==> out.goal is Some,
            final(self)@.snake.tail.len() <= old(self)@.snake.tail.len() + 1,
            !out.ticked ==> final(self)@.snake.tail.len() <= old(self)@.snake.tail.len(),
            out.ticked ==> !final(self)@.add_segment,
    {
        if self.pause {
            return FrameOutcome { ticked: false, ate: false, goal: None };
        }
        self.snake.head.inputs(&self.keys);
        let (hx, hy) = self.map.get_tile_coord(self.snake.head.get_x(), self.snake.head.get_y());
        if self.map.is_tile_blocked(hx, hy) {
            self.reset();
        }
        let mut ate: bool = false;
        let mut goal: Option<(i32, i32)> = None;
        if self.map.is_tile_active(hx, hy) {
            self.map.deactivate_tile(hx, hy);
            goal = self.place_goal(attempts);
            self.add_segment = true;
            ate = true;
        }
        if self.tail_on(hx, hy) {
            self.reset();
        }
        let ticked: bool = elapsed_ms >= TICK_MS;
        if ticked {
            self.tick();
        }
        FrameOutcome { ticked, ate, goal }
    }
}

} // verus!
