use snake_game::direction::Direction;
use snake_game::head::Head;
use snake_game::keys::{on_key_down, on_key_up, Key, KeyMap};
use snake_game::render::{Color, Rect};
use snake_game::snake::Snake;
use snake_game::tail::Tail;

const ALL: [Direction; 4] = [Direction::Up, Direction::Down, Direction::Left, Direction::Right];

fn opposite(d: Direction) -> Direction {
    match d {
        Direction::Up => Direction::Down,
        Direction::Down => Direction::Up,
        Direction::Left => Direction::Right,
        Direction::Right => Direction::Left,
    }
}

fn keys(w: bool, a: bool, s: bool, d: bool) -> KeyMap {
    KeyMap { w, a, s, d }
}

fn key_for(d: Direction) -> KeyMap {
    match d {
        Direction::Up => keys(true, false, false, false),
        Direction::Down => keys(false, false, true, false),
        Direction::Left => keys(false, true, false, false),
        Direction::Right => keys(false, false, false, true),
    }
}

#[test]
fn unit_steps() {
    assert_eq!(Direction::Up.unit(), (0, -1));
    assert_eq!(Direction::Down.unit(), (0, 1));
    assert_eq!(Direction::Left.unit(), (-1, 0));
    assert_eq!(Direction::Right.unit(), (1, 0));
}

#[test]
fn key_map_starts_with_no_key_held() {
    assert_eq!(KeyMap::new(), keys(false, false, false, false));
}

#[test]
fn key_down_and_up_set_one_key() {
    let mut m = KeyMap::new();
    on_key_down(&mut m, &Key::W);
    assert_eq!(m, keys(true, false, false, false));
    on_key_down(&mut m, &Key::D);
    assert_eq!(m, keys(true, false, false, true));
    on_key_down(&mut m, &Key::A);
    on_key_down(&mut m, &Key::S);
    assert_eq!(m, keys(true, true, true, true));
    on_key_up(&mut m, &Key::W);
    assert_eq!(m, keys(false, true, true, true));
    on_key_up(&mut m, &Key::S);
    assert_eq!(m, keys(false, true, false, true));
    on_key_up(&mut m, &Key::S);
    assert_eq!(m, keys(false, true, false, true));
}

#[test]
fn keys_that_are_not_tracked_are_ignored() {
    let mut m = keys(true, false, true, false);
    for k in [Key::P, Key::Escape, Key::Other] {
        on_key_down(&mut m, &k);
        assert_eq!(m, keys(true, false, true, false));
        on_key_up(&mut m, &k);
        assert_eq!(m, keys(true, false, true, false));
    }
}

#[test]
fn new_head_is_active() {
    let h = Head::new(150, 150, Direction::Right);
    assert_eq!(h, Head { x: 150, y: 150, is_active: true, dir: Direction::Right });
    assert_eq!(h.get_x(), 150);
    assert_eq!(h.get_y(), 150);
}

#[test]
fn head_setters() {
    let mut h = Head::new(150, 150, Direction::Right);
    h.set_pos(-25, 400);
    assert_eq!(h, Head { x: -25, y: 400, is_active: true, dir: Direction::Right });
    h.set_direction(Direction::Up);
    assert_eq!(h, Head { x: -25, y: 400, is_active: true, dir: Direction::Up });
}

#[test]
fn head_moves_one_cell_along_its_heading() {
    let at = |dir| {
        let mut h = Head::new(150, 150, dir);
        h.update();
        (h.get_x(), h.get_y(), h.dir, h.is_active)
    };
    assert_eq!(at(Direction::Up), (150, 125, Direction::Up, true));
    assert_eq!(at(Direction::Down), (150, 175, Direction::Down, true));
    assert_eq!(at(Direction::Left), (125, 150, Direction::Left, true));
    assert_eq!(at(Direction::Right), (175, 150, Direction::Right, true));
}

#[test]
fn head_moves_without_regard_to_any_bounds() {
    let mut h = Head::new(0, 0, Direction::Left);
    h.update();
    h.update();
    assert_eq!((h.get_x(), h.get_y()), (-50, 0));
    let mut h = Head::new(i32::MAX - 25, i32::MIN + 25, Direction::Right);
    h.update();
    assert_eq!(h.get_x(), i32::MAX);
    h.set_direction(Direction::Up);
    h.update();
    assert_eq!(h.get_y(), i32::MIN);
}

#[test]
fn inactive_head_neither_moves_nor_steers() {
    let mut h = Head { x: 50, y: 75, is_active: false, dir: Direction::Right };
    h.update();
    assert_eq!(h, Head { x: 50, y: 75, is_active: false, dir: Direction::Right });
    h.inputs(&keys(true, true, true, true));
    assert_eq!(h, Head { x: 50, y: 75, is_active: false, dir: Direction::Right });
}

#[test]
fn head_reset_goes_to_the_given_place_heading_right() {
    for d in ALL {
        let mut h = Head::new(300, 25, d);
        h.reset(150, 150);
        assert_eq!(h, Head { x: 150, y: 150, is_active: true, dir: Direction::Right });
    }
    let mut h = Head { x: 1, y: 2, is_active: false, dir: Direction::Up };
    h.reset(25, 50);
    assert_eq!(h, Head { x: 25, y: 50, is_active: false, dir: Direction::Right });
}

#[test]
fn a_single_key_turns_the_head_unless_it_asks_to_reverse() {
    for from in ALL {
        for to in ALL {
            let mut h = Head::new(150, 150, from);
            h.inputs(&key_for(to));
            let want = if to == opposite(from) { from } else { to };
            assert_eq!(h.dir, want);
            assert_eq!((h.x, h.y, h.is_active), (150, 150, true));
        }
    }
}

#[test]
fn no_key_keeps_the_heading() {
    for from in ALL {
        let mut h = Head::new(150, 150, from);
        h.inputs(&KeyMap::new());
        assert_eq!(h.dir, from);
    }
}

#[test]
fn reversal_is_rejected_whatever_else_is_pressed() {
    for from in ALL {
        for bits in 0..16 {
            let m = keys(bits & 1 != 0, bits & 2 != 0, bits & 4 != 0, bits & 8 != 0);
            let mut h = Head::new(150, 150, from);
            h.inputs(&m);
            assert_ne!(h.dir, opposite(from));
        }
    }
}

#[test]
fn keys_are_looked_at_in_the_order_up_down_left_right() {
    let turn = |from, m: KeyMap| {
        let mut h = Head::new(150, 150, from);
        h.inputs(&m);
        h.dir
    };
    // Everything held: up wins unless the head goes down, then down wins.
    assert_eq!(turn(Direction::Right, keys(true, true, true, true)), Direction::Up);
    assert_eq!(turn(Direction::Left, keys(true, true, true, true)), Direction::Up);
    assert_eq!(turn(Direction::Up, keys(true, true, true, true)), Direction::Up);
    assert_eq!(turn(Direction::Down, keys(true, true, true, true)), Direction::Down);
    // Down and a sideways key.
    assert_eq!(turn(Direction::Right, keys(false, true, true, false)), Direction::Down);
    assert_eq!(turn(Direction::Up, keys(false, true, true, false)), Direction::Left);
    assert_eq!(turn(Direction::Up, keys(false, false, true, true)), Direction::Right);
    // Left and right together.
    assert_eq!(turn(Direction::Up, keys(false, true, false, true)), Direction::Left);
    assert_eq!(turn(Direction::Right, keys(false, true, false, true)), Direction::Right);
    assert_eq!(turn(Direction::Left, keys(false, true, false, true)), Direction::Left);
    // Up held while going down, with a sideways key: the sideways key is taken.
    assert_eq!(turn(Direction::Down, keys(true, false, false, true)), Direction::Right);
}

#[test]
fn head_is_drawn_white_where_it_is() {
    let h = Head::new(150, -25, Direction::Right);
    assert_eq!(
        h.draw(),
        Some(Rect { x: 150, y: -25, width: 25, height: 25, color: Color::White })
    );
    let hidden = Head { x: 150, y: -25, is_active: false, dir: Direction::Right };
    assert_eq!(hidden.draw(), None);
}

#[test]
fn new_segment_is_active() {
    let t = Tail::new(75, 100);
    assert_eq!(t, Tail { x: 75, y: 100, is_active: true });
    assert_eq!(t.get_x(), 75);
    assert_eq!(t.get_y(), 100);
}

#[test]
fn segment_goes_where_it_is_told() {
    let mut t = Tail::new(75, 100);
    t.update(100, 100);
    assert_eq!(t, Tail { x: 100, y: 100, is_active: true });
    t.update(-500, 2000);
    assert_eq!(t, Tail { x: -500, y: 2000, is_active: true });
}

#[test]
fn inactive_segment_stays() {
    let mut t = Tail { x: 75, y: 100, is_active: false };
    t.update(100, 100);
    assert_eq!(t, Tail { x: 75, y: 100, is_active: false });
}

#[test]
fn segment_is_drawn_red_where_it_is() {
    let t = Tail::new(75, 100);
    assert_eq!(t.draw(), Some(Rect { x: 75, y: 100, width: 25, height: 25, color: Color::Red }));
    assert_eq!(Tail { x: 75, y: 100, is_active: false }.draw(), None);
}

fn snake(head: (i32, i32), dir: Direction, tail: &[(i32, i32)]) -> Snake {
    let mut s = Snake::new(Head::new(head.0, head.1, dir));
    for &(x, y) in tail {
        s.grow(x, y);
    }
    s
}

fn places(s: &Snake) -> Vec<(i32, i32)> {
    s.tail.iter().map(|t| (t.get_x(), t.get_y())).collect()
}

#[test]
fn new_snake_is_a_lone_head() {
    let s = Snake::new(Head::new(150, 150, Direction::Right));
    assert_eq!(s.head, Head::new(150, 150, Direction::Right));
    assert!(s.tail.is_empty());
}

#[test]
fn grow_appends_behind_the_others() {
    let mut s = Snake::new(Head::new(150, 150, Direction::Right));
    s.grow(125, 150);
    assert_eq!(s.tail, vec![Tail::new(125, 150)]);
    s.grow(100, 150);
    assert_eq!(s.tail, vec![Tail::new(125, 150), Tail::new(100, 150)]);
    assert_eq!(s.head, Head::new(150, 150, Direction::Right));
}

#[test]
fn step_of_a_lone_head_frees_the_head_position() {
    let mut s = snake((150, 150), Direction::Down, &[]);
    assert_eq!(s.step(), (150, 150));
    assert_eq!(s.head, Head::new(150, 175, Direction::Down));
    assert!(s.tail.is_empty());
}

#[test]
fn step_moves_each_segment_to_where_the_one_ahead_was() {
    let mut s = snake((150, 150), Direction::Right, &[(125, 150), (125, 125), (100, 125)]);
    let freed = s.step();
    assert_eq!(s.head, Head::new(175, 150, Direction::Right));
    assert_eq!(places(&s), vec![(150, 150), (125, 150), (125, 125)]);
    assert_eq!(freed, (100, 125));
    let freed = s.step();
    assert_eq!(s.head, Head::new(200, 150, Direction::Right));
    assert_eq!(places(&s), vec![(175, 150), (150, 150), (125, 150)]);
    assert_eq!(freed, (125, 125));
}

#[test]
fn step_keeps_the_chain_through_a_turn() {
    let mut s = snake((150, 150), Direction::Right, &[(125, 150), (100, 150)]);
    s.head.set_direction(Direction::Up);
    s.step();
    assert_eq!((s.head.x, s.head.y), (150, 125));
    assert_eq!(places(&s), vec![(150, 150), (125, 150)]);
    s.step();
    assert_eq!((s.head.x, s.head.y), (150, 100));
    assert_eq!(places(&s), vec![(150, 125), (150, 150)]);
}

#[test]
fn step_passes_the_old_position_of_an_inactive_segment_on() {
    let mut s = snake((150, 150), Direction::Right, &[(125, 150), (100, 150), (75, 150)]);
    s.tail[1].is_active = false;
    let freed = s.step();
    assert_eq!(places(&s), vec![(150, 150), (100, 150), (100, 150)]);
    assert_eq!(freed, (75, 150));
}

#[test]
fn growing_at_the_freed_position_keeps_the_snake_in_one_piece() {
    let mut s = snake((150, 150), Direction::Right, &[(125, 150)]);
    let freed = s.step();
    s.grow(freed.0, freed.1);
    assert_eq!((s.head.x, s.head.y), (175, 150));
    assert_eq!(places(&s), vec![(150, 150), (125, 150)]);
}

#[test]
fn reset_all_drops_the_tail_and_respawns_the_head() {
    let mut s = snake((300, 75), Direction::Up, &[(300, 100), (300, 125), (275, 125)]);
    s.reset_all(150, 150);
    assert!(s.tail.is_empty());
    assert_eq!(s.head, Head { x: 150, y: 150, is_active: true, dir: Direction::Right });
}

#[test]
fn reset_all_of_a_lone_head() {
    let mut s = snake((0, 0), Direction::Left, &[]);
    s.reset_all(25, 25);
    assert!(s.tail.is_empty());
    assert_eq!(s.head, Head::new(25, 25, Direction::Right));
}
