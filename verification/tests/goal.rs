use snake_game::direction::Direction;
use snake_game::goal::{new_random_tile, rand_range, tile_allowed};
use snake_game::grid::Grid;
use snake_game::head::Head;
use snake_game::tail::Tail;
use snake_game::tile::{Tile, TileType};

fn grid(rows: &[&str]) -> Grid {
    let mut tiles = Vec::new();
    for row in rows {
        for c in row.chars() {
            tiles.push(Tile::new(match c {
                '1' => TileType::Blocked,
                '2' => TileType::Active,
                _ => TileType::NonBlocked,
            }));
        }
    }
    Grid::new(rows[0].len() as i32, rows.len() as i32, tiles).unwrap()
}

fn open_grid(width: usize, height: usize) -> Grid {
    let tiles = vec![Tile::new(TileType::NonBlocked); width * height];
    Grid::new(width as i32, height as i32, tiles).unwrap()
}

fn head_at(cx: i32, cy: i32) -> Head {
    Head::new(cx * 25, cy * 25, Direction::Right)
}

#[test]
fn rand_range_stays_within_its_bounds() {
    for _ in 0..2000 {
        let r = rand_range(1, 31);
        assert!(1 <= r && r < 31);
        let r = rand_range(-5, 5);
        assert!(-5 <= r && r < 5);
    }
}

#[test]
fn rand_range_takes_its_bounds_in_either_order() {
    for _ in 0..2000 {
        let r = rand_range(31, 1);
        assert!(1 <= r && r < 31);
        let r = rand_range(1, 0);
        assert_eq!(r, 0);
        let r = rand_range(1, -1);
        assert!(r == -1 || r == 0);
    }
}

#[test]
fn rand_range_of_one_number_is_that_number() {
    for _ in 0..200 {
        assert_eq!(rand_range(5, 6), 5);
        assert_eq!(rand_range(1, 2), 1);
        assert_eq!(rand_range(-7, -8), -8);
        assert_eq!(rand_range(i32::MAX - 1, i32::MAX), i32::MAX - 1);
        assert_eq!(rand_range(i32::MIN, i32::MIN + 1), i32::MIN);
    }
}

#[test]
fn rand_range_does_not_repeat_one_number() {
    let mut seen = [false; 10];
    for _ in 0..5000 {
        seen[rand_range(0, 10) as usize] = true;
    }
    assert!(seen.iter().all(|s| *s));
    let mut seen_wide = std::collections::HashSet::new();
    for _ in 0..200 {
        seen_wide.insert(rand_range(i32::MIN, i32::MAX));
    }
    assert!(seen_wide.len() > 100);
}

#[test]
fn a_free_cell_away_from_the_snake_is_allowed() {
    let g = open_grid(8, 8);
    let tail = vec![Tail::new(50, 75), Tail::new(25, 75)];
    assert!(tile_allowed(5, 5, &head_at(3, 3), &tail, &g));
    assert!(tile_allowed(4, 4, &head_at(3, 3), &tail, &g));
}

#[test]
fn the_head_rules_out_its_whole_column_and_row() {
    let g = open_grid(8, 8);
    let none: Vec<Tail> = Vec::new();
    let h = head_at(3, 2);
    for v in 0..8 {
        assert!(!tile_allowed(3, v, &h, &none, &g));
        assert!(!tile_allowed(v, 2, &h, &none, &g));
    }
    for x in 0..8 {
        for y in 0..8 {
            assert_eq!(tile_allowed(x, y, &h, &none, &g), x != 3 && y != 2);
        }
    }
}

#[test]
fn every_segment_rules_out_its_column_and_row() {
    let g = open_grid(8, 8);
    let h = head_at(0, 0);
    let tail = vec![Tail::new(25, 25), Tail::new(6 * 25, 4 * 25)];
    for x in 0..8 {
        for y in 0..8 {
            let want = x != 0 && y != 0 && x != 1 && y != 1 && x != 6 && y != 4;
            assert_eq!(tile_allowed(x, y, &h, &tail, &g), want);
        }
    }
}

#[test]
fn an_inactive_segment_rules_out_cells_too() {
    let g = open_grid(8, 8);
    let tail = vec![Tail { x: 75, y: 100, is_active: false }];
    assert!(!tile_allowed(3, 6, &head_at(0, 0), &tail, &g));
    assert!(!tile_allowed(6, 4, &head_at(0, 0), &tail, &g));
    assert!(tile_allowed(6, 6, &head_at(0, 0), &tail, &g));
}

#[test]
fn a_wall_is_not_allowed() {
    let g = grid(&["0000", "0100", "0020", "0000"]);
    let none: Vec<Tail> = Vec::new();
    let h = head_at(0, 0);
    assert!(!tile_allowed(1, 1, &h, &none, &g));
    assert!(tile_allowed(2, 1, &h, &none, &g));
    assert!(tile_allowed(2, 2, &h, &none, &g));
    // Off the grid nothing is a wall.
    assert!(tile_allowed(7, 9, &h, &none, &g));
    assert!(tile_allowed(-3, -1, &h, &none, &g));
}

#[test]
fn a_snake_off_the_grid_rules_out_by_its_cell() {
    let g = open_grid(8, 8);
    let none: Vec<Tail> = Vec::new();
    // Pixel -30 lies in cell -1, pixel -10 in cell 0.
    let h = Head::new(-30, -10, Direction::Left);
    assert!(!tile_allowed(-1, 5, &h, &none, &g));
    assert!(!tile_allowed(5, 0, &h, &none, &g));
    assert!(tile_allowed(5, 5, &h, &none, &g));
    assert!(tile_allowed(0, -1, &h, &none, &g));
}

#[test]
fn the_goal_is_drawn_off_the_rim() {
    let g = open_grid(6, 5);
    let none: Vec<Tail> = Vec::new();
    let h = head_at(0, 0);
    let mut seen = std::collections::HashSet::new();
    for _ in 0..3000 {
        let (x, y) = new_random_tile(6, 5, &h, &none, &g, 1).unwrap();
        assert!(1 <= x && x < 5);
        assert!(1 <= y && y < 4);
        seen.insert((x, y));
    }
    assert_eq!(seen.len(), 12);
}

#[test]
fn the_goal_is_always_an_allowed_cell() {
    let g = grid(&[
        "11111111",
        "10000001",
        "10010001",
        "10000101",
        "10000001",
        "11111111",
    ]);
    let h = head_at(2, 1);
    let tail = vec![Tail::new(25, 25)];
    let mut found = 0;
    for _ in 0..3000 {
        if let Some((x, y)) = new_random_tile(8, 6, &h, &tail, &g, 3) {
            found += 1;
            assert!(tile_allowed(x, y, &h, &tail, &g));
            assert!(x != 2 && x != 1 && y != 1);
            assert!(!g.is_tile_blocked(x, y));
            assert!(1 <= x && x < 7 && 1 <= y && y < 5);
        }
    }
    assert!(found > 0);
}

#[test]
fn no_draw_finds_no_goal() {
    let g = open_grid(8, 8);
    let none: Vec<Tail> = Vec::new();
    assert_eq!(new_random_tile(8, 8, &head_at(0, 0), &none, &g, 0), None);
}

#[test]
fn a_grid_that_is_all_rim_has_no_goal() {
    let none: Vec<Tail> = Vec::new();
    let h = head_at(0, 0);
    for (w, hgt) in [(2, 2), (2, 8), (8, 2), (1, 1), (0, 0), (1, 5), (8, 0)] {
        let g = open_grid(w, hgt);
        assert_eq!(new_random_tile(w as i32, hgt as i32, &h, &none, &g, 50), None);
    }
    let g = open_grid(4, 4);
    assert_eq!(new_random_tile(-3, 4, &h, &none, &g, 50), None);
    assert_eq!(new_random_tile(4, i32::MIN, &h, &none, &g, 50), None);
}

#[test]
fn one_draw_is_enough_where_every_cell_is_allowed() {
    let g = open_grid(4, 4);
    let none: Vec<Tail> = Vec::new();
    // The head is on the rim, so it shares no line with the cells 1..3 x 1..3.
    let h = head_at(3, 3);
    for _ in 0..500 {
        let (x, y) = new_random_tile(4, 4, &h, &none, &g, 1).unwrap();
        assert!((x == 1 || x == 2) && (y == 1 || y == 2));
    }
}

#[test]
fn no_goal_where_no_cell_is_allowed() {
    let walls = grid(&["0000", "0110", "0110", "0000"]);
    let none: Vec<Tail> = Vec::new();
    assert_eq!(new_random_tile(4, 4, &head_at(0, 0), &none, &walls, 200), None);
    // A 3 by 3 grid has one cell off the rim; the head shares its column.
    let g = open_grid(3, 3);
    assert_eq!(new_random_tile(3, 3, &head_at(1, 0), &none, &g, 200), None);
    // Head and one segment between them cover both columns off the rim.
    let g = open_grid(4, 4);
    let tail = vec![Tail::new(50, 0)];
    assert_eq!(new_random_tile(4, 4, &head_at(1, 0), &tail, &g, 200), None);
}
