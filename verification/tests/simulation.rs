use snake::apple::Apple;
use snake::grid::{wrap, Grid};
use snake::round::{Round, Status};
use snake::snake::Snake;
use snake::square::{Direction, Square, SquareColor};
use std::collections::VecDeque;

fn grid20() -> Grid {
    Grid { width: 20, height: 20 }
}

fn white(x: i32, y: i32) -> Square {
    Square { x, y, color: SquareColor::White }
}

fn apple_at(x: i32, y: i32) -> Apple {
    Apple { location: Square { x, y, color: SquareColor::Red } }
}

fn snake_of(cells: Vec<(i32, i32)>) -> Snake {
    let segments: VecDeque<Square> = cells.into_iter().map(|(x, y)| white(x, y)).collect();
    Snake { segments }
}

fn body(s: &Snake) -> Vec<(i32, i32)> {
    s.segments.iter().map(|sq| (sq.x, sq.y)).collect()
}

#[test]
fn wrap_negative_lands_on_far_edge() {
    assert_eq!(wrap(-1, 20), 20);
    assert_eq!(wrap(-5, 3), 3);
}

#[test]
fn wrap_in_range_is_identity() {
    assert_eq!(wrap(0, 20), 0);
    assert_eq!(wrap(5, 20), 5);
    assert_eq!(wrap(19, 20), 19);
}

#[test]
fn wrap_reduces_modulo_dimension() {
    assert_eq!(wrap(20, 20), 0);
    assert_eq!(wrap(21, 20), 1);
    assert_eq!(wrap(45, 20), 5);
}

#[test]
fn wrap_idempotent_below_far_edge() {
    for c in [-7, -1, 0, 1, 2, 3, 6, 7, 8, 100] {
        let w = wrap(c, 7);
        assert!((0..=7).contains(&w));
        if w < 7 {
            assert_eq!(wrap(w, 7), w);
        }
    }
    // the single boundary value: the far edge wraps on to zero
    assert_eq!(wrap(wrap(-1, 7), 7), 0);
}

#[test]
fn new_snake_sits_at_grid_center() {
    let s = Snake::new(&grid20());
    assert_eq!(body(&s), vec![(10, 10), (11, 10)]);
    assert!(s.segments.iter().all(|sq| sq.color == SquareColor::White));
}

#[test]
fn head_is_front_segment() {
    let s = snake_of(vec![(3, 4), (4, 4), (5, 4)]);
    assert_eq!(*s.head(), white(3, 4));
}

#[test]
fn next_head_steps_one_cell_per_direction() {
    let g = grid20();
    let s = snake_of(vec![(10, 10), (11, 10)]);
    assert_eq!(s.get_next_head(&Direction::Left, &g), white(9, 10));
    assert_eq!(s.get_next_head(&Direction::Right, &g), white(11, 10));
    assert_eq!(s.get_next_head(&Direction::Up, &g), white(10, 9));
    assert_eq!(s.get_next_head(&Direction::Down, &g), white(10, 11));
}

#[test]
fn next_head_wraps_at_boundaries() {
    let g = grid20();
    let left_edge = snake_of(vec![(0, 10), (1, 10)]);
    assert_eq!(left_edge.get_next_head(&Direction::Left, &g), white(20, 10));
    let top_edge = snake_of(vec![(10, 0), (10, 1)]);
    assert_eq!(top_edge.get_next_head(&Direction::Up, &g), white(10, 20));
    let right_edge = snake_of(vec![(19, 10), (18, 10)]);
    assert_eq!(right_edge.get_next_head(&Direction::Right, &g), white(0, 10));
    let bottom_edge = snake_of(vec![(10, 19), (10, 18)]);
    assert_eq!(bottom_edge.get_next_head(&Direction::Down, &g), white(10, 0));
}

#[test]
fn overlaps_true_when_head_cell_repeats() {
    let s = snake_of(vec![(1, 1), (2, 1), (2, 2), (1, 2), (1, 1)]);
    assert!(s.overlaps());
}

#[test]
fn overlaps_false_on_disjoint_body() {
    let s = snake_of(vec![(1, 1), (2, 1), (3, 1)]);
    assert!(!s.overlaps());
}

#[test]
fn collides_finds_any_segment_ignoring_color() {
    let s = snake_of(vec![(1, 1), (2, 1), (3, 1)]);
    assert!(s.collides(&Square { x: 3, y: 1, color: SquareColor::Red }));
    assert!(s.collides(&white(1, 1)));
    assert!(!s.collides(&white(4, 1)));
}

#[test]
fn move_without_growing_keeps_length() {
    let g = grid20();
    let mut s = snake_of(vec![(10, 10), (11, 10), (12, 10)]);
    s.move_snake(&Direction::Left, false, &g);
    s.move_snake(&Direction::Up, false, &g);
    s.move_snake(&Direction::Up, false, &g);
    assert_eq!(s.segments.len(), 3);
}

#[test]
fn move_with_growing_adds_one_segment() {
    let g = grid20();
    let mut s = snake_of(vec![(10, 10), (11, 10)]);
    s.move_snake(&Direction::Left, true, &g);
    assert_eq!(s.segments.len(), 3);
    assert_eq!(body(&s), vec![(9, 10), (10, 10), (11, 10)]);
}

#[test]
fn tick_moves_left_and_drops_tail() {
    let mut r = Round::new(grid20());
    assert_eq!(body(&r.snake), vec![(10, 10), (11, 10)]);
    assert_eq!(r.direction, Direction::Left);
    r.apple = apple_at(5, 5); // keep the apple off the snake's path
    r.tick();
    assert_eq!(body(&r.snake), vec![(9, 10), (10, 10)]);
    assert_eq!(r.snake.segments.len(), 2);
    assert!(r.alive());
}

#[test]
fn tick_wraps_head_past_left_edge() {
    let mut r = Round {
        grid: grid20(),
        snake: snake_of(vec![(0, 10), (1, 10)]),
        apple: apple_at(5, 5),
        direction: Direction::Left,
        status: Status::Running,
    };
    r.tick();
    assert_eq!(body(&r.snake), vec![(20, 10), (0, 10)]);
}

#[test]
fn tick_on_overlapping_snake_dies_without_moving() {
    let overlapping = vec![(1, 1), (2, 1), (2, 2), (1, 2), (1, 1)];
    let mut r = Round {
        grid: grid20(),
        snake: snake_of(overlapping.clone()),
        apple: apple_at(5, 5),
        direction: Direction::Left,
        status: Status::Running,
    };
    r.tick();
    assert!(!r.alive());
    assert_eq!(r.status, Status::Dead);
    assert_eq!(body(&r.snake), overlapping);
}

#[test]
fn tick_on_dead_round_is_a_no_op() {
    let mut r = Round {
        grid: grid20(),
        snake: snake_of(vec![(3, 3), (4, 3)]),
        apple: apple_at(5, 5),
        direction: Direction::Right,
        status: Status::Dead,
    };
    r.tick();
    assert!(!r.alive());
    assert_eq!(body(&r.snake), vec![(3, 3), (4, 3)]);
    assert_eq!(r.apple, apple_at(5, 5));
}

#[test]
fn tick_on_apple_grows_and_respawns_apple() {
    // the apple sits on the head's current cell, not on the next-step cell
    let mut r = Round {
        grid: grid20(),
        snake: snake_of(vec![(10, 10), (11, 10)]),
        apple: apple_at(10, 10),
        direction: Direction::Left,
        status: Status::Running,
    };
    r.tick();
    assert!(r.alive());
    assert_eq!(r.snake.segments.len(), 3);
    assert_eq!(body(&r.snake), vec![(9, 10), (10, 10), (11, 10)]);
    // the new apple is freshly spawned inside the nominal range
    assert!((0..20).contains(&r.apple.location.x));
    assert!((0..20).contains(&r.apple.location.y));
}

#[test]
fn apple_on_unit_grid_must_sit_at_origin() {
    let g = Grid { width: 1, height: 1 };
    let a = Apple::new(&g);
    assert_eq!(a.location.x, 0);
    assert_eq!(a.location.y, 0);
    assert_eq!(a.location.color, SquareColor::Red);
}

#[test]
fn apple_spawns_inside_nominal_range() {
    let g = grid20();
    for _ in 0..50 {
        let a = Apple::new(&g);
        assert!((0..20).contains(&a.location.x));
        assert!((0..20).contains(&a.location.y));
    }
}

#[test]
fn set_heading_overwrites_unconditionally() {
    let mut r = Round::new(grid20());
    r.set_heading(Direction::Up);
    assert_eq!(r.direction, Direction::Up);
    // reversing into one's own neck is accepted, not rejected
    r.set_heading(Direction::Right);
    assert_eq!(r.direction, Direction::Right);
}

#[test]
fn reversing_into_neck_dies_on_the_following_tick() {
    let mut r = Round {
        grid: grid20(),
        snake: snake_of(vec![(10, 10), (11, 10), (12, 10)]),
        apple: apple_at(5, 5),
        direction: Direction::Right,
        status: Status::Running,
    };
    r.tick(); // head moves onto (11, 10): the body now self-intersects
    assert!(r.alive());
    assert_eq!(body(&r.snake), vec![(11, 10), (10, 10), (11, 10)]);
    r.tick(); // the overlap is detected one tick later
    assert!(!r.alive());
    assert_eq!(body(&r.snake), vec![(11, 10), (10, 10), (11, 10)]);
}

#[test]
fn restart_replaces_a_dead_round() {
    let mut r = Round {
        grid: grid20(),
        snake: snake_of(vec![(1, 1), (2, 1), (1, 1)]),
        apple: apple_at(5, 5),
        direction: Direction::Down,
        status: Status::Running,
    };
    r.tick();
    assert!(!r.alive());
    r = Round::new(r.grid);
    assert!(r.alive());
    assert_eq!(body(&r.snake), vec![(10, 10), (11, 10)]);
    assert_eq!(r.direction, Direction::Left);
}

#[test]
fn small_grid_wrap_and_overlap() {
    // a 3x3 grid exercises the wrap edge cheaply
    let g = Grid { width: 3, height: 3 };
    let mut r = Round {
        grid: g,
        snake: snake_of(vec![(0, 1), (1, 1)]),
        apple: apple_at(2, 2),
        direction: Direction::Left,
        status: Status::Running,
    };
    r.tick();
    assert_eq!(body(&r.snake), vec![(3, 1), (0, 1)]);
}
