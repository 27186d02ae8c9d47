use rsnake::apple::{accepts, place};
use rsnake::point::{Point, GRID_SIZE};
use rsnake::snake::{Direction, MoveOutcome, Snake, CENTER, INITIAL_LENGTH};
use rsnake::tick::{TickScheduler, TICK_DELAY};

fn pt(x: i32, y: i32) -> Point {
    Point { x, y }
}

fn body_of(snake: &Snake) -> Vec<Point> {
    snake.body.iter().copied().collect()
}

/// Steps and drops the tail, as an ordinary move does.
fn slide(snake: &mut Snake, dir: Direction) -> MoveOutcome {
    let outcome = snake.mov(dir);
    if outcome == MoveOutcome::Alive {
        snake.shrink();
    }
    outcome
}

#[test]
fn constants_describe_the_standard_board() {
    assert_eq!(GRID_SIZE, 20);
    assert_eq!(CENTER, GRID_SIZE / 2);
    assert_eq!(INITIAL_LENGTH, 3);
    assert_eq!(TICK_DELAY, 10);
}

#[test]
fn point_bounds() {
    assert!(pt(0, 0).in_bounds());
    assert!(pt(19, 19).in_bounds());
    assert!(!pt(20, 0).in_bounds());
    assert!(!pt(0, 20).in_bounds());
    assert!(!pt(-1, 5).in_bounds());
    assert!(!pt(5, -1).in_bounds());
}

#[test]
fn new_snake_hangs_down_from_the_centre() {
    let snake = Snake::new(3);
    assert_eq!(snake.head, pt(10, 10));
    assert_eq!(body_of(&snake), vec![pt(10, 11), pt(10, 12)]);
}

#[test]
fn new_snake_of_zero_or_one_is_a_head_alone() {
    let none = Snake::new(0);
    assert_eq!(none.head, pt(10, 10));
    assert!(body_of(&none).is_empty());
    let one = Snake::new(1);
    assert_eq!(one.head, pt(10, 10));
    assert!(body_of(&one).is_empty());
}

#[test]
fn new_snake_of_greatest_length_ends_on_the_last_row() {
    let snake = Snake::new(10);
    let body = body_of(&snake);
    assert_eq!(body.len(), 9);
    assert_eq!(body[0], pt(10, 11));
    assert_eq!(body[8], pt(10, 19));
}

#[test]
fn step_offsets_by_one_cell_each_way() {
    let mut up = Snake::new(3);
    assert_eq!(up.mov(Direction::Up), MoveOutcome::Alive);
    assert_eq!(up.head, pt(10, 9));
    let mut left = Snake::new(3);
    assert_eq!(left.mov(Direction::Left), MoveOutcome::Alive);
    assert_eq!(left.head, pt(9, 10));
    let mut right = Snake::new(3);
    assert_eq!(right.mov(Direction::Right), MoveOutcome::Alive);
    assert_eq!(right.head, pt(11, 10));
    let mut down = Snake::new(1);
    assert_eq!(down.mov(Direction::Down), MoveOutcome::Alive);
    assert_eq!(down.head, pt(10, 11));
}

#[test]
fn step_only_appends() {
    let mut snake = Snake::new(3);
    assert_eq!(snake.mov(Direction::Up), MoveOutcome::Alive);
    assert_eq!(body_of(&snake), vec![pt(10, 10), pt(10, 11), pt(10, 12)]);
    snake.shrink();
    assert_eq!(body_of(&snake), vec![pt(10, 10), pt(10, 11)]);
}

#[test]
fn shrink_of_an_empty_body_changes_nothing() {
    let mut snake = Snake::new(1);
    snake.shrink();
    assert_eq!(snake.head, pt(10, 10));
    assert!(body_of(&snake).is_empty());
}

#[test]
fn step_straight_back_is_a_self_collision() {
    let mut snake = Snake::new(3);
    assert_eq!(snake.mov(Direction::Down), MoveOutcome::Collided);
    assert_eq!(snake.head, pt(10, 10));
    assert_eq!(body_of(&snake), vec![pt(10, 10), pt(10, 11), pt(10, 12)]);
}

#[test]
fn step_into_own_body_is_a_self_collision() {
    let mut snake = Snake::new(5);
    assert_eq!(slide(&mut snake, Direction::Left), MoveOutcome::Alive);
    assert_eq!(slide(&mut snake, Direction::Down), MoveOutcome::Alive);
    assert_eq!(snake.head, pt(9, 11));
    assert_eq!(snake.mov(Direction::Right), MoveOutcome::Collided);
    assert_eq!(snake.head, pt(9, 11));
}

#[test]
fn step_into_the_left_wall_collides_and_keeps_the_old_head_in_front() {
    let mut snake = Snake::new(3);
    for _ in 0..10 {
        assert_eq!(slide(&mut snake, Direction::Left), MoveOutcome::Alive);
    }
    assert_eq!(snake.head, pt(0, 10));
    let before = body_of(&snake);
    assert_eq!(snake.mov(Direction::Left), MoveOutcome::Collided);
    let after = body_of(&snake);
    assert_eq!(after[0], pt(0, 10));
    assert_eq!(after.len(), before.len() + 1);
    assert_eq!(&after[1..], &before[..]);
    assert_eq!(snake.head, pt(0, 10));
}

#[test]
fn step_into_each_wall_collides() {
    let walls = [
        (Direction::Up, 10, pt(10, 0)),
        (Direction::Right, 9, pt(19, 10)),
        (Direction::Left, 10, pt(0, 10)),
    ];
    for (dir, steps, edge) in walls {
        let mut snake = Snake::new(3);
        for _ in 0..steps {
            assert_eq!(slide(&mut snake, dir), MoveOutcome::Alive);
        }
        assert_eq!(snake.head, edge);
        assert_eq!(snake.mov(dir), MoveOutcome::Collided);
        assert_eq!(body_of(&snake)[0], edge);
    }
    let mut snake = Snake::new(3);
    assert_eq!(slide(&mut snake, Direction::Left), MoveOutcome::Alive);
    for _ in 0..9 {
        assert_eq!(slide(&mut snake, Direction::Down), MoveOutcome::Alive);
    }
    assert_eq!(snake.head, pt(9, 19));
    assert_eq!(snake.mov(Direction::Down), MoveOutcome::Collided);
    assert_eq!(body_of(&snake)[0], pt(9, 19));
}

#[test]
fn occupies_tells_head_and_body_from_free_cells() {
    let snake = Snake::new(3);
    assert!(snake.occupies(pt(10, 10)));
    assert!(snake.occupies(pt(10, 11)));
    assert!(snake.occupies(pt(10, 12)));
    assert!(!snake.occupies(pt(10, 13)));
    assert!(!snake.body_contains(pt(10, 10)));
    assert!(snake.body_contains(pt(10, 12)));
}

#[test]
fn clone_is_a_second_snake_on_the_same_cells() {
    let mut snake = Snake::new(3);
    let copy = snake.clone();
    assert_eq!(copy.head, snake.head);
    assert_eq!(body_of(&copy), body_of(&snake));
    let _ = snake.mov(Direction::Up);
    assert_eq!(copy.head, pt(10, 10));
    assert_eq!(body_of(&copy), vec![pt(10, 11), pt(10, 12)]);
}

#[test]
fn apple_is_accepted_on_free_cells_of_the_board_only() {
    let snake = Snake::new(3);
    assert!(accepts(&snake, pt(0, 0)));
    assert!(accepts(&snake, pt(19, 19)));
    assert!(!accepts(&snake, pt(10, 10)));
    assert!(!accepts(&snake, pt(10, 12)));
    assert!(!accepts(&snake, pt(20, 3)));
    assert!(!accepts(&snake, pt(3, -1)));
}

#[test]
fn place_takes_the_first_free_draw() {
    let snake = Snake::new(3);
    let draws = vec![pt(10, 10), pt(10, 11), pt(25, 1), pt(4, 7), pt(5, 5)];
    assert_eq!(place(&snake, &draws), Some(pt(4, 7)));
}

#[test]
fn place_rejects_a_run_without_a_free_draw() {
    let snake = Snake::new(3);
    assert_eq!(place(&snake, &vec![pt(10, 10), pt(10, 11), pt(10, 12)]), None);
    assert_eq!(place(&snake, &Vec::new()), None);
}

#[test]
fn placed_apple_is_never_on_the_snake() {
    let mut snake = Snake::new(3);
    let _ = snake.mov(Direction::Left);
    let _ = snake.mov(Direction::Up);
    let mut draws = Vec::new();
    for y in 0..GRID_SIZE {
        for x in 0..GRID_SIZE {
            draws.push(pt(x, y));
        }
    }
    for start in 0..draws.len() {
        let apple = place(&snake, &draws[start..].to_vec());
        if let Some(a) = apple {
            assert!(a != snake.head);
            assert!(!body_of(&snake).contains(&a));
            assert!(a.in_bounds());
        }
    }
}

#[test]
fn tick_fires_on_every_delay_th_frame() {
    let mut gate = TickScheduler::new(3);
    let fired: Vec<bool> = (0..7).map(|_| gate.tick()).collect();
    assert_eq!(fired, vec![false, false, true, false, false, true, false]);
    assert_eq!(gate.count, 1);
    assert_eq!(gate.delay, 3);
}

#[test]
fn tick_of_the_standard_delay_fires_on_the_tenth_frame() {
    let mut gate = TickScheduler::new(TICK_DELAY);
    for _ in 0..9 {
        assert!(!gate.tick());
    }
    assert_eq!(gate.count, 9);
    assert!(gate.tick());
    assert_eq!(gate.count, 0);
}

#[test]
fn tick_with_delay_zero_or_one_fires_every_frame() {
    let mut zero = TickScheduler::new(0);
    let mut one = TickScheduler::new(1);
    for _ in 0..4 {
        assert!(zero.tick());
        assert!(one.tick());
        assert_eq!(zero.count, 0);
        assert_eq!(one.count, 0);
    }
}

#[test]
fn some_cell_of_the_board_is_free_for_a_short_snake() {
    let mut snake = Snake::new(10);
    for _ in 0..5 {
        let _ = snake.mov(Direction::Left);
    }
    let mut draws = Vec::new();
    for y in 0..GRID_SIZE {
        for x in 0..GRID_SIZE {
            draws.push(pt(x, y));
        }
    }
    assert_eq!(place(&snake, &draws), Some(pt(0, 0)));
    let column: Vec<Point> = (10..20).map(|y| pt(10, y)).collect();
    assert_eq!(place(&snake, &column), None);
}
