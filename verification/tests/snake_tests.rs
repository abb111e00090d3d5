use retro_vm::clock::Clock;
use retro_vm::grid::{Direction, Position};
use retro_vm::input::HeldKeys;
use retro_vm::snake::{SnakeGame, TickResult, INITIAL_LENGTH};

fn at(x: i32, y: i32) -> Position {
    Position { x, y }
}

fn game(body: Vec<Position>, direction: Direction, food: Position) -> SnakeGame {
    SnakeGame::from_parts(body, direction, food, Clock::new(0), false).expect("a valid position")
}

fn start_body() -> Vec<Position> {
    vec![at(10, 10), at(10, 11), at(10, 12)]
}

#[test]
fn new_game_is_at_the_start() {
    let g = SnakeGame::new(42);
    assert_eq!(g.body(), &start_body());
    assert_eq!(g.head(), at(10, 10));
    assert_eq!(g.direction(), Direction::Up);
    assert!(!g.is_game_over());
    assert!(g.food().is_in_food_region());
    assert_eq!(g.clock(), Clock { last_move: 42, move_interval: 200 });
    assert_eq!(g.score(), 0);
    assert_eq!(INITIAL_LENGTH, 3);
}

#[test]
fn tick_on_finished_game_is_a_no_op() {
    let mut g = SnakeGame::from_parts(start_body(), Direction::Up, at(10, 9), Clock::new(5), true)
        .expect("a valid position");
    for d in [Direction::Up, Direction::Down, Direction::Left, Direction::Right] {
        assert_eq!(g.outcome(d), TickResult::GameOver);
        assert_eq!(g.tick(d), TickResult::GameOver);
        assert_eq!(g.tick_with(d, at(7, 7)), TickResult::GameOver);
        assert_eq!(g.body(), &start_body());
        assert_eq!(g.food(), at(10, 9));
        assert_eq!(g.direction(), Direction::Up);
        assert!(g.is_game_over());
        assert_eq!(g.clock(), Clock::new(5));
    }
}

#[test]
fn left_wall_ends_the_game() {
    let body = vec![at(0, 0), at(1, 0), at(2, 0)];
    let mut g = game(body.clone(), Direction::Left, at(5, 5));
    assert_eq!(g.tick(Direction::Left), TickResult::GameOver);
    assert!(g.is_game_over());
    assert_eq!(g.body(), &body);
    assert_eq!(g.food(), at(5, 5));
    assert_eq!(g.direction(), Direction::Left);
}

#[test]
fn right_wall_ends_the_game() {
    let body = vec![at(39, 0), at(38, 0), at(37, 0)];
    let mut g = game(body.clone(), Direction::Right, at(5, 5));
    assert_eq!(g.tick(Direction::Right), TickResult::GameOver);
    assert!(g.is_game_over());
    assert_eq!(g.body(), &body);
}

#[test]
fn top_wall_ends_the_game() {
    let body = vec![at(3, 0), at(3, 1), at(3, 2)];
    let mut g = game(body.clone(), Direction::Up, at(5, 5));
    assert_eq!(g.tick(Direction::Up), TickResult::GameOver);
    assert!(g.is_game_over());
    assert_eq!(g.body(), &body);
}

#[test]
fn bottom_wall_ends_the_game() {
    let body = vec![at(3, 29), at(3, 28), at(3, 27)];
    let mut g = game(body.clone(), Direction::Down, at(5, 5));
    assert_eq!(g.tick(Direction::Down), TickResult::GameOver);
    assert!(g.is_game_over());
    assert_eq!(g.body(), &body);
}

#[test]
fn last_cells_before_the_walls_are_playable() {
    let mut g = game(vec![at(1, 0), at(2, 0), at(3, 0)], Direction::Left, at(5, 5));
    assert_eq!(g.tick(Direction::Left), TickResult::Continued);
    assert_eq!(g.head(), at(0, 0));
    let mut g = game(vec![at(38, 29), at(37, 29), at(36, 29)], Direction::Right, at(5, 5));
    assert_eq!(g.tick(Direction::Right), TickResult::Continued);
    assert_eq!(g.head(), at(39, 29));
}

#[test]
fn running_into_the_body_ends_the_game() {
    // A snake curled so that the cell below its head is its fourth segment.
    let body = vec![at(5, 5), at(6, 5), at(6, 6), at(5, 6), at(4, 6)];
    let mut g = game(body.clone(), Direction::Left, at(20, 20));
    assert_eq!(g.outcome(Direction::Down), TickResult::GameOver);
    assert_eq!(g.tick(Direction::Down), TickResult::GameOver);
    assert!(g.is_game_over());
    assert_eq!(g.body().len(), 5);
    assert_eq!(g.body(), &body);
    assert_eq!(g.direction(), Direction::Down);
}

#[test]
fn running_into_the_last_segment_ends_the_game() {
    // The last segment would move away, but the check comes before the move.
    let body = vec![at(5, 5), at(5, 6), at(6, 6), at(6, 5)];
    let mut g = game(body.clone(), Direction::Up, at(20, 20));
    assert_eq!(g.tick(Direction::Right), TickResult::GameOver);
    assert_eq!(g.body(), &body);
}

#[test]
fn reversing_on_the_spot_ends_the_game() {
    let mut g = game(start_body(), Direction::Up, at(20, 20));
    assert_eq!(g.tick(Direction::Down), TickResult::GameOver);
    assert!(g.is_game_over());
    assert_eq!(g.body(), &start_body());
}

#[test]
fn eating_grows_the_snake() {
    let mut g = game(start_body(), Direction::Up, at(10, 9));
    assert_eq!(g.outcome(Direction::Up), TickResult::AteFood);
    assert_eq!(g.tick(Direction::Up), TickResult::AteFood);
    assert_eq!(g.body(), &vec![at(10, 9), at(10, 10), at(10, 11), at(10, 12)]);
    assert_eq!(g.body().len(), 4);
    assert_eq!(g.score(), 1);
    assert!(g.food().is_in_food_region());
    assert!(!g.is_game_over());
    assert_eq!(g.direction(), Direction::Up);
}

#[test]
fn eating_places_the_given_food() {
    let mut g = game(start_body(), Direction::Up, at(10, 9));
    assert_eq!(g.tick_with(Direction::Up, at(29, 5)), TickResult::AteFood);
    assert_eq!(g.food(), at(29, 5));
    assert_eq!(g.body(), &vec![at(10, 9), at(10, 10), at(10, 11), at(10, 12)]);
}

#[test]
fn moving_slides_the_body() {
    let mut g = game(start_body(), Direction::Up, at(20, 20));
    assert_eq!(g.tick(Direction::Up), TickResult::Continued);
    assert_eq!(g.body(), &vec![at(10, 9), at(10, 10), at(10, 11)]);
    assert_eq!(g.tick(Direction::Left), TickResult::Continued);
    assert_eq!(g.body(), &vec![at(9, 9), at(10, 9), at(10, 10)]);
    assert_eq!(g.tick(Direction::Down), TickResult::Continued);
    assert_eq!(g.body(), &vec![at(9, 10), at(9, 9), at(10, 9)]);
    assert_eq!(g.body().len(), 3);
    assert_eq!(g.food(), at(20, 20));
    assert_eq!(g.direction(), Direction::Down);
    assert_eq!(g.score(), 0);
}

#[test]
fn unused_food_is_ignored() {
    let mut g = game(start_body(), Direction::Up, at(20, 20));
    assert_eq!(g.tick_with(Direction::Up, at(6, 6)), TickResult::Continued);
    assert_eq!(g.food(), at(20, 20));
}

#[test]
fn score_counts_meals() {
    let mut g = game(start_body(), Direction::Up, at(10, 9));
    let mut eaten = 0;
    // Food is always put right in front of the head, on the way up and then right.
    let plan = [
        (Direction::Up, at(10, 8)),
        (Direction::Up, at(10, 7)),
        (Direction::Up, at(11, 7)),
        (Direction::Right, at(12, 7)),
        (Direction::Right, at(25, 25)),
        (Direction::Right, at(25, 25)),
    ];
    for (d, fresh) in plan {
        if g.tick_with(d, fresh) == TickResult::AteFood {
            eaten += 1;
        }
        assert_eq!(g.score(), eaten);
        assert_eq!(g.body().len(), 3 + eaten);
    }
    assert_eq!(eaten, 5);
    assert_eq!(g.score(), 5);
    assert_eq!(g.head(), at(13, 7));
}

#[test]
fn score_counts_meals_with_random_food() {
    let mut g = SnakeGame::new(0);
    let mut eaten = 0;
    // Sweep the food region row by row until the snake has eaten three times.
    let mut ticks = 0;
    while eaten < 3 && ticks < 100_000 {
        let head = g.head();
        let food = g.food();
        let d = if head.y < food.y {
            if g.direction() == Direction::Up { Direction::Left } else { Direction::Down }
        } else if head.y > food.y {
            if g.direction() == Direction::Down { Direction::Left } else { Direction::Up }
        } else if head.x < food.x {
            if g.direction() == Direction::Left { Direction::Down } else { Direction::Right }
        } else if g.direction() == Direction::Right {
            Direction::Down
        } else {
            Direction::Left
        };
        match g.tick(d) {
            TickResult::AteFood => eaten += 1,
            TickResult::Continued => {}
            TickResult::GameOver => {
                g.reset();
                eaten = 0;
            }
        }
        assert_eq!(g.score(), eaten);
        assert!(g.food().is_in_food_region());
        ticks += 1;
    }
    assert_eq!(eaten, 3);
    assert_eq!(g.body().len(), 6);
}

#[test]
fn reset_restores_the_start() {
    let mut g = game(vec![at(0, 0), at(1, 0), at(2, 0), at(3, 0)], Direction::Left, at(5, 5));
    assert_eq!(g.tick(Direction::Left), TickResult::GameOver);
    assert!(g.is_game_over());
    g.reset();
    assert_eq!(g.body(), &start_body());
    assert_eq!(g.direction(), Direction::Up);
    assert!(!g.is_game_over());
    assert!(g.food().is_in_food_region());
    assert_eq!(g.score(), 0);
    assert_eq!(g.tick_with(Direction::Left, at(5, 5)) == TickResult::GameOver, false);
}

#[test]
fn reset_keeps_the_clock() {
    let mut g = SnakeGame::new(100);
    assert!(g.update(HeldKeys::none(), 350).is_some());
    assert_eq!(g.clock(), Clock { last_move: 350, move_interval: 200 });
    g.reset();
    assert_eq!(g.clock(), Clock { last_move: 350, move_interval: 200 });
    assert_eq!(g.body(), &start_body());
}

#[test]
fn reset_after_many_ticks_restores_the_start() {
    let mut g = SnakeGame::new(0);
    for i in 0..40 {
        let d = if i % 7 == 3 { Direction::Left } else { Direction::Up };
        g.tick(d);
    }
    assert!(g.is_game_over());
    g.reset();
    assert_eq!(g.body(), &start_body());
    assert_eq!(g.direction(), Direction::Up);
    assert!(!g.is_game_over());
    assert!(g.food().is_in_food_region());
}

#[test]
fn update_waits_for_the_interval() {
    let mut g = SnakeGame::from_parts(start_body(), Direction::Up, at(20, 20), Clock::new(1000), false)
        .expect("a valid position");
    assert_eq!(g.update(HeldKeys::only(Direction::Left), 1199), None);
    assert_eq!(g.body(), &start_body());
    assert_eq!(g.direction(), Direction::Up);
    assert_eq!(g.clock(), Clock::new(1000));
    assert_eq!(g.update(HeldKeys::only(Direction::Left), 1200), Some(TickResult::Continued));
    assert_eq!(g.body(), &vec![at(9, 10), at(10, 10), at(10, 11)]);
    assert_eq!(g.direction(), Direction::Left);
    assert_eq!(g.clock(), Clock::new(1200));
    // The key held between two moves is not remembered.
    assert_eq!(g.update(HeldKeys::only(Direction::Up), 1300), None);
    assert_eq!(g.update(HeldKeys::none(), 1400), Some(TickResult::Continued));
    assert_eq!(g.head(), at(8, 10));
    assert_eq!(g.direction(), Direction::Left);
}

#[test]
fn update_rejects_a_reversal() {
    let mut g = game(start_body(), Direction::Up, at(20, 20));
    assert_eq!(g.update(HeldKeys::only(Direction::Down), 200), Some(TickResult::Continued));
    assert_eq!(g.head(), at(10, 9));
    assert_eq!(g.direction(), Direction::Up);
}

#[test]
fn update_never_catches_up() {
    let mut g = game(start_body(), Direction::Up, at(20, 20));
    // A frame that comes five intervals late moves the snake once.
    assert_eq!(g.update(HeldKeys::none(), 1000), Some(TickResult::Continued));
    assert_eq!(g.head(), at(10, 9));
    assert_eq!(g.update(HeldKeys::none(), 1001), None);
    assert_eq!(g.head(), at(10, 9));
}

#[test]
fn update_on_finished_game_does_nothing() {
    let mut g = SnakeGame::from_parts(start_body(), Direction::Up, at(20, 20), Clock::new(0), true)
        .expect("a valid position");
    assert_eq!(g.update(HeldKeys::only(Direction::Left), 10_000), None);
    assert_eq!(g.body(), &start_body());
    assert_eq!(g.direction(), Direction::Up);
    assert_eq!(g.clock(), Clock::new(0));
    assert!(g.is_game_over());
}

#[test]
fn update_reports_the_end() {
    let mut g = game(vec![at(0, 3), at(1, 3), at(2, 3)], Direction::Left, at(20, 20));
    assert_eq!(g.update(HeldKeys::none(), 200), Some(TickResult::GameOver));
    assert!(g.is_game_over());
    assert_eq!(g.clock(), Clock::new(200));
    assert_eq!(g.update(HeldKeys::none(), 400), None);
    assert_eq!(g.clock(), Clock::new(200));
}

#[test]
fn from_parts_rejects_short_bodies() {
    let c = Clock::new(0);
    assert!(SnakeGame::from_parts(vec![], Direction::Up, at(5, 5), c, false).is_none());
    assert!(SnakeGame::from_parts(vec![at(1, 1)], Direction::Up, at(5, 5), c, false).is_none());
    assert!(SnakeGame::from_parts(vec![at(1, 1), at(1, 2)], Direction::Up, at(5, 5), c, false)
        .is_none());
    assert!(SnakeGame::from_parts(vec![at(1, 1), at(1, 2), at(1, 3)], Direction::Up, at(5, 5), c, false)
        .is_some());
}

#[test]
fn from_parts_rejects_cells_off_the_field() {
    let c = Clock::new(0);
    assert!(SnakeGame::from_parts(vec![at(-1, 0), at(0, 0), at(1, 0)], Direction::Left, at(5, 5), c, false)
        .is_none());
    assert!(SnakeGame::from_parts(vec![at(38, 0), at(39, 0), at(40, 0)], Direction::Left, at(5, 5), c, false)
        .is_none());
    assert!(SnakeGame::from_parts(vec![at(0, 28), at(0, 29), at(0, 30)], Direction::Up, at(5, 5), c, false)
        .is_none());
}

#[test]
fn from_parts_rejects_repeated_cells() {
    let c = Clock::new(0);
    assert!(SnakeGame::from_parts(vec![at(1, 1), at(1, 2), at(1, 1)], Direction::Up, at(5, 5), c, false)
        .is_none());
    assert!(SnakeGame::from_parts(vec![at(1, 1), at(1, 2), at(1, 3), at(1, 3)], Direction::Up, at(5, 5), c, false)
        .is_none());
    assert!(SnakeGame::from_parts(vec![at(1, 1), at(1, 1), at(1, 2)], Direction::Up, at(5, 5), c, false)
        .is_none());
}

#[test]
fn from_parts_rejects_food_outside_its_region() {
    let c = Clock::new(0);
    assert!(SnakeGame::from_parts(start_body(), Direction::Up, at(4, 5), c, false).is_none());
    assert!(SnakeGame::from_parts(start_body(), Direction::Up, at(5, 30), c, false).is_none());
    assert!(SnakeGame::from_parts(start_body(), Direction::Up, at(35, 10), c, false).is_none());
    assert!(SnakeGame::from_parts(start_body(), Direction::Up, at(29, 29), c, false).is_some());
}

#[test]
fn from_parts_keeps_what_it_is_given() {
    let body = vec![at(7, 7), at(8, 7), at(9, 7), at(9, 8)];
    let g = SnakeGame::from_parts(body.clone(), Direction::Left, at(6, 6), Clock::new(77), true)
        .expect("a valid position");
    assert_eq!(g.body(), &body);
    assert_eq!(g.direction(), Direction::Left);
    assert_eq!(g.food(), at(6, 6));
    assert_eq!(g.clock(), Clock::new(77));
    assert!(g.is_game_over());
    assert_eq!(g.score(), 1);
}

#[test]
fn food_may_lie_under_the_snake() {
    // Food under the body is legal; it is eaten only by a head that enters it.
    let mut g = game(start_body(), Direction::Up, at(10, 11));
    assert_eq!(g.tick(Direction::Up), TickResult::Continued);
    assert_eq!(g.food(), at(10, 11));
    assert_eq!(g.body().len(), 3);
}
