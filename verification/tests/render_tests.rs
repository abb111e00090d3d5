use retro_vm::clock::Clock;
use retro_vm::grid::{Direction, Position};
use retro_vm::render::{Rgb, Shape};
use retro_vm::snake::{SnakeGame, TickResult};

fn at(x: i32, y: i32) -> Position {
    Position { x, y }
}

#[test]
fn scene_of_a_running_game() {
    let body = vec![at(10, 10), at(10, 11), at(10, 12)];
    let g = SnakeGame::from_parts(body, Direction::Up, at(20, 7), Clock::new(0), false)
        .expect("a valid position");
    assert_eq!(
        g.draw(),
        vec![
            Shape::Border,
            Shape::Segment { cell: at(10, 10), head: true },
            Shape::Segment { cell: at(10, 11), head: false },
            Shape::Segment { cell: at(10, 12), head: false },
            Shape::Food { cell: at(20, 7) },
            Shape::Score { points: 0 },
        ]
    );
}

#[test]
fn scene_of_a_finished_game() {
    let body = vec![at(0, 0), at(1, 0), at(2, 0), at(3, 0), at(4, 0)];
    let mut g = SnakeGame::from_parts(body, Direction::Left, at(5, 5), Clock::new(0), false)
        .expect("a valid position");
    assert_eq!(g.tick(Direction::Left), TickResult::GameOver);
    assert_eq!(
        g.draw(),
        vec![
            Shape::Border,
            Shape::Segment { cell: at(0, 0), head: true },
            Shape::Segment { cell: at(1, 0), head: false },
            Shape::Segment { cell: at(2, 0), head: false },
            Shape::Segment { cell: at(3, 0), head: false },
            Shape::Segment { cell: at(4, 0), head: false },
            Shape::Food { cell: at(5, 5) },
            Shape::Score { points: 2 },
            Shape::GameOverNotice,
        ]
    );
}

#[test]
fn drawing_changes_nothing() {
    let g = SnakeGame::new(0);
    let first = g.draw();
    let second = g.draw();
    assert_eq!(first, second);
    assert_eq!(g.body().len(), 3);
    assert!(!g.is_game_over());
    assert_eq!(first.len(), 6);
}

#[test]
fn score_follows_the_meals() {
    let body = vec![at(10, 10), at(10, 11), at(10, 12)];
    let mut g = SnakeGame::from_parts(body, Direction::Up, at(10, 9), Clock::new(0), false)
        .expect("a valid position");
    assert_eq!(g.tick_with(Direction::Up, at(6, 6)), TickResult::AteFood);
    let shapes = g.draw();
    assert_eq!(shapes.len(), 7);
    assert_eq!(shapes[1], Shape::Segment { cell: at(10, 9), head: true });
    assert_eq!(shapes[5], Shape::Food { cell: at(6, 6) });
    assert_eq!(shapes[6], Shape::Score { points: 1 });
}

#[test]
fn colours_of_the_shapes() {
    let green = Rgb { r: 0, g: 255, b: 0 };
    let red = Rgb { r: 255, g: 0, b: 0 };
    assert_eq!(Shape::Border.color(), green);
    assert_eq!(Shape::Score { points: 9 }.color(), green);
    assert_eq!(Shape::Food { cell: at(5, 5) }.color(), red);
    assert_eq!(Shape::GameOverNotice.color(), red);
    assert_eq!(Shape::Segment { cell: at(1, 1), head: true }.color(), Rgb { r: 0, g: 200, b: 0 });
    assert_eq!(Shape::Segment { cell: at(1, 1), head: false }.color(), Rgb { r: 0, g: 150, b: 0 });
}

#[test]
fn head_is_brighter_than_the_body() {
    let head = Shape::Segment { cell: at(3, 3), head: true }.color();
    let rest = Shape::Segment { cell: at(3, 4), head: false }.color();
    assert!(head.g > rest.g);
    assert_eq!((head.r, head.b), (rest.r, rest.b));
}
