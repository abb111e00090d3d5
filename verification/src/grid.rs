//! The play-field: cells, directions and the regions that the rules speak of.

use vstd::prelude::*;

verus! {

/// Number of columns of the play-field.
pub const FIELD_WIDTH: i32 = 40;

/// Number of rows of the play-field.
pub const FIELD_HEIGHT: i32 = 30;

/// Smallest coordinate, on either axis, at which food is placed.
pub const FOOD_LOW: i32 = 5;

/// First coordinate above [`FOOD_LOW`], on either axis, at which food is no longer placed.
pub const FOOD_HIGH: i32 = 30;

/// One of the four unit steps on the grid. `y` grows downwards.
#[derive(Clone, Copy, Debug, PartialEq, Eq, Structural)]
pub enum Direction {
    Up,
    Down,
    Left,
    Right,
}

/// A cell of the grid, by column and row.
#[derive(Clone, Copy, Debug, PartialEq, Eq, Structural)]
pub struct Position {
    pub x: i32,
    pub y: i32,
}

impl Direction {
    /// Horizontal component of the step.
    pub open spec fn dx(self) -> int {
        match self {
            Direction::Left => -1,
            Direction::Right => 1,
            _ => 0,
        }
    }

    /// Vertical component of the step.
    pub open spec fn dy(self) -> int {
        match self {
            Direction::Up => -1,
            Direction::Down => 1,
            _ => 0,
        }
    }

    /// The direction that undoes this one.
    pub open spec fn reversed(self) -> Direction {
        match self {
            Direction::Up => Direction::Down,
            Direction::Down => Direction::Up,
            Direction::Left => Direction::Right,
            Direction::Right => Direction::Left,
        }
    }

    /// The step as a pair `(dx, dy)`.
    pub fn delta(self) -> (d: (i32, i32))
        ensures
            d.0 == self.dx(),
            d.1 == self.dy(),
    {
        match self {
            Direction::Up => (0, -1),
            Direction::Down => (0, 1),
            Direction::Left => (-1, 0),
            Direction::Right => (1, 0),
        }
    }

    /// The exact opposite of this direction.
    pub fn opposite(self) -> (o: Direction)
        ensures
            o == self.reversed(),
    {
        match self {
            Direction::Up => Direction::Down,
            Direction::Down => Direction::Up,
            Direction::Left => Direction::Right,
            Direction::Right => Direction::Left,
        }
    }
}

impl Position {
    /// Whether the cell lies on the play-field.
    pub open spec fn in_field(self) -> bool {
        0 <= self.x < FIELD_WIDTH && 0 <= self.y < FIELD_HEIGHT
    }

    /// Whether the cell lies in the square where food is placed.
    pub open spec fn in_food_region(self) -> bool {
        FOOD_LOW <= self.x < FOOD_HIGH && FOOD_LOW <= self.y < FOOD_HIGH
    }

    /// The neighbouring cell one step in direction `d`.
    pub open spec fn moved(self, d: Direction) -> Position {
        Position { x: (self.x + d.dx()) as i32, y: (self.y + d.dy()) as i32 }
    }

    /// Whether the cell lies on the play-field.
    pub fn is_in_field(&self) -> (b: bool)
        ensures
            b == self.in_field(),
    {
        0 <= self.x && self.x < FIELD_WIDTH && 0 <= self.y && self.y < FIELD_HEIGHT
    }

    /// Whether the cell lies in the square where food is placed.
    pub fn is_in_food_region(&self) -> (b: bool)
        ensures
            b == self.in_food_region(),
    {
        FOOD_LOW <= self.x && self.x < FOOD_HIGH && FOOD_LOW <= self.y && self.y < FOOD_HIGH
    }

    /// The neighbouring cell one step in direction `d`.
    pub fn step(&self, d: Direction) -> (p: Position)
        requires
            i32::MIN < self.x < i32::MAX,
            i32::MIN < self.y < i32::MAX,
        ensures
            p == self.moved(d),
            p.x == self.x + d.dx(),
            p.y == self.y + d.dy(),
    {
        let (dx, dy) = d.delta();
        Position { x: self.x + dx, y: self.y + dy }
    }
}

} // verus!
