//! What a frame of the snake game shows, as a list of shapes on the grid.
//!
//! The list is in grid cells; turning cells into pixels is left to whoever
//! paints it.

use crate::grid::Position;
use crate::snake::{SnakeGame, SnakeState};
use vstd::prelude::*;

verus! {

/// A colour by its red, green and blue parts.
#[derive(Clone, Copy, Debug, PartialEq, Eq, Structural)]
pub struct Rgb {
    pub r: u8,
    pub g: u8,
    pub b: u8,
}

/// One thing to paint.
#[derive(Clone, Copy, Debug, PartialEq, Eq, Structural)]
pub enum Shape {
    /// A stroke around the whole viewport.
    Border,
    /// A filled square over one cell; `head` tells the head from the rest.
    Segment { cell: Position, head: bool },
    /// A filled circle centred in one cell.
    Food { cell: Position },
    /// The score, written at the top left.
    Score { points: usize },
    /// The message over a game that has ended.
    GameOverNotice,
}

impl Shape {
    /// The colour of the shape: green for the frame and the score, red for the
    /// food and the notice, and two darker greens for the snake, of which the
    /// head has the brighter.
    pub open spec fn paint(self) -> Rgb {
        match self {
            Shape::Border => Rgb { r: 0, g: 255, b: 0 },
            Shape::Segment { cell, head } => if head {
                Rgb { r: 0, g: 200, b: 0 }
            } else {
                Rgb { r: 0, g: 150, b: 0 }
            },
            Shape::Food { cell } => Rgb { r: 255, g: 0, b: 0 },
            Shape::Score { points } => Rgb { r: 0, g: 255, b: 0 },
            Shape::GameOverNotice => Rgb { r: 255, g: 0, b: 0 },
        }
    }

    /// The colour to paint the shape in.
    pub fn color(&self) -> (c: Rgb)
        ensures
            c == self.paint(),
    {
        match self {
            Shape::Border => Rgb { r: 0, g: 255, b: 0 },
            Shape::Segment { cell: _, head: true } => Rgb { r: 0, g: 200, b: 0 },
            Shape::Segment { cell: _, head: false } => Rgb { r: 0, g: 150, b: 0 },
            Shape::Food { cell: _ } => Rgb { r: 255, g: 0, b: 0 },
            Shape::Score { points: _ } => Rgb { r: 0, g: 255, b: 0 },
            Shape::GameOverNotice => Rgb { r: 255, g: 0, b: 0 },
        }
    }
}

impl SnakeState {
    /// The square for the segment at place `i` of the body.
    pub open spec fn segment(self, i: int) -> Shape {
        Shape::Segment { cell: self.body[i], head: i == 0 }
    }

    /// The squares of the snake, head first.
    pub open spec fn segments(self) -> Seq<Shape> {
        Seq::new(self.body.len(), |i: int| self.segment(i))
    }

    /// What is shown on top of the snake: the food and the score, and the
    /// notice once the game is over.
    pub open spec fn overlay(self) -> Seq<Shape> {
        let always = seq![
            Shape::Food { cell: self.food },
            Shape::Score { points: self.score() as usize },
        ];
        if self.game_over {
            always.push(Shape::GameOverNotice)
        } else {
            always
        }
    }

    /// Everything that a frame shows, in the order of painting: the border,
    /// the snake from head to tail, then the overlay.
    pub open spec fn scene(self) -> Seq<Shape> {
        seq![Shape::Border] + self.segments() + self.overlay()
    }
}

impl SnakeGame {
    /// Lists what to paint for the game as it stands. The game is only read.
    pub fn draw(&self) -> (shapes: Vec<Shape>)
        requires
            self@.wf(),
        ensures
            shapes@ == self@.scene(),
    {
        let mut shapes: Vec<Shape> = Vec::new();
        shapes.push(Shape::Border);
        let body = self.body();
        let mut i: usize = 0;
        while i < body.len()
            invariant
                i <= body.len(),
                body@ == self@.body,
                shapes@.len() == i + 1,
                shapes@[0] == Shape::Border,
                forall|j: int| 0 <= j < i ==> shapes@[j + 1] == self@.segment(j),
            decreases body.len() - i,
        {
            shapes.push(Shape::Segment { cell: body[i], head: i == 0 });
            i += 1;
        }
        shapes.push(Shape::Food { cell: self.food() });
        shapes.push(Shape::Score { points: self.score() });
        if self.is_game_over() {
            shapes.push(Shape::GameOverNotice);
        }
        assert(shapes@ =~= self@.scene());
        shapes
    }
}

/// The head is painted brighter than the rest of the snake.
pub proof fn lemma_head_is_brighter(cell: Position, other: Position)
    ensures
        (Shape::Segment { cell, head: true }).paint().g > (Shape::Segment {
            cell: other,
            head: false,
        }).paint().g,
{
}

/// A frame shows the border first, one square for each segment with only the
/// first marked as the head, then the food and the score, and the notice last
/// exactly when the game is over.
pub proof fn lemma_scene_layout(s: SnakeState)
    requires
        s.wf(),
    ensures
        s.scene().len() == s.body.len() + 3 + if s.game_over { 1int } else { 0int },
        s.scene()[0] == Shape::Border,
        forall|i: int| 0 <= i < s.body.len() ==> s.scene()[i + 1] == (Shape::Segment {
            cell: s.body[i],
            head: i == 0,
        }),
        s.scene()[s.body.len() as int + 1] == (Shape::Food { cell: s.food }),
        s.scene()[s.body.len() as int + 2] == (Shape::Score { points: s.score() as usize }),
        s.game_over ==> s.scene().last() == Shape::GameOverNotice,
{
}

} // verus!
