//! The two games that the menu lists but that cannot be played yet.

use vstd::prelude::*;

verus! {

/// Pong, yet to come. It has no state.
#[derive(Clone, Copy, Debug, PartialEq, Eq, Structural)]
pub struct PongGame;

/// Breakout, yet to come. It has no state.
#[derive(Clone, Copy, Debug, PartialEq, Eq, Structural)]
pub struct BreakoutGame;

impl PongGame {
    /// The game, such as it is.
    pub fn new() -> (g: PongGame)
        ensures
            g == PongGame,
    {
        PongGame
    }

    /// Starts over, which changes nothing.
    pub fn reset(&mut self)
        ensures
            *final(self) == *old(self),
    {
    }

    /// Runs one frame, which changes nothing.
    pub fn update(&mut self)
        ensures
            *final(self) == *old(self),
    {
    }

    /// The one line that is shown in place of the game.
    pub fn draw(&self) -> (label: &'static str)
        ensures
            label@ == "Pong game coming soon!"@,
    {
        "Pong game coming soon!"
    }
}

impl BreakoutGame {
    /// The game, such as it is.
    pub fn new() -> (g: BreakoutGame)
        ensures
            g == BreakoutGame,
    {
        BreakoutGame
    }

    /// Starts over, which changes nothing.
    pub fn reset(&mut self)
        ensures
            *final(self) == *old(self),
    {
    }

    /// Runs one frame, which changes nothing.
    pub fn update(&mut self)
        ensures
            *final(self) == *old(self),
    {
    }

    /// The one line that is shown in place of the game.
    pub fn draw(&self) -> (label: &'static str)
        ensures
            label@ == "Breakout game coming soon!"@,
    {
        "Breakout game coming soon!"
    }
}

} // verus!
