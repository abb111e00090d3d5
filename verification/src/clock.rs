//! The timer that spaces the snake's moves.

use vstd::prelude::*;

verus! {

/// Time between two moves of the snake, in milliseconds.
pub const MOVE_INTERVAL_MS: u64 = 200;

/// Remembers when the snake last moved. Time is whatever the caller measures, in
/// milliseconds from an origin of their choice; the clock never reads a timer of
/// its own.
#[derive(Clone, Copy, Debug, PartialEq, Eq, Structural)]
pub struct Clock {
    /// When the last move was committed.
    pub last_move: u64,
    /// How long to wait between two moves.
    pub move_interval: u64,
}

impl Clock {
    /// The time that has passed at `now` since the last move; none if `now` lies
    /// before it.
    pub open spec fn elapsed(self, now: u64) -> int {
        if now >= self.last_move {
            now - self.last_move
        } else {
            0
        }
    }

    /// Whether a move is due at `now`.
    pub open spec fn due(self, now: u64) -> bool {
        self.elapsed(now) >= self.move_interval
    }

    /// The clock after a move at `now`.
    pub open spec fn committed(self, now: u64) -> Clock {
        Clock { last_move: now, move_interval: self.move_interval }
    }

    /// A clock whose last move was at `now`, with the standard interval.
    pub open spec fn started(now: u64) -> Clock {
        Clock { last_move: now, move_interval: MOVE_INTERVAL_MS }
    }

    /// A clock whose last move was at `now`, with the standard interval.
    pub fn new(now: u64) -> (c: Clock)
        ensures
            c == Clock::started(now),
    {
        Clock { last_move: now, move_interval: MOVE_INTERVAL_MS }
    }

    /// Whether the interval has passed at `now` since the last committed move.
    pub fn has_elapsed(&self, now: u64) -> (b: bool)
        ensures
            b == self.due(now),
    {
        if now >= self.last_move {
            now - self.last_move >= self.move_interval
        } else {
            self.move_interval == 0
        }
    }

    /// Records a move at `now`. Nothing else changes the clock.
    pub fn commit(&mut self, now: u64)
        ensures
            *final(self) == old(self).committed(now),
    {
        self.last_move = now;
    }
}

/// Right after a move no further move is due, and one becomes due exactly when
/// the interval has passed.
pub proof fn lemma_commit_restarts_the_wait(c: Clock, now: u64, later: u64)
    requires
        c.move_interval > 0,
        now <= later,
    ensures
        !c.committed(now).due(now),
        c.committed(now).due(later) <==> later - now >= c.move_interval,
{
}

} // verus!
