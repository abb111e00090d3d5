//! Turning the arrow keys that are held into the direction of the next move.

use crate::grid::Direction;
use vstd::prelude::*;

verus! {

/// Which of the four arrow keys are held down at this moment.
#[derive(Clone, Copy, Debug, PartialEq, Eq, Structural)]
pub struct HeldKeys {
    pub up: bool,
    pub down: bool,
    pub left: bool,
    pub right: bool,
}

impl HeldKeys {
    /// Whether the key for direction `d` is held.
    pub open spec fn holds(self, d: Direction) -> bool {
        match d {
            Direction::Up => self.up,
            Direction::Down => self.down,
            Direction::Left => self.left,
            Direction::Right => self.right,
        }
    }

    /// No key held.
    pub open spec fn nothing() -> HeldKeys {
        HeldKeys { up: false, down: false, left: false, right: false }
    }

    /// The key for `d` held, and no other.
    pub open spec fn just(d: Direction) -> HeldKeys {
        HeldKeys {
            up: d == Direction::Up,
            down: d == Direction::Down,
            left: d == Direction::Left,
            right: d == Direction::Right,
        }
    }

    /// Whether the key for `d` is held and `d` would not turn a snake that moves
    /// in direction `current` back onto itself.
    pub open spec fn offers(self, current: Direction, d: Direction) -> bool {
        self.holds(d) && d != current.reversed()
    }

    /// The direction that these keys ask for while the snake moves in direction
    /// `current`. Of the keys that are held and are no reversal, the one checked
    /// last decides: right before left, left before down, down before up. With no
    /// such key the snake keeps its direction.
    pub open spec fn chosen(self, current: Direction) -> Direction {
        if self.offers(current, Direction::Right) {
            Direction::Right
        } else if self.offers(current, Direction::Left) {
            Direction::Left
        } else if self.offers(current, Direction::Down) {
            Direction::Down
        } else if self.offers(current, Direction::Up) {
            Direction::Up
        } else {
            current
        }
    }

    /// No key held.
    pub fn none() -> (k: HeldKeys)
        ensures
            k == HeldKeys::nothing(),
    {
        HeldKeys { up: false, down: false, left: false, right: false }
    }

    /// The key for `d` held, and no other.
    pub fn only(d: Direction) -> (k: HeldKeys)
        ensures
            k == HeldKeys::just(d),
            forall|e: Direction| k.holds(e) <==> e == d,
    {
        let k = HeldKeys {
            up: d == Direction::Up,
            down: d == Direction::Down,
            left: d == Direction::Left,
            right: d == Direction::Right,
        };
        assert forall|e: Direction| k.holds(e) <==> e == d by {
            match e {
                Direction::Up => {},
                Direction::Down => {},
                Direction::Left => {},
                Direction::Right => {},
            }
        }
        k
    }

    /// Whether the key for direction `d` is held.
    pub fn is_held(&self, d: Direction) -> (b: bool)
        ensures
            b == self.holds(d),
    {
        match d {
            Direction::Up => self.up,
            Direction::Down => self.down,
            Direction::Left => self.left,
            Direction::Right => self.right,
        }
    }
}

/// Proposes the direction of the next move from the keys that are held. The keys
/// are looked at in the order up, down, left, right; each one that is held and is
/// not the reverse of `current` replaces what was proposed so far. The proposal
/// is therefore never the reverse of `current`, and it is `current` itself when
/// no key qualifies.
pub fn resolve(keys: HeldKeys, current: Direction) -> (next: Direction)
    ensures
        next == keys.chosen(current),
        next != current.reversed(),
        next == current || keys.offers(current, next),
{
    let mut next = current;
    if keys.up && current != Direction::Down {
        next = Direction::Up;
    }
    if keys.down && current != Direction::Up {
        next = Direction::Down;
    }
    if keys.left && current != Direction::Right {
        next = Direction::Left;
    }
    if keys.right && current != Direction::Left {
        next = Direction::Right;
    }
    next
}

/// A single held key is obeyed whenever it is not the reverse of the current
/// direction.
pub proof fn lemma_single_key_is_obeyed(d: Direction, current: Direction)
    requires
        d != current.reversed(),
    ensures
        HeldKeys::just(d).chosen(current) == d,
{
}

/// Holding only the reverse of the current direction changes nothing: the
/// snake keeps going as it went.
pub proof fn lemma_reversal_is_rejected(current: Direction)
    ensures
        HeldKeys::just(current.reversed()).chosen(current) == current,
{
}

/// Whatever is held, the proposal never reverses the current direction, and
/// with nothing held it is the current direction.
pub proof fn lemma_never_reversed(keys: HeldKeys, current: Direction)
    ensures
        keys.chosen(current) != current.reversed(),
        HeldKeys::nothing().chosen(current) == current,
{
}

} // verus!
