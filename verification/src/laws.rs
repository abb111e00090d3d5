//! What holds of whole games: laws over any run of ticks.

use crate::clock::Clock;
use crate::grid::{Direction, Position, FIELD_HEIGHT, FIELD_WIDTH};
use crate::input::HeldKeys;
use crate::snake::{lemma_step_keeps_wf, SnakeState, TickResult};
use vstd::prelude::*;

verus! {

/// One tick of a run: the direction taken, and the food that is placed if the
/// snake eats on this tick.
pub struct Move {
    pub direction: Direction,
    pub fresh_food: Position,
}

impl SnakeState {
    /// The state after the ticks of `moves`, first to last.
    pub open spec fn run(self, moves: Seq<Move>) -> SnakeState
        decreases moves.len(),
    {
        if moves.len() == 0 {
            self
        } else {
            self.run(moves.drop_last()).step(moves.last().direction, moves.last().fresh_food)
        }
    }

    /// How many ticks of `moves` end with the snake eating.
    pub open spec fn meals(self, moves: Seq<Move>) -> nat
        decreases moves.len(),
    {
        if moves.len() == 0 {
            0
        } else {
            let before = self.run(moves.drop_last());
            let ate: nat = if before.outcome(moves.last().direction) == TickResult::AteFood {
                1
            } else {
                0
            };
            self.meals(moves.drop_last()) + ate
        }
    }
}

/// Whether every tick of `moves` places its food inside the food region.
pub open spec fn food_stays_in_region(moves: Seq<Move>) -> bool {
    forall|i: int| 0 <= i < moves.len() ==> (#[trigger] moves[i]).fresh_food.in_food_region()
}

/// A valid game stays valid however long it is played.
pub proof fn lemma_run_keeps_wf(s: SnakeState, moves: Seq<Move>)
    requires
        s.wf(),
        food_stays_in_region(moves),
    ensures
        s.run(moves).wf(),
    decreases moves.len(),
{
    if moves.len() > 0 {
        let before = moves.drop_last();
        assert forall|i: int| 0 <= i < before.len() implies (#[trigger] before[i]).fresh_food.in_food_region() by {
            assert(before[i] == moves[i]);
        }
        lemma_run_keeps_wf(s, before);
        lemma_step_keeps_wf(s.run(before), moves.last().direction, moves.last().fresh_food);
    }
}

/// A tick on a game that is over returns `GameOver` and changes nothing, and so
/// does any number of ticks: the game stays frozen until it is reset.
pub proof fn lemma_game_over_is_final(s: SnakeState, moves: Seq<Move>)
    requires
        s.game_over,
    ensures
        forall|d: Direction| #[trigger] s.outcome(d) == TickResult::GameOver,
        forall|d: Direction, f: Position| #[trigger] s.step(d, f) == s,
        s.run(moves) == s,
        s.meals(moves) == 0,
    decreases moves.len(),
{
    if moves.len() > 0 {
        lemma_game_over_is_final(s, moves.drop_last());
    }
}

/// The game-over flag is never cleared by a tick.
pub proof fn lemma_game_over_is_monotonic(s: SnakeState, moves: Seq<Move>, more: Seq<Move>)
    requires
        s.run(moves).game_over,
    ensures
        s.run(moves + more) == s.run(moves),
    decreases more.len(),
{
    if more.len() == 0 {
        assert(moves + more =~= moves);
    } else {
        assert((moves + more).drop_last() =~= moves + more.drop_last());
        assert((moves + more).last() == more.last());
        lemma_game_over_is_monotonic(s, moves, more.drop_last());
    }
}

/// A tick changes the length of the snake by exactly what it reports: one more
/// segment when it ate, the same length otherwise.
pub proof fn lemma_tick_changes_length_by_meal(s: SnakeState, d: Direction, fresh_food: Position)
    requires
        s.wf(),
    ensures
        s.outcome(d) == TickResult::AteFood ==> s.step(d, fresh_food).body.len() == s.body.len() + 1,
        s.outcome(d) != TickResult::AteFood ==> s.step(d, fresh_food).body.len() == s.body.len(),
        s.outcome(d) == TickResult::GameOver ==> s.step(d, fresh_food).body == s.body,
{
}

/// The score after a run is the score before it plus the number of ticks on
/// which the snake ate.
pub proof fn lemma_score_counts_meals(s: SnakeState, moves: Seq<Move>)
    requires
        s.wf(),
        food_stays_in_region(moves),
    ensures
        s.run(moves).score() == s.score() + s.meals(moves),
    decreases moves.len(),
{
    if moves.len() > 0 {
        let before = moves.drop_last();
        assert forall|i: int| 0 <= i < before.len() implies (#[trigger] before[i]).fresh_food.in_food_region() by {
            assert(before[i] == moves[i]);
        }
        lemma_score_counts_meals(s, before);
        lemma_run_keeps_wf(s, before);
        lemma_tick_changes_length_by_meal(
            s.run(before),
            moves.last().direction,
            moves.last().fresh_food,
        );
    }
}

/// Played from the start of a game, the score is the number of ticks on which
/// the snake ate.
pub proof fn lemma_score_from_start(food: Position, clock: Clock, moves: Seq<Move>)
    requires
        food.in_food_region(),
        food_stays_in_region(moves),
    ensures
        SnakeState::start(food, clock).run(moves).score() == SnakeState::start(food, clock).meals(
            moves,
        ),
{
    lemma_score_counts_meals(SnakeState::start(food, clock), moves);
}

/// Ticks never touch the clock.
pub proof fn lemma_run_keeps_clock(s: SnakeState, moves: Seq<Move>)
    ensures
        s.run(moves).clock == s.clock,
    decreases moves.len(),
{
    if moves.len() > 0 {
        lemma_run_keeps_clock(s, moves.drop_last());
    }
}

/// Whatever was played before, a reset gives the start of a game: the
/// three-segment snake heading up, the flag cleared, the food that was placed,
/// and the clock as the game began with.
pub proof fn lemma_reset_forgets_the_run(s: SnakeState, moves: Seq<Move>, food: Position)
    requires
        food.in_food_region(),
    ensures
        s.run(moves).restarted(food) == SnakeState::start(food, s.clock),
        s.run(moves).restarted(food).wf(),
        !s.run(moves).restarted(food).game_over,
        s.run(moves).restarted(food).direction == Direction::Up,
        s.run(moves).restarted(food).score() == 0,
{
    lemma_run_keeps_clock(s, moves);
}

/// The snake hits a wall exactly when its head stands in the row or column at
/// the edge that it moves towards.
pub proof fn lemma_walls(s: SnakeState)
    requires
        s.wf(),
    ensures
        s.hits_wall(Direction::Left) <==> s.head().x == 0,
        s.hits_wall(Direction::Right) <==> s.head().x == FIELD_WIDTH - 1,
        s.hits_wall(Direction::Up) <==> s.head().y == 0,
        s.hits_wall(Direction::Down) <==> s.head().y == FIELD_HEIGHT - 1,
{
    assert(s.body[0].in_field());
}

/// Reversing a snake on the spot ends the game whenever the segment behind
/// the head lies where the snake came from.
pub proof fn lemma_reversal_is_fatal(s: SnakeState)
    requires
        s.wf(),
        s.body[1] == s.head().moved(s.direction.reversed()),
    ensures
        s.outcome(s.direction.reversed()) == TickResult::GameOver,
{
    assert(s.tail()[0] == s.body[1]);
}

/// The direction that a frame applies is never the reverse of the direction
/// that was applied before it.
pub proof fn lemma_frame_never_reverses(
    s: SnakeState,
    keys: HeldKeys,
    now: u64,
    fresh_food: Position,
)
    ensures
        s.frame(keys, now, fresh_food).direction != s.direction.reversed(),
{
}

/// While the snake moves on, its body is a sliding window: each segment takes
/// the place of the one before it, and the head enters the next cell.
pub proof fn lemma_sliding_window(s: SnakeState, d: Direction, fresh_food: Position)
    requires
        s.wf(),
        s.outcome(d) == TickResult::Continued,
    ensures
        s.step(d, fresh_food).body.len() == s.body.len(),
        s.step(d, fresh_food).body[0] == s.next_head(d),
        forall|i: int| 1 <= i < s.body.len() ==> s.step(d, fresh_food).body[i] == s.body[i - 1],
        s.step(d, fresh_food).food == s.food,
{
}

/// When the snake eats, the whole old body stays behind the new head, and the
/// food moves to the cell that was drawn for it.
pub proof fn lemma_growth(s: SnakeState, d: Direction, fresh_food: Position)
    requires
        s.wf(),
        s.outcome(d) == TickResult::AteFood,
    ensures
        s.next_head(d) == s.food,
        s.step(d, fresh_food).body.len() == s.body.len() + 1,
        s.step(d, fresh_food).body[0] == s.food,
        forall|i: int| 1 <= i <= s.body.len() ==> s.step(d, fresh_food).body[i] == s.body[i - 1],
        s.step(d, fresh_food).food == fresh_food,
{
}

} // verus!
