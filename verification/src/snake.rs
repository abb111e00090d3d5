//! The snake: its state, and the engine that moves it one cell per tick.

use crate::clock::Clock;
use crate::grid::{Direction, Position};
use crate::input::{resolve, HeldKeys};
use crate::placer::place;
use vstd::prelude::*;

verus! {

/// Number of segments of a snake that has not eaten yet.
pub const INITIAL_LENGTH: usize = 3;

/// How a tick ended.
#[derive(Clone, Copy, Debug, PartialEq, Eq, Structural)]
pub enum TickResult {
    /// The snake moved one cell and kept its length.
    Continued,
    /// The snake moved onto the food and grew by one segment.
    AteFood,
    /// The snake ran into a wall or into itself, or the game was over already.
    GameOver,
}

/// The state of a game as the rules see it: the body from head to tail, the
/// direction of the last move, the food, the move timer and the game-over flag.
pub struct SnakeState {
    pub body: Seq<Position>,
    pub direction: Direction,
    pub food: Position,
    pub clock: Clock,
    pub game_over: bool,
}

/// The body that every game starts with: three segments in one column, head on top.
pub open spec fn start_body() -> Seq<Position> {
    seq![Position { x: 10, y: 10 }, Position { x: 10, y: 11 }, Position { x: 10, y: 12 }]
}

impl SnakeState {
    /// What holds of every game: the snake has at least its initial length, lies
    /// on the play-field and never covers a cell twice, and the food lies in its
    /// region.
    pub open spec fn wf(self) -> bool {
        &&& self.body.len() >= INITIAL_LENGTH
        &&& forall|i: int| 0 <= i < self.body.len() ==> (#[trigger] self.body[i]).in_field()
        &&& self.body.no_duplicates()
        &&& self.food.in_food_region()
    }

    /// The state in which a game starts, with the given food and clock.
    pub open spec fn start(food: Position, clock: Clock) -> SnakeState {
        SnakeState { body: start_body(), direction: Direction::Up, food, clock, game_over: false }
    }

    /// The head of the snake.
    pub open spec fn head(self) -> Position {
        self.body[0]
    }

    /// The segments behind the head.
    pub open spec fn tail(self) -> Seq<Position> {
        self.body.skip(1)
    }

    /// Segments gained since the start.
    pub open spec fn score(self) -> int {
        self.body.len() - INITIAL_LENGTH
    }

    /// The cell that the head enters when the snake moves in direction `d`.
    pub open spec fn next_head(self, d: Direction) -> Position {
        self.head().moved(d)
    }

    /// Whether a move in direction `d` leaves the play-field.
    pub open spec fn hits_wall(self, d: Direction) -> bool {
        !self.next_head(d).in_field()
    }

    /// Whether a move in direction `d` runs into a segment behind the head.
    pub open spec fn hits_self(self, d: Direction) -> bool {
        self.tail().contains(self.next_head(d))
    }

    /// How a tick in direction `d` ends. The food that is placed afterwards has
    /// no part in it.
    pub open spec fn outcome(self, d: Direction) -> TickResult {
        if self.game_over || self.hits_wall(d) || self.hits_self(d) {
            TickResult::GameOver
        } else if self.next_head(d) == self.food {
            TickResult::AteFood
        } else {
            TickResult::Continued
        }
    }

    /// The state after a tick in direction `d`, where `fresh_food` is the food
    /// that is placed if the snake eats. A game that is over stays as it is. A
    /// collision records the direction and ends the game. Otherwise the new head
    /// is put in front; the last segment is dropped unless the snake ate.
    pub open spec fn step(self, d: Direction, fresh_food: Position) -> SnakeState {
        if self.game_over {
            self
        } else {
            match self.outcome(d) {
                TickResult::GameOver => SnakeState { direction: d, game_over: true, ..self },
                TickResult::AteFood => SnakeState {
                    direction: d,
                    food: fresh_food,
                    body: seq![self.next_head(d)] + self.body,
                    ..self
                },
                TickResult::Continued => SnakeState {
                    direction: d,
                    body: seq![self.next_head(d)] + self.body.drop_last(),
                    ..self
                },
            }
        }
    }

    /// The state after a frame at time `now` with `keys` held. Nothing happens
    /// while the game is over or the move is not yet due; else the clock is set
    /// to `now` and the snake ticks in the direction that the keys ask for.
    pub open spec fn frame(self, keys: HeldKeys, now: u64, fresh_food: Position) -> SnakeState {
        if self.game_over || !self.clock.due(now) {
            self
        } else {
            (SnakeState { clock: self.clock.committed(now), ..self }).step(
                keys.chosen(self.direction),
                fresh_food,
            )
        }
    }

    /// What a frame at time `now` with `keys` held reports: the tick's result if
    /// one ran.
    pub open spec fn frame_result(self, keys: HeldKeys, now: u64) -> Option<TickResult> {
        if self.game_over || !self.clock.due(now) {
            None
        } else {
            Some(self.outcome(keys.chosen(self.direction)))
        }
    }

    /// The state after a reset that places `food`: the start of a game, with the
    /// clock left as it was.
    pub open spec fn restarted(self, food: Position) -> SnakeState {
        SnakeState::start(food, self.clock)
    }
}

/// A game of snake.
pub struct SnakeGame {
    body: Vec<Position>,
    direction: Direction,
    food: Position,
    clock: Clock,
    game_over: bool,
}

impl View for SnakeGame {
    type V = SnakeState;

    closed spec fn view(&self) -> SnakeState {
        SnakeState {
            body: self.body@,
            direction: self.direction,
            food: self.food,
            clock: self.clock,
            game_over: self.game_over,
        }
    }
}

impl SnakeGame {
    /// A new game whose clock starts at `now`: the snake at its start, heading
    /// up, and food placed at random.
    pub fn new(now: u64) -> (g: SnakeGame)
        ensures
            g@ == SnakeState::start(g@.food, Clock::started(now)),
            g@.wf(),
    {
        let food = place();
        let body = initial_body();
        SnakeGame { body, direction: Direction::Up, food, clock: Clock::new(now), game_over: false }
    }

    /// A game in the given position, if the position is a valid one: `None`
    /// unless the body has at least three segments, all on the field and no two
    /// at the same cell, and the food lies in its region.
    pub fn from_parts(
        body: Vec<Position>,
        direction: Direction,
        food: Position,
        clock: Clock,
        game_over: bool,
    ) -> (g: Option<SnakeGame>)
        ensures
            g is Some <==> (SnakeState { body: body@, direction, food, clock, game_over }).wf(),
            g matches Some(game) ==> game@ == (SnakeState {
                body: body@,
                direction,
                food,
                clock,
                game_over,
            }),
    {
        if body.len() >= INITIAL_LENGTH && all_in_field(&body) && all_distinct(&body)
            && food.is_in_food_region() {
            Some(SnakeGame { body, direction, food, clock, game_over })
        } else {
            None
        }
    }

    /// Puts the game back to its start: the three-segment snake heading up,
    /// fresh food, and the game-over flag cleared. The clock keeps its time.
    pub fn reset(&mut self)
        ensures
            final(self)@ == old(self)@.restarted(final(self)@.food),
            final(self)@.body == start_body(),
            final(self)@.direction == Direction::Up,
            !final(self)@.game_over,
            final(self)@.food.in_food_region(),
            final(self)@.clock == old(self)@.clock,
            final(self)@.wf(),
    {
        self.body = initial_body();
        self.direction = Direction::Up;
        self.food = place();
        self.game_over = false;
    }

    /// One frame of the game at time `now`, with `keys` held. While the game is
    /// over, or while the move is not yet due, nothing changes and no tick runs.
    /// Else the clock is set to `now` and the snake ticks once in the direction
    /// that the keys ask for; the tick's result is returned.
    pub fn update(&mut self, keys: HeldKeys, now: u64) -> (r: Option<TickResult>)
        requires
            old(self)@.wf(),
        ensures
            r == old(self)@.frame_result(keys, now),
            final(self)@ == old(self)@.frame(keys, now, final(self)@.food),
            r is None ==> final(self)@ == old(self)@,
            final(self)@.wf(),
    {
        if self.game_over {
            return None;
        }
        let next_direction = resolve(keys, self.direction);
        if self.clock.has_elapsed(now) {
            self.clock.commit(now);
            Some(self.tick(next_direction))
        } else {
            None
        }
    }

    /// Moves the snake one cell in direction `candidate`, which becomes its
    /// direction. A game that is over is left alone. Leaving the field or
    /// entering a cell behind the head ends the game and leaves the body as it
    /// was. Entering the food's cell grows the snake by the new head and places
    /// fresh food at random; entering any other cell puts the new head in
    /// front and drops the last segment.
    pub fn tick(&mut self, candidate: Direction) -> (r: TickResult)
        requires
            old(self)@.wf(),
        ensures
            r == old(self)@.outcome(candidate),
            final(self)@ == old(self)@.step(candidate, final(self)@.food),
            final(self)@.wf(),
            old(self)@.game_over ==> r == TickResult::GameOver && final(self)@ == old(self)@,
            old(self)@.hits_wall(candidate) || old(self)@.hits_self(candidate) ==> {
                &&& r == TickResult::GameOver
                &&& final(self)@.game_over
                &&& final(self)@.body == old(self)@.body
                &&& final(self)@.food == old(self)@.food
            },
            r == TickResult::AteFood ==> {
                &&& final(self)@.body == seq![old(self)@.next_head(candidate)] + old(self)@.body
                &&& final(self)@.body.len() == old(self)@.body.len() + 1
                &&& final(self)@.score() == old(self)@.score() + 1
                &&& final(self)@.food.in_food_region()
            },
            r == TickResult::Continued ==> {
                &&& final(self)@.body == seq![old(self)@.next_head(candidate)]
                    + old(self)@.body.drop_last()
                &&& final(self)@.body.len() == old(self)@.body.len()
                &&& final(self)@.food == old(self)@.food
            },
            r != TickResult::GameOver ==> {
                &&& final(self)@.direction == candidate
                &&& !final(self)@.game_over
            },
            final(self)@.clock == old(self)@.clock,
    {
        let r = self.outcome(candidate);
        let fresh_food = match r {
            TickResult::AteFood => place(),
            _ => self.food,
        };
        self.apply(candidate, r, fresh_food);
        r
    }

    /// One tick in direction `candidate`, as [`SnakeGame::tick`] does it, but
    /// with the food to place given by the caller: `fresh_food` becomes the food
    /// if the snake eats, and is ignored otherwise.
    pub fn tick_with(&mut self, candidate: Direction, fresh_food: Position) -> (r: TickResult)
        requires
            old(self)@.wf(),
            fresh_food.in_food_region(),
        ensures
            r == old(self)@.outcome(candidate),
            final(self)@ == old(self)@.step(candidate, fresh_food),
            final(self)@.wf(),
    {
        let r = self.outcome(candidate);
        self.apply(candidate, r, fresh_food);
        r
    }

    /// How a tick in direction `candidate` would end. The game is not changed.
    pub fn outcome(&self, candidate: Direction) -> (r: TickResult)
        requires
            self@.wf(),
        ensures
            r == self@.outcome(candidate),
    {
        if self.game_over {
            return TickResult::GameOver;
        }
        let new_head = self.body[0].step(candidate);
        if !new_head.is_in_field() {
            return TickResult::GameOver;
        }
        if self.tail_contains(new_head) {
            return TickResult::GameOver;
        }
        if new_head == self.food {
            TickResult::AteFood
        } else {
            TickResult::Continued
        }
    }

    /// Carries out a tick whose result is known already.
    fn apply(&mut self, candidate: Direction, result: TickResult, fresh_food: Position)
        requires
            old(self)@.wf(),
            fresh_food.in_food_region(),
            result == old(self)@.outcome(candidate),
        ensures
            final(self)@ == old(self)@.step(candidate, fresh_food),
            final(self)@.wf(),
    {
        proof {
            lemma_step_keeps_wf(self@, candidate, fresh_food);
        }
        if self.game_over {
            return ;
        }
        self.direction = candidate;
        match result {
            TickResult::GameOver => {
                self.game_over = true;
            },
            TickResult::AteFood => {
                let new_head = self.body[0].step(candidate);
                self.food = fresh_food;
                self.body.insert(0, new_head);
                assert(self.body@ =~= seq![new_head] + old(self).body@);
            },
            TickResult::Continued => {
                let new_head = self.body[0].step(candidate);
                self.body.insert(0, new_head);
                self.body.pop();
                assert(self.body@ =~= seq![new_head] + old(self).body@.drop_last());
            },
        }
    }

    /// Whether `p` is one of the segments behind the head.
    fn tail_contains(&self, p: Position) -> (b: bool)
        requires
            self@.body.len() >= 1,
        ensures
            b == self@.tail().contains(p),
    {
        let mut i: usize = 1;
        while i < self.body.len()
            invariant
                1 <= i,
                self.body.len() >= 1,
                forall|j: int| 1 <= j < i && j < self.body.len() ==> self.body[j] != p,
            decreases self.body.len() - i,
        {
            if self.body[i] == p {
                assert(self@.tail()[i - 1] == p);
                return true;
            }
            i += 1;
        }
        assert forall|k: int| 0 <= k < self@.tail().len() implies self@.tail()[k] != p by {
            assert(self@.tail()[k] == self.body[k + 1]);
        }
        false
    }

    /// The segments from head to tail.
    pub fn body(&self) -> (b: &Vec<Position>)
        ensures
            b@ == self@.body,
    {
        &self.body
    }

    /// The head of the snake.
    pub fn head(&self) -> (p: Position)
        requires
            self@.wf(),
        ensures
            p == self@.head(),
    {
        self.body[0]
    }

    /// The direction of the last move.
    pub fn direction(&self) -> (d: Direction)
        ensures
            d == self@.direction,
    {
        self.direction
    }

    /// Where the food lies.
    pub fn food(&self) -> (p: Position)
        ensures
            p == self@.food,
    {
        self.food
    }

    /// The move timer.
    pub fn clock(&self) -> (c: Clock)
        ensures
            c == self@.clock,
    {
        self.clock
    }

    /// Whether the game is over.
    pub fn is_game_over(&self) -> (b: bool)
        ensures
            b == self@.game_over,
    {
        self.game_over
    }

    /// Segments gained since the start.
    pub fn score(&self) -> (n: usize)
        requires
            self@.wf(),
        ensures
            n == self@.score(),
    {
        self.body.len() - INITIAL_LENGTH
    }
}

/// The body that every game starts with.
fn initial_body() -> (body: Vec<Position>)
    ensures
        body@ == start_body(),
{
    let body = vec![Position { x: 10, y: 10 }, Position { x: 10, y: 11 }, Position { x: 10, y: 12 }];
    assert(body@ =~= start_body());
    body
}

/// Whether every cell of `cells` lies on the play-field.
fn all_in_field(cells: &Vec<Position>) -> (b: bool)
    ensures
        b == forall|i: int| 0 <= i < cells@.len() ==> (#[trigger] cells@[i]).in_field(),
{
    let mut i: usize = 0;
    while i < cells.len()
        invariant
            i <= cells.len(),
            forall|j: int| 0 <= j < i ==> (#[trigger] cells@[j]).in_field(),
        decreases cells.len() - i,
    {
        if !cells[i].is_in_field() {
            return false;
        }
        i += 1;
    }
    true
}

/// Whether no cell occurs twice in `cells`.
fn all_distinct(cells: &Vec<Position>) -> (b: bool)
    ensures
        b == cells@.no_duplicates(),
{
    let mut i: usize = 0;
    while i < cells.len()
        invariant
            i <= cells.len(),
            forall|a: int, b: int| 0 <= a < b < cells@.len() && a < i ==> cells@[a] != cells@[b],
        decreases cells.len() - i,
    {
        let mut j: usize = i + 1;
        while j < cells.len()
            invariant
                i < j <= cells.len(),
                forall|b: int| i < b < j ==> cells@[i as int] != cells@[b],
            decreases cells.len() - j,
        {
            if cells[i] == cells[j] {
                return false;
            }
            j += 1;
        }
        i += 1;
    }
    assert forall|a: int, b: int| 0 <= a < cells@.len() && 0 <= b < cells@.len() && a != b
        implies cells@[a] != cells@[b] by {
        if a < b {
        } else {
            assert(cells@[b] != cells@[a]);
        }
    }
    true
}

/// The start of a game is a valid state.
pub proof fn lemma_start_is_valid(food: Position, clock: Clock)
    requires
        food.in_food_region(),
    ensures
        SnakeState::start(food, clock).wf(),
        SnakeState::start(food, clock).score() == 0,
        !SnakeState::start(food, clock).game_over,
{
}

/// A tick leaves a valid game valid: the snake stays on the field and never
/// covers a cell twice, and the food stays in its region.
pub proof fn lemma_step_keeps_wf(s: SnakeState, d: Direction, fresh_food: Position)
    requires
        s.wf(),
        fresh_food.in_food_region(),
    ensures
        s.step(d, fresh_food).wf(),
{
    let t = s.step(d, fresh_food);
    let h = s.next_head(d);
    if !s.game_over && s.outcome(d) != TickResult::GameOver {
        // The new head is no segment behind the old head, and it is not the old
        // head either, one step away from it.
        assert(h != s.body[0]) by {
            match d {
                Direction::Up => {},
                Direction::Down => {},
                Direction::Left => {},
                Direction::Right => {},
            }
        }
        assert forall|i: int| 0 <= i < s.body.len() implies s.body[i] != h by {
            if i > 0 {
                assert(s.tail()[i - 1] == s.body[i]);
            }
        }
        assert forall|i: int, j: int| 0 <= i < t.body.len() && 0 <= j < t.body.len() && i != j
            implies t.body[i] != t.body[j] by {
            if i > 0 && j > 0 {
                assert(t.body[i] == s.body[i - 1]);
                assert(t.body[j] == s.body[j - 1]);
            }
        }
        assert forall|i: int| 0 <= i < t.body.len() implies (#[trigger] t.body[i]).in_field() by {
            if i > 0 {
                assert(t.body[i] == s.body[i - 1]);
            }
        }
    }
}

} // verus!
