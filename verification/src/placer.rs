//! Where the next piece of food appears.

use crate::grid::{Position, FOOD_HIGH, FOOD_LOW};
use rand::rngs::ThreadRng;
use rand::Rng;
use vstd::prelude::*;

verus! {

/// The handle that `rand` gives to the generator of the current thread. Nothing is
/// known of what is inside it.
#[verifier::external_type_specification]
#[verifier::external_body]
pub struct ExThreadRng(ThreadRng);

/// `rand::thread_rng` hands out the generator of the current thread, seeded by the
/// operating system when the thread first asks for it. Nothing is claimed of the
/// handle. The call takes no input; it fails, by a panic, only on a system that
/// cannot supply a seed.
pub assume_specification[ rand::thread_rng ]() -> (rng: ThreadRng);

/// `rand::Rng::gen_range` on the half-open range `low..high` of `i32`. The crate
/// rejects an empty range by a panic, hence the precondition; for any other range it
/// returns a member of it. Which member is up to the generator, so nothing more is
/// claimed: two calls may differ.
#[verifier::external_body]
fn gen_range(rng: &mut ThreadRng, low: i32, high: i32) -> (n: i32)
    requires
        low < high,
    ensures
        low <= n < high,
{
    rng.gen_range(low..high)
}

/// Picks the cell for a new piece of food: each coordinate is drawn on its own from
/// `FOOD_LOW..FOOD_HIGH`, the column first. The cell may lie under the snake.
pub fn place() -> (p: Position)
    ensures
        p.in_food_region(),
{
    let mut rng = rand::thread_rng();
    let x: i32 = gen_range(&mut rng, FOOD_LOW, FOOD_HIGH);
    let y: i32 = gen_range(&mut rng, FOOD_LOW, FOOD_HIGH);
    Position { x, y }
}

} // verus!
