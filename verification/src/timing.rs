//! Tick timing: the movement tick shortens as the score rises, so the game
//! speeds up the longer the snake gets.
use vstd::prelude::*;

verus! {

/// The movement tick period at score zero, in milliseconds.
pub const TICK_BASE_MILLIS: u64 = 125;

/// The tick period for a score: the base period minus one millisecond per
/// consumed food item, floored at zero.
pub open spec fn tick_period_spec(score: u128) -> u64 {
    if score >= TICK_BASE_MILLIS as u128 {
        0
    } else {
        (TICK_BASE_MILLIS as u128 - score) as u64
    }
}

/// Runtime evaluation of [`tick_period_spec`].
pub fn tick_period_millis(score: u128) -> (ms: u64)
    ensures
        ms == tick_period_spec(score),
{
    if score >= TICK_BASE_MILLIS as u128 {
        0
    } else {
        (TICK_BASE_MILLIS as u128 - score) as u64
    }
}

} // verus!
