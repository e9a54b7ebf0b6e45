//! General properties of the simulation, stated over the model transitions
//! of [`crate::game`] and proved once and for all. Each lemma quantifies
//! over every state (and input) its statement allows.
use vstd::prelude::*;

use crate::chain::Segment;
use crate::control::{requested_dir, PressedDirections};
use crate::game::{grow_step, input_step, move_step, GameView};
use crate::grid::{move_ok, moved_pos, opposite, DirectionPair, SnakeDirection};

verus! {

/// One full tick — input poll, movement, growth — as a transition of the
/// model: `scored_now` says whether at least one scored event arrived at
/// collision time.
pub open spec fn tick_step(g: GameView, keys: PressedDirections, scored_now: bool) -> GameView {
    grow_step(move_step(input_step(g, keys)), scored_now)
}

/// A whole run of ticks, applied front to back.
pub open spec fn run_ticks(g: GameView, ticks: Seq<(PressedDirections, bool)>) -> GameView
    decreases ticks.len(),
{
    if ticks.len() == 0 {
        g
    } else {
        run_ticks(tick_step(g, ticks[0].0, ticks[0].1), ticks.drop_first())
    }
}

/// Chain length is non-decreasing under a full tick — input poll, movement,
/// growth — and rises by exactly one when a scored event is processed (that
/// is, when one arrived and a last-tail snapshot exists by collision time),
/// and by nothing otherwise.
pub proof fn lemma_chain_length_monotonic(g: GameView, keys: PressedDirections, scored_now: bool)
    ensures
        ({
            let after_move = move_step(input_step(g, keys));
            let after_tick = grow_step(after_move, scored_now);
            &&& after_tick.segs.len() >= g.segs.len()
            &&& (scored_now && after_move.last_tail is Some) ==> after_tick.segs.len()
                == g.segs.len() + 1
            &&& !(scored_now && after_move.last_tail is Some) ==> after_tick.segs.len()
                == g.segs.len()
        }),
{
}

/// Chain length never shrinks along any sequence of ticks, whatever is
/// pressed and whatever scores.
pub proof fn lemma_length_monotonic_over_run(g: GameView, ticks: Seq<(PressedDirections, bool)>)
    ensures
        run_ticks(g, ticks).segs.len() >= g.segs.len(),
    decreases ticks.len(),
{
    if ticks.len() > 0 {
        lemma_chain_length_monotonic(g, ticks[0].0, ticks[0].1);
        lemma_length_monotonic_over_run(tick_step(g, ticks[0].0, ticks[0].1), ticks.drop_first());
    }
}

/// Shift correctness: on a non-aborted movement tick the head advances one
/// cell keeping its turn descriptor, and every other segment takes exactly
/// the position and descriptor its predecessor had before the tick; the
/// pre-tick tail is recorded as the last-tail snapshot. Heading and score
/// do not move.
pub proof fn lemma_shift_correctness(g: GameView)
    requires
        g.segs.len() >= 1,
        !(g.heading is Null),
        move_ok(g.segs[0].pos, g.heading),
    ensures
        move_step(g).segs.len() == g.segs.len(),
        move_step(g).segs[0].pos == moved_pos(g.segs[0].pos, g.heading),
        move_step(g).segs[0].dir == g.segs[0].dir,
        forall|i: int| 1 <= i < g.segs.len() ==> move_step(g).segs[i] == g.segs[i - 1],
        move_step(g).last_tail == Some(g.segs[g.segs.len() - 1]),
        move_step(g).heading == g.heading,
        move_step(g).score == g.score,
{
}

/// Boundary clamp: a movement tick whose head step would leave the grid
/// changes nothing at all, and repeating the tick (heading unchanged, step
/// still out of bounds) changes nothing again.
pub proof fn lemma_boundary_clamp(g: GameView)
    requires
        g.segs.len() >= 1,
        !(g.heading is Null),
        !move_ok(g.segs[0].pos, g.heading),
    ensures
        move_step(g) == g,
        move_step(move_step(g)) == move_step(g),
{
}

/// A tick without a heading: before the first accepted input the movement
/// engine is a no-op.
pub proof fn lemma_null_heading_no_op(g: GameView)
    requires
        g.heading is Null,
    ensures
        move_step(g) == g,
{
}

/// No reversal: whatever keys are pressed, an input poll never turns the
/// heading into the exact opposite of what it was.
pub proof fn lemma_no_reversal(g: GameView, keys: PressedDirections)
    requires
        !(g.heading is Null),
    ensures
        input_step(g, keys).heading != opposite(g.heading),
{
}

/// Opposite-heading rejection: with the heading Left, a poll requesting
/// only Right is ignored outright — the state, heading included, stays as
/// it was.
pub proof fn lemma_opposite_heading_rejected(g: GameView, keys: PressedDirections)
    requires
        g.heading is Left,
        keys.right,
        !keys.left,
        !keys.down,
        !keys.up,
    ensures
        input_step(g, keys) == g,
{
}

/// Turn descriptor update: when a poll is accepted as a turn toward `d`,
/// the heading becomes `d` and the head's descriptor is rewritten — both
/// fields forced to `d` exactly when the descriptor was straight and equal
/// to the predecessor's pair (the degenerate duplication), and promoted
/// from the predecessor's exit otherwise. Nothing else moves.
pub proof fn lemma_turn_descriptor_update(
    g: GameView,
    keys: PressedDirections,
    d: SnakeDirection,
)
    requires
        g.segs.len() >= 2,
        requested_dir(keys, g.heading) == Some(d),
    ensures
        ({
            let h = input_step(g, keys);
            let degenerate = g.segs[0].dir.entry == g.segs[0].dir.exit && g.segs[0].dir
                == g.segs[1].dir;
            &&& h.heading == d
            &&& degenerate ==> h.segs[0].dir == (DirectionPair { entry: d, exit: d })
            &&& !degenerate ==> h.segs[0].dir == (DirectionPair {
                entry: g.segs[1].dir.exit,
                exit: d,
            })
            &&& h.segs[0].pos == g.segs[0].pos
            &&& h.segs.len() == g.segs.len()
            &&& forall|i: int| 1 <= i < g.segs.len() ==> h.segs[i] == g.segs[i]
            &&& h.last_tail == g.last_tail
            &&& h.score == g.score
        }),
{
}

/// Turn descriptor propagation: after an accepted turn toward `d` and one
/// non-aborted movement tick, the segment immediately behind the head
/// carries exactly the descriptor the head took at the turn.
pub proof fn lemma_turn_reaches_follower(g: GameView, keys: PressedDirections, d: SnakeDirection)
    requires
        g.segs.len() >= 2,
        requested_dir(keys, g.heading) == Some(d),
        move_ok(g.segs[0].pos, d),
    ensures
        move_step(input_step(g, keys)).segs[1].dir == input_step(g, keys).segs[0].dir,
{
    let h = input_step(g, keys);
    assert(h.heading == d && !(d is Null));
    assert(h.segs[0].pos == g.segs[0].pos);
    assert(move_step(h).segs[1] == h.segs[0]);
}

/// Growth without history: a scored event that arrives before any movement
/// tick has recorded a last-tail snapshot is skipped — no growth, no score.
pub proof fn lemma_growth_without_history(g: GameView, scored_now: bool)
    requires
        g.last_tail is None,
    ensures
        grow_step(g, scored_now) == g,
{
}

/// Growth: a processed scored event appends exactly one segment, at the
/// recorded last-tail snapshot, and raises the score by one; heading and
/// snapshot stay as they were.
pub proof fn lemma_growth_appends_snapshot(g: GameView, t: Segment)
    requires
        g.last_tail == Some(t),
        g.score < u128::MAX,
    ensures
        grow_step(g, true).segs == g.segs.push(t),
        grow_step(g, true).segs.len() == g.segs.len() + 1,
        grow_step(g, true).segs[g.segs.len() as int] == t,
        grow_step(g, true).score == g.score + 1,
        grow_step(g, true).heading == g.heading,
        grow_step(g, true).last_tail == g.last_tail,
{
}

} // verus!
