//! The simulation state and its per-tick engines: the heading controller
//! hook, the movement engine, the collision detector, and the growth engine.
//!
//! Each engine is specified against [`GameView`], the mathematical model of
//! the state, through the transition functions [`input_step`], [`move_step`]
//! and [`grow_step`]. One tick runs them in the fixed order: heading update,
//! movement and shift, collision check, growth.
use vstd::prelude::*;

use crate::chain::{chain_wf, shifted, Chain, Segment};
use crate::control::{requested, requested_dir, turned_pair, PressedDirections};
use crate::grid::{
    in_bounds, move_allowed, move_ok, moved_pos, step_toward, DirectionPair, Position,
    SnakeDirection,
};

verus! {

/// The mathematical model of the whole simulation state.
#[verifier::ext_equal]
pub ghost struct GameView {
    /// The segments, head first, tail last.
    pub segs: Seq<Segment>,
    /// The head's authoritative movement direction.
    pub heading: SnakeDirection,
    /// Snapshot of the tail as it was before the most recent shift; what a
    /// new segment spawns from when the chain grows.
    pub last_tail: Option<Segment>,
    /// Number of food items consumed so far.
    pub score: u128,
}

/// Validity of a state: a well-formed chain, and a last-tail snapshot (if
/// one has been recorded) that lies on the grid.
pub open spec fn view_wf(g: GameView) -> bool {
    &&& chain_wf(g.segs)
    &&& g.last_tail matches Some(t) ==> in_bounds(t.pos)
}

/// The state after one input poll: if the poll requests an acceptable
/// direction, the heading and the head's turn descriptor change; otherwise
/// nothing does. A chain without a segment behind the head leaves the poll
/// without effect, since the descriptor promotion reads that segment.
pub open spec fn input_step(g: GameView, keys: PressedDirections) -> GameView {
    if g.segs.len() < 2 {
        g
    } else {
        match requested_dir(keys, g.heading) {
            Some(d) => GameView {
                segs: g.segs.update(
                    0,
                    Segment { pos: g.segs[0].pos, dir: turned_pair(g.segs[0].dir, g.segs[1].dir, d) },
                ),
                heading: d,
                last_tail: g.last_tail,
                score: g.score,
            },
            None => g,
        }
    }
}

/// The state after one movement tick: with a `Null` heading, or a step that
/// would leave the grid, the whole tick is a no-op; otherwise the head
/// advances one cell, every other segment takes its predecessor's place,
/// and the pre-shift tail is recorded as the last-tail snapshot.
pub open spec fn move_step(g: GameView) -> GameView {
    if g.heading is Null || !move_ok(g.segs[0].pos, g.heading) {
        g
    } else {
        GameView {
            segs: shifted(g.segs, moved_pos(g.segs[0].pos, g.heading)),
            heading: g.heading,
            last_tail: Some(g.segs[g.segs.len() - 1]),
            score: g.score,
        }
    }
}

/// The state after the growth engine runs: when at least one scored event
/// arrived and a last-tail snapshot exists, the score rises by one and one
/// segment is appended at the snapshot; otherwise nothing changes. Several
/// events in one tick are consumed as one.
pub open spec fn grow_step(g: GameView, scored_now: bool) -> GameView {
    match g.last_tail {
        Some(t) => if scored_now {
            GameView {
                segs: g.segs.push(t),
                heading: g.heading,
                last_tail: g.last_tail,
                score: (g.score + 1) as u128,
            }
        } else {
            g
        },
        None => g,
    }
}

/// Exactly which food items the head overlaps: `hits` lists, in increasing
/// order, every index of `foods` whose cell equals `head`.
pub open spec fn hits_match(head: Position, foods: Seq<Position>, hits: Seq<usize>) -> bool {
    &&& forall|j: int|
        0 <= j < hits.len() ==> #[trigger] hits[j] < foods.len() && foods[hits[j] as int] == head
    &&& forall|i: int| 0 <= i < foods.len() && #[trigger] foods[i] == head ==> hits.contains(i as usize)
    &&& forall|j1: int, j2: int|
        0 <= j1 < j2 < hits.len() ==> #[trigger] hits[j1] < #[trigger] hits[j2]
}

/// The state at game start: a three-segment chain at (3,3), (3,2), (3,1),
/// all descriptors `Null`, heading `Null`, no snapshot, score zero.
pub open spec fn initial_view() -> GameView {
    GameView {
        segs: seq![
            Segment {
                pos: Position { x: 3, y: 3 },
                dir: DirectionPair { entry: SnakeDirection::Null, exit: SnakeDirection::Null },
            },
            Segment {
                pos: Position { x: 3, y: 2 },
                dir: DirectionPair { entry: SnakeDirection::Null, exit: SnakeDirection::Null },
            },
            Segment {
                pos: Position { x: 3, y: 1 },
                dir: DirectionPair { entry: SnakeDirection::Null, exit: SnakeDirection::Null },
            },
        ],
        heading: SnakeDirection::Null,
        last_tail: None,
        score: 0,
    }
}

/// The whole simulation state: the chain, the head's heading, the last-tail
/// snapshot, and the score. Exclusively owned by the tick routine; every
/// mutation goes through the engine methods below.
#[derive(Clone, Debug, PartialEq, Eq)]
pub struct GameState {
    pub chain: Chain,
    pub heading: SnakeDirection,
    pub last_tail: Option<Segment>,
    pub score: u128,
}

impl View for GameState {
    type V = GameView;

    open spec fn view(&self) -> GameView {
        GameView {
            segs: self.chain@,
            heading: self.heading,
            last_tail: self.last_tail,
            score: self.score,
        }
    }
}

impl GameState {
    pub open spec fn wf(&self) -> bool {
        view_wf(self@)
    }

    /// Spawns the snake of game start: head at (3,3), body at (3,2) and
    /// (3,1), nothing moving yet.
    pub fn new() -> (s: GameState)
        ensures
            s.wf(),
            s@ == initial_view(),
    {
        let null_pair = DirectionPair { entry: SnakeDirection::Null, exit: SnakeDirection::Null };
        let mut chain = Chain::new(Segment { pos: Position { x: 3, y: 3 }, dir: null_pair });
        let _ = chain.append(Position { x: 3, y: 2 }, null_pair);
        let _ = chain.append(Position { x: 3, y: 1 }, null_pair);
        let s = GameState { chain, heading: SnakeDirection::Null, last_tail: None, score: 0 };
        proof {
            assert(s@ =~= initial_view());
        }
        s
    }

    /// The heading controller: applies one input poll, accepting a
    /// direction only if it is not the opposite of the current heading, and
    /// updating the head's turn descriptor as [`turned_pair`] says.
    pub fn snake_controls(&mut self, keys: PressedDirections)
        requires
            old(self).wf(),
        ensures
            final(self).wf(),
            final(self)@ == input_step(old(self)@, keys),
    {
        if self.chain.len() < 2 {
            return;
        }
        let head = self.chain.get(0);
        let prev = self.chain.get(1);
        match requested(keys, self.heading) {
            Some(d) => {
                self.heading = d;
                let pair = if head.dir.entry == head.dir.exit && head.dir == prev.dir {
                    DirectionPair { entry: d, exit: d }
                } else {
                    DirectionPair { entry: prev.dir.exit, exit: d }
                };
                self.chain.set_head_dir(pair);
                proof {
                    assert(self@ =~= input_step(old(self)@, keys));
                }
            },
            None => {},
        }
    }

    /// The movement engine: one tick of motion. With a `Null` heading or a
    /// step off the grid the whole tick aborts and nothing moves; otherwise
    /// the head advances, the chain shifts, and the pre-shift tail is
    /// recorded for the growth engine.
    pub fn snake_movement(&mut self)
        requires
            old(self).wf(),
        ensures
            final(self).wf(),
            final(self)@ == move_step(old(self)@),
    {
        if self.heading == SnakeDirection::Null {
            return;
        }
        let head = self.chain.get(0);
        if !move_allowed(head.pos, self.heading) {
            return;
        }
        let new_head = step_toward(head.pos, self.heading);
        let tail = self.chain.shift(new_head);
        self.last_tail = Some(tail);
        proof {
            assert(self@ =~= move_step(old(self)@));
        }
    }

    /// The collision detector: which food items the head currently
    /// overlaps. Each returned index is one scored event; its food item
    /// counts as consumed, to be despawned by the food collaborator.
    pub fn collision_detection(&self, foods: &Vec<Position>) -> (hits: Vec<usize>)
        requires
            self.wf(),
        ensures
            hits_match(self@.segs[0].pos, foods@, hits@),
    {
        let head = self.chain.get(0);
        let mut hits: Vec<usize> = Vec::new();
        let n = foods.len();
        let mut i: usize = 0;
        while i < n
            invariant
                i <= n,
                forall|j: int|
                    0 <= j < hits@.len()
                        ==> #[trigger] hits@[j] < i && foods@[hits@[j] as int] == head.pos,
                forall|k: int|
                    0 <= k < i && #[trigger] foods@[k] == head.pos ==> hits@.contains(k as usize),
                forall|j1: int, j2: int|
                    0 <= j1 < j2 < hits@.len() ==> #[trigger] hits@[j1] < #[trigger] hits@[j2],
            decreases n - i,
        {
            if foods[i] == head.pos {
                let ghost prev_hits = hits@;
                hits.push(i);
                proof {
                    assert(hits@[hits@.len() - 1] == i as usize);
                    assert(forall|k: int|
                        0 <= k < i && #[trigger] foods@[k] == head.pos ==> hits@.contains(
                            k as usize,
                        )) by {
                        assert(forall|k: int|
                            0 <= k < prev_hits.len() ==> hits@[k] == #[trigger] prev_hits[k]);
                        assert(forall|x: usize|
                            prev_hits.contains(x) ==> #[trigger] hits@.contains(x));
                    }
                }
            }
            i += 1;
        }
        hits
    }

    /// The growth engine: consumes this tick's scored events. With at least
    /// one event and a recorded last-tail snapshot, the score rises by one
    /// and one segment is appended at the snapshot; an event arriving
    /// before any movement tick is skipped without growth.
    pub fn scored(&mut self, events: usize)
        requires
            old(self).wf(),
            events > 0 && old(self).last_tail is Some ==> old(self).score < u128::MAX,
        ensures
            final(self).wf(),
            final(self)@ == grow_step(old(self)@, events > 0),
    {
        if events == 0 {
            return;
        }
        match self.last_tail {
            Some(t) => {
                self.score = self.score + 1;
                let _ = self.chain.append(t.pos, t.dir);
                proof {
                    assert(self@ =~= grow_step(old(self)@, events > 0));
                }
            },
            None => {},
        }
    }

    /// One full simulation tick in the fixed order: movement and shift,
    /// collision check against the given food cells, growth on a hit.
    /// Returns the indices of the food items consumed this tick.
    pub fn tick(&mut self, foods: &Vec<Position>) -> (hits: Vec<usize>)
        requires
            old(self).wf(),
            old(self).score < u128::MAX,
        ensures
            final(self).wf(),
            hits_match(move_step(old(self)@).segs[0].pos, foods@, hits@),
            final(self)@ == grow_step(move_step(old(self)@), hits@.len() > 0),
    {
        self.snake_movement();
        let hits = self.collision_detection(foods);
        let events = hits.len();
        self.scored(events);
        hits
    }
}

} // verus!
