//! The segment chain: the ordered head-to-tail sequence of snake body
//! segments, each owning a position and a turn descriptor.
//!
//! A segment's identity is its index in the chain: index 0 is the head and
//! the chain is only ever appended to, never reordered or shrunk, so indices
//! are stable for a segment's lifetime and trivially distinct.
use vstd::prelude::*;

use crate::grid::{in_bounds, DirectionPair, Position};

verus! {

/// One body segment: its current cell and its turn descriptor.
#[derive(Clone, Copy, Debug, PartialEq, Eq, Structural)]
pub struct Segment {
    pub pos: Position,
    pub dir: DirectionPair,
}

/// The chain of segments, head first, tail last. It holds at least one
/// segment and every segment lies on the grid.
#[derive(Clone, Debug, PartialEq, Eq)]
pub struct Chain {
    segments: Vec<Segment>,
}

impl View for Chain {
    type V = Seq<Segment>;

    closed spec fn view(&self) -> Seq<Segment> {
        self.segments@
    }
}

/// Well-formedness of a chain's contents: non-empty, all cells on the grid.
pub open spec fn chain_wf(segs: Seq<Segment>) -> bool {
    &&& segs.len() >= 1
    &&& forall|i: int| 0 <= i < segs.len() ==> in_bounds(#[trigger] segs[i].pos)
}

/// The chain after one movement tick: the head stands on `new_head` keeping
/// its own turn descriptor, and every other segment takes both the position
/// and the turn descriptor its predecessor had before the tick.
pub open spec fn shifted(segs: Seq<Segment>, new_head: Position) -> Seq<Segment> {
    Seq::new(
        segs.len(),
        |i: int|
            if i == 0 {
                Segment { pos: new_head, dir: segs[0].dir }
            } else {
                segs[i - 1]
            },
    )
}

impl Chain {
    pub open spec fn wf(&self) -> bool {
        chain_wf(self@)
    }

    /// A chain of a single segment, the head.
    pub fn new(head: Segment) -> (c: Chain)
        requires
            in_bounds(head.pos),
        ensures
            c@ == seq![head],
            c.wf(),
    {
        let mut segments: Vec<Segment> = Vec::new();
        segments.push(head);
        proof {
            assert(segments@ =~= seq![head]);
        }
        Chain { segments }
    }

    /// Appends a new tail segment and returns its identity (its index).
    /// Never fails; the chain never shrinks.
    pub fn append(&mut self, pos: Position, dir: DirectionPair) -> (id: usize)
        requires
            in_bounds(pos),
        ensures
            final(self)@ == old(self)@.push((Segment { pos: pos, dir: dir })),
            id == old(self)@.len(),
            old(self).wf() ==> final(self).wf(),
    {
        let id = self.segments.len();
        self.segments.push(Segment { pos, dir });
        id
    }

    /// The number of segments.
    pub fn len(&self) -> (n: usize)
        ensures
            n == self@.len(),
    {
        self.segments.len()
    }

    /// The segment at index `i` (0 is the head).
    pub fn get(&self, i: usize) -> (s: Segment)
        requires
            i < self@.len(),
        ensures
            s == self@[i as int],
    {
        self.segments[i]
    }

    /// The cells of all segments, in head-to-tail order.
    pub fn positions(&self) -> (ps: Vec<Position>)
        ensures
            ps@ == self@.map_values(|s: Segment| s.pos),
    {
        let mut ps: Vec<Position> = Vec::new();
        let n = self.segments.len();
        let mut i: usize = 0;
        while i < n
            invariant
                i <= n,
                ps@.len() == i,
                forall|j: int| 0 <= j < i ==> ps@[j] == self@[j].pos,
            decreases n - i,
        {
            ps.push(self.segments[i].pos);
            i += 1;
        }
        proof {
            assert(ps@ =~= self@.map_values(|s: Segment| s.pos));
        }
        ps
    }

    /// The turn descriptors of all segments, in head-to-tail order.
    pub fn turns(&self) -> (ds: Vec<DirectionPair>)
        ensures
            ds@ == self@.map_values(|s: Segment| s.dir),
    {
        let mut ds: Vec<DirectionPair> = Vec::new();
        let n = self.segments.len();
        let mut i: usize = 0;
        while i < n
            invariant
                i <= n,
                ds@.len() == i,
                forall|j: int| 0 <= j < i ==> ds@[j] == self@[j].dir,
            decreases n - i,
        {
            ds.push(self.segments[i].dir);
            i += 1;
        }
        proof {
            assert(ds@ =~= self@.map_values(|s: Segment| s.dir));
        }
        ds
    }

    /// Performs the circular shift of one movement tick and returns the
    /// snapshot of the tail segment as it was before the shift.
    pub fn shift(&mut self, new_head: Position) -> (tail: Segment)
        requires
            old(self)@.len() >= 1,
            in_bounds(new_head),
        ensures
            final(self)@ == shifted(old(self)@, new_head),
            tail == old(self)@[old(self)@.len() - 1],
            old(self).wf() ==> final(self).wf(),
    {
        let n = self.segments.len();
        let tail = self.segments[n - 1];
        let mut moved: Vec<Segment> = Vec::new();
        moved.push(Segment { pos: new_head, dir: self.segments[0].dir });
        let mut i: usize = 1;
        while i < n
            invariant
                1 <= i <= n,
                moved@.len() == i,
                moved@[0] == (Segment { pos: new_head, dir: self@[0].dir }),
                forall|j: int| 1 <= j < i ==> moved@[j] == self@[j - 1],
            decreases n - i,
        {
            moved.push(self.segments[i - 1]);
            i += 1;
        }
        proof {
            assert(moved@ =~= shifted(self@, new_head));
        }
        self.segments = moved;
        tail
    }

    /// Replaces the head's turn descriptor, leaving everything else as it is.
    pub fn set_head_dir(&mut self, dir: DirectionPair)
        requires
            old(self)@.len() >= 1,
        ensures
            final(self)@ == old(self)@.update(
                0,
                (Segment { pos: old(self)@[0].pos, dir: dir }),
            ),
            old(self).wf() ==> final(self).wf(),
    {
        let pos = self.segments[0].pos;
        self.segments[0] = Segment { pos, dir };
    }
}

} // verus!
