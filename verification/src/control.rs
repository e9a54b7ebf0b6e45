//! The heading controller: turns raw directional input into the head's new
//! heading and turn descriptor.
//!
//! A press is accepted only if it is not the exact opposite of the current
//! heading, which rules out an instant reversal into the first body segment.
//! On acceptance the head's turn descriptor normally promotes its entry from
//! the predecessor's exit; when the head's descriptor is straight and equal
//! to the predecessor's, both fields are instead forced to the new heading,
//! which prevents a duplicated corner from elongating down the chain.
use vstd::prelude::*;

use crate::grid::{DirectionPair, SnakeDirection};

verus! {

/// The set of direction keys held down during one input poll.
#[derive(Clone, Copy, Debug, PartialEq, Eq, Structural)]
pub struct PressedDirections {
    pub left: bool,
    pub right: bool,
    pub down: bool,
    pub up: bool,
}

impl PressedDirections {
    /// A poll with no direction key held down.
    pub fn none() -> (p: PressedDirections)
        ensures
            p == (PressedDirections { left: false, right: false, down: false, up: false }),
    {
        PressedDirections { left: false, right: false, down: false, up: false }
    }

    /// A poll with exactly one direction key held down.
    pub fn only(d: SnakeDirection) -> (p: PressedDirections)
        ensures
            p.left == (d is Left),
            p.right == (d is Right),
            p.down == (d is Down),
            p.up == (d is Up),
    {
        PressedDirections {
            left: d == SnakeDirection::Left,
            right: d == SnakeDirection::Right,
            down: d == SnakeDirection::Down,
            up: d == SnakeDirection::Up,
        }
    }
}

/// The direction that the controller accepts from `keys` while the head
/// faces `facing`, if any. Directions are tried in the fixed order left,
/// right, down, up, and one is accepted only if it is not the exact
/// opposite of the current heading.
pub open spec fn requested_dir(keys: PressedDirections, facing: SnakeDirection) -> Option<
    SnakeDirection,
> {
    if keys.left && facing != SnakeDirection::Right {
        Some(SnakeDirection::Left)
    } else if keys.right && facing != SnakeDirection::Left {
        Some(SnakeDirection::Right)
    } else if keys.down && facing != SnakeDirection::Up {
        Some(SnakeDirection::Down)
    } else if keys.up && facing != SnakeDirection::Down {
        Some(SnakeDirection::Up)
    } else {
        None
    }
}

/// The head's turn descriptor after a turn toward `d`, given its current
/// descriptor `head` and the descriptor `prev` of the segment right behind
/// it. The degenerate case — a straight descriptor identical to the
/// predecessor's — forces both fields to `d`; otherwise the entry is
/// promoted from the predecessor's exit.
pub open spec fn turned_pair(head: DirectionPair, prev: DirectionPair, d: SnakeDirection)
    -> DirectionPair {
    if head.entry == head.exit && head == prev {
        DirectionPair { entry: d, exit: d }
    } else {
        DirectionPair { entry: prev.exit, exit: d }
    }
}

/// Runtime evaluation of [`requested_dir`].
pub fn requested(keys: PressedDirections, facing: SnakeDirection) -> (r: Option<SnakeDirection>)
    ensures
        r == requested_dir(keys, facing),
{
    if keys.left && facing != SnakeDirection::Right {
        Some(SnakeDirection::Left)
    } else if keys.right && facing != SnakeDirection::Left {
        Some(SnakeDirection::Right)
    } else if keys.down && facing != SnakeDirection::Up {
        Some(SnakeDirection::Down)
    } else if keys.up && facing != SnakeDirection::Down {
        Some(SnakeDirection::Up)
    } else {
        None
    }
}

} // verus!
