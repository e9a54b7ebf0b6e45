//! Sprite selection: mapping a segment's turn descriptor to an index in the
//! texture atlas. Pure table lookups read by the renderer; they carry no
//! simulation semantics.
use vstd::prelude::*;

use crate::grid::{DirectionPair, SnakeDirection};

verus! {

/// The atlas index for a body segment, by the shape its turn descriptor
/// describes: a corner index for each of the four corner shapes, the
/// vertical straight for up/down, the horizontal straight for left/right,
/// and the vertical straight for anything else.
pub open spec fn body_sprite_index_spec(d: DirectionPair) -> usize {
    match (d.entry, d.exit) {
        (SnakeDirection::Left, SnakeDirection::Up) => 5,
        (SnakeDirection::Down, SnakeDirection::Right) => 5,
        (SnakeDirection::Right, SnakeDirection::Up) => 4,
        (SnakeDirection::Down, SnakeDirection::Left) => 4,
        (SnakeDirection::Left, SnakeDirection::Down) => 9,
        (SnakeDirection::Up, SnakeDirection::Right) => 9,
        (SnakeDirection::Right, SnakeDirection::Down) => 8,
        (SnakeDirection::Up, SnakeDirection::Left) => 8,
        (SnakeDirection::Up, SnakeDirection::Up) => 2,
        (SnakeDirection::Down, SnakeDirection::Down) => 2,
        (SnakeDirection::Left, SnakeDirection::Left) => 1,
        (SnakeDirection::Right, SnakeDirection::Right) => 1,
        _ => 2,
    }
}

/// The atlas index a segment is first spawned with, before any turn has
/// been propagated to it: by its exit heading alone, the horizontal
/// straight for left/right and the vertical straight otherwise.
pub open spec fn spawn_sprite_index_spec(d: DirectionPair) -> usize {
    match d.exit {
        SnakeDirection::Left => 1,
        SnakeDirection::Right => 1,
        _ => 2,
    }
}

/// Runtime evaluation of [`body_sprite_index_spec`].
pub fn body_sprite_index(d: DirectionPair) -> (i: usize)
    ensures
        i == body_sprite_index_spec(d),
{
    match (d.entry, d.exit) {
        (SnakeDirection::Left, SnakeDirection::Up) => 5,
        (SnakeDirection::Down, SnakeDirection::Right) => 5,
        (SnakeDirection::Right, SnakeDirection::Up) => 4,
        (SnakeDirection::Down, SnakeDirection::Left) => 4,
        (SnakeDirection::Left, SnakeDirection::Down) => 9,
        (SnakeDirection::Up, SnakeDirection::Right) => 9,
        (SnakeDirection::Right, SnakeDirection::Down) => 8,
        (SnakeDirection::Up, SnakeDirection::Left) => 8,
        (SnakeDirection::Up, SnakeDirection::Up) => 2,
        (SnakeDirection::Down, SnakeDirection::Down) => 2,
        (SnakeDirection::Left, SnakeDirection::Left) => 1,
        (SnakeDirection::Right, SnakeDirection::Right) => 1,
        _ => 2,
    }
}

/// Runtime evaluation of [`spawn_sprite_index_spec`].
pub fn spawn_sprite_index(d: DirectionPair) -> (i: usize)
    ensures
        i == spawn_sprite_index_spec(d),
{
    match d.exit {
        SnakeDirection::Left => 1,
        SnakeDirection::Right => 1,
        _ => 2,
    }
}

} // verus!
