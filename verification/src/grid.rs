//! The grid and direction model: discrete cell coordinates, the four
//! cardinal headings plus the "not yet moving" sentinel, and the per-segment
//! turn descriptor used for corner sprite selection.
use vstd::prelude::*;

verus! {

/// Width of the play field in cells; a position satisfies `0 <= x < GRID_WIDTH`.
pub const GRID_WIDTH: i32 = 20;

/// Height of the play field in cells; a position satisfies `0 <= y < GRID_HEIGHT`.
pub const GRID_HEIGHT: i32 = 20;

/// A cell of the grid. A plain value with no identity.
#[derive(Clone, Copy, Debug, PartialEq, Eq, Structural)]
pub struct Position {
    pub x: i32,
    pub y: i32,
}

/// A movement heading: one of the four cardinal directions, or `Null` for
/// "not yet moving" (the state before the first directional input).
#[derive(Clone, Copy, Debug, PartialEq, Eq, Structural)]
pub enum SnakeDirection {
    Up,
    Down,
    Left,
    Right,
    Null,
}

/// The turn descriptor of a segment: the heading it was traveling on when it
/// entered its current cell, and the heading it leaves on. Read only by the
/// renderer to pick a straight or corner sprite.
#[derive(Clone, Copy, Debug, PartialEq, Eq, Structural)]
pub struct DirectionPair {
    pub entry: SnakeDirection,
    pub exit: SnakeDirection,
}

/// Whether a position lies on the grid.
pub open spec fn in_bounds(p: Position) -> bool {
    0 <= p.x < GRID_WIDTH && 0 <= p.y < GRID_HEIGHT
}

/// The heading opposite to `d`; `Null` has no opposite and maps to itself.
pub open spec fn opposite(d: SnakeDirection) -> SnakeDirection {
    match d {
        SnakeDirection::Up => SnakeDirection::Down,
        SnakeDirection::Down => SnakeDirection::Up,
        SnakeDirection::Left => SnakeDirection::Right,
        SnakeDirection::Right => SnakeDirection::Left,
        SnakeDirection::Null => SnakeDirection::Null,
    }
}

/// Whether a head at `p` may take one step toward `d` without leaving the
/// grid. A `Null` heading never moves.
pub open spec fn move_ok(p: Position, d: SnakeDirection) -> bool {
    match d {
        SnakeDirection::Left => p.x > 0,
        SnakeDirection::Right => p.x < GRID_WIDTH - 1,
        SnakeDirection::Up => p.y < GRID_HEIGHT - 1,
        SnakeDirection::Down => p.y > 0,
        SnakeDirection::Null => false,
    }
}

/// The cell one step from `p` toward `d`.
pub open spec fn moved_pos(p: Position, d: SnakeDirection) -> Position {
    match d {
        SnakeDirection::Left => Position { x: (p.x - 1) as i32, y: p.y },
        SnakeDirection::Right => Position { x: (p.x + 1) as i32, y: p.y },
        SnakeDirection::Up => Position { x: p.x, y: (p.y + 1) as i32 },
        SnakeDirection::Down => Position { x: p.x, y: (p.y - 1) as i32 },
        SnakeDirection::Null => p,
    }
}

/// Runtime test for [`move_ok`].
pub fn move_allowed(p: Position, d: SnakeDirection) -> (b: bool)
    ensures
        b == move_ok(p, d),
{
    match d {
        SnakeDirection::Left => p.x > 0,
        SnakeDirection::Right => p.x < GRID_WIDTH - 1,
        SnakeDirection::Up => p.y < GRID_HEIGHT - 1,
        SnakeDirection::Down => p.y > 0,
        SnakeDirection::Null => false,
    }
}

/// Takes one step from `p` toward `d`; the step must stay on the grid.
pub fn step_toward(p: Position, d: SnakeDirection) -> (q: Position)
    requires
        in_bounds(p),
        move_ok(p, d),
    ensures
        q == moved_pos(p, d),
        in_bounds(q),
{
    match d {
        SnakeDirection::Left => Position { x: p.x - 1, y: p.y },
        SnakeDirection::Right => Position { x: p.x + 1, y: p.y },
        SnakeDirection::Up => Position { x: p.x, y: p.y + 1 },
        SnakeDirection::Down => Position { x: p.x, y: p.y - 1 },
        SnakeDirection::Null => p,
    }
}

} // verus!
