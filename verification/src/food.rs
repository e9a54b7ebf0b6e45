//! Food placement: choosing a cell for a new food item that no chain
//! segment currently occupies.
//!
//! Placement samples random cells first, so that food lands uniformly on a
//! mostly free grid, and falls back to a row-major scan so that the choice
//! terminates and succeeds whenever any free cell exists at all.
use vstd::prelude::*;

use rand::Rng;

use crate::grid::{in_bounds, Position, GRID_HEIGHT, GRID_WIDTH};

verus! {

/// How many random cells are tried before the deterministic scan takes over.
const SPAWN_ATTEMPTS: usize = 100;

/// Relies on rand::Rng::gen_range (on rand::thread_rng), which returns a
/// value in the given range and panics only on an empty range.
#[verifier::external_body]
fn random_coordinate(bound: i32) -> (r: i32)
    requires
        bound > 0,
    ensures
        0 <= r < bound,
{
    rand::thread_rng().gen_range(0..bound)
}

/// Whether `p` is one of the cells in `occupied`.
fn position_is_occupied(occupied: &Vec<Position>, p: Position) -> (b: bool)
    ensures
        b == occupied@.contains(p),
{
    let n = occupied.len();
    let mut i: usize = 0;
    while i < n
        invariant
            i <= n,
            forall|j: int| 0 <= j < i ==> occupied@[j] != p,
        decreases n - i,
    {
        if occupied[i] == p {
            proof {
                assert(occupied@[i as int] == p);
            }
            return true;
        }
        i += 1;
    }
    false
}

/// Chooses the cell for a new food item: some grid cell not occupied by any
/// segment. Returns `None` exactly when every cell of the grid is occupied.
pub fn spawn_food(occupied: &Vec<Position>) -> (r: Option<Position>)
    ensures
        r matches Some(p) ==> in_bounds(p) && !occupied@.contains(p),
        r is None ==> forall|p: Position| in_bounds(p) ==> occupied@.contains(p),
{
    let mut attempt: usize = 0;
    while attempt < SPAWN_ATTEMPTS
        invariant
            attempt <= SPAWN_ATTEMPTS,
        decreases SPAWN_ATTEMPTS - attempt,
    {
        let p = Position { x: random_coordinate(GRID_WIDTH), y: random_coordinate(GRID_HEIGHT) };
        if !position_is_occupied(occupied, p) {
            return Some(p);
        }
        attempt += 1;
    }
    let mut x: i32 = 0;
    while x < GRID_WIDTH
        invariant
            0 <= x <= GRID_WIDTH,
            forall|p: Position| in_bounds(p) && p.x < x ==> occupied@.contains(p),
        decreases GRID_WIDTH - x,
    {
        let mut y: i32 = 0;
        while y < GRID_HEIGHT
            invariant
                0 <= x < GRID_WIDTH,
                0 <= y <= GRID_HEIGHT,
                forall|p: Position| in_bounds(p) && p.x < x ==> occupied@.contains(p),
                forall|p: Position| in_bounds(p) && p.x == x && p.y < y ==> occupied@.contains(p),
            decreases GRID_HEIGHT - y,
        {
            let p = Position { x, y };
            if !position_is_occupied(occupied, p) {
                return Some(p);
            }
            y += 1;
        }
        x += 1;
    }
    None
}

} // verus!
