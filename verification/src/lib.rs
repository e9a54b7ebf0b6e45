//! Core simulation of a grid snake game: a chain of segments follows its
//! head across a fixed grid, turns on directional input, grows when food is
//! consumed, and clamps softly at the walls.
#![verifier::loop_isolation(false)]

pub mod chain;
pub mod control;
pub mod food;
pub mod game;
pub mod grid;
pub mod laws;
pub mod sprites;
pub mod timing;
