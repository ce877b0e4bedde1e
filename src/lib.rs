//! Conway's Game of Life on the grid of `i32` coordinates, with the state
//! machinery that lets a step run off the caller's thread of control:
//! single-flight step scheduling, an ordered queue of inputs deferred
//! while a step is outstanding, and an auto-play timer.

pub mod cells;
pub mod rule;
pub mod timer;
pub mod worker;
pub mod game;
pub mod laws;
