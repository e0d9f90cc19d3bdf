//! A sliding pipe puzzle: a grid of tiles with gaps, each tile carrying a
//! rotatable pipe segment, and a water flow that advances along connected
//! pipes and locks every tile it enters.
//!
//! All state transitions are specified over a mathematical model of the
//! puzzle and proved to preserve the board's well-formedness.

pub mod board;
mod chance;
pub mod engine;
pub mod invariants;
pub mod pipe;
pub mod tile;
pub mod water;
