//! A verified Conway's Game of Life engine.
//!
//! The simulation runs on a fixed square grid with hard (non-wrapping)
//! boundaries; a smaller square viewport, centered in the grid, is what the
//! outside world seeds and observes.

pub mod game;
pub mod laws;
