//! Simulation core of a grid-based snake game.
//!
//! The playfield is a toroidal `width x width` grid addressed by flat cell
//! indices; [`grid`] models one move on it.  [`world`] owns the snake, the
//! reward cell, the score and the game status, and advances the simulation
//! one tick at a time.

pub mod grid;
mod rng;
pub mod world;

pub use grid::Direction;
pub use world::GameStatus;
pub use world::World;
