//! Core logic of a terminal snake-style game on a fixed, toroidal 2D grid.
//!
//! The board is `WIDTH x HEIGHT` cells, addressed by flattened indices
//! `x + y * WIDTH`. A fixed-length player advances one cell per tick in a
//! held direction, wrapping around the board edges; static obstacles end
//! the game on contact, and any keystroke then restarts it from a fresh
//! random placement.

pub mod board;
pub mod engine;
pub mod render;
mod rng;
