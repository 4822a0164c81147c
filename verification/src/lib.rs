//! Simulation core of a falling-block dodging game.
//!
//! A player token moves along the bottom row of a fixed grid while blocks
//! fall from the top row. Everything here is a deterministic function of
//! the session state and of the random draws handed to it; drawing frames,
//! polling keys and reading the clock are left to the host program.

pub mod difficulty;
pub mod field;
pub mod session;
pub mod spawner;
