//! Verified core of a two-player paddle-and-ball game.
//!
//! Positions and velocities are kept in whole millipixels (thousandths of a
//! pixel), so every quantity the game reasons about is an integer and every
//! step of the physics carries an exact contract.

pub mod component;
pub mod constants;
pub mod fixed;
pub mod game;
pub mod laws;
mod random;
pub mod vector;
