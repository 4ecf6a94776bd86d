//! Headless simulation logic of a vertical-scrolling shoot-'em-up: level
//! scripts, the spawn scheduler, the weapon tree, the shop economy, the
//! player's hit points and lives, and the game's explicit state machine.
//!
//! Everything here works on whole numbers: distances in pixels, durations
//! in microseconds, hit points and cash as counts. Continuous motion,
//! collision geometry and rendering live in the program around it.

pub mod game;
pub mod levels;
