//! Simulation core for an infinite-runner mini-game.
//!
//! The crate models the game's logic as a deterministic, frame-stepped
//! simulation: a closed-form jump trajectory, a cooldown-based spawner with
//! escalating difficulty, axis-aligned collision detection, a three-state
//! game state machine, and entity movement with scoring. Rendering, input
//! devices and audio are outside collaborators: they feed the core plain
//! values (elapsed time, input edges) and read back entity positions, events
//! and the score.
//!
//! All quantities are exact fixed-point integers:
//! - time is counted in microseconds,
//! - world lengths in pico-units (one world unit is `10^12` pico-units),
//! - horizontal velocities in micro-units per second, which equals
//!   pico-units per microsecond, so a movement step `velocity * elapsed`
//!   needs no rounding.

pub mod units;
pub mod jump;
pub mod collision;
pub mod config;
pub mod actors;
pub mod game_state;
pub mod sim;
