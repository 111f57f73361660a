//! Fixed-point units and the machine bounds the simulation keeps.
//!
//! Times are microseconds, world lengths are pico-units (`10^12` pico-units
//! per world unit), and horizontal velocities are micro-units per second.
//! One micro-unit per second is exactly one pico-unit per microsecond, so a
//! movement step `velocity * elapsed` is an exact pico-unit value.
//!
//! The `MAX_*` constants bound every numeric field of the simulation so that
//! each arithmetic step provably fits in its machine integer. They are far
//! beyond anything a real session reaches (a tick may span 100 seconds, a
//! session 10^15 microseconds, about 31 years).

use vstd::prelude::*;

verus! {

/// Microseconds in one second.
pub const MICROS_PER_SECOND: u64 = 1_000_000;

/// Pico-units in one world unit.
pub const PICOS_PER_UNIT: u64 = 1_000_000_000_000;

/// Largest elapsed time a single tick may report, in microseconds (100 s).
pub const MAX_TICK_MICROS: u64 = 100_000_000;

/// Largest cumulative simulation time, in microseconds.
pub const MAX_TIME_MICROS: u64 = 1_000_000_000_000_000;

/// Largest horizontal speed of an entity, in micro-units per second
/// (1000 world units per second).
pub const MAX_VELOCITY: u64 = 1_000_000_000;

/// Largest width or height of an entity, in pico-units (2000 world units).
pub const MAX_EXTENT_PICOS: u64 = 2_000_000_000_000_000;

/// Largest half-width or half-height of the viewport, in pico-units
/// (2000 world units).
pub const MAX_HALF_SCREEN_PICOS: i64 = 2_000_000_000_000_000;

/// Bound on the magnitude of any entity coordinate, in pico-units.
///
/// An entity is despawned one tick after it passes the left despawn
/// threshold, so between ticks its coordinate can undershoot the threshold
/// by at most one movement step, `MAX_VELOCITY * MAX_TICK_MICROS`
/// (10^17 pico-units). This bound leaves room for that and for every
/// spawn position.
pub const MAX_COORD_PICOS: i64 = 500_000_000_000_000_000;

/// Largest spawn cooldown of a tier, in microseconds (about 11.5 days).
pub const MAX_COOLDOWN_MICROS: u64 = 1_000_000_000_000;

/// Largest scale factor from trajectory units to world units.
pub const MAX_SCREEN_UNIT: u64 = 1_000;

} // verus!
