//! The fixed viewport configuration injected at startup.

use vstd::prelude::*;

use crate::jump::JumpConfig;
use crate::units::{MAX_EXTENT_PICOS, MAX_HALF_SCREEN_PICOS};

verus! {

/// Read-only viewport and player dimensions, in pico-units: the half-width
/// and half-height of the screen, the player's size, and the scale from
/// trajectory units to world units.
#[derive(Clone, Copy, Debug, PartialEq, Eq, Structural)]
pub struct SimConfig {
    pub half_width: i64,
    pub half_height: i64,
    pub player_width: u64,
    pub player_height: u64,
    pub jump: JumpConfig,
}

impl SimConfig {
    /// The screen has positive, bounded extents and the player fits the
    /// entity bounds.
    pub open spec fn wf(self) -> bool {
        &&& 0 < self.half_width <= MAX_HALF_SCREEN_PICOS
        &&& 0 < self.half_height <= MAX_HALF_SCREEN_PICOS
        &&& self.player_width <= MAX_EXTENT_PICOS
        &&& self.player_height <= MAX_EXTENT_PICOS
        &&& self.jump.wf()
    }

    /// The baseline configuration: an 800 x 600 unit window, a 32 x 32 unit
    /// player, and 10 world units per trajectory unit.
    pub fn standard() -> (c: SimConfig)
        ensures
            c == (SimConfig {
                half_width: 400_000_000_000_000i64,
                half_height: 300_000_000_000_000i64,
                player_width: 32_000_000_000_000u64,
                player_height: 32_000_000_000_000u64,
                jump: JumpConfig { screen_unit: 10 },
            }),
            c.wf(),
    {
        SimConfig {
            half_width: 400_000_000_000_000,
            half_height: 300_000_000_000_000,
            player_width: 32_000_000_000_000,
            player_height: 32_000_000_000_000,
            jump: JumpConfig { screen_unit: 10 },
        }
    }
}

} // verus!
