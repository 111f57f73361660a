//! Jump kinematics: a closed-form parabolic trajectory and the two-phase
//! jump state of the player.
//!
//! The vertical offset of a jump is `h + v*x - (g/2)*x^2` with `h = 0`,
//! `v = 70` units/s and `g = 160` units/s^2, where `x` is the time since the
//! jump began. If the jump key was released while airborne and the jump is
//! older than a short threshold, gravity is raised to `200` units/s^2 so the
//! player falls faster (same formula, steeper fall).
//!
//! With `x` in microseconds the offset in pico-trajectory-units is exactly
//! `70*10^6*x - 80*x^2`, so every value below is computed without rounding.

use vstd::prelude::*;

use crate::units::MAX_SCREEN_UNIT;

verus! {

/// Jump age past which an early key release steepens the fall (0.2 s).
pub const RELEASE_AGE_MICROS: u64 = 200_000;

/// Jump age at which the ordinary trajectory returns to zero (0.875 s):
/// `70*10^6*x - 80*x^2 <= 0` exactly when `x = 0` or `x >= 875000`.
pub const LAND_AGE_MICROS: u64 = 875_000;

/// Jump age at which the steepened trajectory returns to zero (0.7 s).
pub const RELEASED_LAND_AGE_MICROS: u64 = 700_000;

/// Largest jump age the trajectory functions accept, in microseconds.
pub const MAX_TRAJECTORY_AGE_MICROS: u64 = 300_000_000;

/// Jump age of the trajectory's apex (0.4375 s).
pub const TRAJECTORY_APEX_AGE_MICROS: u64 = 437_500;

/// The trajectory's apex value, in pico-trajectory-units (15.3125 units).
pub const TRAJECTORY_APEX_PICOS: i64 = 15_312_500_000_000;

/// Vertical offset of an ordinary jump of age `x` microseconds, in
/// pico-trajectory-units: `70*x` seconds-scaled minus `80*x^2`.
pub open spec fn trajectory_spec(x: int) -> int {
    70_000_000 * x - 80 * x * x
}

/// Vertical offset of a jump of age `x` microseconds after an early key
/// release has raised gravity to 200 units/s^2.
pub open spec fn released_trajectory_spec(x: int) -> int {
    70_000_000 * x - 100 * x * x
}

/// Vertical offset `70*x - 80*x^2` of an ordinary jump, exactly.
pub fn trajectory(x: u64) -> (y: i64)
    requires
        x <= MAX_TRAJECTORY_AGE_MICROS,
    ensures
        y == trajectory_spec(x as int),
{
    proof {
        assert(0 <= (80 * (x as int)) * (x as int) <= 7_200_000_000_000_000_000)
            by (nonlinear_arith)
            requires x <= 300_000_000;
    }
    let xi = x as i64;
    let rise = 70_000_000i64 * xi;
    let fall = (80i64 * xi) * xi;
    rise - fall
}

/// Vertical offset `70*x - 100*x^2` of a jump falling under raised gravity.
pub fn released_trajectory(x: u64) -> (y: i64)
    requires
        x <= MAX_TRAJECTORY_AGE_MICROS,
    ensures
        y == released_trajectory_spec(x as int),
{
    proof {
        assert(0 <= (100 * (x as int)) * (x as int) <= 9_000_000_000_000_000_000)
            by (nonlinear_arith)
            requires x <= 300_000_000;
    }
    let xi = x as i64;
    let rise = 70_000_000i64 * xi;
    let fall = (100i64 * xi) * xi;
    rise - fall
}

/// A jump starts at zero offset.
pub proof fn lemma_trajectory_at_start()
    ensures
        trajectory_spec(0) == 0,
        released_trajectory_spec(0) == 0,
{
}

/// The ordinary trajectory is strictly positive between lift-off and
/// landing age.
pub proof fn lemma_trajectory_positive(x: int)
    by (nonlinear_arith)
    requires
        0 < x < LAND_AGE_MICROS,
    ensures
        trajectory_spec(x) > 0,
{
}

/// From the landing age on, the ordinary trajectory is at or below ground.
pub proof fn lemma_trajectory_lands(x: int)
    by (nonlinear_arith)
    requires
        x >= LAND_AGE_MICROS,
    ensures
        trajectory_spec(x) <= 0,
{
}

/// The steepened trajectory is strictly positive before its landing age and
/// at or below ground from it on.
pub proof fn lemma_released_trajectory_sign(x: int)
    by (nonlinear_arith)
    requires
        x >= 0,
    ensures
        0 < x < RELEASED_LAND_AGE_MICROS ==> released_trajectory_spec(x) > 0,
        x >= RELEASED_LAND_AGE_MICROS ==> released_trajectory_spec(x) <= 0,
{
}

/// The ordinary trajectory peaks at age 0.4375 s with value 15.3125 units;
/// no age gives a larger offset.
pub proof fn lemma_trajectory_apex(x: int)
    by (nonlinear_arith)
    ensures
        trajectory_spec(x) <= trajectory_spec(TRAJECTORY_APEX_AGE_MICROS as int),
        trajectory_spec(TRAJECTORY_APEX_AGE_MICROS as int) == TRAJECTORY_APEX_PICOS,
{
}

/// The steepened trajectory never exceeds the ordinary one for `x >= 0`,
/// so the apex bounds every stored velocity.
pub proof fn lemma_released_trajectory_below(x: int)
    by (nonlinear_arith)
    requires
        x >= 0,
    ensures
        released_trajectory_spec(x) <= trajectory_spec(x),
{
}

/// The two phases of a jump.
#[derive(Clone, Copy, Debug, PartialEq, Eq, Structural)]
pub enum JumpingStates {
    Idle,
    Airborne,
}

/// The jump state owned by the player: the phase, the simulation time at
/// which the current jump began (microseconds), the last computed vertical
/// offset (pico-trajectory-units) and whether the jump key was released
/// while airborne.
#[derive(Clone, Copy, Debug, PartialEq, Eq, Structural)]
pub struct JumpingState {
    pub state: JumpingStates,
    pub jump_started_at: u64,
    pub current_velocity: i64,
    pub key_was_released: bool,
}

/// Scales trajectory units up to world units for rendering.
#[derive(Clone, Copy, Debug, PartialEq, Eq, Structural)]
pub struct JumpConfig {
    pub screen_unit: u64,
}

impl JumpConfig {
    /// The scale factor is positive and bounded.
    pub open spec fn wf(self) -> bool {
        0 < self.screen_unit <= MAX_SCREEN_UNIT
    }
}

impl JumpingState {
    /// Every computed offset the simulation stores lies between ground and
    /// the trajectory's apex.
    pub open spec fn wf(self) -> bool {
        0 <= self.current_velocity <= TRAJECTORY_APEX_PICOS
    }

    /// A fresh, grounded jump state.
    pub fn default() -> (s: Self)
        ensures
            s == (JumpingState {
                state: JumpingStates::Idle,
                jump_started_at: 0,
                current_velocity: 0,
                key_was_released: false,
            }),
            s.wf(),
    {
        JumpingState {
            state: JumpingStates::Idle,
            jump_started_at: 0,
            current_velocity: 0,
            key_was_released: false,
        }
    }

    /// Returns the jump to the grounded phase and zeroes its bookkeeping.
    pub fn reset(&mut self)
        ensures
            *final(self) == (JumpingState {
                state: JumpingStates::Idle,
                jump_started_at: 0,
                current_velocity: 0,
                key_was_released: false,
            }),
    {
        self.state = JumpingStates::Idle;
        self.jump_started_at = 0;
        self.key_was_released = false;
        self.current_velocity = 0;
    }
}

/// What the jump-trigger edges of one tick do to a jump state: a press
/// while grounded lifts off at time `now`; a release while airborne marks
/// the early release.
pub open spec fn jump_input_spec(
    s: JumpingState,
    just_pressed: bool,
    just_released: bool,
    now: u64,
) -> JumpingState {
    let lifted = if just_pressed && s.state is Idle {
        JumpingState { state: JumpingStates::Airborne, jump_started_at: now, ..s }
    } else {
        s
    };
    if just_released && lifted.state is Airborne {
        JumpingState { key_was_released: true, ..lifted }
    } else {
        lifted
    }
}

/// Applies the tick's jump-trigger edges to the jump state.
pub fn handle_jumping_state(
    jumping_state: &mut JumpingState,
    just_pressed: bool,
    just_released: bool,
    now: u64,
)
    ensures
        *final(jumping_state) == jump_input_spec(*old(jumping_state), just_pressed, just_released, now),
{
    if just_pressed {
        match jumping_state.state {
            JumpingStates::Idle => {
                jumping_state.state = JumpingStates::Airborne;
                jumping_state.jump_started_at = now;
            }
            _ => {}
        }
    }

    if just_released {
        match jumping_state.state {
            JumpingStates::Airborne => {
                jumping_state.key_was_released = true;
            }
            _ => {}
        }
    }
}

/// Whether the steeper fall applies at jump age `x`: the key was released
/// and the jump is older than the release threshold.
pub open spec fn fast_fall_active(s: JumpingState, x: int) -> bool {
    s.key_was_released && x > RELEASE_AGE_MICROS
}

/// The trajectory value that governs a jump of age `x`, steepened after an
/// early release.
pub open spec fn governing_trajectory(s: JumpingState, x: int) -> int {
    if fast_fall_active(s, x) {
        released_trajectory_spec(x)
    } else {
        trajectory_spec(x)
    }
}

/// What one velocity update does at time `now`: while airborne the offset
/// is recomputed from the jump's age, and the first tick at which a
/// positive-age offset is at or below ground lands the jump (everything is
/// zeroed); while grounded the bookkeeping is kept at zero.
pub open spec fn velocity_update_spec(s: JumpingState, now: u64) -> JumpingState {
    if s.state is Airborne {
        let x = now - s.jump_started_at;
        let y = governing_trajectory(s, x);
        if x > 0 && y <= 0 {
            JumpingState {
                state: JumpingStates::Idle,
                jump_started_at: 0,
                current_velocity: 0,
                key_was_released: false,
            }
        } else {
            JumpingState { current_velocity: y as i64, ..s }
        }
    } else {
        JumpingState { current_velocity: 0, jump_started_at: 0, ..s }
    }
}

/// Recomputes the jump's vertical offset for time `now` and lands the jump
/// once its trajectory has returned to ground.
pub fn update_player_velocity(jumping_state: &mut JumpingState, now: u64)
    requires
        old(jumping_state).state is Airborne ==> old(jumping_state).jump_started_at <= now,
    ensures
        *final(jumping_state) == velocity_update_spec(*old(jumping_state), now),
        final(jumping_state).wf(),
{
    match jumping_state.state {
        JumpingStates::Airborne => {
            let x = now - jumping_state.jump_started_at;
            let fast = jumping_state.key_was_released && x > RELEASE_AGE_MICROS;
            let land_age = if fast { RELEASED_LAND_AGE_MICROS } else { LAND_AGE_MICROS };
            if x >= land_age {
                proof {
                    if fast {
                        lemma_released_trajectory_sign(x as int);
                    } else {
                        lemma_trajectory_lands(x as int);
                    }
                }
                jumping_state.reset();
            } else {
                let y = if fast {
                    released_trajectory(x)
                } else {
                    trajectory(x)
                };
                proof {
                    if x > 0 {
                        if fast {
                            lemma_released_trajectory_sign(x as int);
                        } else {
                            lemma_trajectory_positive(x as int);
                        }
                    }
                    lemma_trajectory_apex(x as int);
                    lemma_released_trajectory_below(x as int);
                    lemma_trajectory_at_start();
                    assert(x > 0 ==> y > 0);
                    assert(x == 0 ==> y == 0);
                }
                jumping_state.current_velocity = y;
            }
        }
        _ => {
            jumping_state.current_velocity = 0;
            jumping_state.jump_started_at = 0;
        }
    }
}

/// Jump lifecycle, lift-off: from the grounded phase, a jump-trigger press
/// makes the jump airborne and records the press time as the jump's start.
pub proof fn lemma_jump_lifecycle_start(s: JumpingState, just_released: bool, now: u64)
    requires
        s.state is Idle,
    ensures
        jump_input_spec(s, true, just_released, now).state is Airborne,
        jump_input_spec(s, true, just_released, now).jump_started_at == now,
{
}

/// Jump lifecycle, landing: the first tick at which the governing
/// trajectory of a positive-age jump is at or below ground returns the
/// phase to grounded and zeroes the start time, the offset and the release
/// mark.
pub proof fn lemma_jump_lifecycle_landing(s: JumpingState, now: u64)
    requires
        s.state is Airborne,
        s.jump_started_at < now,
        governing_trajectory(s, now - s.jump_started_at) <= 0,
    ensures
        velocity_update_spec(s, now) == (JumpingState {
            state: JumpingStates::Idle,
            jump_started_at: 0,
            current_velocity: 0,
            key_was_released: false,
        }),
{
}

/// Jump lifecycle, flight: while the governing trajectory of an airborne
/// jump is still above ground, a tick only recomputes the offset as the
/// trajectory of the jump's age; phase, start time and release mark keep
/// their values.
pub proof fn lemma_jump_lifecycle_flight(s: JumpingState, now: u64)
    requires
        s.state is Airborne,
        s.jump_started_at <= now,
        governing_trajectory(s, now - s.jump_started_at) > 0 || s.jump_started_at == now,
    ensures
        velocity_update_spec(s, now) == (JumpingState {
            current_velocity: governing_trajectory(s, now - s.jump_started_at) as i64,
            ..s
        }),
{
}

/// The height at which the player is rendered: the current offset scaled to
/// world units, clamped at ground level.
pub open spec fn rendered_height_spec(s: JumpingState, config: JumpConfig) -> int {
    if s.current_velocity < 0 {
        0
    } else {
        s.current_velocity * config.screen_unit
    }
}

/// Scales the jump's offset to the player's rendered world height,
/// clamping below-ground values to the ground.
pub fn update_player_transform(jumping_state: &JumpingState, config: &JumpConfig) -> (y: i64)
    requires
        jumping_state.current_velocity <= TRAJECTORY_APEX_PICOS,
        config.wf(),
    ensures
        y == rendered_height_spec(*jumping_state, *config),
        0 <= y <= TRAJECTORY_APEX_PICOS * MAX_SCREEN_UNIT,
{
    if jumping_state.current_velocity < 0 {
        0
    } else {
        proof {
            assert(jumping_state.current_velocity * config.screen_unit
                <= TRAJECTORY_APEX_PICOS * MAX_SCREEN_UNIT) by (nonlinear_arith)
                requires
                    0 <= jumping_state.current_velocity <= TRAJECTORY_APEX_PICOS,
                    0 < config.screen_unit <= MAX_SCREEN_UNIT;
        }
        jumping_state.current_velocity * (config.screen_unit as i64)
    }
}

} // verus!
