use runner_core::jump::{
    handle_jumping_state, released_trajectory, trajectory, update_player_transform,
    update_player_velocity, JumpConfig, JumpingState, JumpingStates,
};

// trajectory(x) = 70*x - 80*x^2 with x in seconds; here x is microseconds
// and the result is in pico-trajectory-units.

#[test]
fn trajectory_is_zero_at_start() {
    assert_eq!(trajectory(0), 0);
}

#[test]
fn trajectory_matches_formula_at_sample_points() {
    // x = 0.1 s: 70*0.1 - 80*0.01 = 6.2
    assert_eq!(trajectory(100_000), 6_200_000_000_000);
    // x = 0.21875 s: 70*0.21875 - 80*0.21875^2 = 11.484375
    assert_eq!(trajectory(218_750), 11_484_375_000_000);
    // x = 0.016 s: 70*0.016 - 80*0.016^2 = 1.09952
    assert_eq!(trajectory(16_000), 1_099_520_000_000);
}

#[test]
fn trajectory_apex_at_seven_sixteenths() {
    // The apex 15.3125 is reached at x = 0.4375 s.
    assert_eq!(trajectory(437_500), 15_312_500_000_000);
    assert!(trajectory(437_499) < trajectory(437_500));
    assert!(trajectory(437_501) < trajectory(437_500));
}

#[test]
fn trajectory_positive_before_landing_and_zero_at_landing() {
    assert!(trajectory(1) > 0);
    assert!(trajectory(437_500) > 0);
    assert!(trajectory(874_999) > 0);
    assert_eq!(trajectory(875_000), 0);
    assert_eq!(trajectory(880_000), -352_000_000_000);
}

#[test]
fn released_trajectory_falls_faster() {
    // x = 0.3 s under raised gravity: 70*0.3 - 100*0.09 = 12.0
    assert_eq!(released_trajectory(300_000), 12_000_000_000_000);
    assert_eq!(released_trajectory(700_000), 0);
    assert!(released_trajectory(300_000) < trajectory(300_000));
}

#[test]
fn jump_lifecycle_starts_computes_and_lands() {
    let mut js = JumpingState::default();
    assert!(matches!(js.state, JumpingStates::Idle));

    // A press while grounded lifts off and records the start time.
    handle_jumping_state(&mut js, true, false, 1_000_000);
    assert!(matches!(js.state, JumpingStates::Airborne));
    assert_eq!(js.jump_started_at, 1_000_000);

    // At zero age the offset is zero and the jump stays airborne.
    update_player_velocity(&mut js, 1_000_000);
    assert!(matches!(js.state, JumpingStates::Airborne));
    assert_eq!(js.current_velocity, 0);

    // Later ticks compute trajectory(now - start).
    update_player_velocity(&mut js, 1_218_750);
    assert_eq!(js.current_velocity, 11_484_375_000_000);

    // The first tick at which the value is at or below zero lands the
    // jump and zeroes all bookkeeping.
    update_player_velocity(&mut js, 1_875_000);
    assert!(matches!(js.state, JumpingStates::Idle));
    assert_eq!(js.jump_started_at, 0);
    assert_eq!(js.current_velocity, 0);
    assert!(!js.key_was_released);
}

#[test]
fn jump_press_while_airborne_is_ignored() {
    let mut js = JumpingState::default();
    handle_jumping_state(&mut js, true, false, 500);
    assert_eq!(js.jump_started_at, 500);
    handle_jumping_state(&mut js, true, false, 900);
    // Still the first jump: its start time is unchanged.
    assert_eq!(js.jump_started_at, 500);
    assert!(matches!(js.state, JumpingStates::Airborne));
}

#[test]
fn early_release_steepens_the_fall_and_lands_sooner() {
    let mut js = JumpingState::default();
    handle_jumping_state(&mut js, true, false, 0);
    // The release while airborne marks the jump.
    handle_jumping_state(&mut js, false, true, 100_000);
    assert!(js.key_was_released);

    // Below the 0.2 s threshold ordinary gravity still governs.
    update_player_velocity(&mut js, 100_000);
    assert_eq!(js.current_velocity, 6_200_000_000_000);

    // Past the threshold the raised gravity applies.
    update_player_velocity(&mut js, 300_000);
    assert_eq!(js.current_velocity, 12_000_000_000_000);

    // The steepened trajectory reaches ground at 0.7 s instead of 0.875 s.
    update_player_velocity(&mut js, 700_000);
    assert!(matches!(js.state, JumpingStates::Idle));
    assert_eq!(js.current_velocity, 0);
    assert!(!js.key_was_released);
}

#[test]
fn release_while_grounded_is_ignored() {
    let mut js = JumpingState::default();
    handle_jumping_state(&mut js, false, true, 42);
    assert!(matches!(js.state, JumpingStates::Idle));
    assert!(!js.key_was_released);
}

#[test]
fn rendered_height_scales_and_clamps() {
    let config = JumpConfig { screen_unit: 10 };
    let mut js = JumpingState::default();
    js.current_velocity = 1_099_520_000_000;
    assert_eq!(update_player_transform(&js, &config), 10_995_200_000_000);
    js.current_velocity = 0;
    assert_eq!(update_player_transform(&js, &config), 0);
    js.current_velocity = -7;
    assert_eq!(update_player_transform(&js, &config), 0);
}
