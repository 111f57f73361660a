use runner_core::actors::{BackgroundElements, ColorTag, ElementTier, Entity, Kind, Obstacles};
use runner_core::config::SimConfig;
use runner_core::game_state::GameStates;
use runner_core::jump::{JumpConfig, JumpingState, JumpingStates};
use runner_core::sim::{InputSnapshot, SimContext, SimEvent};

const PRESS: InputSnapshot = InputSnapshot { just_pressed: true, just_released: false };
const IDLE: InputSnapshot = InputSnapshot { just_pressed: false, just_released: false };

#[test]
fn full_jump_arc_over_fixed_ticks() {
    // Tick sequence with elapsed times [0, 16000, 16000, ...] microseconds
    // and a jump-trigger at tick 0 of the session.
    let mut sim = SimContext::new(SimConfig::standard());
    sim.tick(PRESS, 0); // insert coin -> play; gameplay starts next tick
    sim.tick(PRESS, 0); // tick 0: the jump starts at t0 = 0
    assert!(matches!(sim.jump.state, JumpingStates::Airborne));
    assert_eq!(sim.jump.jump_started_at, 0);
    assert_eq!(sim.jump.current_velocity, 0);

    let mut peak: i64 = 0;
    let mut peak_tick: u64 = 0;
    for k in 1..=55u64 {
        sim.tick(IDLE, 16_000);
        if sim.jump.current_velocity > peak {
            peak = sim.jump.current_velocity;
            peak_tick = k;
        }
        if k == 1 {
            // trajectory(0.016) = 1.09952 units.
            assert_eq!(sim.jump.current_velocity, 1_099_520_000_000);
        }
        if k == 27 {
            // The closest tick to the apex age 0.4375 s is t = 0.432 s:
            // trajectory(0.432) = 15.31008 units, rendered at x10.
            assert_eq!(sim.jump.current_velocity, 15_310_080_000_000);
            assert_eq!(sim.entities[0].y, 153_100_800_000_000);
        }
    }
    // The offset peaked near the apex age and never exceeded the apex.
    assert_eq!(peak_tick, 27);
    assert!(peak <= 15_312_500_000_000);

    // At t = 0.88 s the trajectory is below ground: the jump has landed,
    // the bookkeeping is zeroed and the player is rendered on the ground.
    assert!(matches!(sim.jump.state, JumpingStates::Idle));
    assert_eq!(sim.jump.jump_started_at, 0);
    assert_eq!(sim.jump.current_velocity, 0);
    assert_eq!(sim.entities[0].y, 0);
    assert_eq!(sim.state, GameStates::Play);
    assert_eq!(sim.now, 55 * 16_000);
}

#[test]
fn obstacle_crosses_screen_in_100_seconds_and_scores() {
    // An obstacle of negligible width spawned at screen-right (x = 400)
    // with velocity 8 units/s against a screen of half-width 400: it
    // reaches the despawn threshold -400 after (400 + 400) / 8 = 100
    // seconds of simulated time, crosses it on the next tick, and its
    // despawn awards exactly 100 points.
    let config = SimConfig {
        half_width: 400_000_000_000_000,
        half_height: 300_000_000_000_000,
        player_width: 0,
        player_height: 0,
        jump: JumpConfig { screen_unit: 10 },
    };
    let tier = ElementTier::with_default_transform(
        0,
        200_000_000, // 200 s: only one spawn during the scenario
        8_000_000,   // 8 units/s
        0,           // zero width: spawn at exactly +400
        8_000_000_000_000,
        ColorTag::White,
    );
    let mut sim = SimContext {
        config,
        state: GameStates::InsertCoin,
        score: 0,
        now: 0,
        jump: JumpingState::default(),
        obstacles: Obstacles { tiers: vec![tier] },
        background: BackgroundElements { tiers: Vec::new() },
        entities: Vec::new(),
        next_id: 0,
        collision_signal: false,
        events: Vec::new(),
    };
    sim.tick(PRESS, 0);
    assert_eq!(sim.state, GameStates::Play);

    // Tick 1 spawns the obstacle at +400 and already moves it 8 units.
    sim.tick(IDLE, 1_000_000);
    assert_eq!(sim.entities.len(), 2);
    assert_eq!(sim.entities[1].x, 392_000_000_000_000);
    let _ = sim.drain_events();

    for _ in 2..=100u64 {
        sim.tick(IDLE, 1_000_000);
    }
    // After 100 s it sits exactly at the threshold and is still alive.
    assert_eq!(sim.state, GameStates::Play);
    assert_eq!(sim.entities.len(), 2);
    assert_eq!(sim.entities[1].x, -400_000_000_000_000);
    assert_eq!(sim.score, 0);

    // It crosses the threshold during tick 101 and despawns at tick 102,
    // raising the score by exactly 100.
    sim.tick(IDLE, 1_000_000);
    assert_eq!(sim.entities.len(), 2);
    assert_eq!(sim.entities[1].x, -408_000_000_000_000);
    assert_eq!(sim.score, 0);

    sim.tick(IDLE, 1_000_000);
    assert_eq!(sim.entities.len(), 1);
    assert_eq!(sim.score, 100);
    let events = sim.drain_events();
    assert!(events.iter().any(|e| matches!(
        e,
        SimEvent::EntityDespawned { id: 1, kind: Kind::Obstacle }
    )));
}

#[test]
fn overlapping_obstacle_raises_the_signal_that_same_tick() {
    // Player bounding box: center (0, 0) relative to itself, half-extents
    // (16, 16); obstacle 20 units to the right with half-extents (8, 36):
    // |dx| = 20 < 16 + 8 = 24, so the very tick after placement detects
    // the collision and ends the session.
    let mut sim = SimContext::new(SimConfig::standard());
    sim.tick(PRESS, 0);
    let player_x = sim.entities[0].x;
    let id = sim.next_id;
    sim.entities.push(Entity {
        id,
        kind: Kind::Obstacle,
        x: player_x + 20_000_000_000_000,
        y: 0,
        depth: 0,
        width: 16_000_000_000_000,
        height: 72_000_000_000_000,
        velocity: 0,
        color: ColorTag::White,
    });
    sim.next_id += 1;
    sim.tick(IDLE, 16_000);
    assert_eq!(sim.state, GameStates::GameOver);
    assert!(sim.entities.is_empty());
}
