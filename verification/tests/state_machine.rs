use runner_core::actors::{ColorTag, Entity, Kind};
use runner_core::config::SimConfig;
use runner_core::game_state::GameStates;
use runner_core::jump::JumpingStates;
use runner_core::sim::{InputSnapshot, SimContext, SimEvent};

const PRESS: InputSnapshot = InputSnapshot { just_pressed: true, just_released: false };
const IDLE: InputSnapshot = InputSnapshot { just_pressed: false, just_released: false };

/// Puts an obstacle of the given size right on top of the player, so the
/// next tick must raise the collision signal.
fn overlap_player(sim: &mut SimContext, dx: i64, width: u64) {
    let player_x = sim.entities[0].x;
    let id = sim.next_id;
    sim.entities.push(Entity {
        id,
        kind: Kind::Obstacle,
        x: player_x + dx,
        y: 0,
        depth: 0,
        width,
        height: 72_000_000_000_000,
        velocity: 0,
        color: ColorTag::White,
    });
    sim.next_id += 1;
}

#[test]
fn fresh_simulation_waits_for_a_coin() {
    let sim = SimContext::new(SimConfig::standard());
    assert_eq!(sim.state, GameStates::InsertCoin);
    assert_eq!(sim.score, 0);
    assert!(sim.entities.is_empty());
    assert!(matches!(sim.jump.state, JumpingStates::Idle));
}

#[test]
fn default_game_state_is_insert_coin() {
    assert_eq!(GameStates::default(), GameStates::InsertCoin);
}

#[test]
fn press_on_coin_screen_starts_play_and_clears_stale_signal() {
    // A collision signal left queued before the transition must be
    // cleared, never applied across it.
    let mut sim = SimContext::new(SimConfig::standard());
    sim.collision_signal = true;
    sim.score = 777;
    sim.tick(PRESS, 0);
    assert_eq!(sim.state, GameStates::Play);
    assert_eq!(sim.score, 0);
    assert!(!sim.collision_signal);
    // The session starts with exactly the freshly spawned player.
    assert_eq!(sim.entities.len(), 1);
    assert!(matches!(sim.entities[0].kind, Kind::Player));
    assert!(matches!(sim.jump.state, JumpingStates::Idle));
}

#[test]
fn without_a_press_the_coin_screen_stays_put() {
    let mut sim = SimContext::new(SimConfig::standard());
    sim.tick(IDLE, 16_000);
    assert_eq!(sim.state, GameStates::InsertCoin);
    assert!(sim.entities.is_empty());
    assert_eq!(sim.now, 16_000);
}

#[test]
fn entering_play_announces_the_change_and_the_player() {
    let mut sim = SimContext::new(SimConfig::standard());
    sim.tick(PRESS, 0);
    let events = sim.drain_events();
    assert_eq!(events.len(), 2);
    assert!(matches!(
        events[0],
        SimEvent::StateChanged { from: GameStates::InsertCoin, to: GameStates::Play }
    ));
    assert!(matches!(events[1], SimEvent::EntitySpawned { id: 0, kind: Kind::Player }));
    assert!(sim.events.is_empty());
}

#[test]
fn collision_during_play_ends_in_game_over_and_despawns_everything() {
    let mut sim = SimContext::new(SimConfig::standard());
    sim.tick(PRESS, 0);
    let _ = sim.drain_events();
    // Place an obstacle overlapping the player (20 units to its right,
    // half-extents 8 x 36 against the player's 16 x 16).
    overlap_player(&mut sim, 20_000_000_000_000, 16_000_000_000_000);
    sim.tick(IDLE, 16_000);
    assert_eq!(sim.state, GameStates::GameOver);
    assert!(sim.entities.is_empty());
    assert!(!sim.collision_signal);
    let events = sim.drain_events();
    // Spawn announcements of the tick's tier fires come first, then the
    // state change, then one despawn per entity.
    assert!(events.iter().any(|e| matches!(
        e,
        SimEvent::StateChanged { from: GameStates::Play, to: GameStates::GameOver }
    )));
    let despawns = events
        .iter()
        .filter(|e| matches!(e, SimEvent::EntityDespawned { .. }))
        .count();
    assert!(despawns >= 2);
}

#[test]
fn press_on_game_over_screen_restarts_play() {
    let mut sim = SimContext::new(SimConfig::standard());
    sim.tick(PRESS, 0);
    overlap_player(&mut sim, 0, 16_000_000_000_000);
    sim.tick(IDLE, 16_000);
    assert_eq!(sim.state, GameStates::GameOver);
    sim.score = 300;

    // The same logical input restarts the session with a fresh score and
    // a fresh player.
    sim.tick(PRESS, 16_000);
    assert_eq!(sim.state, GameStates::Play);
    assert_eq!(sim.score, 0);
    assert_eq!(sim.entities.len(), 1);
    assert!(matches!(sim.entities[0].kind, Kind::Player));
}

#[test]
fn collision_signal_while_not_playing_is_ignored() {
    let mut sim = SimContext::new(SimConfig::standard());
    sim.collision_signal = true;
    sim.tick(IDLE, 16_000);
    assert_eq!(sim.state, GameStates::InsertCoin);
    assert!(!sim.collision_signal);
}

#[test]
fn difficulty_is_not_reset_between_sessions() {
    // Difficulty scaling is cumulative: the shrunk cooldowns survive a
    // game over, so a later session starts harder.
    let mut sim = SimContext::new(SimConfig::standard());
    sim.tick(PRESS, 0);
    // Let the cactus tier fire once: its default cooldown shrinks.
    sim.tick(IDLE, 16_000);
    assert_eq!(sim.obstacles.tiers[0].default_spawn_cooldown, 3_920_000);
    // Force a game over and re-enter play: the shrunk value persists.
    overlap_player(&mut sim, 0, 32_000_000_000_000);
    sim.tick(IDLE, 16_000);
    assert_eq!(sim.state, GameStates::GameOver);
    sim.tick(PRESS, 0);
    assert_eq!(sim.state, GameStates::Play);
    assert_eq!(sim.obstacles.tiers[0].default_spawn_cooldown, 3_920_000);
}
