use runner_core::actors::{
    spawn_background_elements, spawn_obstacles, BackgroundElements, ColorTag, ElementTier, Kind,
    Obstacles,
};
use runner_core::config::SimConfig;

fn one_obstacle_tier(spawn_cooldown: u64, default_cooldown: u64) -> Obstacles {
    Obstacles {
        tiers: vec![ElementTier::with_default_transform(
            spawn_cooldown,
            default_cooldown,
            8_000_000,
            8_000_000_000_000,
            72_000_000_000_000,
            ColorTag::White,
        )],
    }
}

#[test]
fn quiet_tier_counts_down_without_spawning() {
    let mut obstacles = one_obstacle_tier(10_000_000, 10_000_000);
    let config = SimConfig::standard();
    let (spawned, next_id) = spawn_obstacles(&mut obstacles, 4_000_000, &config, 7);
    assert_eq!(spawned.len(), 0);
    assert_eq!(next_id, 7);
    assert_eq!(obstacles.tiers[0].spawn_cooldown, 6_000_000);
    assert_eq!(obstacles.tiers[0].default_spawn_cooldown, 10_000_000);
}

#[test]
fn obstacle_reset_cooldown_shrinks_exactly_by_49_over_50() {
    // Default cooldown 4 s; the first three shrinks are exact
    // (4000000 * 0.98^k), the fourth rounds 3689472.64 down.
    let mut obstacles = one_obstacle_tier(0, 4_000_000);
    let config = SimConfig::standard();
    let expected = [3_920_000u64, 3_841_600, 3_764_768, 3_689_472];
    for (round, want) in expected.iter().enumerate() {
        let (spawned, _) = spawn_obstacles(&mut obstacles, 100_000_000, &config, round as u64);
        assert_eq!(spawned.len(), 1);
        assert_eq!(obstacles.tiers[0].default_spawn_cooldown, *want);
        assert_eq!(obstacles.tiers[0].spawn_cooldown, *want);
    }
}

#[test]
fn shrinking_cooldowns_strictly_decrease() {
    let mut obstacles = one_obstacle_tier(0, 4_000_000);
    let config = SimConfig::standard();
    let mut previous = 4_000_000u64;
    for _ in 0..200 {
        let (_, _) = spawn_obstacles(&mut obstacles, 100_000_000, &config, 0);
        let current = obstacles.tiers[0].default_spawn_cooldown;
        assert!(current < previous || previous == 0);
        previous = current;
    }
}

#[test]
fn background_tier_resets_without_shrinking() {
    let mut background = BackgroundElements {
        tiers: vec![ElementTier::new(
            0,
            20_000_000,
            600_000,
            -16_000_000_000_000,
            1,
            28_000_000_000_000,
            16_000_000_000_000,
            ColorTag::Gray,
        )],
    };
    let config = SimConfig::standard();
    let (spawned, next_id) = spawn_background_elements(&mut background, 1_000_000, &config, 3);
    assert_eq!(spawned.len(), 1);
    assert_eq!(next_id, 4);
    assert_eq!(background.tiers[0].default_spawn_cooldown, 20_000_000);
    assert_eq!(background.tiers[0].spawn_cooldown, 20_000_000);
}

#[test]
fn spawned_obstacle_starts_off_screen_right_and_ground_aligned() {
    let mut obstacles = one_obstacle_tier(0, 4_000_000);
    let config = SimConfig::standard();
    let (spawned, _) = spawn_obstacles(&mut obstacles, 1_000_000, &config, 5);
    assert_eq!(spawned.len(), 1);
    let cactus = spawned[0];
    assert_eq!(cactus.id, 5);
    assert!(matches!(cactus.kind, Kind::Obstacle));
    // x: half screen width (400) plus half its own width (4).
    assert_eq!(cactus.x, 404_000_000_000_000);
    // y: bottom edge level with the player's, (72 - 32) / 2 = 20.
    assert_eq!(cactus.y, 20_000_000_000_000);
    assert_eq!(cactus.velocity, 8_000_000);
}

#[test]
fn spawned_background_element_carries_its_offset_and_layer() {
    let mut background = BackgroundElements {
        tiers: vec![ElementTier::new(
            0,
            20_000_000,
            600_000,
            -16_000_000_000_000,
            1,
            28_000_000_000_000,
            16_000_000_000_000,
            ColorTag::Gray,
        )],
    };
    let config = SimConfig::standard();
    let (spawned, _) = spawn_background_elements(&mut background, 1_000_000, &config, 0);
    assert_eq!(spawned.len(), 1);
    let cloud = spawned[0];
    assert!(matches!(cloud.kind, Kind::BackgroundElement));
    // x: half screen width (400) plus half its own width (14).
    assert_eq!(cloud.x, 414_000_000_000_000);
    // y: a third of the screen height (200) above center, minus 16.
    assert_eq!(cloud.y, 184_000_000_000_000);
    assert_eq!(cloud.depth, 1);
}

#[test]
fn several_tiers_fire_in_order_with_consecutive_ids() {
    let mut obstacles = Obstacles::standard();
    let config = SimConfig::standard();
    // 9.5 s of elapsed time overshoots all three default cooldowns (the
    // remaining cooldowns are 0, 5 and 9 seconds).
    let (spawned, next_id) = spawn_obstacles(&mut obstacles, 9_500_000, &config, 10);
    assert_eq!(spawned.len(), 3);
    assert_eq!(next_id, 13);
    assert_eq!(spawned[0].id, 10);
    assert_eq!(spawned[1].id, 11);
    assert_eq!(spawned[2].id, 12);
    // Tier order is kept: cactus, stone, bike.
    assert_eq!(spawned[0].width, 8_000_000_000_000);
    assert_eq!(spawned[1].width, 56_000_000_000_000);
    assert_eq!(spawned[2].width, 72_000_000_000_000);
}
