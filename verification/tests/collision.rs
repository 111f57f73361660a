use runner_core::actors::{detect_collisions, ColorTag, Entity, Kind};
use runner_core::collision::Aabb;

fn boxed(cx: i64, cy: i64, hx: i64, hy: i64) -> Aabb {
    Aabb { cx, cy, hx, hy }
}

#[test]
fn overlapping_boxes_intersect() {
    // The bounding boxes of the baseline scenario: player centered at the
    // origin with half-extents (16, 16), obstacle at (20, 0) with
    // half-extents (8, 36): |dx| = 20 < 24 and |dy| = 0 < 52.
    let player = boxed(0, 0, 16, 16);
    let obstacle = boxed(20, 0, 8, 36);
    assert!(player.intersects(&obstacle));
    assert!(obstacle.intersects(&player));
}

#[test]
fn separated_boxes_do_not_intersect() {
    let a = boxed(0, 0, 16, 16);
    let b = boxed(100, 0, 8, 36);
    assert!(!a.intersects(&b));
    assert!(!b.intersects(&a));
}

#[test]
fn touching_boxes_intersect_on_both_sides() {
    // Shared vertical edge, zero gap: |dx| equals the summed half-extents.
    // The closed convention classifies this as an overlap, consistently in
    // both orders.
    let a = boxed(0, 0, 16, 16);
    let right = boxed(24, 0, 8, 36);
    assert!(a.intersects(&right));
    assert!(right.intersects(&a));
    let left = boxed(-24, 0, 8, 36);
    assert!(a.intersects(&left));
    assert!(left.intersects(&a));
    // One pico-unit of gap separates them.
    let beyond = boxed(25, 0, 8, 36);
    assert!(!a.intersects(&beyond));
    assert!(!beyond.intersects(&a));
}

#[test]
fn touching_on_horizontal_edge_intersects() {
    let a = boxed(0, 0, 16, 16);
    let above = boxed(0, 52, 8, 36);
    assert!(a.intersects(&above));
    assert!(above.intersects(&a));
    let beyond = boxed(0, 53, 8, 36);
    assert!(!a.intersects(&beyond));
}

fn entity(id: u64, kind: Kind, x: i64, y: i64, width: u64, height: u64) -> Entity {
    Entity {
        id,
        kind,
        x,
        y,
        depth: 0,
        width,
        height,
        velocity: 0,
        color: ColorTag::White,
    }
}

#[test]
fn collision_signal_raised_for_overlapping_obstacle() {
    let entities = vec![
        entity(0, Kind::Player, 0, 0, 32, 32),
        entity(1, Kind::Obstacle, 20, 0, 16, 72),
    ];
    assert!(detect_collisions(&entities));
}

#[test]
fn no_collision_without_overlap() {
    let entities = vec![
        entity(0, Kind::Player, 0, 0, 32, 32),
        entity(1, Kind::Obstacle, 100, 0, 16, 72),
    ];
    assert!(!detect_collisions(&entities));
}

#[test]
fn background_elements_never_collide() {
    let entities = vec![
        entity(0, Kind::Player, 0, 0, 32, 32),
        entity(1, Kind::BackgroundElement, 0, 0, 64, 64),
    ];
    assert!(!detect_collisions(&entities));
}

#[test]
fn no_player_means_no_collision() {
    let entities = vec![
        entity(1, Kind::Obstacle, 0, 0, 16, 72),
        entity(2, Kind::Obstacle, 5, 0, 16, 72),
    ];
    assert!(!detect_collisions(&entities));
}

#[test]
fn empty_scene_has_no_collision() {
    let entities: Vec<Entity> = Vec::new();
    assert!(!detect_collisions(&entities));
}
