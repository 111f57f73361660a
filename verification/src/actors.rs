//! Entities, spawn tiers and the difficulty-scaling spawner, entity
//! movement with despawning and scoring, and per-tick collision detection.
//!
//! Tier selection is deterministic: every tier keeps its own cooldown and
//! is examined once per tick, in catalog order. Each firing obstacle tier
//! shrinks its reset cooldown by the difficulty multiplier 49/50, so
//! obstacles come ever more frequently over a session.

use vstd::prelude::*;
use vstd::arithmetic::power::pow;
use vstd::arithmetic::div_mod::lemma_div_multiples_vanish;

use crate::collision::Aabb;
use crate::config::SimConfig;
use crate::units::{
    MAX_COOLDOWN_MICROS, MAX_COORD_PICOS, MAX_EXTENT_PICOS, MAX_HALF_SCREEN_PICOS,
    MAX_TICK_MICROS, MAX_VELOCITY,
};

verus! {

/// What a spawned object is; the kind decides movement, scoring and
/// collision behaviour.
#[derive(Clone, Copy, Debug, PartialEq, Eq, Structural)]
pub enum Kind {
    Player,
    Obstacle,
    BackgroundElement,
}

/// The visual tag a tier stamps on its entities; read only by the
/// rendering collaborator.
#[derive(Clone, Copy, Debug, PartialEq, Eq, Structural)]
pub enum ColorTag {
    White,
    Gray,
    DarkGray,
}

/// A live object of the simulation: a unique id, its kind, a center
/// position and draw layer, a size, a leftward speed (micro-units per
/// second; zero for the player) and a visual tag. Lengths are pico-units.
#[derive(Clone, Copy, Debug, PartialEq, Eq, Structural)]
pub struct Entity {
    pub id: u64,
    pub kind: Kind,
    pub x: i64,
    pub y: i64,
    pub depth: i64,
    pub width: u64,
    pub height: u64,
    pub velocity: u64,
    pub color: ColorTag,
}

impl Entity {
    /// Coordinates, size and speed lie within the simulation's bounds.
    pub open spec fn wf(self) -> bool {
        &&& -MAX_COORD_PICOS <= self.x <= MAX_COORD_PICOS
        &&& -MAX_COORD_PICOS <= self.y <= MAX_COORD_PICOS
        &&& self.width <= MAX_EXTENT_PICOS
        &&& self.height <= MAX_EXTENT_PICOS
        &&& self.velocity <= MAX_VELOCITY
    }

    /// The entity's bounding box: its center with half its size as
    /// half-extents (halves round down).
    pub open spec fn spec_aabb(self) -> Aabb {
        Aabb {
            cx: self.x,
            cy: self.y,
            hx: (self.width / 2) as i64,
            hy: (self.height / 2) as i64,
        }
    }

    /// Builds the entity's bounding box.
    pub fn aabb(&self) -> (b: Aabb)
        requires
            self.wf(),
        ensures
            b == self.spec_aabb(),
            b.wf(),
    {
        Aabb {
            cx: self.x,
            cy: self.y,
            hx: (self.width / 2) as i64,
            hy: (self.height / 2) as i64,
        }
    }
}

/// Every entity of the sequence is well-formed.
pub open spec fn all_entities_wf(entities: Seq<Entity>) -> bool {
    forall|i: int| 0 <= i < entities.len() ==> #[trigger] entities[i].wf()
}

/// A spawn template: the remaining cooldown and the value it resets to
/// (microseconds), the horizontal speed, a vertical offset and draw layer
/// for background placement, a size (pico-units) and a visual tag.
#[derive(Clone, Copy, Debug, PartialEq, Eq, Structural)]
pub struct ElementTier {
    pub spawn_cooldown: u64,
    pub default_spawn_cooldown: u64,
    pub velocity: u64,
    pub y_offset: i64,
    pub depth: i64,
    pub width: u64,
    pub height: u64,
    pub color: ColorTag,
}

impl ElementTier {
    /// Cooldowns, speed, size and offset lie within the simulation's bounds.
    pub open spec fn wf(self) -> bool {
        &&& self.spawn_cooldown <= MAX_COOLDOWN_MICROS
        &&& self.default_spawn_cooldown <= MAX_COOLDOWN_MICROS
        &&& self.velocity <= MAX_VELOCITY
        &&& -MAX_HALF_SCREEN_PICOS <= self.y_offset <= MAX_HALF_SCREEN_PICOS
        &&& self.width <= MAX_EXTENT_PICOS
        &&& self.height <= MAX_EXTENT_PICOS
    }

    /// A tier with an explicit vertical offset and draw layer.
    pub fn new(
        spawn_cooldown: u64,
        default_spawn_cooldown: u64,
        velocity: u64,
        y_offset: i64,
        depth: i64,
        width: u64,
        height: u64,
        color: ColorTag,
    ) -> (t: ElementTier)
        requires
            spawn_cooldown <= MAX_COOLDOWN_MICROS,
            default_spawn_cooldown <= MAX_COOLDOWN_MICROS,
            velocity <= MAX_VELOCITY,
            -MAX_HALF_SCREEN_PICOS <= y_offset <= MAX_HALF_SCREEN_PICOS,
            width <= MAX_EXTENT_PICOS,
            height <= MAX_EXTENT_PICOS,
        ensures
            t == (ElementTier {
                spawn_cooldown,
                default_spawn_cooldown,
                velocity,
                y_offset,
                depth,
                width,
                height,
                color,
            }),
            t.wf(),
    {
        ElementTier {
            spawn_cooldown,
            default_spawn_cooldown,
            velocity,
            y_offset,
            depth,
            width,
            height,
            color,
        }
    }

    /// A tier placed at the default offset and layer (both zero).
    pub fn with_default_transform(
        spawn_cooldown: u64,
        default_spawn_cooldown: u64,
        velocity: u64,
        width: u64,
        height: u64,
        color: ColorTag,
    ) -> (t: ElementTier)
        requires
            spawn_cooldown <= MAX_COOLDOWN_MICROS,
            default_spawn_cooldown <= MAX_COOLDOWN_MICROS,
            velocity <= MAX_VELOCITY,
            width <= MAX_EXTENT_PICOS,
            height <= MAX_EXTENT_PICOS,
        ensures
            t == (ElementTier {
                spawn_cooldown,
                default_spawn_cooldown,
                velocity,
                y_offset: 0,
                depth: 0,
                width,
                height,
                color,
            }),
            t.wf(),
    {
        ElementTier {
            spawn_cooldown,
            default_spawn_cooldown,
            velocity,
            y_offset: 0,
            depth: 0,
            width,
            height,
            color,
        }
    }
}

/// Every tier of the sequence is well-formed.
pub open spec fn all_tiers_wf(tiers: Seq<ElementTier>) -> bool {
    forall|i: int| 0 <= i < tiers.len() ==> #[trigger] tiers[i].wf()
}

/// One application of the difficulty multiplier 49/50 (= 0.98):
/// `c * 49 / 50`, rounded down to the microsecond.
pub open spec fn shrunk_cooldown(c: int) -> int {
    c * 49 / 50
}

/// The reset cooldown of an obstacle tier that started at `d` after it has
/// fired `k` times.
pub open spec fn reset_cooldown_after(d: int, k: nat) -> int
    decreases k,
{
    if k == 0 {
        d
    } else {
        shrunk_cooldown(reset_cooldown_after(d, (k - 1) as nat))
    }
}

/// Shrinking never raises a cooldown and keeps it non-negative.
pub proof fn lemma_shrunk_cooldown_bounds(c: int)
    by (nonlinear_arith)
    requires
        c >= 0,
    ensures
        0 <= shrunk_cooldown(c) <= c,
{
}

/// Shrinking a positive cooldown strictly lowers it: difficulty escalates.
pub proof fn lemma_shrunk_cooldown_decreases(c: int)
    by (nonlinear_arith)
    requires
        c >= 1,
    ensures
        shrunk_cooldown(c) < c,
{
}

/// After each fire the reset cooldown strictly drops, as long as it has not
/// yet reached zero.
pub proof fn lemma_reset_cooldown_strictly_decreasing(d: int, k: nat)
    requires
        reset_cooldown_after(d, k) >= 1,
    ensures
        reset_cooldown_after(d, k + 1) < reset_cooldown_after(d, k),
{
    lemma_shrunk_cooldown_decreases(reset_cooldown_after(d, k));
    assert(reset_cooldown_after(d, k + 1) == shrunk_cooldown(reset_cooldown_after(d, k)));
}

/// For a default cooldown `d = q * 50^k`, the reset cooldown after `k`
/// fires is exactly `q * 49^k`, that is, `d` times the difficulty
/// multiplier to the `k`-th power, with no rounding.
pub proof fn lemma_reset_cooldown_exact(q: int, k: nat)
    requires
        q >= 0,
    ensures
        reset_cooldown_after(q * pow(50, k), k) == q * pow(49, k),
    decreases k,
{
    if k == 0 {
        assert(pow(50, 0) == 1) by {
            vstd::arithmetic::power::lemma_pow0(50);
        }
        assert(pow(49, 0) == 1) by {
            vstd::arithmetic::power::lemma_pow0(49);
        }
    } else {
        let km1 = (k - 1) as nat;
        lemma_reset_cooldown_exact(q * 50, km1);
        reveal(pow);
        assert(pow(50, k) == 50 * pow(50, km1));
        assert(pow(49, k) == 49 * pow(49, km1));
        assert(q * pow(50, k) == (q * 50) * pow(50, km1)) by (nonlinear_arith)
            requires pow(50, k) == 50 * pow(50, km1);
        let r = (q * 50) * pow(49, km1);
        assert(reset_cooldown_after(q * pow(50, k), k) == shrunk_cooldown(r));
        assert(r * 49 == 50 * (q * pow(49, k))) by (nonlinear_arith)
            requires
                r == (q * 50) * pow(49, km1),
                pow(49, k) == 49 * pow(49, km1);
        lemma_div_multiples_vanish(q * pow(49, k), 50);
    }
}

/// Whether a tier fires this tick: the elapsed time overshoots what
/// remained of its cooldown.
pub open spec fn tier_fires(t: ElementTier, elapsed: u64) -> bool {
    elapsed > t.spawn_cooldown
}

/// A tier evolved over a whole run of ticks with the given elapsed times.
pub open spec fn tier_after_ticks(t: ElementTier, ticks: Seq<u64>, background: bool) -> ElementTier
    decreases ticks.len(),
{
    if ticks.len() == 0 {
        t
    } else {
        tier_after(tier_after_ticks(t, ticks.drop_last(), background), ticks.last(), background)
    }
}

/// How many of the ticks fire the evolving tier.
pub open spec fn fires_during(t: ElementTier, ticks: Seq<u64>, background: bool) -> nat
    decreases ticks.len(),
{
    if ticks.len() == 0 {
        0
    } else {
        fires_during(t, ticks.drop_last(), background) + if tier_fires(
            tier_after_ticks(t, ticks.drop_last(), background),
            ticks.last(),
        ) {
            1nat
        } else {
            0nat
        }
    }
}

/// Across any run of ticks, an obstacle tier's reset cooldown is exactly
/// its starting value shrunk once per fire: after `k` fires it equals
/// `reset_cooldown_after(d, k)`, which is `d * (49/50)^k` with no rounding
/// at all whenever `50^k` divides `d` (`lemma_reset_cooldown_exact`), and
/// strictly decreasing while positive in any case
/// (`lemma_reset_cooldown_strictly_decreasing`).
pub proof fn lemma_tier_cooldown_after_fires(t: ElementTier, ticks: Seq<u64>)
    ensures
        tier_after_ticks(t, ticks, false).default_spawn_cooldown == reset_cooldown_after(
            t.default_spawn_cooldown as int,
            fires_during(t, ticks, false),
        ),
    decreases ticks.len(),
{
    if ticks.len() > 0 {
        let prev = tier_after_ticks(t, ticks.drop_last(), false);
        lemma_tier_cooldown_after_fires(t, ticks.drop_last());
        if tier_fires(prev, ticks.last()) {
            lemma_shrunk_cooldown_bounds(prev.default_spawn_cooldown as int);
        }
    }
}

/// A tier after one tick: a firing background tier resets to its default
/// cooldown; a firing obstacle tier first shrinks the default by the
/// difficulty multiplier, then resets to it; a quiet tier just counts the
/// elapsed time down.
pub open spec fn tier_after(t: ElementTier, elapsed: u64, background: bool) -> ElementTier {
    if tier_fires(t, elapsed) {
        if background {
            ElementTier { spawn_cooldown: t.default_spawn_cooldown, ..t }
        } else {
            let shrunk = (t.default_spawn_cooldown * 49 / 50) as u64;
            ElementTier { spawn_cooldown: shrunk, default_spawn_cooldown: shrunk, ..t }
        }
    } else {
        ElementTier { spawn_cooldown: (t.spawn_cooldown - elapsed) as u64, ..t }
    }
}

/// All tiers of a category after one tick.
pub open spec fn tiers_after(tiers: Seq<ElementTier>, elapsed: u64, background: bool) -> Seq<
    ElementTier,
> {
    tiers.map_values(|t: ElementTier| tier_after(t, elapsed, background))
}

/// The canonical spawn abscissa: just past the right screen edge, so the
/// entity starts fully off-screen.
pub open spec fn spawn_x_spec(config: SimConfig, width: u64) -> int {
    config.half_width + width / 2
}

/// The ordinate of a spawned obstacle: its bottom edge level with the
/// player's bottom edge (halves round down, exactly as computed).
pub open spec fn obstacle_y_spec(config: SimConfig, height: u64) -> int {
    if height >= config.player_height {
        (height - config.player_height) / 2
    } else {
        -((config.player_height - height) / 2)
    }
}

/// The ordinate of a spawned background element: a third of the screen
/// above the center plus the tier's own offset.
pub open spec fn background_y_spec(config: SimConfig, t: ElementTier) -> int {
    (2 * config.half_height) / 3 + t.y_offset
}

/// The entity a firing tier emits, carrying the tier's size, speed and
/// visual tag at the canonical off-screen start position.
pub open spec fn tier_entity(t: ElementTier, config: SimConfig, id: u64, background: bool) -> Entity {
    Entity {
        id,
        kind: if background {
            Kind::BackgroundElement
        } else {
            Kind::Obstacle
        },
        x: spawn_x_spec(config, t.width) as i64,
        y: if background {
            background_y_spec(config, t) as i64
        } else {
            obstacle_y_spec(config, t.height) as i64
        },
        depth: t.depth,
        width: t.width,
        height: t.height,
        velocity: t.velocity,
        color: t.color,
    }
}

/// How many tiers of the sequence fire this tick.
pub open spec fn fire_count(tiers: Seq<ElementTier>, elapsed: u64) -> int
    decreases tiers.len(),
{
    if tiers.len() == 0 {
        0
    } else {
        fire_count(tiers.drop_last(), elapsed) + if tier_fires(tiers.last(), elapsed) {
            1int
        } else {
            0int
        }
    }
}

/// At most one entity per tier fires in a tick.
pub proof fn lemma_fire_count_bounds(tiers: Seq<ElementTier>, elapsed: u64)
    ensures
        0 <= fire_count(tiers, elapsed) <= tiers.len(),
    decreases tiers.len(),
{
    if tiers.len() > 0 {
        lemma_fire_count_bounds(tiers.drop_last(), elapsed);
    }
}

/// The entities the firing tiers emit, in tier order, with ids handed out
/// consecutively from `first_id`.
pub open spec fn spawned_entities(
    tiers: Seq<ElementTier>,
    elapsed: u64,
    config: SimConfig,
    first_id: u64,
    background: bool,
) -> Seq<Entity>
    decreases tiers.len(),
{
    if tiers.len() == 0 {
        Seq::empty()
    } else {
        let prefix = tiers.drop_last();
        let prev = spawned_entities(prefix, elapsed, config, first_id, background);
        if tier_fires(tiers.last(), elapsed) {
            prev.push(
                tier_entity(
                    tiers.last(),
                    config,
                    (first_id + fire_count(prefix, elapsed)) as u64,
                    background,
                ),
            )
        } else {
            prev
        }
    }
}

/// Counts one category's cooldowns down by the tick's elapsed time and
/// emits an entity for every tier whose cooldown ran out, resetting that
/// tier (obstacle tiers with the difficulty multiplier applied). Returns
/// the spawned entities and the next fresh id.
pub fn tick_element_tiers(
    tiers: &mut Vec<ElementTier>,
    elapsed: u64,
    config: &SimConfig,
    first_id: u64,
    background: bool,
) -> (r: (Vec<Entity>, u64))
    requires
        elapsed <= MAX_TICK_MICROS,
        config.wf(),
        all_tiers_wf(old(tiers)@),
        first_id + old(tiers)@.len() <= u64::MAX,
    ensures
        final(tiers)@ == tiers_after(old(tiers)@, elapsed, background),
        r.0@ == spawned_entities(old(tiers)@, elapsed, *config, first_id, background),
        r.1 == first_id + fire_count(old(tiers)@, elapsed),
        r.0@.len() == fire_count(old(tiers)@, elapsed),
        forall|j: int| 0 <= j < r.0@.len() ==> #[trigger] r.0@[j].id == first_id + j,
        forall|j: int|
            0 <= j < r.0@.len() ==> (#[trigger] r.0@[j].kind == if background {
                Kind::BackgroundElement
            } else {
                Kind::Obstacle
            }),
        all_tiers_wf(final(tiers)@),
        all_entities_wf(r.0@),
{
    let ghost orig = tiers@;
    let mut spawned: Vec<Entity> = Vec::new();
    let mut id: u64 = first_id;
    let mut i: usize = 0;
    while i < tiers.len()
        invariant
            0 <= i <= orig.len(),
            tiers@.len() == orig.len(),
            elapsed <= MAX_TICK_MICROS,
            config.wf(),
            all_tiers_wf(orig),
            first_id + orig.len() <= u64::MAX,
            forall|j: int| i <= j < orig.len() ==> tiers@[j] == orig[j],
            forall|j: int|
                0 <= j < i ==> tiers@[j] == tier_after(orig[j], elapsed, background),
            spawned@ == spawned_entities(
                orig.take(i as int),
                elapsed,
                *config,
                first_id,
                background,
            ),
            id == first_id + fire_count(orig.take(i as int), elapsed),
            spawned@.len() == fire_count(orig.take(i as int), elapsed),
            forall|j: int| 0 <= j < spawned@.len() ==> #[trigger] spawned@[j].id == first_id + j,
            forall|j: int|
                0 <= j < spawned@.len() ==> (#[trigger] spawned@[j].kind == if background {
                    Kind::BackgroundElement
                } else {
                    Kind::Obstacle
                }),
            all_tiers_wf(tiers@),
            all_entities_wf(spawned@),
        decreases orig.len() - i,
    {
        let t = tiers[i];
        proof {
            assert(orig.take(i + 1).drop_last() =~= orig.take(i as int));
            assert(orig.take(i + 1).last() == orig[i as int]);
            lemma_fire_count_bounds(orig.take(i as int), elapsed);
            assert(orig[i as int].wf());
            assert(t.wf());
        }
        if elapsed > t.spawn_cooldown {
            let x = config.half_width + (t.width / 2) as i64;
            let y = if background {
                let base = ((2 * config.half_height) as u64 / 3) as i64;
                base + t.y_offset
            } else {
                if t.height >= config.player_height {
                    ((t.height - config.player_height) / 2) as i64
                } else {
                    -(((config.player_height - t.height) / 2) as i64)
                }
            };
            let ent = Entity {
                id,
                kind: if background {
                    Kind::BackgroundElement
                } else {
                    Kind::Obstacle
                },
                x,
                y,
                depth: t.depth,
                width: t.width,
                height: t.height,
                velocity: t.velocity,
                color: t.color,
            };
            spawned.push(ent);
            id = id + 1;
            if background {
                tiers.set(
                    i,
                    ElementTier { spawn_cooldown: t.default_spawn_cooldown, ..t },
                );
            } else {
                proof {
                    lemma_shrunk_cooldown_bounds(t.default_spawn_cooldown as int);
                }
                let shrunk = t.default_spawn_cooldown * 49 / 50;
                tiers.set(
                    i,
                    ElementTier { spawn_cooldown: shrunk, default_spawn_cooldown: shrunk, ..t },
                );
            }
        } else {
            tiers.set(i, ElementTier { spawn_cooldown: t.spawn_cooldown - elapsed, ..t });
        }
        i = i + 1;
    }
    proof {
        assert(orig.take(orig.len() as int) =~= orig);
        assert(tiers@ =~= tiers_after(orig, elapsed, background));
    }
    (spawned, id)
}

/// Whether some entity of the sequence carries this id.
pub open spec fn has_entity_id(entities: Seq<Entity>, id: u64) -> bool {
    exists|k: int| 0 <= k < entities.len() && #[trigger] entities[k].id == id
}

/// No two entities of the sequence share an id.
pub open spec fn ids_distinct(entities: Seq<Entity>) -> bool {
    forall|i: int, j: int|
        0 <= i < j < entities.len() ==> #[trigger] entities[i].id != #[trigger] entities[j].id
}

/// Every id of the sequence lies below `n`.
pub open spec fn ids_below(entities: Seq<Entity>, n: int) -> bool {
    forall|i: int| 0 <= i < entities.len() ==> #[trigger] entities[i].id < n
}

/// The player entity spawned on entering play: at a third of the screen
/// left of center, on the ground, one layer above the background.
pub open spec fn player_entity_spec(config: SimConfig, id: u64) -> Entity {
    Entity {
        id,
        kind: Kind::Player,
        x: (-config.half_width + config.half_width / 3) as i64,
        y: 0,
        depth: 1,
        width: config.player_width,
        height: config.player_height,
        velocity: 0,
        color: ColorTag::White,
    }
}

/// Creates the player entity for a fresh play session.
pub fn spawn_scene_and_player(config: &SimConfig, id: u64) -> (e: Entity)
    requires
        config.wf(),
    ensures
        e == player_entity_spec(*config, id),
        e.wf(),
        e.kind is Player,
{
    Entity {
        id,
        kind: Kind::Player,
        x: -config.half_width + config.half_width / 3,
        y: 0,
        depth: 1,
        width: config.player_width,
        height: config.player_height,
        velocity: 0,
        color: ColorTag::White,
    }
}

/// Whether an entity is moved by the lifecycle system: everything but the
/// player scrolls leftward.
pub open spec fn entity_moves(e: Entity) -> bool {
    !(e.kind is Player)
}

/// The despawn threshold of an entity: the screen's half-width plus the
/// entity's half-width past the left edge, so it has fully cleared the
/// viewport.
pub open spec fn despawn_threshold(config: SimConfig, width: u64) -> int {
    -config.half_width - width / 2
}

/// Whether an entity has scrolled strictly past its despawn threshold.
pub open spec fn past_left_edge(e: Entity, config: SimConfig) -> bool {
    e.x < despawn_threshold(config, e.width)
}

/// An entity after one movement step: `velocity * elapsed` pico-units
/// further left, exactly.
pub open spec fn moved_entity(e: Entity, elapsed: u64) -> Entity {
    Entity { x: (e.x - e.velocity * elapsed) as i64, ..e }
}

/// The entities that remain after one lifecycle tick, in order: the player
/// stays put, an entity past its threshold is dropped, every other moving
/// entity takes one movement step.
pub open spec fn surviving_entities(entities: Seq<Entity>, elapsed: u64, config: SimConfig) -> Seq<
    Entity,
>
    decreases entities.len(),
{
    if entities.len() == 0 {
        Seq::empty()
    } else {
        let prev = surviving_entities(entities.drop_last(), elapsed, config);
        let e = entities.last();
        if !entity_moves(e) {
            prev.push(e)
        } else if past_left_edge(e, config) {
            prev
        } else {
            prev.push(moved_entity(e, elapsed))
        }
    }
}

/// The entities despawned by one lifecycle tick, in order.
pub open spec fn despawned_entities(entities: Seq<Entity>, config: SimConfig) -> Seq<Entity>
    decreases entities.len(),
{
    if entities.len() == 0 {
        Seq::empty()
    } else {
        let prev = despawned_entities(entities.drop_last(), config);
        let e = entities.last();
        if entity_moves(e) && past_left_edge(e, config) {
            prev.push(e)
        } else {
            prev
        }
    }
}

/// How many of the entities despawned by one lifecycle tick are obstacles;
/// each awards the fixed score.
pub open spec fn despawned_obstacle_count(entities: Seq<Entity>, config: SimConfig) -> int
    decreases entities.len(),
{
    if entities.len() == 0 {
        0
    } else {
        let e = entities.last();
        despawned_obstacle_count(entities.drop_last(), config) + if entity_moves(e)
            && past_left_edge(e, config) && e.kind is Obstacle {
            1int
        } else {
            0int
        }
    }
}

/// Score awarded when an obstacle scrolls off-screen.
pub const SCORE_PER_OBSTACLE: u32 = 100;

/// The score counter after adding `total`, saturating at the counter's
/// maximum.
pub open spec fn saturated_score(total: int) -> u32 {
    if total <= u32::MAX {
        total as u32
    } else {
        u32::MAX
    }
}

/// Despawn drops entities and movement keeps ids, so every surviving id
/// was already present, distinctness of ids is preserved, and no more
/// obstacles are counted than entities despawned.
pub proof fn lemma_surviving_ids(entities: Seq<Entity>, elapsed: u64, config: SimConfig)
    ensures
        forall|j: int|
            0 <= j < surviving_entities(entities, elapsed, config).len() ==> has_entity_id(
                entities,
                #[trigger] surviving_entities(entities, elapsed, config)[j].id,
            ),
        ids_distinct(entities) ==> ids_distinct(surviving_entities(entities, elapsed, config)),
        0 <= despawned_obstacle_count(entities, config) <= entities.len(),
    decreases entities.len(),
{
    let s = surviving_entities(entities, elapsed, config);
    if entities.len() == 0 {
    } else {
        let prefix = entities.drop_last();
        let sp = surviving_entities(prefix, elapsed, config);
        lemma_surviving_ids(prefix, elapsed, config);
        assert forall|j: int| 0 <= j < sp.len() implies has_entity_id(
            entities,
            #[trigger] sp[j].id,
        ) by {
            assert(has_entity_id(prefix, sp[j].id));
            let k = choose|k: int| 0 <= k < prefix.len() && #[trigger] prefix[k].id == sp[j].id;
            assert(entities[k].id == sp[j].id);
        }
        let e = entities.last();
        if !entity_moves(e) || !past_left_edge(e, config) {
            assert(entities[entities.len() - 1].id == e.id);
            assert(has_entity_id(entities, e.id));
            if ids_distinct(entities) {
                assert(ids_distinct(prefix));
                assert forall|i: int, j: int| 0 <= i < j < s.len() implies s[i].id != s[j].id by {
                    if j < sp.len() {
                        assert(sp[i].id != sp[j].id);
                    } else {
                        assert(has_entity_id(prefix, sp[i].id));
                        let k = choose|k: int|
                            0 <= k < prefix.len() && #[trigger] prefix[k].id == sp[i].id;
                        assert(entities[k].id != entities[entities.len() - 1].id);
                    }
                }
            }
        }
    }
}

/// Counts one movement tick: the player stays, entities past the despawn
/// threshold are removed (each obstacle among them adding the fixed score,
/// saturating), every other moving entity steps left by
/// `velocity * elapsed`. Returns the despawned entities.
pub fn move_moving_elements(
    entities: &mut Vec<Entity>,
    elapsed: u64,
    config: &SimConfig,
    score: &mut u32,
) -> (removed: Vec<Entity>)
    requires
        elapsed <= MAX_TICK_MICROS,
        config.wf(),
        all_entities_wf(old(entities)@),
    ensures
        final(entities)@ == surviving_entities(old(entities)@, elapsed, *config),
        removed@ == despawned_entities(old(entities)@, *config),
        *final(score) == saturated_score(
            *old(score) + SCORE_PER_OBSTACLE * despawned_obstacle_count(old(entities)@, *config),
        ),
        all_entities_wf(final(entities)@),
{
    let ghost orig = entities@;
    let mut kept: Vec<Entity> = Vec::new();
    let mut removed: Vec<Entity> = Vec::new();
    let mut tally: u32 = *score;
    let ghost score0 = *score;
    let mut i: usize = 0;
    while i < entities.len()
        invariant
            0 <= i <= orig.len(),
            entities@ == orig,
            elapsed <= MAX_TICK_MICROS,
            config.wf(),
            all_entities_wf(orig),
            kept@ == surviving_entities(orig.take(i as int), elapsed, *config),
            removed@ == despawned_entities(orig.take(i as int), *config),
            tally == saturated_score(
                score0 + SCORE_PER_OBSTACLE * despawned_obstacle_count(orig.take(i as int), *config),
            ),
            all_entities_wf(kept@),
        decreases orig.len() - i,
    {
        let e = entities[i];
        proof {
            assert(orig.take(i + 1).drop_last() =~= orig.take(i as int));
            assert(orig.take(i + 1).last() == orig[i as int]);
            assert(orig[i as int].wf());
            // Bounds the despawn tally of the processed prefix.
            lemma_surviving_ids(orig.take(i as int), elapsed, *config);
        }
        let is_player = match e.kind {
            Kind::Player => true,
            _ => false,
        };
        if is_player {
            kept.push(e);
        } else {
            let threshold = -config.half_width - (e.width / 2) as i64;
            if e.x < threshold {
                removed.push(e);
                let scores = match e.kind {
                    Kind::Obstacle => true,
                    _ => false,
                };
                if scores {
                    if tally <= u32::MAX - SCORE_PER_OBSTACLE {
                        tally = tally + SCORE_PER_OBSTACLE;
                    } else {
                        tally = u32::MAX;
                    }
                }
            } else {
                proof {
                    assert((e.velocity * elapsed) as int <= 100_000_000_000_000_000int)
                        by (nonlinear_arith)
                        requires
                            e.velocity <= MAX_VELOCITY,
                            elapsed <= MAX_TICK_MICROS;
                }
                let step = (e.velocity * elapsed) as i64;
                kept.push(Entity { x: e.x - step, ..e });
            }
        }
        i = i + 1;
    }
    proof {
        assert(orig.take(orig.len() as int) =~= orig);
    }
    *entities = kept;
    *score = tally;
    removed
}

/// Removes every entity at once: the bulk despawn performed on leaving
/// play. Returns the removed entities in their former order.
pub fn despawn_entities(entities: &mut Vec<Entity>) -> (removed: Vec<Entity>)
    ensures
        final(entities)@ == Seq::<Entity>::empty(),
        removed@ == old(entities)@,
{
    let mut removed: Vec<Entity> = Vec::new();
    let mut i: usize = 0;
    while i < entities.len()
        invariant
            0 <= i <= entities@.len(),
            entities@ == old(entities)@,
            removed@ == entities@.take(i as int),
        decreases entities@.len() - i,
    {
        removed.push(entities[i]);
        proof {
            assert(entities@.take(i + 1) =~= entities@.take(i as int).push(entities@[i as int]));
        }
        i = i + 1;
    }
    proof {
        assert(entities@.take(entities@.len() as int) =~= entities@);
    }
    entities.clear();
    removed
}

/// Appending a block of consecutively numbered entities to a sequence of
/// distinct, smaller ids keeps all ids distinct.
pub proof fn lemma_consecutive_ids_append(a: Seq<Entity>, b: Seq<Entity>, n: int)
    requires
        ids_distinct(a),
        ids_below(a, n),
        forall|j: int| 0 <= j < b.len() ==> #[trigger] b[j].id == n + j,
    ensures
        ids_distinct(a + b),
        ids_below(a + b, n + b.len()),
{
    assert forall|i: int, j: int| 0 <= i < j < (a + b).len() implies (a + b)[i].id != (a
        + b)[j].id by {
        if j < a.len() {
            assert(a[i].id != a[j].id);
        } else if i < a.len() {
            assert(a[i].id < n);
            assert((a + b)[j].id == b[j - a.len()].id);
        } else {
            assert((a + b)[i].id == b[i - a.len()].id);
            assert((a + b)[j].id == b[j - a.len()].id);
        }
    }
    assert forall|i: int| 0 <= i < (a + b).len() implies (a + b)[i].id < n + b.len() by {
        if i < a.len() {
            assert(a[i].id < n);
        } else {
            assert((a + b)[i].id == b[i - a.len()].id);
        }
    }
}

/// Appends a copy of every entity of `src` to `dst`, in order.
pub fn append_entities(dst: &mut Vec<Entity>, src: &Vec<Entity>)
    ensures
        final(dst)@ == old(dst)@ + src@,
{
    let mut i: usize = 0;
    while i < src.len()
        invariant
            0 <= i <= src@.len(),
            dst@ == old(dst)@ + src@.take(i as int),
        decreases src@.len() - i,
    {
        dst.push(src[i]);
        proof {
            assert(old(dst)@ + src@.take(i + 1) =~= (old(dst)@ + src@.take(i as int)).push(
                src@[i as int],
            ));
        }
        i = i + 1;
    }
    proof {
        assert(src@.take(src@.len() as int) =~= src@);
    }
}

/// The entity list with every player entity raised to rendered height `y`.
pub open spec fn player_lifted(entities: Seq<Entity>, y: i64) -> Seq<Entity> {
    entities.map_values(
        |e: Entity|
            if e.kind is Player {
                Entity { y, ..e }
            } else {
                e
            },
    )
}

/// Raises every player entity to the rendered height `y`; ids, kinds and
/// every other entity are untouched.
pub fn lift_player(entities: &mut Vec<Entity>, y: i64)
    requires
        all_entities_wf(old(entities)@),
        -MAX_COORD_PICOS <= y <= MAX_COORD_PICOS,
    ensures
        final(entities)@ == player_lifted(old(entities)@, y),
        all_entities_wf(final(entities)@),
        final(entities)@.len() == old(entities)@.len(),
        forall|j: int|
            0 <= j < old(entities)@.len() ==> #[trigger] final(entities)@[j].id == old(
                entities,
            )@[j].id && final(entities)@[j].kind == old(entities)@[j].kind,
        player_count(final(entities)@) == player_count(old(entities)@),
{
    let ghost orig = entities@;
    let mut i: usize = 0;
    while i < entities.len()
        invariant
            0 <= i <= orig.len(),
            entities@.len() == orig.len(),
            all_entities_wf(orig),
            -MAX_COORD_PICOS <= y <= MAX_COORD_PICOS,
            forall|j: int| i <= j < orig.len() ==> entities@[j] == orig[j],
            forall|j: int|
                0 <= j < i ==> entities@[j] == (if orig[j].kind is Player {
                    Entity { y, ..orig[j] }
                } else {
                    orig[j]
                }),
            all_entities_wf(entities@),
        decreases orig.len() - i,
    {
        let is_player = match entities[i].kind {
            Kind::Player => true,
            _ => false,
        };
        proof {
            assert(orig[i as int].wf());
        }
        if is_player {
            let e = entities[i];
            entities.set(i, Entity { y, ..e });
        }
        i = i + 1;
    }
    proof {
        assert(entities@ =~= player_lifted(orig, y));
        assert forall|j: int| 0 <= j < orig.len() implies (#[trigger] orig[j].kind)
            == entities@[j].kind by {}
        lemma_player_count_pointwise(orig, entities@);
    }
}

/// Reports whether any entity is the player.
pub fn has_player_entity(entities: &Vec<Entity>) -> (found: bool)
    ensures
        found == has_player(entities@),
{
    let mut i: usize = 0;
    while i < entities.len()
        invariant
            0 <= i <= entities@.len(),
            forall|j: int| 0 <= j < i ==> !((#[trigger] entities@[j].kind) is Player),
        decreases entities@.len() - i,
    {
        let is_player = match entities[i].kind {
            Kind::Player => true,
            _ => false,
        };
        if is_player {
            proof {
                assert(entities@[i as int].kind is Player);
            }
            return true;
        }
        i = i + 1;
    }
    false
}

/// The index of the first player entity, or -1 when none exists.
pub open spec fn first_player_index(entities: Seq<Entity>) -> int
    decreases entities.len(),
{
    if entities.len() == 0 {
        -1
    } else if entities[0].kind is Player {
        0
    } else {
        let rest = first_player_index(entities.drop_first());
        if rest < 0 {
            -1
        } else {
            rest + 1
        }
    }
}

/// Whether any entity is the player.
pub open spec fn has_player(entities: Seq<Entity>) -> bool {
    exists|k: int| 0 <= k < entities.len() && (#[trigger] entities[k].kind) is Player
}

/// How many entities of the sequence are the player. The simulation keeps
/// this at exactly one while playing and zero otherwise.
pub open spec fn player_count(entities: Seq<Entity>) -> int
    decreases entities.len(),
{
    if entities.len() == 0 {
        0
    } else {
        player_count(entities.drop_last()) + if entities.last().kind is Player {
            1int
        } else {
            0int
        }
    }
}

/// Player counts add over concatenation.
pub proof fn lemma_player_count_append(a: Seq<Entity>, b: Seq<Entity>)
    ensures
        player_count(a + b) == player_count(a) + player_count(b),
    decreases b.len(),
{
    if b.len() == 0 {
        assert(a + b =~= a);
    } else {
        lemma_player_count_append(a, b.drop_last());
        assert((a + b).drop_last() =~= a + b.drop_last());
        assert((a + b).last() == b.last());
    }
}

/// A block without player entities contributes no players.
pub proof fn lemma_player_count_zero(b: Seq<Entity>)
    requires
        forall|j: int| 0 <= j < b.len() ==> !((#[trigger] b[j].kind) is Player),
    ensures
        player_count(b) == 0,
    decreases b.len(),
{
    if b.len() > 0 {
        lemma_player_count_zero(b.drop_last());
    }
}

/// Sequences with pointwise equal kinds hold equally many players.
pub proof fn lemma_player_count_pointwise(a: Seq<Entity>, b: Seq<Entity>)
    requires
        a.len() == b.len(),
        forall|j: int| 0 <= j < a.len() ==> (#[trigger] a[j].kind) == b[j].kind,
    ensures
        player_count(a) == player_count(b),
    decreases a.len(),
{
    if a.len() > 0 {
        assert forall|j: int| 0 <= j < a.drop_last().len() implies (
        #[trigger] a.drop_last()[j].kind) == b.drop_last()[j].kind by {
            assert(a.drop_last()[j] == a[j]);
            assert(b.drop_last()[j] == b[j]);
        }
        lemma_player_count_pointwise(a.drop_last(), b.drop_last());
        assert(a.last().kind == b.last().kind);
    }
}

/// One lifecycle tick never changes how many players are alive: the player
/// is kept in place and only non-player entities despawn.
pub proof fn lemma_player_count_surviving(entities: Seq<Entity>, elapsed: u64, config: SimConfig)
    ensures
        player_count(surviving_entities(entities, elapsed, config)) == player_count(entities),
    decreases entities.len(),
{
    if entities.len() > 0 {
        let prefix = entities.drop_last();
        lemma_player_count_surviving(prefix, elapsed, config);
        let sp = surviving_entities(prefix, elapsed, config);
        let e = entities.last();
        if !entity_moves(e) {
            assert(sp.push(e).drop_last() =~= sp);
        } else if !past_left_edge(e, config) {
            assert(sp.push(moved_entity(e, elapsed)).drop_last() =~= sp);
        }
    }
}

/// `first_player_index` finds the first player exactly when one exists.
pub proof fn lemma_first_player_index(entities: Seq<Entity>)
    ensures
        has_player(entities) <==> 0 <= first_player_index(entities) < entities.len(),
        !has_player(entities) ==> first_player_index(entities) == -1,
        has_player(entities) ==> entities[first_player_index(entities)].kind is Player,
        has_player(entities) ==> forall|j: int|
            0 <= j < first_player_index(entities) ==> !((#[trigger] entities[j].kind) is Player),
    decreases entities.len(),
{
    if entities.len() == 0 {
    } else if entities[0].kind is Player {
        assert(has_player(entities));
    } else {
        let rest = entities.drop_first();
        lemma_first_player_index(rest);
        assert forall|k: int|
            0 <= k < entities.len() && (#[trigger] entities[k].kind) is Player implies k >= 1 by {}
        if has_player(entities) {
            let k = choose|k: int|
                0 <= k < entities.len() && (#[trigger] entities[k].kind) is Player;
            assert(rest[k - 1].kind is Player);
            assert(has_player(rest));
        }
        if has_player(rest) {
            let k = choose|k: int| 0 <= k < rest.len() && (#[trigger] rest[k].kind) is Player;
            assert(entities[k + 1].kind is Player);
            assert(has_player(entities));
        }
        if has_player(entities) {
            assert forall|j: int| 0 <= j < first_player_index(entities) implies !((
            #[trigger] entities[j].kind) is Player) by {
                if j > 0 {
                    assert(rest[j - 1] == entities[j]);
                    assert(!(rest[j - 1].kind is Player));
                }
            }
        }
    }
}

/// Whether the player's bounding box overlaps any obstacle's this tick;
/// false when no player exists (the check short-circuits before the scene
/// is set up). Background elements never collide.
pub open spec fn collision_detected(entities: Seq<Entity>) -> bool {
    has_player(entities) && exists|j: int|
        0 <= j < entities.len() && (#[trigger] entities[j].kind) is Obstacle
            && entities[first_player_index(entities)].spec_aabb().overlaps(
            entities[j].spec_aabb(),
        )
}

/// Tests the player's bounding box against every obstacle's and reports
/// whether any pair overlaps.
pub fn detect_collisions(entities: &Vec<Entity>) -> (hit: bool)
    requires
        all_entities_wf(entities@),
    ensures
        hit == collision_detected(entities@),
{
    proof {
        lemma_first_player_index(entities@);
    }
    let mut player_at: usize = 0;
    let mut found = false;
    let mut i: usize = 0;
    while i < entities.len()
        invariant
            0 <= i <= entities@.len(),
            !found ==> forall|j: int|
                0 <= j < i ==> !((#[trigger] entities@[j].kind) is Player),
            found ==> 0 <= player_at < i <= entities@.len()
                && entities@[player_at as int].kind is Player && forall|j: int|
                0 <= j < player_at ==> !((#[trigger] entities@[j].kind) is Player),
        decreases entities@.len() - i,
    {
        if !found {
            let is_player = match entities[i].kind {
                Kind::Player => true,
                _ => false,
            };
            if is_player {
                player_at = i;
                found = true;
            }
        }
        i = i + 1;
    }
    if !found {
        return false;
    }
    proof {
        assert(entities@[player_at as int].kind is Player);
        assert(has_player(entities@));
        assert(first_player_index(entities@) == player_at as int) by {
            lemma_first_player_index(entities@);
            let f = first_player_index(entities@);
            if f < player_at as int {
                assert(!(entities@[f].kind is Player));
            }
            if f > player_at as int {
                assert(!(entities@[player_at as int].kind is Player));
            }
        }
        assert(entities@[player_at as int].wf());
    }
    let player_box = entities[player_at].aabb();
    let mut j: usize = 0;
    while j < entities.len()
        invariant
            0 <= j <= entities@.len(),
            all_entities_wf(entities@),
            0 <= player_at < entities@.len(),
            has_player(entities@),
            first_player_index(entities@) == player_at as int,
            player_box == entities@[player_at as int].spec_aabb(),
            player_box.wf(),
            forall|k: int|
                0 <= k < j ==> !((#[trigger] entities@[k].kind) is Obstacle
                    && entities@[player_at as int].spec_aabb().overlaps(entities@[k].spec_aabb())),
        decreases entities@.len() - j,
    {
        let is_obstacle = match entities[j].kind {
            Kind::Obstacle => true,
            _ => false,
        };
        if is_obstacle {
            proof {
                assert(entities@[j as int].wf());
            }
            let other = entities[j].aabb();
            if player_box.intersects(&other) {
                return true;
            }
        }
        j = j + 1;
    }
    false
}

/// The obstacle tiers of the spawner, in firing order.
#[derive(Debug)]
pub struct Obstacles {
    pub tiers: Vec<ElementTier>,
}

/// The background-element tiers of the spawner, in firing order.
#[derive(Debug)]
pub struct BackgroundElements {
    pub tiers: Vec<ElementTier>,
}

impl Obstacles {
    /// The baseline obstacle catalog: a cactus (8 x 72 units, 8 units/s,
    /// every 4 s), a stone (56 x 56, 8 units/s, every 12 s) and a bike
    /// (72 x 48, 10 units/s, every 18 s). Cooldowns in microseconds,
    /// lengths in pico-units.
    pub fn standard() -> (o: Obstacles)
        ensures
            o.tiers@.len() == 3,
            all_tiers_wf(o.tiers@),
    {
        let cactus = ElementTier::with_default_transform(
            0,
            4_000_000,
            8_000_000,
            8_000_000_000_000,
            72_000_000_000_000,
            ColorTag::White,
        );
        let stone = ElementTier::with_default_transform(
            5_000_000,
            12_000_000,
            8_000_000,
            56_000_000_000_000,
            56_000_000_000_000,
            ColorTag::Gray,
        );
        let bike = ElementTier::with_default_transform(
            9_000_000,
            18_000_000,
            10_000_000,
            72_000_000_000_000,
            48_000_000_000_000,
            ColorTag::White,
        );
        let mut tiers: Vec<ElementTier> = Vec::new();
        tiers.push(cactus);
        tiers.push(stone);
        tiers.push(bike);
        Obstacles { tiers }
    }
}

impl BackgroundElements {
    /// The baseline background catalog: small clouds (28 x 16 units,
    /// raised offset) and large clouds (72 x 36 units), both drifting at
    /// 0.6 units/s every 20 s.
    pub fn standard() -> (b: BackgroundElements)
        ensures
            b.tiers@.len() == 2,
            all_tiers_wf(b.tiers@),
    {
        let small_clouds = ElementTier::new(
            0,
            20_000_000,
            600_000,
            -16_000_000_000_000,
            1,
            28_000_000_000_000,
            16_000_000_000_000,
            ColorTag::Gray,
        );
        let large_clouds = ElementTier::with_default_transform(
            1_000_000,
            20_000_000,
            600_000,
            72_000_000_000_000,
            36_000_000_000_000,
            ColorTag::DarkGray,
        );
        let mut tiers: Vec<ElementTier> = Vec::new();
        tiers.push(small_clouds);
        tiers.push(large_clouds);
        BackgroundElements { tiers }
    }
}

/// Counts the obstacle cooldowns down and spawns an obstacle for every
/// tier that fired, shrinking that tier's reset cooldown by the difficulty
/// multiplier. Returns the spawned obstacles and the next fresh id.
pub fn spawn_obstacles(
    obstacles: &mut Obstacles,
    elapsed: u64,
    config: &SimConfig,
    first_id: u64,
) -> (r: (Vec<Entity>, u64))
    requires
        elapsed <= MAX_TICK_MICROS,
        config.wf(),
        all_tiers_wf(old(obstacles).tiers@),
        first_id + old(obstacles).tiers@.len() <= u64::MAX,
    ensures
        final(obstacles).tiers@ == tiers_after(old(obstacles).tiers@, elapsed, false),
        r.0@ == spawned_entities(old(obstacles).tiers@, elapsed, *config, first_id, false),
        r.1 == first_id + fire_count(old(obstacles).tiers@, elapsed),
        r.0@.len() == fire_count(old(obstacles).tiers@, elapsed),
        forall|j: int| 0 <= j < r.0@.len() ==> #[trigger] r.0@[j].id == first_id + j,
        forall|j: int| 0 <= j < r.0@.len() ==> (#[trigger] r.0@[j].kind) is Obstacle,
        all_tiers_wf(final(obstacles).tiers@),
        all_entities_wf(r.0@),
{
    tick_element_tiers(&mut obstacles.tiers, elapsed, config, first_id, false)
}

/// Counts the background cooldowns down and spawns an element for every
/// tier that fired; background tiers reset without shrinking. Returns the
/// spawned elements and the next fresh id.
pub fn spawn_background_elements(
    background: &mut BackgroundElements,
    elapsed: u64,
    config: &SimConfig,
    first_id: u64,
) -> (r: (Vec<Entity>, u64))
    requires
        elapsed <= MAX_TICK_MICROS,
        config.wf(),
        all_tiers_wf(old(background).tiers@),
        first_id + old(background).tiers@.len() <= u64::MAX,
    ensures
        final(background).tiers@ == tiers_after(old(background).tiers@, elapsed, true),
        r.0@ == spawned_entities(old(background).tiers@, elapsed, *config, first_id, true),
        r.1 == first_id + fire_count(old(background).tiers@, elapsed),
        r.0@.len() == fire_count(old(background).tiers@, elapsed),
        forall|j: int| 0 <= j < r.0@.len() ==> #[trigger] r.0@[j].id == first_id + j,
        forall|j: int| 0 <= j < r.0@.len() ==> (#[trigger] r.0@[j].kind) is BackgroundElement,
        all_tiers_wf(final(background).tiers@),
        all_entities_wf(r.0@),
{
    tick_element_tiers(&mut background.tiers, elapsed, config, first_id, true)
}

} // verus!
