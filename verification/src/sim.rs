//! The simulation context and its per-tick step.
//!
//! One `SimContext` owns the whole mutable state of the game: the state
//! machine, the score, the clock, the player's jump state, the spawn tiers
//! and the live entities. `tick` advances it by one frame in the fixed
//! order: advance the clock and clear the stale collision signal, apply the
//! input-driven state transition, then — while playing — jump kinematics,
//! spawning, movement/despawn/scoring, collision detection, and the
//! collision-driven transition to game over. Collaborators (rendering, UI)
//! read entity positions and the score, and drain the outbound event queue
//! once per tick.

use vstd::prelude::*;

use crate::actors::{
    all_entities_wf, all_tiers_wf, append_entities, collision_detected, despawned_entities,
    despawned_obstacle_count, despawn_entities, detect_collisions, fire_count, has_entity_id,
    has_player, has_player_entity, ids_below, ids_distinct, lemma_consecutive_ids_append,
    lemma_fire_count_bounds, lemma_player_count_append, lemma_player_count_surviving,
    lemma_player_count_zero, lemma_surviving_ids, lift_player, move_moving_elements,
    player_count, player_entity_spec, player_lifted, saturated_score, spawn_scene_and_player,
    spawned_entities,
    surviving_entities, tick_element_tiers, tiers_after, BackgroundElements, ElementTier, Entity,
    Kind, Obstacles, SCORE_PER_OBSTACLE,
};
use crate::config::SimConfig;
use crate::game_state::GameStates;
use crate::jump::{
    handle_jumping_state, jump_input_spec, rendered_height_spec, update_player_transform,
    update_player_velocity, velocity_update_spec, JumpingState, JumpingStates,
};
use crate::units::{MAX_TICK_MICROS, MAX_TIME_MICROS};

verus! {

/// The logical jump-trigger input of one tick, as the input collaborator
/// reports it: whether the action was pressed this tick and whether it was
/// released this tick.
#[derive(Clone, Copy, Debug, PartialEq, Eq, Structural)]
pub struct InputSnapshot {
    pub just_pressed: bool,
    pub just_released: bool,
}

/// An outbound notification for the rendering/UI collaborators, queued
/// during a tick and drained by them afterwards.
#[derive(Clone, Copy, Debug, PartialEq, Eq, Structural)]
pub enum SimEvent {
    StateChanged { from: GameStates, to: GameStates },
    EntitySpawned { id: u64, kind: Kind },
    EntityDespawned { id: u64, kind: Kind },
}

/// The mathematical model of a simulation context: the same fields with
/// the vectors abstracted to sequences.
pub ghost struct SimModel {
    pub config: SimConfig,
    pub state: GameStates,
    pub score: u32,
    pub now: u64,
    pub jump: JumpingState,
    pub obstacle_tiers: Seq<ElementTier>,
    pub background_tiers: Seq<ElementTier>,
    pub entities: Seq<Entity>,
    pub next_id: u64,
    pub collision_signal: bool,
    pub events: Seq<SimEvent>,
}

impl SimModel {
    /// Well-formedness of the whole simulation: the configuration and the
    /// jump state are in bounds, an airborne jump began in the past, the
    /// clock is within range, every tier and entity is in bounds, entity
    /// ids are distinct and below the id counter, exactly one player is
    /// alive while playing, and outside play no entity is alive.
    pub open spec fn wf(self) -> bool {
        &&& self.config.wf()
        &&& self.jump.wf()
        &&& (self.jump.state is Airborne ==> self.jump.jump_started_at <= self.now)
        &&& self.now <= MAX_TIME_MICROS
        &&& all_tiers_wf(self.obstacle_tiers)
        &&& all_tiers_wf(self.background_tiers)
        &&& all_entities_wf(self.entities)
        &&& ids_below(self.entities, self.next_id as int)
        &&& ids_distinct(self.entities)
        &&& player_count(self.entities) == (if self.state is Play {
            1int
        } else {
            0int
        })
        &&& (!(self.state is Play) ==> self.entities.len() == 0)
    }
}

/// The simulation context: the single owner of all mutable game state,
/// passed by reference to each per-tick system.
#[derive(Debug)]
pub struct SimContext {
    pub config: SimConfig,
    pub state: GameStates,
    pub score: u32,
    pub now: u64,
    pub jump: JumpingState,
    pub obstacles: Obstacles,
    pub background: BackgroundElements,
    pub entities: Vec<Entity>,
    pub next_id: u64,
    pub collision_signal: bool,
    pub events: Vec<SimEvent>,
}

impl View for SimContext {
    type V = SimModel;

    open spec fn view(&self) -> SimModel {
        SimModel {
            config: self.config,
            state: self.state,
            score: self.score,
            now: self.now,
            jump: self.jump,
            obstacle_tiers: self.obstacles.tiers@,
            background_tiers: self.background.tiers@,
            entities: self.entities@,
            next_id: self.next_id,
            collision_signal: self.collision_signal,
            events: self.events@,
        }
    }
}

/// The spawn notifications for a block of entities, in order.
pub open spec fn spawn_events(entities: Seq<Entity>) -> Seq<SimEvent> {
    entities.map_values(|e: Entity| SimEvent::EntitySpawned { id: e.id, kind: e.kind })
}

/// The despawn notifications for a block of entities, in order.
pub open spec fn despawn_events(entities: Seq<Entity>) -> Seq<SimEvent> {
    entities.map_values(|e: Entity| SimEvent::EntityDespawned { id: e.id, kind: e.kind })
}

/// Queues a spawn notification for every entity of `src`, in order.
fn push_spawn_events(events: &mut Vec<SimEvent>, src: &Vec<Entity>)
    ensures
        final(events)@ == old(events)@ + spawn_events(src@),
{
    let mut i: usize = 0;
    while i < src.len()
        invariant
            0 <= i <= src@.len(),
            events@ == old(events)@ + spawn_events(src@.take(i as int)),
        decreases src@.len() - i,
    {
        let e = src[i];
        events.push(SimEvent::EntitySpawned { id: e.id, kind: e.kind });
        proof {
            assert(old(events)@ + spawn_events(src@.take(i + 1)) =~= (old(events)@ + spawn_events(
                src@.take(i as int),
            )).push(SimEvent::EntitySpawned { id: src@[i as int].id, kind: src@[i as int].kind }));
        }
        i = i + 1;
    }
    proof {
        assert(src@.take(src@.len() as int) =~= src@);
    }
}

/// Queues a despawn notification for every entity of `src`, in order.
fn push_despawn_events(events: &mut Vec<SimEvent>, src: &Vec<Entity>)
    ensures
        final(events)@ == old(events)@ + despawn_events(src@),
{
    let mut i: usize = 0;
    while i < src.len()
        invariant
            0 <= i <= src@.len(),
            events@ == old(events)@ + despawn_events(src@.take(i as int)),
        decreases src@.len() - i,
    {
        let e = src[i];
        events.push(SimEvent::EntityDespawned { id: e.id, kind: e.kind });
        proof {
            assert(old(events)@ + despawn_events(src@.take(i + 1)) =~= (old(events)@
                + despawn_events(src@.take(i as int))).push(
                SimEvent::EntityDespawned { id: src@[i as int].id, kind: src@[i as int].kind },
            ));
        }
        i = i + 1;
    }
    proof {
        assert(src@.take(src@.len() as int) =~= src@);
    }
}

/// What an input-driven transition into play does: from the coin screen or
/// the game-over screen, a press resets the score, spawns a fresh player
/// with a grounded jump state, and announces the change; any other input
/// is ignored. A stale collision signal is never applied across the
/// transition.
pub open spec fn play_transition_spec(m: SimModel, just_pressed: bool) -> SimModel {
    if just_pressed && !(m.state is Play) {
        SimModel {
            state: GameStates::Play,
            score: 0,
            jump: JumpingState {
                state: JumpingStates::Idle,
                jump_started_at: 0,
                current_velocity: 0,
                key_was_released: false,
            },
            entities: m.entities.push(player_entity_spec(m.config, m.next_id)),
            next_id: (m.next_id + 1) as u64,
            events: m.events + seq![
                SimEvent::StateChanged { from: m.state, to: GameStates::Play },
                SimEvent::EntitySpawned { id: m.next_id, kind: Kind::Player },
            ],
            ..m
        }
    } else {
        m
    }
}

/// What the collision-driven transition does: a collision signal raised
/// while playing ends the session — the signal is consumed, the change is
/// announced, and every transient entity is despawned on the way out.
pub open spec fn game_over_spec(m: SimModel) -> SimModel {
    if m.collision_signal && m.state is Play {
        SimModel {
            state: GameStates::GameOver,
            entities: Seq::empty(),
            collision_signal: false,
            events: m.events + seq![
                SimEvent::StateChanged { from: GameStates::Play, to: GameStates::GameOver },
            ] + despawn_events(m.entities),
            ..m
        }
    } else {
        m
    }
}

/// What the jump systems of one tick do: if a player exists, the trigger
/// edges are applied to the jump state, the vertical offset is recomputed
/// for the advanced clock, and the player entity is raised to the rendered
/// height; without a player the systems short-circuit.
pub open spec fn kinematics_spec(m: SimModel, just_pressed: bool, just_released: bool) -> SimModel {
    if has_player(m.entities) {
        let j = velocity_update_spec(
            jump_input_spec(m.jump, just_pressed, just_released, m.now),
            m.now,
        );
        SimModel {
            jump: j,
            entities: player_lifted(m.entities, rendered_height_spec(j, m.config.jump) as i64),
            ..m
        }
    } else {
        m
    }
}

/// What the spawners of one tick do: the obstacle tiers fire first (their
/// reset cooldowns shrinking), then the background tiers; the new entities
/// are appended in that order with consecutive ids, and each spawn is
/// announced.
pub open spec fn spawn_phase_spec(m: SimModel, elapsed: u64) -> SimModel {
    let obs = spawned_entities(m.obstacle_tiers, elapsed, m.config, m.next_id, false);
    let nid1 = (m.next_id + fire_count(m.obstacle_tiers, elapsed)) as u64;
    let bg = spawned_entities(m.background_tiers, elapsed, m.config, nid1, true);
    let nid2 = (nid1 + fire_count(m.background_tiers, elapsed)) as u64;
    SimModel {
        obstacle_tiers: tiers_after(m.obstacle_tiers, elapsed, false),
        background_tiers: tiers_after(m.background_tiers, elapsed, true),
        entities: m.entities + obs + bg,
        next_id: nid2,
        events: m.events + spawn_events(obs) + spawn_events(bg),
        ..m
    }
}

/// What the lifecycle system of one tick does: moving entities step left
/// by `velocity * elapsed`, entities past the left despawn threshold are
/// removed and announced, and each removed obstacle adds the fixed score.
pub open spec fn lifecycle_spec(m: SimModel, elapsed: u64) -> SimModel {
    SimModel {
        entities: surviving_entities(m.entities, elapsed, m.config),
        score: saturated_score(
            m.score + SCORE_PER_OBSTACLE * despawned_obstacle_count(m.entities, m.config),
        ),
        events: m.events + despawn_events(despawned_entities(m.entities, m.config)),
        ..m
    }
}

/// What collision detection does: the signal is raised exactly when the
/// player overlaps an obstacle at the current (post-movement) positions.
pub open spec fn collision_phase_spec(m: SimModel) -> SimModel {
    SimModel { collision_signal: collision_detected(m.entities), ..m }
}

/// One whole tick: the clock advances and the stale collision signal is
/// cleared; outside play the input may start a session (gameplay begins on
/// the next tick); during play the systems run in the fixed order —
/// kinematics, spawning, movement/despawn/scoring, collision detection,
/// and the collision-driven transition to game over.
pub open spec fn tick_spec(m: SimModel, input: InputSnapshot, elapsed: u64) -> SimModel {
    let m0 = SimModel { now: (m.now + elapsed) as u64, collision_signal: false, ..m };
    if m0.state is Play {
        let m1 = kinematics_spec(m0, input.just_pressed, input.just_released);
        let m2 = spawn_phase_spec(m1, elapsed);
        let m3 = lifecycle_spec(m2, elapsed);
        let m4 = collision_phase_spec(m3);
        game_over_spec(m4)
    } else {
        play_transition_spec(m0, input.just_pressed)
    }
}

impl SimContext {
    /// A fresh simulation: waiting for a coin, score zero, clock at zero,
    /// the standard spawn catalogs, no entities and no pending events.
    pub fn new(config: SimConfig) -> (sim: SimContext)
        requires
            config.wf(),
        ensures
            sim@.wf(),
            sim@.config == config,
            sim@.state is InsertCoin,
            sim@.score == 0,
            sim@.now == 0,
            sim@.entities.len() == 0,
            sim@.events.len() == 0,
            sim@.next_id == 0,
            !sim@.collision_signal,
            sim@.obstacle_tiers.len() == 3,
            sim@.background_tiers.len() == 2,
    {
        SimContext {
            config,
            state: GameStates::InsertCoin,
            score: 0,
            now: 0,
            jump: JumpingState::default(),
            obstacles: Obstacles::standard(),
            background: BackgroundElements::standard(),
            entities: Vec::new(),
            next_id: 0,
            collision_signal: false,
            events: Vec::new(),
        }
    }

    /// Hands the queued events to the collaborators and empties the queue;
    /// nothing else changes.
    pub fn drain_events(&mut self) -> (drained: Vec<SimEvent>)
        ensures
            drained@ == old(self)@.events,
            final(self)@ == (SimModel { events: Seq::empty(), ..old(self)@ }),
    {
        let mut taken: Vec<SimEvent> = Vec::new();
        core::mem::swap(&mut self.events, &mut taken);
        taken
    }

    /// From the coin or game-over screen, a jump-trigger press starts a
    /// play session; any other input is ignored.
    pub fn maybe_transit_to_play_state(&mut self, just_pressed: bool)
        requires
            old(self)@.wf(),
            !(old(self)@.state is Play),
            old(self)@.next_id + 1 <= u64::MAX,
        ensures
            final(self)@ == play_transition_spec(old(self)@, just_pressed),
            final(self)@.wf(),
    {
        if just_pressed {
            self.score = 0;
            let player = spawn_scene_and_player(&self.config, self.next_id);
            self.events.push(
                SimEvent::StateChanged { from: self.state, to: GameStates::Play },
            );
            self.events.push(SimEvent::EntitySpawned { id: self.next_id, kind: Kind::Player });
            self.entities.push(player);
            self.jump = JumpingState::default();
            self.next_id = self.next_id + 1;
            self.state = GameStates::Play;
            proof {
                assert(self@.events =~= old(self)@.events + seq![
                    SimEvent::StateChanged { from: old(self)@.state, to: GameStates::Play },
                    SimEvent::EntitySpawned { id: old(self)@.next_id, kind: Kind::Player },
                ]);
                assert(old(self)@.entities.len() == 0);
                assert(self@.entities =~= old(self)@.entities.push(
                    player_entity_spec(old(self)@.config, old(self)@.next_id),
                ));
                assert(self@.entities.drop_last() =~= old(self)@.entities);
                assert(player_count(self@.entities) == 1);
            }
        }
    }

    /// A collision signal raised during play ends the session in game
    /// over, despawning every entity on the way out; without a signal (or
    /// outside play) nothing happens.
    pub fn maybe_transit_to_game_over(&mut self)
        requires
            old(self)@.wf(),
        ensures
            final(self)@ == game_over_spec(old(self)@),
            final(self)@.wf(),
    {
        let in_play = match self.state {
            GameStates::Play => true,
            _ => false,
        };
        if self.collision_signal && in_play {
            self.collision_signal = false;
            self.events.push(
                SimEvent::StateChanged { from: GameStates::Play, to: GameStates::GameOver },
            );
            let removed = despawn_entities(&mut self.entities);
            push_despawn_events(&mut self.events, &removed);
            self.state = GameStates::GameOver;
            proof {
                assert(self@.events =~= old(self)@.events + seq![
                    SimEvent::StateChanged { from: GameStates::Play, to: GameStates::GameOver },
                ] + despawn_events(old(self)@.entities));
                assert(self@.entities =~= Seq::<Entity>::empty());
            }
        }
    }

    /// Advances the simulation by one tick of `elapsed` microseconds with
    /// the tick's input edges, in the fixed system order.
    pub fn tick(&mut self, input: InputSnapshot, elapsed: u64)
        requires
            old(self)@.wf(),
            elapsed <= MAX_TICK_MICROS,
            old(self)@.now + elapsed <= MAX_TIME_MICROS,
            old(self)@.next_id + 1 + old(self)@.obstacle_tiers.len()
                + old(self)@.background_tiers.len() <= u64::MAX,
        ensures
            final(self)@ == tick_spec(old(self)@, input, elapsed),
            final(self)@.wf(),
            final(self)@.now == old(self)@.now + elapsed,
            old(self)@.state is InsertCoin && input.just_pressed ==> final(self)@.state is Play
                && final(self)@.score == 0 && !final(self)@.collision_signal,
            old(self)@.state is GameOver && input.just_pressed ==> final(self)@.state is Play
                && final(self)@.score == 0,
            old(self)@.state is InsertCoin && !input.just_pressed
                ==> final(self)@.state is InsertCoin,
            old(self)@.state is GameOver && !input.just_pressed ==> final(self)@.state is GameOver,
            final(self)@.state is GameOver ==> !(old(self)@.state is InsertCoin),
    {
        self.now = self.now + elapsed;
        self.collision_signal = false;
        let ghost m0 = self@;
        let in_play = match self.state {
            GameStates::Play => true,
            _ => false,
        };
        if !in_play {
            self.maybe_transit_to_play_state(input.just_pressed);
        } else {
            // Kinematics: trigger edges, trajectory update, player height.
            let present = has_player_entity(&self.entities);
            if present {
                handle_jumping_state(
                    &mut self.jump,
                    input.just_pressed,
                    input.just_released,
                    self.now,
                );
                update_player_velocity(&mut self.jump, self.now);
                let y = update_player_transform(&self.jump, &self.config.jump);
                lift_player(&mut self.entities, y);
            }
            let ghost m1 = kinematics_spec(m0, input.just_pressed, input.just_released);
            proof {
                assert(self@.entities =~= m1.entities);
                assert(self@ == m1);
                assert(player_count(m1.entities) == 1);
                assert forall|i: int, j: int|
                    0 <= i < j < m1.entities.len() implies #[trigger] m1.entities[i].id
                    != #[trigger] m1.entities[j].id by {
                    assert(m0.entities[i].id != m0.entities[j].id);
                }
                assert forall|i: int| 0 <= i < m1.entities.len() implies #[trigger] m1.entities[i].id
                    < m1.next_id by {
                    assert(m0.entities[i].id < m0.next_id);
                }
            }
            // Spawning: obstacle tiers first, then background tiers.
            proof {
                lemma_fire_count_bounds(self@.obstacle_tiers, elapsed);
                lemma_fire_count_bounds(self@.background_tiers, elapsed);
            }
            let (obs, nid1) = tick_element_tiers(
                &mut self.obstacles.tiers,
                elapsed,
                &self.config,
                self.next_id,
                false,
            );
            append_entities(&mut self.entities, &obs);
            push_spawn_events(&mut self.events, &obs);
            proof {
                lemma_consecutive_ids_append(m1.entities, obs@, m1.next_id as int);
            }
            let (bg, nid2) = tick_element_tiers(
                &mut self.background.tiers,
                elapsed,
                &self.config,
                nid1,
                true,
            );
            append_entities(&mut self.entities, &bg);
            push_spawn_events(&mut self.events, &bg);
            self.next_id = nid2;
            let ghost m2 = spawn_phase_spec(m1, elapsed);
            proof {
                lemma_consecutive_ids_append(m1.entities + obs@, bg@, nid1 as int);
                lemma_player_count_append(m1.entities, obs@);
                lemma_player_count_append(m1.entities + obs@, bg@);
                lemma_player_count_zero(obs@);
                lemma_player_count_zero(bg@);
                assert(self@.entities =~= m2.entities);
                assert(self@.events =~= m2.events);
                assert(self@ == m2);
                assert forall|i: int| 0 <= i < m2.entities.len() implies #[trigger] m2.entities[i].wf()
                by {
                    if i < m1.entities.len() {
                        assert(m1.entities[i].wf());
                    } else if i < m1.entities.len() + obs@.len() {
                        assert(obs@[i - m1.entities.len()].wf());
                    } else {
                        assert(bg@[i - m1.entities.len() - obs@.len()].wf());
                    }
                }
            }
            // Lifecycle: movement, despawning past the left edge, scoring.
            proof {
                lemma_surviving_ids(self@.entities, elapsed, self@.config);
                lemma_player_count_surviving(self@.entities, elapsed, self@.config);
            }
            let removed = move_moving_elements(
                &mut self.entities,
                elapsed,
                &self.config,
                &mut self.score,
            );
            push_despawn_events(&mut self.events, &removed);
            let ghost m3 = lifecycle_spec(m2, elapsed);
            proof {
                assert(self@.events =~= m3.events);
                assert(self@ == m3);
                assert forall|i: int| 0 <= i < m3.entities.len() implies #[trigger] m3.entities[i].id
                    < m3.next_id by {
                    assert(has_entity_id(m2.entities, m3.entities[i].id));
                    let k = choose|k: int|
                        0 <= k < m2.entities.len() && #[trigger] m2.entities[k].id
                            == m3.entities[i].id;
                    assert(m2.entities[k].id < m2.next_id);
                }
            }
            // Collision detection at current-tick positions.
            self.collision_signal = detect_collisions(&self.entities);
            let ghost m4 = collision_phase_spec(m3);
            proof {
                assert(self@ == m4);
                assert(self@.wf());
            }
            // A collision ends the session.
            self.maybe_transit_to_game_over();
        }
    }
}

} // verus!
