//! Behavioral tests of the transition engine, driven by a small in-memory
//! host: markers and plain components live in local tables, hooks are table
//! entries describing a world mutation, and every hook run, marker mutation
//! and payload is recorded.

use bevy_state_machine_lab::EngineAction;
use bevy_state_machine_lab::EngineEvent;
use bevy_state_machine_lab::TransitionEdge;
use bevy_state_machine_lab::TransitionEventSystemIn;
use bevy_state_machine_lab::TransitionTick;
use std::collections::HashMap;

/// What a registered hook does to the host world when it runs.
#[derive(Clone, Copy)]
enum HookBehavior {
    /// Record the call and do nothing else.
    Log,
    /// Remove the active-state marker of the given entity.
    RemoveMarkerOf(u64),
    /// Remove a plain state component from the payload's entity.
    RemoveStateComponent(u64),
    /// Insert a plain state component on the payload's entity.
    InsertStateComponent(u64),
    /// Append a hook handle to the live before registry.
    AppendBeforeHook(u64),
}

/// One recorded engine-driven call, in execution order.
#[derive(Clone, Copy, Debug, PartialEq, Eq)]
enum LogEntry {
    Before(u64, TransitionEventSystemIn),
    Mutate(u64, u64),
    After(u64, TransitionEventSystemIn),
}

struct MiniWorld {
    /// entity -> active state identifier (one machine type).
    markers: HashMap<u64, u64>,
    /// (entity, component tag) pairs for plain state components.
    components: Vec<(u64, u64)>,
    /// Live before-hook registry (copied out per phase, per entity).
    before: Vec<u64>,
    /// Live after-hook registry.
    after: Vec<u64>,
    /// hook handle -> behavior.
    behaviors: HashMap<u64, HookBehavior>,
    /// Condition callable shared by every entity.
    condition: fn(u64) -> bool,
    /// Recorded call sequence.
    log: Vec<LogEntry>,
}

impl MiniWorld {
    fn new(condition: fn(u64) -> bool) -> MiniWorld {
        MiniWorld {
            markers: HashMap::new(),
            components: Vec::new(),
            before: Vec::new(),
            after: Vec::new(),
            behaviors: HashMap::new(),
            condition,
            log: Vec::new(),
        }
    }

    fn apply_hook(&mut self, hook: u64, input: TransitionEventSystemIn) {
        match self.behaviors.get(&hook).copied() {
            None | Some(HookBehavior::Log) => {}
            Some(HookBehavior::RemoveMarkerOf(entity)) => {
                self.markers.remove(&entity);
            }
            Some(HookBehavior::RemoveStateComponent(tag)) => {
                self.components.retain(|&(e, c)| !(e == input.machine_entity && c == tag));
            }
            Some(HookBehavior::InsertStateComponent(tag)) => {
                self.components.push((input.machine_entity, tag));
            }
            Some(HookBehavior::AppendBeforeHook(new_hook)) => {
                self.before.push(new_hook);
            }
        }
    }

    /// The tick-start snapshot: every entity whose marker equals `state`,
    /// in ascending entity order (a stable stand-in for the host's iteration
    /// order).
    fn snapshot_in_state(&self, state: u64) -> Vec<(u64, u64)> {
        let mut pairs: Vec<(u64, u64)> =
            self.markers.iter().filter(|&(_, &s)| s == state).map(|(&e, &s)| (e, s)).collect();
        pairs.sort();
        pairs
    }

    /// Drives one full engine tick over the given snapshot: performs each
    /// requested action against this world and answers with the matching
    /// event, until the tick completes.
    fn run_tick(&mut self, edge: TransitionEdge, snapshot: Vec<(u64, u64)>) {
        let (mut tick, mut action) = TransitionTick::new(edge, snapshot);
        loop {
            let event = match action {
                EngineAction::RunCondition { machine_entity, .. } => {
                    if self.markers.contains_key(&machine_entity) {
                        EngineEvent::ConditionOutcome { passed: (self.condition)(machine_entity) }
                    } else {
                        EngineEvent::EntityVanished
                    }
                }
                EngineAction::FetchBeforeHooks { .. } => {
                    EngineEvent::BeforeHooks { systems: self.before.clone() }
                }
                EngineAction::RunBeforeHook { hook_system_id, input } => {
                    self.log.push(LogEntry::Before(hook_system_id, input));
                    self.apply_hook(hook_system_id, input);
                    EngineEvent::HookDone
                }
                EngineAction::SetActiveState { machine_entity, next_state_type_id } => {
                    if let Some(slot) = self.markers.get_mut(&machine_entity) {
                        *slot = next_state_type_id;
                        self.log.push(LogEntry::Mutate(machine_entity, next_state_type_id));
                        EngineEvent::MarkerUpdated
                    } else {
                        EngineEvent::MarkerMissing
                    }
                }
                EngineAction::FetchAfterHooks { .. } => {
                    EngineEvent::AfterHooks { systems: self.after.clone() }
                }
                EngineAction::RunAfterHook { hook_system_id, input } => {
                    self.log.push(LogEntry::After(hook_system_id, input));
                    self.apply_hook(hook_system_id, input);
                    EngineEvent::HookDone
                }
                EngineAction::TickComplete => break,
            };
            action = tick.step(event);
        }
    }
}

fn always(_entity: u64) -> bool {
    true
}

fn never(_entity: u64) -> bool {
    false
}

const INITIAL: u64 = 1;
const IDLE: u64 = 2;

#[test]
fn transition_runs_hooks_in_order() {
    let mut world = MiniWorld::new(always);
    world.markers.insert(7, INITIAL);
    world.before = vec![10, 11];
    world.after = vec![20, 21];
    for h in [10u64, 11, 20, 21] {
        world.behaviors.insert(h, HookBehavior::Log);
    }
    let edge = TransitionEdge { condition_system_id: 99, next_state_type_id: IDLE };
    let snapshot = world.snapshot_in_state(INITIAL);
    world.run_tick(edge, snapshot);

    let payload =
        TransitionEventSystemIn { machine_entity: 7, prev_state_id: INITIAL, next_state_id: IDLE };
    assert_eq!(
        world.log,
        vec![
            LogEntry::Before(10, payload),
            LogEntry::Before(11, payload),
            LogEntry::Mutate(7, IDLE),
            LogEntry::After(20, payload),
            LogEntry::After(21, payload),
        ]
    );
    assert_eq!(world.markers[&7], IDLE);
}

#[test]
fn no_op_when_condition_false() {
    let mut world = MiniWorld::new(never);
    world.markers.insert(1, INITIAL);
    world.markers.insert(2, INITIAL);
    world.before = vec![10];
    world.after = vec![20];
    world.behaviors.insert(10, HookBehavior::Log);
    world.behaviors.insert(20, HookBehavior::Log);
    let edge = TransitionEdge { condition_system_id: 99, next_state_type_id: IDLE };

    for _ in 0..3 {
        let snapshot = world.snapshot_in_state(INITIAL);
        world.run_tick(edge, snapshot);
        assert_eq!(world.markers[&1], INITIAL);
        assert_eq!(world.markers[&2], INITIAL);
        assert_eq!(world.log, vec![]);
    }
}

#[test]
fn payload_prev_next_equal_for_all_hooks_of_one_attempt() {
    let mut world = MiniWorld::new(always);
    world.markers.insert(1, 5);
    world.markers.insert(2, 6);
    world.before = vec![10];
    world.after = vec![20];
    world.behaviors.insert(10, HookBehavior::Log);
    world.behaviors.insert(20, HookBehavior::Log);
    let edge = TransitionEdge { condition_system_id: 99, next_state_type_id: 9 };
    world.run_tick(edge, vec![(1, 5), (2, 6)]);

    let p1 = TransitionEventSystemIn { machine_entity: 1, prev_state_id: 5, next_state_id: 9 };
    let p2 = TransitionEventSystemIn { machine_entity: 2, prev_state_id: 6, next_state_id: 9 };
    assert_eq!(
        world.log,
        vec![
            LogEntry::Before(10, p1),
            LogEntry::Mutate(1, 9),
            LogEntry::After(20, p1),
            LogEntry::Before(10, p2),
            LogEntry::Mutate(2, 9),
            LogEntry::After(20, p2),
        ]
    );
    assert_eq!(world.markers[&1], 9);
    assert_eq!(world.markers[&2], 9);
}

#[test]
fn entities_process_without_interleaving() {
    let mut world = MiniWorld::new(always);
    world.markers.insert(1, INITIAL);
    world.markers.insert(2, INITIAL);
    world.before = vec![10, 11];
    world.after = vec![20, 21];
    for h in [10u64, 11, 20, 21] {
        world.behaviors.insert(h, HookBehavior::Log);
    }
    let edge = TransitionEdge { condition_system_id: 99, next_state_type_id: IDLE };
    let snapshot = world.snapshot_in_state(INITIAL);
    world.run_tick(edge, snapshot);

    // Entity 1's whole before/mutate/after block precedes entity 2's.
    let entity_of = |entry: &LogEntry| match entry {
        LogEntry::Before(_, p) => p.machine_entity,
        LogEntry::Mutate(e, _) => *e,
        LogEntry::After(_, p) => p.machine_entity,
    };
    assert_eq!(world.log.len(), 10);
    assert!(world.log[..5].iter().all(|entry| entity_of(entry) == 1));
    assert!(world.log[5..].iter().all(|entry| entity_of(entry) == 2));
}

#[test]
fn scenario_initial_to_idle() {
    const INITIAL_COMPONENT: u64 = 100;
    const IDLE_COMPONENT: u64 = 200;
    const LOG_HOOK: u64 = 10;
    let mut world = MiniWorld::new(always);
    world.markers.insert(7, INITIAL);
    world.components.push((7, INITIAL_COMPONENT));
    world.before = vec![LOG_HOOK];
    world.after = vec![LOG_HOOK, 30, 31];
    world.behaviors.insert(LOG_HOOK, HookBehavior::Log);
    world.behaviors.insert(30, HookBehavior::RemoveStateComponent(INITIAL_COMPONENT));
    world.behaviors.insert(31, HookBehavior::InsertStateComponent(IDLE_COMPONENT));
    let edge = TransitionEdge { condition_system_id: 99, next_state_type_id: IDLE };
    let snapshot = world.snapshot_in_state(INITIAL);
    world.run_tick(edge, snapshot);

    assert_eq!(world.markers[&7], IDLE);
    assert_eq!(world.components, vec![(7, IDLE_COMPONENT)]);
    let payload =
        TransitionEventSystemIn { machine_entity: 7, prev_state_id: INITIAL, next_state_id: IDLE };
    let log_calls: Vec<&LogEntry> = world
        .log
        .iter()
        .filter(|entry| {
            matches!(entry, LogEntry::Before(LOG_HOOK, _) | LogEntry::After(LOG_HOOK, _))
        })
        .collect();
    assert_eq!(log_calls.len(), 2);
    assert_eq!(*log_calls[0], LogEntry::Before(LOG_HOOK, payload));
    assert_eq!(*log_calls[1], LogEntry::After(LOG_HOOK, payload));
}

#[test]
fn before_hook_removing_marker_skips_after_phase() {
    let mut world = MiniWorld::new(always);
    world.markers.insert(1, INITIAL);
    world.markers.insert(2, INITIAL);
    // Hook 10 removes entity 1's marker, whichever entity it runs for.
    world.before = vec![10];
    world.after = vec![20];
    world.behaviors.insert(10, HookBehavior::RemoveMarkerOf(1));
    world.behaviors.insert(20, HookBehavior::Log);
    let edge = TransitionEdge { condition_system_id: 99, next_state_type_id: IDLE };
    let snapshot = world.snapshot_in_state(INITIAL);
    world.run_tick(edge, snapshot);

    // Entity 1: before hook ran, then the mutation found no marker — no
    // mutation, no after hooks, and the tick went on. Entity 2: untouched by
    // the removal, transitioned in full.
    let p1 = TransitionEventSystemIn { machine_entity: 1, prev_state_id: INITIAL, next_state_id: IDLE };
    let p2 = TransitionEventSystemIn { machine_entity: 2, prev_state_id: INITIAL, next_state_id: IDLE };
    assert_eq!(
        world.log,
        vec![
            LogEntry::Before(10, p1),
            LogEntry::Before(10, p2),
            LogEntry::Mutate(2, IDLE),
            LogEntry::After(20, p2),
        ]
    );
    assert!(!world.markers.contains_key(&1));
    assert_eq!(world.markers[&2], IDLE);
}

#[test]
fn vanished_entity_is_skipped() {
    let mut world = MiniWorld::new(always);
    world.markers.insert(2, INITIAL);
    world.before = vec![10];
    world.after = vec![20];
    world.behaviors.insert(10, HookBehavior::Log);
    world.behaviors.insert(20, HookBehavior::Log);
    let edge = TransitionEdge { condition_system_id: 99, next_state_type_id: IDLE };
    // Entity 1 was snapshotted but despawned before its turn.
    world.run_tick(edge, vec![(1, INITIAL), (2, INITIAL)]);

    let p2 = TransitionEventSystemIn { machine_entity: 2, prev_state_id: INITIAL, next_state_id: IDLE };
    assert_eq!(
        world.log,
        vec![LogEntry::Before(10, p2), LogEntry::Mutate(2, IDLE), LogEntry::After(20, p2)]
    );
    assert_eq!(world.markers[&2], IDLE);
}

#[test]
fn empty_snapshot_completes_immediately() {
    let edge = TransitionEdge { condition_system_id: 99, next_state_type_id: IDLE };
    let (_, action) = TransitionTick::new(edge, vec![]);
    assert_eq!(action, EngineAction::TickComplete);
}

#[test]
fn empty_hook_lists_still_transition() {
    let mut world = MiniWorld::new(always);
    world.markers.insert(7, INITIAL);
    let edge = TransitionEdge { condition_system_id: 99, next_state_type_id: IDLE };
    let snapshot = world.snapshot_in_state(INITIAL);
    world.run_tick(edge, snapshot);

    assert_eq!(world.log, vec![LogEntry::Mutate(7, IDLE)]);
    assert_eq!(world.markers[&7], IDLE);
}

#[test]
fn registry_growth_during_tick_respects_phase_snapshots() {
    let mut world = MiniWorld::new(always);
    world.markers.insert(1, INITIAL);
    world.markers.insert(2, INITIAL);
    // Hook 10 appends hook 11 to the live before registry while running.
    world.before = vec![10];
    world.behaviors.insert(10, HookBehavior::AppendBeforeHook(11));
    world.behaviors.insert(11, HookBehavior::Log);
    let edge = TransitionEdge { condition_system_id: 99, next_state_type_id: IDLE };
    let snapshot = world.snapshot_in_state(INITIAL);
    world.run_tick(edge, snapshot);

    // Entity 1's phase used the copy taken before hook 10 grew the registry;
    // entity 2's phase took a fresh copy and saw both hooks.
    let p1 = TransitionEventSystemIn { machine_entity: 1, prev_state_id: INITIAL, next_state_id: IDLE };
    let p2 = TransitionEventSystemIn { machine_entity: 2, prev_state_id: INITIAL, next_state_id: IDLE };
    assert_eq!(
        world.log,
        vec![
            LogEntry::Before(10, p1),
            LogEntry::Mutate(1, IDLE),
            LogEntry::Before(10, p2),
            LogEntry::Before(11, p2),
            LogEntry::Mutate(2, IDLE),
        ]
    );
}
