//! Tests of the marker type, the hook registries, and the independence of
//! machine types sharing one entity.

use bevy_state_machine_lab::ActiveStateComponent;
use bevy_state_machine_lab::AfterTransitionResource;
use bevy_state_machine_lab::BeforeTransitionResource;
use bevy_state_machine_lab::EngineAction;
use bevy_state_machine_lab::EngineEvent;
use bevy_state_machine_lab::TransitionEdge;
use bevy_state_machine_lab::TransitionTick;

/// Machine-type marker of one state machine in these tests.
struct PlayerMachine;

/// Machine-type marker of a second, unrelated machine on the same entity.
struct DoorMachine;

#[test]
fn from_type_id_holds_identifier() {
    let marker = ActiveStateComponent::<PlayerMachine>::from_type_id(42);
    assert_eq!(marker.active_state_type_id, 42);
}

#[test]
fn register_appends_in_order() {
    let mut before = BeforeTransitionResource::<PlayerMachine>::new();
    assert_eq!(before.systems, vec![]);
    before.register(3);
    before.register(1);
    before.register(2);
    assert_eq!(before.systems, vec![3, 1, 2]);

    let mut after = AfterTransitionResource::<PlayerMachine>::new();
    after.register(7);
    assert_eq!(after.systems, vec![7]);
}

#[test]
fn snapshot_is_an_independent_copy() {
    let mut before = BeforeTransitionResource::<PlayerMachine>::new();
    before.register(10);
    before.register(11);
    let copy = before.snapshot();
    assert_eq!(copy, vec![10, 11]);
    before.register(12);
    // The copy does not see registrations made after it was taken.
    assert_eq!(copy, vec![10, 11]);
    assert_eq!(before.systems, vec![10, 11, 12]);
}

#[test]
fn before_and_after_registries_are_independent() {
    let mut before = BeforeTransitionResource::<PlayerMachine>::new();
    let after = AfterTransitionResource::<PlayerMachine>::new();
    before.register(10);
    assert_eq!(before.systems, vec![10]);
    assert_eq!(after.systems, vec![]);
}

/// Drives one full tick for the player machine over a single entity, reading
/// hook lists from the player registries, recording hook runs, and mutating
/// the player marker on request.
fn drive_player_tick(
    marker: &mut ActiveStateComponent<PlayerMachine>,
    before: &BeforeTransitionResource<PlayerMachine>,
    after: &AfterTransitionResource<PlayerMachine>,
    edge: TransitionEdge,
    entity: u64,
    calls: &mut Vec<u64>,
) {
    let snapshot = vec![(entity, marker.active_state_type_id)];
    let (mut tick, mut action) = TransitionTick::new(edge, snapshot);
    loop {
        let event = match action {
            EngineAction::RunCondition { .. } => EngineEvent::ConditionOutcome { passed: true },
            EngineAction::FetchBeforeHooks { .. } => {
                EngineEvent::BeforeHooks { systems: before.snapshot() }
            }
            EngineAction::RunBeforeHook { hook_system_id, .. } => {
                calls.push(hook_system_id);
                EngineEvent::HookDone
            }
            EngineAction::SetActiveState { next_state_type_id, .. } => {
                marker.active_state_type_id = next_state_type_id;
                EngineEvent::MarkerUpdated
            }
            EngineAction::FetchAfterHooks { .. } => {
                EngineEvent::AfterHooks { systems: after.snapshot() }
            }
            EngineAction::RunAfterHook { hook_system_id, .. } => {
                calls.push(hook_system_id);
                EngineEvent::HookDone
            }
            EngineAction::TickComplete => break,
        };
        action = tick.step(event);
    }
}

#[test]
fn independent_machine_types_on_one_entity() {
    let entity: u64 = 7;
    let mut player_marker = ActiveStateComponent::<PlayerMachine>::from_type_id(1);
    let door_marker = ActiveStateComponent::<DoorMachine>::from_type_id(5);

    let mut player_before = BeforeTransitionResource::<PlayerMachine>::new();
    let mut player_after = AfterTransitionResource::<PlayerMachine>::new();
    player_before.register(10);
    player_after.register(20);

    let mut door_before = BeforeTransitionResource::<DoorMachine>::new();
    let mut door_after = AfterTransitionResource::<DoorMachine>::new();
    door_before.register(50);
    door_after.register(60);

    let edge = TransitionEdge { condition_system_id: 99, next_state_type_id: 2 };
    let mut calls: Vec<u64> = Vec::new();
    drive_player_tick(&mut player_marker, &player_before, &player_after, edge, entity, &mut calls);

    // The player machine transitioned and ran exactly its own hooks.
    assert_eq!(player_marker.active_state_type_id, 2);
    assert_eq!(calls, vec![10, 20]);
    // The door machine on the same entity is untouched: marker and
    // registries are exactly as registered.
    assert_eq!(door_marker.active_state_type_id, 5);
    assert_eq!(door_before.systems, vec![50]);
    assert_eq!(door_after.systems, vec![60]);
}
