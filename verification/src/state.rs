//! Per-entity state data: the active-state marker and the payload handed to
//! transition hooks.

use core::marker::PhantomData;
use vstd::prelude::*;

verus! {

/// Payload constructed once per entity per transition attempt and passed by
/// value to every hook of that attempt. `prev_state_id` is the identifier
/// captured before the marker mutates; `next_state_id` is the configured
/// target. Both are identical for the before and the after hooks of one
/// attempt.
#[derive(Clone, Copy, Debug, PartialEq, Eq, Structural)]
pub struct TransitionEventSystemIn {
    pub machine_entity: u64,
    pub prev_state_id: u64,
    pub next_state_id: u64,
}

/// Per-entity, per-machine-type record of the entity's current state
/// identifier. The marker is a plain value cell: it does not validate that a
/// new identifier is a legal successor — legality lives entirely in which
/// transition edges exist and in their conditions.
pub struct ActiveStateComponent<TMachineTypeMarker: Send + Sync> {
    pub _marker: PhantomData<TMachineTypeMarker>,
    pub active_state_type_id: u64,
}

impl<TMachineTypeMarker: Send + Sync> ActiveStateComponent<TMachineTypeMarker> {
    /// Wraps a state identifier as a fresh marker value.
    pub fn from_type_id(active_state_type_id: u64) -> (r: ActiveStateComponent<
        TMachineTypeMarker,
    >)
        ensures
            r.active_state_type_id == active_state_type_id,
    {
        ActiveStateComponent { _marker: PhantomData, active_state_type_id }
    }
}

} // verus!
