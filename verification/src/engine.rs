//! The transition execution engine.
//!
//! One engine instance embodies one transition edge: a condition handle and a
//! target state identifier, fixed at construction. Once per tick the host
//! snapshots the candidate entities (each with the state identifier its marker
//! held at snapshot time) and drives a [`TransitionTick`] to completion: the
//! engine answers each host event with the next action the host must perform.
//!
//! Per entity, in snapshot order, the protocol is: evaluate the condition; if
//! it holds, fetch a snapshot of the before registry, run each before hook in
//! order, commit the target identifier into the entity's marker, fetch a
//! snapshot of the after registry, and run each after hook in order. Every
//! hook of one attempt receives the same payload: the state identifier
//! captured before the mutation and the configured target. A condition that
//! fails, an entity that vanished, or a marker that a before hook removed
//! skips the rest of that entity's attempt only; the remaining snapshot
//! entries still process.

use crate::state::TransitionEventSystemIn;
use vstd::prelude::*;

verus! {

/// Configuration of one directed transition rule, fixed at engine
/// construction: the handle of the condition callable and the state
/// identifier committed on success. The source filter is the host's
/// responsibility: it decides which entities enter the tick snapshot.
#[derive(Clone, Copy, Debug, PartialEq, Eq, Structural)]
pub struct TransitionEdge {
    pub condition_system_id: u64,
    pub next_state_type_id: u64,
}

/// What the engine asks the host to perform next. Every variant except
/// `TickComplete` expects an answering [`EngineEvent`] on the next step.
#[derive(Clone, Copy, Debug, PartialEq, Eq, Structural)]
pub enum EngineAction {
    /// Run the condition callable with the entity and report its verdict.
    RunCondition { condition_system_id: u64, machine_entity: u64 },
    /// Copy the current before-hook registry of this machine type out and
    /// hand the copy back.
    FetchBeforeHooks { machine_entity: u64 },
    /// Run one before hook with the given payload.
    RunBeforeHook { hook_system_id: u64, input: TransitionEventSystemIn },
    /// Overwrite the entity's active-state marker with the target identifier,
    /// and report whether the marker was still present.
    SetActiveState { machine_entity: u64, next_state_type_id: u64 },
    /// Copy the current after-hook registry of this machine type out and
    /// hand the copy back.
    FetchAfterHooks { machine_entity: u64 },
    /// Run one after hook with the given payload.
    RunAfterHook { hook_system_id: u64, input: TransitionEventSystemIn },
    /// The tick is over: every snapshot entry has been handled.
    TickComplete,
}

/// The host's answer to the engine's last action.
#[derive(Clone, Debug)]
pub enum EngineEvent {
    /// The condition callable ran and returned this verdict.
    ConditionOutcome { passed: bool },
    /// The condition could not run because the entity no longer exists: a
    /// lifecycle race, recovered by skipping this entity alone.
    EntityVanished,
    /// The requested copy of the before-hook registry.
    BeforeHooks { systems: Vec<u64> },
    /// The last requested hook ran to completion.
    HookDone,
    /// The marker was present and now holds the target identifier.
    MarkerUpdated,
    /// The marker was gone (a before hook removed it): the attempt's after
    /// phase is skipped and the tick moves on.
    MarkerMissing,
    /// The requested copy of the after-hook registry.
    AfterHooks { systems: Vec<u64> },
}

/// Where a tick stands between two steps: which answer it is waiting for.
#[derive(Clone, Copy, Debug, PartialEq, Eq, Structural)]
pub enum EnginePhase {
    /// A `RunCondition` action is out for the current entity.
    AwaitingCondition,
    /// A `FetchBeforeHooks` action is out.
    AwaitingBeforeHooks,
    /// A `RunBeforeHook` action is out for the hook at `hook_index`.
    RunningBeforeHooks,
    /// A `SetActiveState` action is out.
    AwaitingMarkerUpdate,
    /// A `FetchAfterHooks` action is out.
    AwaitingAfterHooks,
    /// A `RunAfterHook` action is out for the hook at `hook_index`.
    RunningAfterHooks,
    /// A `TickComplete` action was emitted; the tick accepts no more events.
    Complete,
}

/// One tick of one engine instance: the entity snapshot taken at tick start
/// and a cursor over it. The host constructs it with [`TransitionTick::new`],
/// performs each returned action, and answers through [`TransitionTick::step`]
/// until `TickComplete` comes back.
pub struct TransitionTick {
    /// The edge this engine instance was configured with; never mutated.
    pub edge: TransitionEdge,
    /// Pairs of entity and the state identifier its marker held at snapshot
    /// time, in the host's iteration order; never mutated during the tick.
    pub snapshot: Vec<(u64, u64)>,
    /// Index into `snapshot` of the entity currently being handled.
    pub entity_index: usize,
    /// Which answer the tick is waiting for.
    pub phase: EnginePhase,
    /// The registry copy the current hook phase iterates, as the host handed
    /// it over; untouched by later registry mutation.
    pub phase_hooks: Vec<u64>,
    /// Index into `phase_hooks` of the hook whose run was requested last.
    pub hook_index: usize,
}

impl TransitionTick {
    /// The entity of the snapshot entry under the cursor.
    pub open spec fn current_entity(self) -> u64 {
        self.snapshot@[self.entity_index as int].0
    }

    /// The state identifier the current entity's marker held at snapshot
    /// time: the `prev` of this attempt's payload.
    pub open spec fn current_prev_state(self) -> u64 {
        self.snapshot@[self.entity_index as int].1
    }

    /// The one payload every hook of the current attempt receives.
    pub open spec fn current_payload(self) -> TransitionEventSystemIn {
        TransitionEventSystemIn {
            machine_entity: self.current_entity(),
            prev_state_id: self.current_prev_state(),
            next_state_id: self.edge.next_state_type_id,
        }
    }

    /// Well-formedness: the cursor sits inside the snapshot exactly while the
    /// tick is not complete, and a running hook phase points at a real hook.
    pub open spec fn wf(self) -> bool {
        &&& self.entity_index <= self.snapshot@.len()
        &&& (self.phase is Complete <==> self.entity_index == self.snapshot@.len())
        &&& ((self.phase is RunningBeforeHooks || self.phase is RunningAfterHooks)
            ==> self.hook_index < self.phase_hooks@.len())
    }

    /// Which events answer the outstanding action of each phase.
    pub open spec fn expects(self, event: EngineEvent) -> bool {
        match self.phase {
            EnginePhase::AwaitingCondition => event is ConditionOutcome || event is EntityVanished,
            EnginePhase::AwaitingBeforeHooks => event is BeforeHooks,
            EnginePhase::RunningBeforeHooks => event is HookDone,
            EnginePhase::AwaitingMarkerUpdate => event is MarkerUpdated || event is MarkerMissing,
            EnginePhase::AwaitingAfterHooks => event is AfterHooks,
            EnginePhase::RunningAfterHooks => event is HookDone,
            EnginePhase::Complete => false,
        }
    }

    /// The state and action that move the cursor past the current entity:
    /// either the condition request for the next snapshot entry, or tick
    /// completion.
    pub open spec fn advance_spec(s: TransitionTick) -> (TransitionTick, EngineAction) {
        let next = TransitionTick {
            entity_index: (s.entity_index + 1) as usize,
            phase: if s.entity_index + 1 == s.snapshot@.len() {
                EnginePhase::Complete
            } else {
                EnginePhase::AwaitingCondition
            },
            ..s
        };
        let action = if s.entity_index + 1 == s.snapshot@.len() {
            EngineAction::TickComplete
        } else {
            EngineAction::RunCondition {
                condition_system_id: s.edge.condition_system_id,
                machine_entity: next.current_entity(),
            }
        };
        (next, action)
    }

    /// The full transition relation of the step machine: from a state and the
    /// host's answer to the successor state and the next requested action.
    /// An event no phase expects leaves the state unchanged and answers
    /// `TickComplete`; [`TransitionTick::step`] rules such events out.
    pub open spec fn step_spec(s: TransitionTick, event: EngineEvent) -> (
        TransitionTick,
        EngineAction,
    ) {
        match s.phase {
            EnginePhase::AwaitingCondition => match event {
                EngineEvent::ConditionOutcome { passed } => {
                    if passed {
                        (
                            TransitionTick { phase: EnginePhase::AwaitingBeforeHooks, ..s },
                            EngineAction::FetchBeforeHooks { machine_entity: s.current_entity() },
                        )
                    } else {
                        Self::advance_spec(s)
                    }
                },
                EngineEvent::EntityVanished => Self::advance_spec(s),
                _ => (s, EngineAction::TickComplete),
            },
            EnginePhase::AwaitingBeforeHooks => match event {
                EngineEvent::BeforeHooks { systems } => {
                    let s2 = TransitionTick { phase_hooks: systems, hook_index: 0, ..s };
                    if systems@.len() == 0 {
                        (
                            TransitionTick { phase: EnginePhase::AwaitingMarkerUpdate, ..s2 },
                            EngineAction::SetActiveState {
                                machine_entity: s.current_entity(),
                                next_state_type_id: s.edge.next_state_type_id,
                            },
                        )
                    } else {
                        (
                            TransitionTick { phase: EnginePhase::RunningBeforeHooks, ..s2 },
                            EngineAction::RunBeforeHook {
                                hook_system_id: systems@[0],
                                input: s.current_payload(),
                            },
                        )
                    }
                },
                _ => (s, EngineAction::TickComplete),
            },
            EnginePhase::RunningBeforeHooks => match event {
                EngineEvent::HookDone => {
                    let s2 = TransitionTick { hook_index: (s.hook_index + 1) as usize, ..s };
                    if s.hook_index + 1 == s.phase_hooks@.len() {
                        (
                            TransitionTick { phase: EnginePhase::AwaitingMarkerUpdate, ..s2 },
                            EngineAction::SetActiveState {
                                machine_entity: s.current_entity(),
                                next_state_type_id: s.edge.next_state_type_id,
                            },
                        )
                    } else {
                        (
                            s2,
                            EngineAction::RunBeforeHook {
                                hook_system_id: s.phase_hooks@[s.hook_index + 1],
                                input: s.current_payload(),
                            },
                        )
                    }
                },
                _ => (s, EngineAction::TickComplete),
            },
            EnginePhase::AwaitingMarkerUpdate => match event {
                EngineEvent::MarkerUpdated => (
                    TransitionTick { phase: EnginePhase::AwaitingAfterHooks, ..s },
                    EngineAction::FetchAfterHooks { machine_entity: s.current_entity() },
                ),
                EngineEvent::MarkerMissing => Self::advance_spec(s),
                _ => (s, EngineAction::TickComplete),
            },
            EnginePhase::AwaitingAfterHooks => match event {
                EngineEvent::AfterHooks { systems } => {
                    let s2 = TransitionTick { phase_hooks: systems, hook_index: 0, ..s };
                    if systems@.len() == 0 {
                        Self::advance_spec(s2)
                    } else {
                        (
                            TransitionTick { phase: EnginePhase::RunningAfterHooks, ..s2 },
                            EngineAction::RunAfterHook {
                                hook_system_id: systems@[0],
                                input: s.current_payload(),
                            },
                        )
                    }
                },
                _ => (s, EngineAction::TickComplete),
            },
            EnginePhase::RunningAfterHooks => match event {
                EngineEvent::HookDone => {
                    let s2 = TransitionTick { hook_index: (s.hook_index + 1) as usize, ..s };
                    if s.hook_index + 1 == s.phase_hooks@.len() {
                        Self::advance_spec(s2)
                    } else {
                        (
                            s2,
                            EngineAction::RunAfterHook {
                                hook_system_id: s.phase_hooks@[s.hook_index + 1],
                                input: s.current_payload(),
                            },
                        )
                    }
                },
                _ => (s, EngineAction::TickComplete),
            },
            EnginePhase::Complete => (s, EngineAction::TickComplete),
        }
    }

    /// The state reached from `s` after answering each event of `events` in
    /// turn, as [`TransitionTick::step_spec`] prescribes.
    pub open spec fn run_state(s: TransitionTick, events: Seq<EngineEvent>) -> TransitionTick
        decreases events.len(),
    {
        if events.len() == 0 {
            s
        } else {
            Self::run_state(Self::step_spec(s, events[0]).0, events.drop_first())
        }
    }

    /// The actions the engine emits, in order, while the events of `events`
    /// are answered from state `s`.
    pub open spec fn run_actions(s: TransitionTick, events: Seq<EngineEvent>) -> Seq<
        EngineAction,
    >
        decreases events.len(),
    {
        if events.len() == 0 {
            Seq::empty()
        } else {
            seq![Self::step_spec(s, events[0]).1] + Self::run_actions(
                Self::step_spec(s, events[0]).0,
                events.drop_first(),
            )
        }
    }

    /// Starts a tick over a snapshot of candidate entities. Returns the tick
    /// state and the first action: the condition request for the first entry,
    /// or `TickComplete` on an empty snapshot.
    pub fn new(edge: TransitionEdge, snapshot: Vec<(u64, u64)>) -> (r: (
        TransitionTick,
        EngineAction,
    ))
        ensures
            r.0.wf(),
            r.0.edge == edge,
            r.0.snapshot == snapshot,
            r.0.entity_index == 0,
            r.0.phase_hooks@ == Seq::<u64>::empty(),
            r.0.hook_index == 0,
            snapshot@.len() == 0 ==> r.0.phase is Complete && r.1 == EngineAction::TickComplete,
            snapshot@.len() > 0 ==> r.0.phase is AwaitingCondition && r.1
                == (EngineAction::RunCondition {
                condition_system_id: edge.condition_system_id,
                machine_entity: snapshot@[0].0,
            }),
    {
        if snapshot.len() == 0 {
            let tick = TransitionTick {
                edge,
                snapshot,
                entity_index: 0,
                phase: EnginePhase::Complete,
                phase_hooks: Vec::new(),
                hook_index: 0,
            };
            (tick, EngineAction::TickComplete)
        } else {
            let machine_entity = snapshot[0].0;
            let tick = TransitionTick {
                edge,
                snapshot,
                entity_index: 0,
                phase: EnginePhase::AwaitingCondition,
                phase_hooks: Vec::new(),
                hook_index: 0,
            };
            let action = EngineAction::RunCondition {
                condition_system_id: edge.condition_system_id,
                machine_entity,
            };
            (tick, action)
        }
    }

    /// Consumes the host's answer to the outstanding action and returns the
    /// next action, exactly as [`TransitionTick::step_spec`] prescribes.
    pub fn step(&mut self, event: EngineEvent) -> (action: EngineAction)
        requires
            old(self).wf(),
            old(self).expects(event),
        ensures
            *final(self) == Self::step_spec(*old(self), event).0,
            action == Self::step_spec(*old(self), event).1,
            final(self).wf(),
    {
        match self.phase {
            EnginePhase::AwaitingCondition => match event {
                EngineEvent::ConditionOutcome { passed } => {
                    if passed {
                        self.phase = EnginePhase::AwaitingBeforeHooks;
                        EngineAction::FetchBeforeHooks {
                            machine_entity: self.snapshot[self.entity_index].0,
                        }
                    } else {
                        self.advance()
                    }
                },
                _ => self.advance(),
            },
            EnginePhase::AwaitingBeforeHooks => match event {
                EngineEvent::BeforeHooks { systems } => {
                    self.phase_hooks = systems;
                    self.hook_index = 0;
                    if self.phase_hooks.len() == 0 {
                        self.phase = EnginePhase::AwaitingMarkerUpdate;
                        EngineAction::SetActiveState {
                            machine_entity: self.snapshot[self.entity_index].0,
                            next_state_type_id: self.edge.next_state_type_id,
                        }
                    } else {
                        self.phase = EnginePhase::RunningBeforeHooks;
                        EngineAction::RunBeforeHook {
                            hook_system_id: self.phase_hooks[0],
                            input: self.payload(),
                        }
                    }
                },
                _ => EngineAction::TickComplete,
            },
            EnginePhase::RunningBeforeHooks => {
                let hook_count = self.phase_hooks.len();
                self.hook_index = self.hook_index + 1;
                if self.hook_index == hook_count {
                    self.phase = EnginePhase::AwaitingMarkerUpdate;
                    EngineAction::SetActiveState {
                        machine_entity: self.snapshot[self.entity_index].0,
                        next_state_type_id: self.edge.next_state_type_id,
                    }
                } else {
                    EngineAction::RunBeforeHook {
                        hook_system_id: self.phase_hooks[self.hook_index],
                        input: self.payload(),
                    }
                }
            },
            EnginePhase::AwaitingMarkerUpdate => match event {
                EngineEvent::MarkerUpdated => {
                    self.phase = EnginePhase::AwaitingAfterHooks;
                    EngineAction::FetchAfterHooks {
                        machine_entity: self.snapshot[self.entity_index].0,
                    }
                },
                _ => self.advance(),
            },
            EnginePhase::AwaitingAfterHooks => match event {
                EngineEvent::AfterHooks { systems } => {
                    self.phase_hooks = systems;
                    self.hook_index = 0;
                    if self.phase_hooks.len() == 0 {
                        self.advance()
                    } else {
                        self.phase = EnginePhase::RunningAfterHooks;
                        EngineAction::RunAfterHook {
                            hook_system_id: self.phase_hooks[0],
                            input: self.payload(),
                        }
                    }
                },
                _ => EngineAction::TickComplete,
            },
            EnginePhase::RunningAfterHooks => {
                let hook_count = self.phase_hooks.len();
                self.hook_index = self.hook_index + 1;
                if self.hook_index == hook_count {
                    self.advance()
                } else {
                    EngineAction::RunAfterHook {
                        hook_system_id: self.phase_hooks[self.hook_index],
                        input: self.payload(),
                    }
                }
            },
            EnginePhase::Complete => EngineAction::TickComplete,
        }
    }

    /// Builds the current attempt's payload.
    fn payload(&self) -> (r: TransitionEventSystemIn)
        requires
            self.entity_index < self.snapshot@.len(),
        ensures
            r == self.current_payload(),
    {
        TransitionEventSystemIn {
            machine_entity: self.snapshot[self.entity_index].0,
            prev_state_id: self.snapshot[self.entity_index].1,
            next_state_id: self.edge.next_state_type_id,
        }
    }

    /// Moves the cursor past the current entity.
    fn advance(&mut self) -> (action: EngineAction)
        requires
            old(self).entity_index < old(self).snapshot@.len(),
        ensures
            *final(self) == Self::advance_spec(*old(self)).0,
            action == Self::advance_spec(*old(self)).1,
            old(self).snapshot@.len() <= usize::MAX,
    {
        let entity_count = self.snapshot.len();
        self.entity_index = self.entity_index + 1;
        if self.entity_index == entity_count {
            self.phase = EnginePhase::Complete;
            EngineAction::TickComplete
        } else {
            self.phase = EnginePhase::AwaitingCondition;
            EngineAction::RunCondition {
                condition_system_id: self.edge.condition_system_id,
                machine_entity: self.snapshot[self.entity_index].0,
            }
        }
    }
}

} // verus!
