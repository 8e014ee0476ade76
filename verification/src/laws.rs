//! Laws of the transition engine, proved over the step machine's semantics
//! ([`TransitionTick::step_spec`] and the derived run functions).
//!
//! The statements quantify over arbitrary well-formed tick states, hook lists
//! and payload values; they are what the engine guarantees to any host that
//! answers each action with a matching event.

use crate::engine::EngineAction;
use crate::engine::EngineEvent;
use crate::engine::EnginePhase;
use crate::engine::TransitionTick;
use crate::state::TransitionEventSystemIn;
use vstd::prelude::*;

verus! {

/// An event reporting that the current entity does not transition this tick:
/// the condition declined it, or the entity vanished before the condition
/// could run.
pub open spec fn non_passing(event: EngineEvent) -> bool {
    ||| event matches EngineEvent::ConditionOutcome { passed } && !passed
    ||| event is EntityVanished
}

/// An action that acts on the world on an entity's behalf: running a hook or
/// mutating a marker. Condition checks and registry reads are not effects.
pub open spec fn is_effect(action: EngineAction) -> bool {
    ||| action is RunBeforeHook
    ||| action is SetActiveState
    ||| action is RunAfterHook
}

/// `n` hook-completion events.
pub open spec fn hook_done_events(n: nat) -> Seq<EngineEvent> {
    Seq::new(n, |i: int| EngineEvent::HookDone)
}

/// The host's answers for one entity that passes its condition and keeps its
/// marker: the condition verdict, the before-registry copy, one completion
/// per before hook, the marker update, the after-registry copy, and one
/// completion per after hook.
pub open spec fn passing_entity_events(before: Vec<u64>, after: Vec<u64>) -> Seq<EngineEvent> {
    seq![
        EngineEvent::ConditionOutcome { passed: true },
        EngineEvent::BeforeHooks { systems: before },
    ] + hook_done_events(before@.len()) + seq![
        EngineEvent::MarkerUpdated,
        EngineEvent::AfterHooks { systems: after },
    ] + hook_done_events(after@.len())
}

/// One before-hook run per handle, in registration order, all with one
/// payload.
pub open spec fn before_hook_actions(hooks: Seq<u64>, input: TransitionEventSystemIn) -> Seq<
    EngineAction,
> {
    Seq::new(hooks.len(), |i: int| EngineAction::RunBeforeHook { hook_system_id: hooks[i], input })
}

/// One after-hook run per handle, in registration order, all with one
/// payload.
pub open spec fn after_hook_actions(hooks: Seq<u64>, input: TransitionEventSystemIn) -> Seq<
    EngineAction,
> {
    Seq::new(hooks.len(), |i: int| EngineAction::RunAfterHook { hook_system_id: hooks[i], input })
}

/// The exact actions of one committed transition attempt: fetch the before
/// registry, run its hooks in order, mutate the marker, fetch the after
/// registry, run its hooks in order — every hook with the one payload of the
/// attempt.
pub open spec fn entity_transition_actions(
    s: TransitionTick,
    before: Seq<u64>,
    after: Seq<u64>,
) -> Seq<EngineAction> {
    seq![EngineAction::FetchBeforeHooks { machine_entity: s.current_entity() }]
        + before_hook_actions(before, s.current_payload()) + seq![
        EngineAction::SetActiveState {
            machine_entity: s.current_entity(),
            next_state_type_id: s.edge.next_state_type_id,
        },
        EngineAction::FetchAfterHooks { machine_entity: s.current_entity() },
    ] + after_hook_actions(after, s.current_payload())
}

/// Runs compose: feeding `evs1` then `evs2` reaches the state that feeding
/// the concatenation reaches, and emits the concatenated actions.
pub proof fn lemma_run_append(s: TransitionTick, evs1: Seq<EngineEvent>, evs2: Seq<EngineEvent>)
    ensures
        TransitionTick::run_state(s, evs1 + evs2) == TransitionTick::run_state(
            TransitionTick::run_state(s, evs1),
            evs2,
        ),
        TransitionTick::run_actions(s, evs1 + evs2) == TransitionTick::run_actions(s, evs1)
            + TransitionTick::run_actions(TransitionTick::run_state(s, evs1), evs2),
    decreases evs1.len(),
{
    if evs1.len() == 0 {
        assert(evs1 + evs2 =~= evs2);
        assert(TransitionTick::run_actions(s, evs1 + evs2) =~= TransitionTick::run_actions(
            s,
            evs1,
        ) + TransitionTick::run_actions(TransitionTick::run_state(s, evs1), evs2));
    } else {
        let s1 = TransitionTick::step_spec(s, evs1[0]).0;
        assert((evs1 + evs2)[0] == evs1[0]);
        assert((evs1 + evs2).drop_first() =~= evs1.drop_first() + evs2);
        lemma_run_append(s1, evs1.drop_first(), evs2);
        assert(TransitionTick::run_actions(s, evs1 + evs2) =~= TransitionTick::run_actions(
            s,
            evs1,
        ) + TransitionTick::run_actions(TransitionTick::run_state(s, evs1), evs2));
    }
}

/// Peeling one event off a run: the head event takes one step, the rest of
/// the run continues from the successor state.
proof fn lemma_run_step(s: TransitionTick, event: EngineEvent, rest: Seq<EngineEvent>)
    ensures
        TransitionTick::run_state(s, seq![event] + rest) == TransitionTick::run_state(
            TransitionTick::step_spec(s, event).0,
            rest,
        ),
        TransitionTick::run_actions(s, seq![event] + rest) == seq![
            TransitionTick::step_spec(s, event).1,
        ] + TransitionTick::run_actions(TransitionTick::step_spec(s, event).0, rest),
{
    let evs = seq![event] + rest;
    assert(evs[0] == event);
    assert(evs.drop_first() =~= rest);
}

/// From inside a before-hook phase, one completion event per outstanding hook
/// runs the remaining hooks in order — each with the current attempt's
/// payload — then commits the marker mutation.
proof fn lemma_run_before_hooks(s: TransitionTick, n: nat)
    requires
        s.wf(),
        s.phase is RunningBeforeHooks,
        n == s.phase_hooks@.len() - s.hook_index,
    ensures
        TransitionTick::run_actions(s, hook_done_events(n)) == before_hook_actions(
            s.phase_hooks@.subrange(s.hook_index + 1, s.phase_hooks@.len() as int),
            s.current_payload(),
        ) + seq![
            EngineAction::SetActiveState {
                machine_entity: s.current_entity(),
                next_state_type_id: s.edge.next_state_type_id,
            },
        ],
        TransitionTick::run_state(s, hook_done_events(n)) == (TransitionTick {
            phase: EnginePhase::AwaitingMarkerUpdate,
            hook_index: s.phase_hooks@.len() as usize,
            ..s
        }),
    decreases n,
{
    assert(s.phase_hooks.len() == s.phase_hooks@.len());
    let len = s.phase_hooks@.len() as int;
    let done = EngineEvent::HookDone;
    let s2 = TransitionTick::step_spec(s, done).0;
    assert(hook_done_events(n) =~= seq![done] + hook_done_events((n - 1) as nat));
    lemma_run_step(s, done, hook_done_events((n - 1) as nat));
    if n == 1 {
        assert(TransitionTick::run_actions(s, hook_done_events(n)) =~= before_hook_actions(
            s.phase_hooks@.subrange(s.hook_index + 1, len),
            s.current_payload(),
        ) + seq![
            EngineAction::SetActiveState {
                machine_entity: s.current_entity(),
                next_state_type_id: s.edge.next_state_type_id,
            },
        ]);
    } else {
        assert(s2.wf());
        lemma_run_before_hooks(s2, (n - 1) as nat);
        assert(s2.current_payload() == s.current_payload());
        assert(TransitionTick::run_actions(s, hook_done_events(n)) =~= before_hook_actions(
            s.phase_hooks@.subrange(s.hook_index + 1, len),
            s.current_payload(),
        ) + seq![
            EngineAction::SetActiveState {
                machine_entity: s.current_entity(),
                next_state_type_id: s.edge.next_state_type_id,
            },
        ]);
    }
}

/// From inside an after-hook phase, one completion event per outstanding hook
/// runs the remaining hooks in order — each with the current attempt's
/// payload — then moves past the current entity.
proof fn lemma_run_after_hooks(s: TransitionTick, n: nat)
    requires
        s.wf(),
        s.phase is RunningAfterHooks,
        n == s.phase_hooks@.len() - s.hook_index,
    ensures
        TransitionTick::run_actions(s, hook_done_events(n)) == after_hook_actions(
            s.phase_hooks@.subrange(s.hook_index + 1, s.phase_hooks@.len() as int),
            s.current_payload(),
        ) + seq![TransitionTick::advance_spec(s).1],
        TransitionTick::run_state(s, hook_done_events(n)) == TransitionTick::advance_spec(
            TransitionTick { hook_index: s.phase_hooks@.len() as usize, ..s },
        ).0,
    decreases n,
{
    assert(s.phase_hooks.len() == s.phase_hooks@.len());
    assert(s.snapshot.len() == s.snapshot@.len());
    let len = s.phase_hooks@.len() as int;
    let done = EngineEvent::HookDone;
    let s2 = TransitionTick::step_spec(s, done).0;
    assert(hook_done_events(n) =~= seq![done] + hook_done_events((n - 1) as nat));
    lemma_run_step(s, done, hook_done_events((n - 1) as nat));
    if n == 1 {
        assert(TransitionTick::run_actions(s, hook_done_events(n)) =~= after_hook_actions(
            s.phase_hooks@.subrange(s.hook_index + 1, len),
            s.current_payload(),
        ) + seq![TransitionTick::advance_spec(s).1]);
    } else {
        assert(s2.wf());
        lemma_run_after_hooks(s2, (n - 1) as nat);
        assert(s2.current_payload() == s.current_payload());
        assert(TransitionTick::advance_spec(s2).1 == TransitionTick::advance_spec(s).1);
        assert(TransitionTick::run_actions(s, hook_done_events(n)) =~= after_hook_actions(
            s.phase_hooks@.subrange(s.hook_index + 1, len),
            s.current_payload(),
        ) + seq![TransitionTick::advance_spec(s).1]);
    }
}

/// Idempotence of a declined tick: while every condition answer is negative
/// (or the entity vanished), the engine only ever asks for condition checks
/// and completes — it runs no hook and mutates no marker — and the snapshot
/// and the edge stay as they are, so repeating such ticks changes nothing.
pub proof fn lemma_no_op_when_condition_declines(s: TransitionTick, events: Seq<EngineEvent>)
    requires
        s.wf(),
        s.phase is AwaitingCondition || s.phase is Complete,
        forall|i: int| 0 <= i < events.len() ==> non_passing(#[trigger] events[i]),
    ensures
        forall|i: int|
            0 <= i < events.len() ==> !is_effect(
                #[trigger] TransitionTick::run_actions(s, events)[i],
            ),
        TransitionTick::run_actions(s, events).len() == events.len(),
        TransitionTick::run_state(s, events).snapshot == s.snapshot,
        TransitionTick::run_state(s, events).edge == s.edge,
        TransitionTick::run_state(s, events).wf(),
        TransitionTick::run_state(s, events).phase is AwaitingCondition || TransitionTick::run_state(
            s,
            events,
        ).phase is Complete,
    decreases events.len(),
{
    assert(s.snapshot.len() == s.snapshot@.len());
    if events.len() > 0 {
        let s1 = TransitionTick::step_spec(s, events[0]).0;
        let a0 = TransitionTick::step_spec(s, events[0]).1;
        assert(non_passing(events[0]));
        assert(!is_effect(a0));
        assert(s1.wf());
        assert(s1.phase is AwaitingCondition || s1.phase is Complete);
        assert(forall|i: int|
            0 <= i < events.drop_first().len() ==> non_passing(#[trigger] events.drop_first()[i]));
        lemma_no_op_when_condition_declines(s1, events.drop_first());
        assert(forall|i: int|
            0 <= i < events.len() ==> !is_effect(
                #[trigger] TransitionTick::run_actions(s, events)[i],
            )) by {
            assert(forall|i: int|
                1 <= i < events.len() ==> TransitionTick::run_actions(s, events)[i]
                    == TransitionTick::run_actions(s1, events.drop_first())[i - 1]);
        }
    }
}

/// Ordering of one committed transition: from the condition check of an
/// entity that passes and keeps its marker, the engine emits exactly — fetch
/// the before registry, run its hooks in registration order, mutate the
/// marker, fetch the after registry, run its hooks in registration order —
/// then turns to the next snapshot entry (or completes the tick). Every hook
/// of the attempt receives the one payload captured before the mutation.
#[verifier::rlimit(100)]
#[verifier::spinoff_prover]
pub proof fn lemma_passing_entity_run(s: TransitionTick, before: Vec<u64>, after: Vec<u64>)
    requires
        s.wf(),
        s.phase is AwaitingCondition,
    ensures
        TransitionTick::run_actions(s, passing_entity_events(before, after))
            == entity_transition_actions(s, before@, after@) + seq![
            TransitionTick::advance_spec(s).1,
        ],
        TransitionTick::run_state(s, passing_entity_events(before, after)).entity_index
            == s.entity_index + 1,
        TransitionTick::run_state(s, passing_entity_events(before, after)).snapshot == s.snapshot,
        TransitionTick::run_state(s, passing_entity_events(before, after)).edge == s.edge,
        TransitionTick::run_state(s, passing_entity_events(before, after)).wf(),
        TransitionTick::run_state(s, passing_entity_events(before, after)).phase is Complete <==> s.entity_index
            + 1 == s.snapshot@.len(),
        TransitionTick::run_state(s, passing_entity_events(before, after)).phase is AwaitingCondition <==> s.entity_index
            + 1 < s.snapshot@.len(),
{
    assert(s.snapshot.len() == s.snapshot@.len());
    assert(before.len() == before@.len());
    assert(after.len() == after@.len());
    let evs = passing_entity_events(before, after);
    let p = s.current_payload();
    let nb = before@.len();
    let na = after@.len();
    let e0 = EngineEvent::ConditionOutcome { passed: true };
    let e1 = EngineEvent::BeforeHooks { systems: before };
    let e2 = EngineEvent::MarkerUpdated;
    let e3 = EngineEvent::AfterHooks { systems: after };
    let rest3 = seq![e3] + hook_done_events(na);
    let rest2 = seq![e2] + rest3;
    let rest1 = hook_done_events(nb) + rest2;
    let rest0 = seq![e1] + rest1;
    assert(evs =~= seq![e0] + rest0);

    let s_b = TransitionTick::step_spec(s, e0).0;
    lemma_run_step(s, e0, rest0);
    assert(TransitionTick::step_spec(s, e0).1 == (EngineAction::FetchBeforeHooks {
        machine_entity: s.current_entity(),
    }));

    let s_m: TransitionTick;
    let before_acts: Seq<EngineAction>;
    lemma_run_step(s_b, e1, rest1);
    if nb == 0 {
        s_m = TransitionTick::step_spec(s_b, e1).0;
        before_acts = seq![TransitionTick::step_spec(s_b, e1).1];
        assert(hook_done_events(nb) =~= Seq::<EngineEvent>::empty());
        assert(rest1 =~= rest2);
        assert(before_acts =~= before_hook_actions(before@, p) + seq![
            EngineAction::SetActiveState {
                machine_entity: s.current_entity(),
                next_state_type_id: s.edge.next_state_type_id,
            },
        ]);
    } else {
        let s_rb = TransitionTick::step_spec(s_b, e1).0;
        assert(s_rb.wf());
        assert(s_rb.current_payload() == p);
        lemma_run_append(s_rb, hook_done_events(nb), rest2);
        lemma_run_before_hooks(s_rb, nb);
        s_m = TransitionTick::run_state(s_rb, hook_done_events(nb));
        before_acts = seq![TransitionTick::step_spec(s_b, e1).1]
            + TransitionTick::run_actions(s_rb, hook_done_events(nb));
        assert(s_rb.phase_hooks@.subrange(1, nb as int) =~= before@.subrange(1, nb as int));
        assert(before_acts =~= before_hook_actions(before@, p) + seq![
            EngineAction::SetActiveState {
                machine_entity: s.current_entity(),
                next_state_type_id: s.edge.next_state_type_id,
            },
        ]);
    }
    assert(s_m.phase is AwaitingMarkerUpdate);
    assert(s_m.entity_index == s.entity_index && s_m.snapshot == s.snapshot && s_m.edge == s.edge);
    assert(s_m.current_payload() == p);
    assert(TransitionTick::run_actions(s_b, rest0) =~= before_acts + TransitionTick::run_actions(
        s_m,
        rest2,
    ));
    assert(TransitionTick::run_state(s_b, rest0) == TransitionTick::run_state(s_m, rest2));

    let s_a = TransitionTick::step_spec(s_m, e2).0;
    lemma_run_step(s_m, e2, rest3);
    assert(TransitionTick::step_spec(s_m, e2).1 == (EngineAction::FetchAfterHooks {
        machine_entity: s.current_entity(),
    }));
    assert(s_a.phase is AwaitingAfterHooks);
    assert(s_a.current_payload() == p);

    let s_end: TransitionTick;
    let after_acts: Seq<EngineAction>;
    lemma_run_step(s_a, e3, hook_done_events(na));
    if na == 0 {
        s_end = TransitionTick::step_spec(s_a, e3).0;
        after_acts = seq![TransitionTick::step_spec(s_a, e3).1];
        assert(hook_done_events(na) =~= Seq::<EngineEvent>::empty());
        assert(after_acts =~= after_hook_actions(after@, p) + seq![
            TransitionTick::advance_spec(s).1,
        ]);
    } else {
        let s_ra = TransitionTick::step_spec(s_a, e3).0;
        assert(s_ra.wf());
        assert(s_ra.current_payload() == p);
        lemma_run_after_hooks(s_ra, na);
        s_end = TransitionTick::run_state(s_ra, hook_done_events(na));
        after_acts = seq![TransitionTick::step_spec(s_a, e3).1] + TransitionTick::run_actions(
            s_ra,
            hook_done_events(na),
        );
        assert(s_ra.phase_hooks@.subrange(1, na as int) =~= after@.subrange(1, na as int));
        assert(TransitionTick::advance_spec(s_ra).1 == TransitionTick::advance_spec(s).1);
        assert(after_acts =~= after_hook_actions(after@, p) + seq![
            TransitionTick::advance_spec(s).1,
        ]);
    }
    assert(TransitionTick::run_actions(s_a, rest3) == after_acts);
    assert(TransitionTick::run_state(s_a, rest3) == s_end);
    assert(s_end.entity_index == s.entity_index + 1);
    assert(s_end.snapshot == s.snapshot && s_end.edge == s.edge);
    assert(s_end.wf());
    assert(TransitionTick::run_state(s, evs) == s_end);

    assert(TransitionTick::run_actions(s, evs) =~= entity_transition_actions(s, before@, after@)
        + seq![TransitionTick::advance_spec(s).1]);
}

/// Ordering in the two-hook form: with before hooks `[b1, b2]` and after
/// hooks `[a1, a2]`, one passing entity gives exactly — registry fetch, `b1`,
/// `b2`, the mutation, registry fetch, `a1`, `a2` — before the engine turns
/// to the next snapshot entry.
pub proof fn lemma_ordering_two_hooks(
    s: TransitionTick,
    b1: u64,
    b2: u64,
    a1: u64,
    a2: u64,
    before: Vec<u64>,
    after: Vec<u64>,
)
    requires
        s.wf(),
        s.phase is AwaitingCondition,
        before@ == seq![b1, b2],
        after@ == seq![a1, a2],
    ensures
        TransitionTick::run_actions(s, passing_entity_events(before, after)) == seq![
            EngineAction::FetchBeforeHooks { machine_entity: s.current_entity() },
            EngineAction::RunBeforeHook { hook_system_id: b1, input: s.current_payload() },
            EngineAction::RunBeforeHook { hook_system_id: b2, input: s.current_payload() },
            EngineAction::SetActiveState {
                machine_entity: s.current_entity(),
                next_state_type_id: s.edge.next_state_type_id,
            },
            EngineAction::FetchAfterHooks { machine_entity: s.current_entity() },
            EngineAction::RunAfterHook { hook_system_id: a1, input: s.current_payload() },
            EngineAction::RunAfterHook { hook_system_id: a2, input: s.current_payload() },
            TransitionTick::advance_spec(s).1,
        ],
{
    lemma_passing_entity_run(s, before, after);
    assert(TransitionTick::run_actions(s, passing_entity_events(before, after)) =~= seq![
        EngineAction::FetchBeforeHooks { machine_entity: s.current_entity() },
        EngineAction::RunBeforeHook { hook_system_id: b1, input: s.current_payload() },
        EngineAction::RunBeforeHook { hook_system_id: b2, input: s.current_payload() },
        EngineAction::SetActiveState {
            machine_entity: s.current_entity(),
            next_state_type_id: s.edge.next_state_type_id,
        },
        EngineAction::FetchAfterHooks { machine_entity: s.current_entity() },
        EngineAction::RunAfterHook { hook_system_id: a1, input: s.current_payload() },
        EngineAction::RunAfterHook { hook_system_id: a2, input: s.current_payload() },
        TransitionTick::advance_spec(s).1,
    ]);
}

/// Payload consistency: within one passing attempt, every hook run — before
/// or after the mutation — carries the one payload whose `prev` is the state
/// identifier captured at snapshot time and whose `next` is the configured
/// target, and the mutation itself commits exactly that target on that
/// entity.
pub proof fn lemma_payload_consistency(s: TransitionTick, before: Vec<u64>, after: Vec<u64>)
    requires
        s.wf(),
        s.phase is AwaitingCondition,
    ensures
        forall|i: int|
            0 <= i < TransitionTick::run_actions(s, passing_entity_events(before, after)).len()
                ==> {
                let action = #[trigger] TransitionTick::run_actions(
                    s,
                    passing_entity_events(before, after),
                )[i];
                &&& (action matches EngineAction::RunBeforeHook { input, .. } ==> input
                    == s.current_payload())
                &&& (action matches EngineAction::RunAfterHook { input, .. } ==> input
                    == s.current_payload())
                &&& (action matches EngineAction::SetActiveState {
                    machine_entity,
                    next_state_type_id,
                } ==> machine_entity == s.current_entity() && next_state_type_id
                    == s.edge.next_state_type_id)
            },
        s.current_payload().machine_entity == s.snapshot@[s.entity_index as int].0,
        s.current_payload().prev_state_id == s.snapshot@[s.entity_index as int].1,
        s.current_payload().next_state_id == s.edge.next_state_type_id,
{
    lemma_passing_entity_run(s, before, after);
}

/// Isolation across entities: for two consecutive passing candidates, the
/// first entity's whole fetch/hook/mutate/hook block completes before any
/// action of the second entity's block is emitted — the concatenated runs
/// emit the two blocks back to back, with no interleaving.
pub proof fn lemma_entity_isolation(
    s: TransitionTick,
    before1: Vec<u64>,
    after1: Vec<u64>,
    before2: Vec<u64>,
    after2: Vec<u64>,
)
    requires
        s.wf(),
        s.phase is AwaitingCondition,
        s.entity_index + 1 < s.snapshot@.len(),
    ensures
        ({
            let s1 = TransitionTick::run_state(s, passing_entity_events(before1, after1));
            &&& TransitionTick::run_actions(
                s,
                passing_entity_events(before1, after1) + passing_entity_events(before2, after2),
            ) == entity_transition_actions(s, before1@, after1@) + seq![
                TransitionTick::advance_spec(s).1,
            ] + entity_transition_actions(s1, before2@, after2@) + seq![
                TransitionTick::advance_spec(s1).1,
            ]
            &&& s1.entity_index == s.entity_index + 1
            &&& s1.snapshot == s.snapshot
            &&& s1.edge == s.edge
            &&& s1.current_entity() == s.snapshot@[s.entity_index + 1].0
        }),
{
    let evs1 = passing_entity_events(before1, after1);
    let evs2 = passing_entity_events(before2, after2);
    let s1 = TransitionTick::run_state(s, evs1);
    lemma_run_append(s, evs1, evs2);
    lemma_passing_entity_run(s, before1, after1);
    lemma_passing_entity_run(s1, before2, after2);
    assert(TransitionTick::run_actions(s, evs1 + evs2) =~= entity_transition_actions(
        s,
        before1@,
        after1@,
    ) + seq![TransitionTick::advance_spec(s).1] + entity_transition_actions(s1, before2@, after2@)
        + seq![TransitionTick::advance_spec(s1).1]);
}

/// The host's answers for a whole tick in which every remaining entity
/// passes its condition and keeps its marker: one passing block per entity,
/// with the hook-registry copies the host hands over for entity `k` in
/// `hooks[k]` (before list, after list).
pub open spec fn all_passing_events(hooks: Seq<(Vec<u64>, Vec<u64>)>) -> Seq<EngineEvent>
    decreases hooks.len(),
{
    if hooks.len() == 0 {
        Seq::empty()
    } else {
        passing_entity_events(hooks[0].0, hooks[0].1) + all_passing_events(hooks.drop_first())
    }
}

/// The exact actions of a whole tick in which every remaining entity passes:
/// the transition blocks of the remaining snapshot entries, in snapshot
/// order, each followed by the move to the next entry.
pub open spec fn all_passing_actions(s: TransitionTick, hooks: Seq<(Vec<u64>, Vec<u64>)>) -> Seq<
    EngineAction,
>
    decreases hooks.len(),
{
    if hooks.len() == 0 {
        Seq::empty()
    } else {
        entity_transition_actions(s, hooks[0].0@, hooks[0].1@) + seq![
            TransitionTick::advance_spec(s).1,
        ] + all_passing_actions(
            TransitionTick::run_state(s, passing_entity_events(hooks[0].0, hooks[0].1)),
            hooks.drop_first(),
        )
    }
}

/// Sequential processing of a whole tick: when every remaining snapshot entry
/// passes and keeps its marker, the engine emits the entities' transition
/// blocks strictly one after the other, in snapshot order, and ends the tick
/// complete — entity `k`'s whole block precedes everything of entity `k + 1`.
pub proof fn lemma_all_passing_tick(s: TransitionTick, hooks: Seq<(Vec<u64>, Vec<u64>)>)
    requires
        s.wf(),
        s.phase is AwaitingCondition,
        s.entity_index + hooks.len() == s.snapshot@.len(),
    ensures
        TransitionTick::run_actions(s, all_passing_events(hooks)) == all_passing_actions(s, hooks),
        TransitionTick::run_state(s, all_passing_events(hooks)).phase is Complete,
        TransitionTick::run_state(s, all_passing_events(hooks)).snapshot == s.snapshot,
        TransitionTick::run_state(s, all_passing_events(hooks)).edge == s.edge,
    decreases hooks.len(),
{
    assert(s.snapshot.len() == s.snapshot@.len());
    let evs0 = passing_entity_events(hooks[0].0, hooks[0].1);
    let s1 = TransitionTick::run_state(s, evs0);
    lemma_passing_entity_run(s, hooks[0].0, hooks[0].1);
    lemma_run_append(s, evs0, all_passing_events(hooks.drop_first()));
    if hooks.len() == 1 {
        assert(all_passing_events(hooks.drop_first()) =~= Seq::<EngineEvent>::empty());
        assert(all_passing_events(hooks) =~= evs0);
        assert(hooks.drop_first().len() == 0);
        assert(all_passing_actions(s1, hooks.drop_first()) =~= Seq::<EngineAction>::empty());
        assert(TransitionTick::run_actions(s, all_passing_events(hooks))
            =~= all_passing_actions(s, hooks));
    } else {
        assert(s1.phase is AwaitingCondition);
        lemma_all_passing_tick(s1, hooks.drop_first());
        assert(TransitionTick::run_actions(s, all_passing_events(hooks))
            =~= all_passing_actions(s, hooks));
    }
}

/// The documented policy for a marker that a before hook removed: the engine
/// answers with no further effect for that entity — its after phase is
/// skipped — and moves on, so the remaining snapshot entries still process
/// and the tick never aborts.
pub proof fn lemma_missing_marker_skips_after(s: TransitionTick)
    requires
        s.wf(),
        s.phase is AwaitingMarkerUpdate,
    ensures
        !is_effect(TransitionTick::step_spec(s, EngineEvent::MarkerMissing).1),
        TransitionTick::step_spec(s, EngineEvent::MarkerMissing).0.entity_index == s.entity_index
            + 1,
        TransitionTick::step_spec(s, EngineEvent::MarkerMissing).0.snapshot == s.snapshot,
        TransitionTick::step_spec(s, EngineEvent::MarkerMissing).0.edge == s.edge,
        TransitionTick::step_spec(s, EngineEvent::MarkerMissing).0.wf(),
        TransitionTick::step_spec(s, EngineEvent::MarkerMissing).0.phase is Complete <==> s.entity_index
            + 1 == s.snapshot@.len(),
        TransitionTick::step_spec(s, EngineEvent::MarkerMissing).0.phase is AwaitingCondition <==> s.entity_index
            + 1 < s.snapshot@.len(),
{
    assert(s.snapshot.len() == s.snapshot@.len());
}

} // verus!
