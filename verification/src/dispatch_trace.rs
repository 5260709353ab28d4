//! The shape of what a [`DispatchObserveHook`] emits over a whole run.
//!
//! [`DispatchObserveHook`]: crate::dispatch::DispatchObserveHook

use std::time::Instant;

use serde_json::Value;

use vstd::prelude::*;

use crate::redaction::RedactionPolicy;

verus! {

/// What a reader of the events keeps track of.
#[verifier::ext_equal]
pub struct Tracker {
    /// The tool call that was announced and has not ended.
    pub open: Option<Seq<char>>,
    /// The call ids announced so far.
    pub used: Set<Seq<char>>,
    /// Whether the kernel has started.
    pub started: bool,
    /// Number of iterations begun.
    pub iterations: nat,
}

/// A tracker that has seen nothing.
pub open spec fn fresh_tracker() -> Tracker {
    Tracker { open: None, used: Set::empty(), started: false, iterations: 0 }
}

/// Takes up an event, and is `None` where it is out of place: a call must be
/// announced under a new id, the end of a call must carry the id of the call
/// that is open, the kernel must start once and before its first iteration,
/// and iterations must be numbered from zero.
pub open spec fn track(tracker: Tracker, kind: crate::event::KindView) -> Option<Tracker> {
    match kind {
        crate::event::KindView::ToolInvoked { call_id, .. } => if tracker.used.contains(call_id) {
            None
        } else {
            Some(
                Tracker {
                    open: Some(call_id),
                    used: tracker.used.insert(call_id),
                    ..tracker
                },
            )
        },
        crate::event::KindView::ToolCompleted { call_id, .. } => if tracker.open == Some(call_id) {
            Some(Tracker { open: None, ..tracker })
        } else {
            None
        },
        crate::event::KindView::ToolSkipped { call_id, .. } => if tracker.open == Some(call_id) {
            Some(Tracker { open: None, ..tracker })
        } else {
            None
        },
        crate::event::KindView::ToolTerminated { call_id, .. } => if tracker.open == Some(call_id) {
            Some(Tracker { open: None, ..tracker })
        } else {
            None
        },
        crate::event::KindView::ComposeKernelStart { .. } => if tracker.started {
            None
        } else {
            Some(Tracker { started: true, ..tracker })
        },
        crate::event::KindView::ComposeLoopIteration { iteration, .. } => if tracker.started
            && iteration == tracker.iterations {
            Some(Tracker { iterations: tracker.iterations + 1, ..tracker })
        } else {
            None
        },
        _ => Some(tracker),
    }
}

/// Takes up a sequence of events.
pub open spec fn track_all(tracker: Tracker, emissions: Seq<crate::emit::EmissionView>) -> Option<
    Tracker,
>
    decreases emissions.len(),
{
    if emissions.len() == 0 {
        Some(tracker)
    } else {
        match track_all(tracker, emissions.drop_last()) {
            Some(reached) => track(reached, emissions.last().kind),
            None => None,
        }
    }
}

/// What a kernel tells the hook, and when where that matters.
pub enum DispatchOp {
    /// A tool is about to be invoked.
    Before { tool_name: Seq<char>, args: Value, now: Instant },
    /// An invocation ended with a result.
    After {
        tool_name: Seq<char>,
        args: Value,
        output: Value,
        outcome: crate::dispatch::OutcomeView,
        now: Instant,
    },
    /// An invocation failed.
    Failed { tool_name: Seq<char>, args: Value, reason: Seq<char> },
    /// An agent step begins.
    Step { kernel_id: Seq<char>, skills: usize, tools: usize },
}

/// Whether a hook in `state` may emit `emissions` on `op` and be in `next`
/// afterwards.
pub open spec fn may_step<R: RedactionPolicy>(
    policy: R,
    state: crate::dispatch::DispatchView,
    op: DispatchOp,
    emissions: Seq<crate::emit::EmissionView>,
    next: crate::dispatch::DispatchView,
) -> bool {
    match op {
        DispatchOp::Before { tool_name, args, now } => {
            &&& next == state.after_beginning(now)
            &&& emissions.len() == 1
            &&& state.may_announce(policy, tool_name, args, state.next_id(), emissions[0])
        },
        DispatchOp::After { tool_name, args, output, outcome, now } => {
            &&& next == state.after_ending()
            &&& exists|end: crate::emit::EmissionView|
                {
                    &&& #[trigger] state.may_report(policy, tool_name, output, outcome, now, end)
                    &&& state.may_end(policy, tool_name, args, end, emissions)
                }
        },
        DispatchOp::Failed { tool_name, args, reason } => {
            &&& next == state.after_ending()
            &&& state.may_end(
                policy,
                tool_name,
                args,
                state.terminated(tool_name, reason),
                emissions,
            )
        },
        DispatchOp::Step { kernel_id, skills, tools } => {
            &&& next == state.after_step(kernel_id)
            &&& emissions == state.step_emissions(kernel_id, skills, tools)
        },
    }
}

/// An end that reports the outcome of an invocation is a step.
pub proof fn lemma_end_is_a_step<R: RedactionPolicy>(
    policy: R,
    state: crate::dispatch::DispatchView,
    tool_name: Seq<char>,
    args: Value,
    output: Value,
    outcome: crate::dispatch::OutcomeView,
    now: Instant,
    end: crate::emit::EmissionView,
    emissions: Seq<crate::emit::EmissionView>,
)
    requires
        state.may_report(policy, tool_name, output, outcome, now, end),
        state.may_end(policy, tool_name, args, end, emissions),
    ensures
        may_step(
            policy,
            state,
            DispatchOp::After { tool_name, args, output, outcome, now },
            emissions,
            state.after_ending(),
        ),
{
    let op = DispatchOp::After { tool_name, args, output, outcome, now };
    if let DispatchOp::After { tool_name: t, args: a, output: o, outcome: c, now: n } = op {
        assert(state.may_report(policy, t, o, c, n, end));
        assert(state.may_end(policy, t, a, end, emissions));
    }
}

/// The call ids that a hook has handed out.
pub open spec fn used_ids(state: crate::dispatch::DispatchView) -> Set<Seq<char>> {
    Set::new(
        |id: Seq<char>|
            exists|n: u64|
                n < state.counter && id == #[trigger] crate::dispatch::call_id_text(
                    state.instance,
                    n,
                ),
    )
}

/// What a reader of the events knows when the hook is in `state`.
pub open spec fn tracker_of(state: crate::dispatch::DispatchView) -> Tracker {
    Tracker {
        open: match state.in_flight {
            Some((call_id, _)) => Some(call_id),
            None => None,
        },
        used: used_ids(state),
        started: state.kernel_started,
        iterations: if state.kernel_started {
            state.loop_counter as nat
        } else {
            0
        },
    }
}

/// The state of a hook that has seen nothing.
pub open spec fn fresh_hook(state: crate::dispatch::DispatchView) -> bool {
    state.counter == 0 && !state.kernel_started && state.in_flight is None
}

/// All emissions of a run, in order.
pub open spec fn joined(outputs: Seq<Seq<crate::emit::EmissionView>>) -> Seq<
    crate::emit::EmissionView,
>
    decreases outputs.len(),
{
    if outputs.len() == 0 {
        seq![]
    } else {
        joined(outputs.drop_last()) + outputs.last()
    }
}

/// Whether `states` and `outputs` are a run of a hook on `ops`.
pub open spec fn run<R: RedactionPolicy>(
    policy: R,
    states: Seq<crate::dispatch::DispatchView>,
    ops: Seq<DispatchOp>,
    outputs: Seq<Seq<crate::emit::EmissionView>>,
) -> bool {
    &&& states.len() == ops.len() + 1
    &&& outputs.len() == ops.len()
    &&& forall|i: int|
        0 <= i < ops.len() ==> may_step(
            policy,
            states[i],
            #[trigger] ops[i],
            outputs[i],
            states[i + 1],
        )
}

/// Whether neither counter of the hook wraps around.
pub open spec fn counters_last(states: Seq<crate::dispatch::DispatchView>) -> bool {
    forall|i: int|
        0 <= i < states.len() - 1 ==> (#[trigger] states[i]).counter < u64::MAX
            && states[i].loop_counter < u64::MAX
}

proof fn lemma_run_shortened<R: RedactionPolicy>(
    policy: R,
    states: Seq<crate::dispatch::DispatchView>,
    ops: Seq<DispatchOp>,
    outputs: Seq<Seq<crate::emit::EmissionView>>,
)
    requires
        run(policy, states, ops, outputs),
        ops.len() > 0,
    ensures
        run(policy, states.drop_last(), ops.drop_last(), outputs.drop_last()),
        may_step(
            policy,
            states[ops.len() - 1],
            ops[ops.len() - 1],
            outputs[ops.len() - 1],
            states[ops.len() as int],
        ),
        states.drop_last().last() == states[ops.len() - 1],
{
    let n = ops.len() - 1;
    assert forall|i: int| 0 <= i < n implies may_step(
        policy,
        states.drop_last()[i],
        #[trigger] ops.drop_last()[i],
        outputs.drop_last()[i],
        states.drop_last()[i + 1],
    ) by {
        assert(may_step(policy, states[i], ops[i], outputs[i], states[i + 1]));
    }
    assert(may_step(policy, states[n], ops[n], outputs[n], states[n + 1]));
}

proof fn lemma_track_concat(
    tracker: Tracker,
    first: Seq<crate::emit::EmissionView>,
    second: Seq<crate::emit::EmissionView>,
)
    ensures
        track_all(tracker, first + second) == (match track_all(tracker, first) {
            Some(reached) => track_all(reached, second),
            None => None,
        }),
    decreases second.len(),
{
    if second.len() == 0 {
        assert(first + second =~= first);
    } else {
        lemma_track_concat(tracker, first, second.drop_last());
        assert((first + second).drop_last() =~= first + second.drop_last());
        assert((first + second).last() == second.last());
    }
}

proof fn lemma_track_one(tracker: Tracker, emission: crate::emit::EmissionView)
    ensures
        track_all(tracker, seq![emission]) == track(tracker, emission.kind),
{
    assert(seq![emission].drop_last() =~= seq![]);
    assert(track_all(tracker, seq![emission].drop_last()) == Some(tracker));
}

proof fn lemma_next_id_is_new(state: crate::dispatch::DispatchView)
    requires
        state.counter < u64::MAX,
    ensures
        !used_ids(state).contains(state.next_id()),
        used_ids(state.after_next_id()) == used_ids(state).insert(state.next_id()),
{
    let next = state.after_next_id();
    if used_ids(state).contains(state.next_id()) {
        let n = choose|n: u64|
            n < state.counter && state.next_id() == #[trigger] crate::dispatch::call_id_text(
                state.instance,
                n,
            );
        crate::dispatch::lemma_call_ids_are_unique(
            state.instance,
            n,
            state.instance,
            state.counter,
        );
    }
    assert forall|id: Seq<char>| used_ids(next).contains(id) == used_ids(state).insert(
        state.next_id(),
    ).contains(id) by {
        if used_ids(next).contains(id) {
            let n = choose|n: u64|
                n < next.counter && id == #[trigger] crate::dispatch::call_id_text(
                    state.instance,
                    n,
                );
            if n < state.counter {
                assert(used_ids(state).contains(id));
            }
        }
        if used_ids(state).contains(id) {
            let n = choose|n: u64|
                n < state.counter && id == #[trigger] crate::dispatch::call_id_text(
                    state.instance,
                    n,
                );
            assert(n < next.counter);
        }
        if id == state.next_id() {
            assert(state.counter < next.counter);
            assert(id == crate::dispatch::call_id_text(state.instance, state.counter));
        }
    }
    assert(used_ids(next) =~= used_ids(state).insert(state.next_id()));
}

/// Whether an event ends the tool call `call_id`.
pub open spec fn ends_call(kind: crate::event::KindView, call_id: Seq<char>) -> bool {
    &&& kind is ToolCompleted || kind is ToolSkipped || kind is ToolTerminated
    &&& kind.call_id() == Some(call_id)
}

proof fn lemma_end_tracks<R: RedactionPolicy>(
    policy: R,
    state: crate::dispatch::DispatchView,
    tool_name: Seq<char>,
    args: Value,
    end: crate::emit::EmissionView,
    emissions: Seq<crate::emit::EmissionView>,
)
    requires
        state.may_end(policy, tool_name, args, end, emissions),
        ends_call(end.kind, state.ending_id()),
        state.counter < u64::MAX,
    ensures
        track_all(tracker_of(state), emissions) == Some(tracker_of(state.after_ending())),
{
    match state.in_flight {
        Some(_) => {
            lemma_track_one(tracker_of(state), end);
            assert(used_ids(state.after_ending()) =~= used_ids(state));
        },
        None => {
            lemma_next_id_is_new(state);
            let opened = Tracker {
                open: Some(state.next_id()),
                used: used_ids(state).insert(state.next_id()),
                ..tracker_of(state)
            };
            assert(emissions =~= seq![emissions[0]] + seq![end]);
            lemma_track_concat(tracker_of(state), seq![emissions[0]], seq![end]);
            lemma_track_one(tracker_of(state), emissions[0]);
            assert(track(tracker_of(state), emissions[0].kind) == Some(opened));
            lemma_track_one(opened, end);
        },
    }
}

/// One step keeps the events in order: what is emitted takes a reader from
/// what it knew before to what it knows afterwards.
pub proof fn lemma_step_keeps_order<R: RedactionPolicy>(
    policy: R,
    state: crate::dispatch::DispatchView,
    op: DispatchOp,
    emissions: Seq<crate::emit::EmissionView>,
    next: crate::dispatch::DispatchView,
)
    requires
        may_step(policy, state, op, emissions, next),
        state.counter < u64::MAX,
        state.loop_counter < u64::MAX,
    ensures
        track_all(tracker_of(state), emissions) == Some(tracker_of(next)),
{
    match op {
        DispatchOp::Before { .. } => {
            lemma_next_id_is_new(state);
            assert(emissions =~= seq![emissions[0]]);
            lemma_track_one(tracker_of(state), emissions[0]);
            assert(used_ids(next) =~= used_ids(state.after_next_id()));
        },
        DispatchOp::After { tool_name, args, output, outcome, now } => {
            let end = choose|end: crate::emit::EmissionView|
                {
                    &&& #[trigger] state.may_report(policy, tool_name, output, outcome, now, end)
                    &&& state.may_end(policy, tool_name, args, end, emissions)
                };
            lemma_end_tracks(policy, state, tool_name, args, end, emissions);
        },
        DispatchOp::Failed { tool_name, args, reason } => {
            lemma_end_tracks(
                policy,
                state,
                tool_name,
                args,
                state.terminated(tool_name, reason),
                emissions,
            );
        },
        DispatchOp::Step { kernel_id, skills, tools } => {
            assert(used_ids(next) =~= used_ids(state));
            let iteration = state.emission(
                crate::event::KindView::ComposeLoopIteration {
                    kernel_id,
                    iteration: state.next_iteration(),
                    skill_id: None,
                    confidence: None,
                },
            );
            if state.kernel_started {
                assert(emissions =~= seq![iteration]);
                lemma_track_one(tracker_of(state), iteration);
            } else {
                let start = state.emission(
                    crate::event::KindView::ComposeKernelStart {
                        kernel_id,
                        skills_registered: Some(skills),
                        tools_registered: Some(tools),
                    },
                );
                assert(emissions =~= seq![start] + seq![iteration]);
                lemma_track_concat(tracker_of(state), seq![start], seq![iteration]);
                lemma_track_one(tracker_of(state), start);
                lemma_track_one(Tracker { started: true, ..tracker_of(state) }, iteration);
            }
        },
    }
}

/// Whatever a kernel tells the hook, its events pair up: every tool call is
/// announced under an id that was not used before, every end of a call carries
/// the id of the call announced last, which had not ended; and the kernel
/// starts once, before iterations that are numbered from zero without gaps. This
/// holds as long as neither counter of the hook wraps around.
pub proof fn lemma_dispatch_events_pair<R: RedactionPolicy>(
    policy: R,
    states: Seq<crate::dispatch::DispatchView>,
    ops: Seq<DispatchOp>,
    outputs: Seq<Seq<crate::emit::EmissionView>>,
)
    requires
        run(policy, states, ops, outputs),
        counters_last(states),
        fresh_hook(states[0]),
    ensures
        track_all(fresh_tracker(), joined(outputs)) == Some(tracker_of(states.last())),
    decreases ops.len(),
{
    if ops.len() == 0 {
        assert(used_ids(states[0]) =~= Set::empty());
        assert(joined(outputs) =~= seq![]);
    } else {
        let n = ops.len() - 1;
        lemma_run_shortened(policy, states, ops, outputs);
        lemma_dispatch_events_pair(
            policy,
            states.drop_last(),
            ops.drop_last(),
            outputs.drop_last(),
        );
        lemma_step_keeps_order(policy, states[n], ops[n], outputs[n], states[n + 1]);
        lemma_track_concat(fresh_tracker(), joined(outputs.drop_last()), outputs.last());
    }
}

/// When the call in flight after `ops` began: the moment of the last invocation
/// that was announced by itself, unless an invocation ended since.
pub open spec fn begun(ops: Seq<DispatchOp>) -> Option<Instant>
    decreases ops.len(),
{
    if ops.len() == 0 {
        None
    } else {
        match ops.last() {
            DispatchOp::Before { now, .. } => Some(now),
            DispatchOp::Step { .. } => begun(ops.drop_last()),
            _ => None,
        }
    }
}

/// The start that the hook holds is that of the call in flight.
pub proof fn lemma_start_is_that_of_the_call<R: RedactionPolicy>(
    policy: R,
    states: Seq<crate::dispatch::DispatchView>,
    ops: Seq<DispatchOp>,
    outputs: Seq<Seq<crate::emit::EmissionView>>,
)
    requires
        run(policy, states, ops, outputs),
        fresh_hook(states[0]),
    ensures
        match states.last().in_flight {
            Some((_, began_at)) => begun(ops) == Some(began_at),
            None => begun(ops) is None,
        },
    decreases ops.len(),
{
    if ops.len() > 0 {
        lemma_run_shortened(policy, states, ops, outputs);
        lemma_start_is_that_of_the_call(
            policy,
            states.drop_last(),
            ops.drop_last(),
            outputs.drop_last(),
        );
    }
}

/// Every call is timed from its own begin: whatever the kernel told the hook
/// before, a `tool.completed` that the next step emits carries the time from
/// the begin of that call to its end, and none where the call was not seen to
/// begin.
pub proof fn lemma_calls_are_timed_from_their_begin<R: RedactionPolicy>(
    policy: R,
    states: Seq<crate::dispatch::DispatchView>,
    ops: Seq<DispatchOp>,
    outputs: Seq<Seq<crate::emit::EmissionView>>,
    i: int,
)
    requires
        run(policy, states, ops, outputs),
        fresh_hook(states[0]),
        ops.len() > 0,
        0 <= i < outputs.last().len(),
    ensures
        outputs.last()[i].kind matches crate::event::KindView::ToolCompleted { duration_ms, .. }
            ==> ops.last() matches DispatchOp::After { now, .. } && duration_ms == (match begun(
            ops.drop_last(),
        ) {
            Some(began_at) => Some(crate::clock::elapsed_between(began_at, now)),
            None => None,
        }),
{
    lemma_run_shortened(policy, states, ops, outputs);
    lemma_start_is_that_of_the_call(
        policy,
        states.drop_last(),
        ops.drop_last(),
        outputs.drop_last(),
    );
}

} // verus!
