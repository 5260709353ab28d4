//! What the dispatch hook emits, member by member.

use std::time::Instant;

use vstd::prelude::*;

use crate::dispatch::{DispatchObserveHook, ToolInvocationOutcome};
use crate::dispatch_trace::DispatchOp;
use crate::emit::Emission;
use crate::event::EventKind;
use crate::float::Float64;
use crate::redaction::RedactionPolicy;

verus! {

/// The call id of an invocation: `dispatch-`, the number of the hook, a dash and
/// the number of the invocation.
pub open spec fn numbered_id(instance: u64, counter: u64) -> Seq<char> {
    "dispatch-"@ + crate::text::decimal(instance as nat) + "-"@ + crate::text::decimal(
        counter as nat,
    )
}

/// Whether `emission` announces the invocation of `tool` with `args` under an id.
pub open spec fn announces<R: RedactionPolicy>(
    policy: R,
    state: crate::dispatch::DispatchView,
    tool: Seq<char>,
    args: serde_json::Value,
    id: Seq<char>,
    emission: crate::emit::EmissionView,
) -> bool {
    &&& emission.conversation_id == state.conversation_id
    &&& emission.kind matches crate::event::KindView::ToolInvoked {
        tool_name,
        provider_call_id,
        call_id,
        args_json,
        truncated,
    } && {
        &&& tool_name == tool
        &&& provider_call_id is None
        &&& call_id == id
        &&& crate::hook_laws::carries_args(
            policy,
            state.limit as nat,
            tool,
            crate::json::json_text(args),
            args_json,
            truncated,
        )
    }
}

/// Whether `emission` reports that an invocation of `tool` completed.
pub open spec fn completes<R: RedactionPolicy>(
    policy: R,
    state: crate::dispatch::DispatchView,
    tool: Seq<char>,
    output: serde_json::Value,
    id: Seq<char>,
    elapsed: Option<u64>,
    emission: crate::emit::EmissionView,
) -> bool {
    &&& emission.conversation_id == state.conversation_id
    &&& emission.kind matches crate::event::KindView::ToolCompleted {
        tool_name,
        provider_call_id,
        call_id,
        result,
        truncated,
        duration_ms,
    } && {
        &&& tool_name == tool
        &&& provider_call_id is None
        &&& call_id == id
        &&& duration_ms == elapsed
        &&& crate::hook_laws::carries_result(
            policy,
            state.limit as nat,
            tool,
            crate::json::json_text(output),
            result,
            truncated,
        )
    }
}

/// What a kernel tells the hook decides what it emits. The begin of an
/// invocation announces it under a new id. Its end is reported under the id with
/// which it began, with the time it took; where it was not seen to begin, it is
/// announced first, under a new id, and no time is reported. A skipped one gives
/// its reason, or `skipped` where there is none; a failed one is reported as
/// terminated. A step begins an iteration, the first one the kernel before it.
pub proof fn lemma_dispatch_emissions<R: RedactionPolicy>(
    policy: R,
    state: crate::dispatch::DispatchView,
    op: DispatchOp,
    emissions: Seq<crate::emit::EmissionView>,
    next: crate::dispatch::DispatchView,
)
    requires
        crate::dispatch_trace::may_step(policy, state, op, emissions, next),
    ensures
        ({
            let fresh = numbered_id(state.instance, state.counter);
            let (id, elapsed) = match (state.in_flight, op) {
                (Some((begun, began_at)), DispatchOp::After { now, .. }) => (
                    begun,
                    Some(crate::clock::elapsed_between(began_at, now)),
                ),
                (Some((begun, _)), _) => (begun, None),
                (None, _) => (fresh, None),
            };
            let seen = state.in_flight is Some;
            match op {
                DispatchOp::Before { tool_name, args, .. } => emissions.len() == 1 && announces(
                    policy,
                    state,
                    tool_name,
                    args,
                    fresh,
                    emissions[0],
                ),
                DispatchOp::After { tool_name, args, output, outcome, .. } => {
                    &&& emissions.len() == (if seen {
                        1int
                    } else {
                        2int
                    })
                    &&& !seen ==> announces(policy, state, tool_name, args, fresh, emissions[0])
                    &&& match outcome {
                        crate::dispatch::OutcomeView::Completed => completes(
                            policy,
                            state,
                            tool_name,
                            output,
                            id,
                            elapsed,
                            emissions.last(),
                        ),
                        crate::dispatch::OutcomeView::Skipped { reason: told } => {
                            &&& emissions.last().conversation_id == state.conversation_id
                            &&& emissions.last().kind matches crate::event::KindView::ToolSkipped {
                                tool_name: tool,
                                call_id,
                                reason,
                            } && tool == tool_name && call_id == id && match told {
                                Some(text) => reason == text,
                                None => reason == "skipped"@,
                            }
                        },
                    }
                },
                DispatchOp::Failed { tool_name, args, reason: told } => {
                    &&& emissions.len() == (if seen {
                        1int
                    } else {
                        2int
                    })
                    &&& !seen ==> announces(policy, state, tool_name, args, fresh, emissions[0])
                    &&& emissions.last().conversation_id == state.conversation_id
                    &&& emissions.last().kind matches crate::event::KindView::ToolTerminated {
                        tool_name: tool,
                        call_id,
                        reason,
                    } && tool == tool_name && call_id == id && reason == told
                },
                DispatchOp::Step { kernel_id, skills, tools } => {
                    &&& emissions.len() == (if state.kernel_started {
                        1int
                    } else {
                        2int
                    })
                    &&& !state.kernel_started ==> {
                        &&& emissions[0].conversation_id == state.conversation_id
                        &&& emissions[0].kind matches crate::event::KindView::ComposeKernelStart {
                            kernel_id: kernel,
                            skills_registered,
                            tools_registered,
                        } && kernel == kernel_id && skills_registered == Some(skills)
                            && tools_registered == Some(tools)
                    }
                    &&& emissions.last().conversation_id == state.conversation_id
                    &&& emissions.last().kind matches crate::event::KindView::ComposeLoopIteration {
                        kernel_id: kernel,
                        iteration,
                        skill_id,
                        confidence,
                    } && {
                        &&& kernel == kernel_id
                        &&& iteration == (if state.kernel_started {
                            state.loop_counter
                        } else {
                            0
                        })
                        &&& skill_id is None
                        &&& confidence is None
                    }
                },
            }
        }),
{
}

/// What a kernel tells the hook decides what it remembers: the id and the moment
/// of an invocation that has begun and not ended, how many ids and iterations it
/// has handed out, and the first kernel it saw; the rest never changes.
pub proof fn lemma_dispatch_memory<R: RedactionPolicy>(
    policy: R,
    state: crate::dispatch::DispatchView,
    op: DispatchOp,
    emissions: Seq<crate::emit::EmissionView>,
    next: crate::dispatch::DispatchView,
)
    requires
        crate::dispatch_trace::may_step(policy, state, op, emissions, next),
    ensures
        next.conversation_id == state.conversation_id,
        next.limit == state.limit,
        next.instance == state.instance,
        match op {
            DispatchOp::Before { now, .. } => next.in_flight == Some(
                (numbered_id(state.instance, state.counter), now),
            ),
            DispatchOp::After { .. } => next.in_flight is None,
            DispatchOp::Failed { .. } => next.in_flight is None,
            DispatchOp::Step { .. } => next.in_flight == state.in_flight,
        },
        ({
            let numbered = op is Before || (op !is Step && state.in_flight is None);
            &&& !numbered ==> next.counter == state.counter
            &&& numbered && state.counter < u64::MAX ==> next.counter == state.counter + 1
            &&& numbered && state.counter == u64::MAX ==> next.counter == 0
        }),
        match op {
            DispatchOp::Step { kernel_id, .. } => {
                let iteration = if state.kernel_started {
                    state.loop_counter
                } else {
                    0
                };
                &&& next.kernel_started
                &&& state.kernel_id is Some ==> next.kernel_id == state.kernel_id
                &&& state.kernel_id is None ==> next.kernel_id == Some(kernel_id)
                &&& iteration < u64::MAX ==> next.loop_counter == iteration + 1
            },
            _ => {
                &&& next.kernel_started == state.kernel_started
                &&& next.kernel_id == state.kernel_id
                &&& next.loop_counter == state.loop_counter
            },
        },
{
}

/// How an invocation ended reads as it says.
pub proof fn lemma_outcome_contents(outcome: ToolInvocationOutcome)
    ensures
        match outcome {
            ToolInvocationOutcome::Completed => outcome@ is Completed,
            ToolInvocationOutcome::Skipped { reason } => outcome@ matches crate::dispatch::OutcomeView::Skipped {
                reason: told,
            } && told == reason.deep_view(),
        },
{
}

/// A skill that does not apply is reported at once, with the confidence
/// unchanged; one that applies only when it ran.
pub proof fn lemma_skill_is_considered<R: RedactionPolicy>(
    hook: DispatchObserveHook<R>,
    kernel: &str,
    skill: &str,
    applicable: bool,
    sure: Float64,
    out: Option<Emission>,
)
    requires
        call_ensures(
            DispatchObserveHook::<R>::before_skill,
            (&hook, kernel, skill, applicable, sure),
            out,
        ),
    ensures
        out is None <==> applicable,
        out matches Some(emission) ==> {
            &&& emission.conversation_id@ == hook@.conversation_id
            &&& emission.kind matches EventKind::ComposeSkillResolved {
                kernel_id,
                skill_id,
                applies,
                delta,
                confidence,
            } && kernel_id@ == kernel@ && skill_id@ == skill@ && !applies && delta is None
                && confidence == Some(sure)
        },
{
}

/// A skill that ran is reported with what it changed and what came of it.
pub proof fn lemma_skill_is_resolved<R: RedactionPolicy>(
    hook: DispatchObserveHook<R>,
    kernel: &str,
    skill: &str,
    change: Float64,
    sure: Float64,
    emission: Emission,
)
    requires
        call_ensures(
            DispatchObserveHook::<R>::after_skill,
            (&hook, kernel, skill, change, sure),
            emission,
        ),
    ensures
        emission.conversation_id@ == hook@.conversation_id,
        emission.kind matches EventKind::ComposeSkillResolved {
            kernel_id,
            skill_id,
            applies,
            delta,
            confidence,
        } && kernel_id@ == kernel@ && skill_id@ == skill@ && applies && delta == Some(change)
            && confidence == Some(sure),
{
}

/// A failed step is reported as one that was not recovered from.
pub proof fn lemma_step_error_is_reported<R: RedactionPolicy>(
    hook: DispatchObserveHook<R>,
    kernel: &str,
    why: &str,
    emission: Emission,
)
    requires
        call_ensures(DispatchObserveHook::<R>::on_step_error, (&hook, kernel, why), emission),
    ensures
        emission.conversation_id@ == hook@.conversation_id,
        emission.kind matches EventKind::ComposeRecovery { kernel_id, reason, recovered }
            && kernel_id@ == kernel@ && reason@ == why@ && !recovered,
{
}

/// A hook that is released reports the shutdown of the first kernel it saw, and
/// nothing where no kernel started.
pub proof fn lemma_shutdown_is_reported<R: RedactionPolicy>(
    hook: DispatchObserveHook<R>,
    out: Option<Emission>,
)
    requires
        call_ensures(DispatchObserveHook::<R>::shutdown, (hook,), out),
    ensures
        out is Some <==> hook@.kernel_started && hook@.kernel_id is Some,
        out matches Some(emission) ==> {
            &&& emission.conversation_id@ == hook@.conversation_id
            &&& emission.kind matches EventKind::ComposeKernelShutdown { kernel_id, reason } && Some(
                kernel_id@,
            ) == hook@.kernel_id && reason@ == "normal"@
        },
{
}

/// The moment at which an invocation began is held with its id alone.
pub proof fn lemma_begin_is_held<R: RedactionPolicy>(
    policy: R,
    state: crate::dispatch::DispatchView,
    tool_name: Seq<char>,
    args: serde_json::Value,
    now: Instant,
    emissions: Seq<crate::emit::EmissionView>,
    next: crate::dispatch::DispatchView,
)
    requires
        crate::dispatch_trace::may_step(
            policy,
            state,
            DispatchOp::Before { tool_name, args, now },
            emissions,
            next,
        ),
    ensures
        emissions[0].kind matches crate::event::KindView::ToolInvoked { call_id, .. }
            && next.in_flight == Some((call_id, now)),
{
}

} // verus!
