//! What operations that change their receiver leave behind.

use std::time::Instant;

use vstd::prelude::*;

use crate::dispatch::{DispatchObserveHook, ToolInvocationOutcome};
use crate::dispatch_trace::DispatchOp;
use crate::emit::{Emission, SequenceCounter};
use crate::event::{EventKind, ObservabilityEvent};
use crate::extract::EventVisitor;
use crate::float::Float64;
use crate::hook::TelemetryHook;
use crate::observed_memory::CountingWriter;
use crate::redaction::{IdentityRedaction, RedactionPolicy};
use crate::responses_session::{ResponsesSessionObserver, SessionEvent};
use crate::sampling::AlwaysSample;
use crate::session_envelope::SessionOp;
use crate::subscriber::CapturingLayer;
use crate::table::SortedTable;

verus! {

/// A field recorded as a string is the envelope where it is named `event`,
/// whatever was found before; no other field is.
pub proof fn lemma_string_is_visited(visitor: &mut EventVisitor, field: &str, value: &str)
    requires
        call_ensures(EventVisitor::record_str, (visitor, field, value), ()),
    ensures
        field@ == "event"@ ==> final(visitor).found() == Some(value@),
        field@ != "event"@ ==> final(visitor).found() == old(visitor).found(),
{
}

/// A field recorded by its rendering is the envelope where it is named `event`
/// and nothing was found before.
pub proof fn lemma_rendering_is_visited(visitor: &mut EventVisitor, field: &str, rendered: &str)
    requires
        call_ensures(EventVisitor::record_debug, (visitor, field, rendered), ()),
    ensures
        field@ == "event"@ && old(visitor).found() is None ==> final(visitor).found() == Some(
            rendered@,
        ),
        field@ != "event"@ || old(visitor).found() is Some ==> final(visitor).found() == old(
            visitor,
        ).found(),
{
}

/// A counter hands out the number it stands at and moves on by one; past the
/// largest number it begins anew at zero.
pub proof fn lemma_tick_is_taken(ticks: &mut SequenceCounter, tick: u64)
    requires
        call_ensures(crate::emit::next_tick, (ticks,), tick),
    ensures
        tick == old(ticks)@,
        old(ticks)@ < u64::MAX ==> final(ticks)@ == old(ticks)@ + 1,
        old(ticks)@ == u64::MAX ==> final(ticks)@ == 0,
{
}

/// An event that is built belongs to its conversation, carries its payload,
/// actor and trace, and takes the next tick.
pub proof fn lemma_event_is_built(
    ticks: &mut SequenceCounter,
    conversation: &str,
    kind: EventKind,
    agent: Option<String>,
    trace: Option<u64>,
    event: ObservabilityEvent,
)
    requires
        call_ensures(
            crate::emit::build_event_with,
            (ticks, conversation, kind, agent, trace),
            event,
        ),
    ensures
        event.version == crate::event::SCHEMA_VERSION,
        event.tick == old(ticks)@,
        event.conversation_id@ == conversation@,
        event.span_id != Some(0u64),
        event.agent_id.deep_view() == agent.deep_view(),
        event.trace_id == trace,
        event.severity is None,
        event.kind@ == kind@,
        old(ticks)@ < u64::MAX ==> final(ticks)@ == old(ticks)@ + 1,
{
}

/// Without actor and trace an event names neither.
pub proof fn lemma_plain_event_is_built(
    ticks: &mut SequenceCounter,
    conversation: &str,
    kind: EventKind,
    event: ObservabilityEvent,
)
    requires
        call_ensures(crate::emit::build_event, (ticks, conversation, kind), event),
    ensures
        event.version == crate::event::SCHEMA_VERSION,
        event.tick == old(ticks)@,
        event.conversation_id@ == conversation@,
        event.agent_id is None,
        event.trace_id is None,
        event.severity is None,
        event.kind@ == kind@,
        old(ticks)@ < u64::MAX ==> final(ticks)@ == old(ticks)@ + 1,
{
}

/// A writer takes all the bytes it is given and counts them, as far as it can
/// count.
pub proof fn lemma_bytes_are_counted(writer: &mut CountingWriter, bytes: &[u8], taken: usize)
    requires
        call_ensures(CountingWriter::write, (writer, bytes), taken),
    ensures
        taken == bytes@.len(),
        old(writer)@ + bytes@.len() <= usize::MAX ==> final(writer)@ == old(writer)@ + bytes@.len(),
        old(writer)@ + bytes@.len() > usize::MAX ==> final(writer)@ == usize::MAX,
{
}

/// What was counted is the size, unless serialization failed.
pub proof fn lemma_size_is_told(writer: CountingWriter, serialized: bool, size: usize)
    requires
        call_ensures(CountingWriter::finish, (writer, serialized), size),
    ensures
        serialized ==> size == writer@,
        !serialized ==> size == 0,
{
}

/// A captured event is the last one of the buffer, behind all that were captured
/// before.
pub proof fn lemma_event_is_captured(layer: &mut CapturingLayer, event: ObservabilityEvent, i: int)
    requires
        call_ensures(CapturingLayer::on_event, (layer, event), ()),
        0 <= i < old(layer)@.len(),
    ensures
        final(layer)@.len() == old(layer)@.len() + 1,
        final(layer)@.last() == event@,
        final(layer)@[i] == old(layer)@[i],
{
}

/// A buffer that was cleared holds nothing.
pub proof fn lemma_buffer_is_cleared(layer: &mut CapturingLayer)
    requires
        call_ensures(CapturingLayer::clear, (layer,), ()),
    ensures
        final(layer)@.len() == 0,
{
}

/// A value that is put into a table stands under its key, and what stands under
/// other keys stays.
pub proof fn lemma_value_is_put<V>(
    table: &mut SortedTable<V>,
    key: &str,
    value: V,
    other: Seq<char>,
)
    requires
        call_ensures(SortedTable::<V>::insert, (table, key, value), ()),
    ensures
        final(table)@.contains_key(key@),
        final(table)@[key@] == value,
        other != key@ ==> final(table)@.contains_key(other) == old(table)@.contains_key(other),
        other != key@ && old(table)@.contains_key(other) ==> final(table)@[other] == old(
            table,
        )@[other],
{
}

/// An occurrence is counted under its label once more, from nothing on, and under
/// no other.
pub proof fn lemma_occurrence_is_counted(
    table: &mut SortedTable<usize>,
    key: &str,
    other: Seq<char>,
)
    requires
        call_ensures(SortedTable::<usize>::increment, (table, key), ()),
        old(table)@.contains_key(key@) ==> old(table)@[key@] < usize::MAX,
    ensures
        final(table)@.contains_key(key@),
        old(table)@.contains_key(key@) ==> final(table)@[key@] == old(table)@[key@] + 1,
        !old(table)@.contains_key(key@) ==> final(table)@[key@] == 1,
        other != key@ ==> final(table)@.contains_key(other) == old(table)@.contains_key(other),
        other != key@ && old(table)@.contains_key(other) ==> final(table)@[other] == old(
            table,
        )@[other],
{
}

/// An item is appended to the list under its key, which begins with it where
/// there was none.
pub proof fn lemma_item_is_appended(
    table: &mut SortedTable<Vec<Float64>>,
    key: &str,
    item: Float64,
    other: Seq<char>,
)
    requires
        call_ensures(SortedTable::<Vec<Float64>>::append, (table, key, item), ()),
    ensures
        final(table)@.contains_key(key@),
        old(table)@.contains_key(key@) ==> final(table)@[key@]@ == old(table)@[key@]@.push(item),
        !old(table)@.contains_key(key@) ==> final(table)@[key@]@ == seq![item],
        other != key@ ==> final(table)@.contains_key(other) == old(table)@.contains_key(other),
        other != key@ && old(table)@.contains_key(other) ==> final(table)@[other] == old(
            table,
        )@[other],
{
    if !old(table)@.contains_key(key@) {
        assert(final(table)@[key@]@ =~= seq![item]);
    }
    if other != key@ {
        assert(final(table)@.dom().contains(other) == old(table)@.dom().contains(other));
    }
}

/// A dispatch hook hands out ids that are numbered one after the other.
pub proof fn lemma_call_id_is_taken<R: RedactionPolicy>(
    hook: &mut DispatchObserveHook<R>,
    id: String,
)
    requires
        call_ensures(DispatchObserveHook::<R>::next_call_id, (hook,), id),
    ensures
        id@ == crate::dispatch_laws::numbered_id(old(hook)@.instance, old(hook)@.counter),
        old(hook)@.counter < u64::MAX ==> final(hook)@.counter == old(hook)@.counter + 1,
        final(hook)@.instance == old(hook)@.instance,
        final(hook)@.in_flight == old(hook)@.in_flight,
{
}

/// What an observer does when a turn is sent is a step of its session: the laws
/// of whole sessions hold of it.
pub proof fn lemma_send_is_observed<R: RedactionPolicy>(
    observer: &mut ResponsesSessionObserver<R>,
    ancestor: Option<&str>,
    now: Instant,
    emissions: Vec<Emission>,
)
    requires
        call_ensures(
            ResponsesSessionObserver::<R>::observe_send_at,
            (observer, ancestor, now),
            emissions,
        ),
    ensures
        crate::session_envelope::may_step(
            old(observer).policy(),
            old(observer)@,
            SessionOp::Send { previous_response_id: ancestor.deep_view(), now },
            emissions.deep_view(),
            final(observer)@,
        ),
        final(observer).policy() == old(observer).policy(),
{
}

/// What an observer does when sending failed is a step of its session.
pub proof fn lemma_send_error_is_observed<R: RedactionPolicy>(
    observer: &mut ResponsesSessionObserver<R>,
    now: Instant,
    emissions: Vec<Emission>,
)
    requires
        call_ensures(
            ResponsesSessionObserver::<R>::observe_send_error_at,
            (observer, now),
            emissions,
        ),
    ensures
        crate::session_envelope::may_step(
            old(observer).policy(),
            old(observer)@,
            SessionOp::SendError { now },
            emissions.deep_view(),
            final(observer)@,
        ),
        final(observer).policy() == old(observer).policy(),
{
}

/// What an observer does on a server event is a step of its session.
pub proof fn lemma_event_is_observed<R: RedactionPolicy>(
    observer: &mut ResponsesSessionObserver<R>,
    event: SessionEvent,
    now: Instant,
    emissions: Vec<Emission>,
)
    requires
        call_ensures(
            ResponsesSessionObserver::<R>::observe_event_at,
            (observer, &event, now),
            emissions,
        ),
    ensures
        crate::session_envelope::may_step(
            old(observer).policy(),
            old(observer)@,
            SessionOp::Event { event: event@, now },
            emissions.deep_view(),
            final(observer)@,
        ),
        final(observer).policy() == old(observer).policy(),
{
}

/// What an observer does when the session is closed is a step of its session.
pub proof fn lemma_close_is_observed<R: RedactionPolicy>(
    observer: &mut ResponsesSessionObserver<R>,
    reason: &str,
    now: Instant,
    emissions: Vec<Emission>,
)
    requires
        call_ensures(
            ResponsesSessionObserver::<R>::observe_close_at,
            (observer, reason, now),
            emissions,
        ),
    ensures
        crate::session_envelope::may_step(
            old(observer).policy(),
            old(observer)@,
            SessionOp::Close { reason: reason@, now },
            emissions.deep_view(),
            final(observer)@,
        ),
        final(observer).policy() == old(observer).policy(),
{
}

/// A new observer begins the run of its session: nothing was sent, and it knows
/// conversation, model and session by what it was given.
pub proof fn lemma_new_observer(
    conversation: &str,
    model: &str,
    session: &str,
    observer: ResponsesSessionObserver<IdentityRedaction>,
)
    requires
        call_ensures(
            ResponsesSessionObserver::<IdentityRedaction>::new,
            (conversation, model, session),
            observer,
        ),
    ensures
        observer@ == crate::responses_session::fresh_session(conversation@, model@, session@),
        observer@.conversation_id == conversation@,
        observer@.model == model@,
        observer@.session_id == session@,
        !observer@.session_started,
        !observer@.session_ended,
        !observer@.in_turn,
{
}

/// What a dispatch hook does when an invocation begins is a step of its run.
pub proof fn lemma_begin_is_dispatched<R: RedactionPolicy>(
    hook: &mut DispatchObserveHook<R>,
    tool: &str,
    args: serde_json::Value,
    now: Instant,
    emission: Emission,
)
    requires
        call_ensures(
            DispatchObserveHook::<R>::before_invocation_at,
            (hook, tool, &args, now),
            emission,
        ),
    ensures
        crate::dispatch_trace::may_step(
            old(hook).policy(),
            old(hook)@,
            DispatchOp::Before { tool_name: tool@, args, now },
            seq![emission@],
            final(hook)@,
        ),
        final(hook).policy() == old(hook).policy(),
{
}

/// What a dispatch hook does when an invocation ends is a step of its run.
pub proof fn lemma_end_is_dispatched<R: RedactionPolicy>(
    hook: &mut DispatchObserveHook<R>,
    tool: &str,
    args: serde_json::Value,
    output: serde_json::Value,
    outcome: ToolInvocationOutcome,
    now: Instant,
    emissions: Vec<Emission>,
)
    requires
        call_ensures(
            DispatchObserveHook::<R>::after_invocation_at,
            (hook, tool, &args, &output, &outcome, now),
            emissions,
        ),
    ensures
        crate::dispatch_trace::may_step(
            old(hook).policy(),
            old(hook)@,
            DispatchOp::After { tool_name: tool@, args, output, outcome: outcome@, now },
            emissions.deep_view(),
            final(hook)@,
        ),
        final(hook).policy() == old(hook).policy(),
{
}

/// What a dispatch hook does when an invocation fails is a step of its run.
pub proof fn lemma_failure_is_dispatched<R: RedactionPolicy>(
    hook: &mut DispatchObserveHook<R>,
    tool: &str,
    args: serde_json::Value,
    reason: &str,
    emissions: Vec<Emission>,
)
    requires
        call_ensures(
            DispatchObserveHook::<R>::on_invocation_error,
            (hook, tool, &args, reason),
            emissions,
        ),
    ensures
        crate::dispatch_trace::may_step(
            old(hook).policy(),
            old(hook)@,
            DispatchOp::Failed { tool_name: tool@, args, reason: reason@ },
            emissions.deep_view(),
            final(hook)@,
        ),
        final(hook).policy() == old(hook).policy(),
{
}

/// What a dispatch hook does when a step begins is a step of its run.
pub proof fn lemma_step_is_dispatched<R: RedactionPolicy>(
    hook: &mut DispatchObserveHook<R>,
    kernel: &str,
    skills: usize,
    tools: usize,
    emissions: Vec<Emission>,
)
    requires
        call_ensures(
            DispatchObserveHook::<R>::before_step,
            (hook, kernel, skills, tools),
            emissions,
        ),
    ensures
        crate::dispatch_trace::may_step(
            old(hook).policy(),
            old(hook)@,
            DispatchOp::Step { kernel_id: kernel@, skills, tools },
            emissions.deep_view(),
            final(hook)@,
        ),
        final(hook).policy() == old(hook).policy(),
{
}

/// A new dispatch hook has seen nothing, takes the next number of its kind and
/// cuts payloads at the limit of the schema.
pub proof fn lemma_new_dispatch_hook(
    instances: &mut SequenceCounter,
    conversation: &str,
    hook: DispatchObserveHook<IdentityRedaction>,
)
    requires
        call_ensures(
            DispatchObserveHook::<IdentityRedaction>::new,
            (instances, conversation),
            hook,
        ),
    ensures
        hook@.conversation_id == conversation@,
        hook@.limit == 4096,
        hook@.instance == old(instances)@,
        hook@.counter == 0,
        !hook@.kernel_started,
        hook@.kernel_id is None,
        hook@.in_flight is None,
        old(instances)@ < u64::MAX ==> final(instances)@ == old(instances)@ + 1,
{
}

/// A hook with defaults records the model and the conversation it was given and
/// cuts payloads at the limit of the schema.
pub proof fn lemma_hook_with_defaults(
    model: &str,
    conversation: &str,
    hook: TelemetryHook<AlwaysSample, IdentityRedaction>,
)
    requires
        call_ensures(
            TelemetryHook::<AlwaysSample, IdentityRedaction>::with_defaults,
            (model, conversation),
            hook,
        ),
    ensures
        hook.model() == model@,
        hook.conversation() == conversation@,
        hook.limit() == 4096,
{
}

} // verus!
