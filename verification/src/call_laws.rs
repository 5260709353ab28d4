//! How calls relate: what one gives back of another.

use vstd::prelude::*;

use crate::emit::Emission;
use crate::event::{EventKind, ObservabilityEvent, ScalarFields};
use crate::redaction::RedactionPolicy;
use crate::responses_extract::HostedToolCall;
use crate::spans::ToolSpan;
use crate::wire::WireValue;

verus! {

/// What is written of an event is read back as that event.
pub proof fn lemma_written_event_is_read(
    event: ObservabilityEvent,
    fields: Vec<(String, WireValue)>,
    found: Option<ObservabilityEvent>,
)
    requires
        call_ensures(crate::wire::encode_event, (&event,), fields),
        call_ensures(crate::wire::decode_event, (&fields,), found),
    ensures
        found matches Some(back) && back@ == event@,
{
    crate::wire_laws::lemma_event_round_trip(event@);
}

proof fn lemma_first_names(
    a: crate::wire::WireView,
    b: crate::wire::WireView,
    c: crate::wire::WireView,
    d: crate::wire::WireView,
    rest: (
        Seq<(Seq<char>, crate::wire::WireView)>,
        Seq<(Seq<char>, crate::wire::WireView)>,
        Seq<(Seq<char>, crate::wire::WireView)>,
        Seq<(Seq<char>, crate::wire::WireView)>,
        Seq<(Seq<char>, crate::wire::WireView)>,
        Seq<(Seq<char>, crate::wire::WireView)>,
    ),
)
    ensures
        ({
            let whole = crate::wire::field("version"@, Some(a)) + crate::wire::field(
                "occurred_at_millis"@,
                Some(b),
            ) + crate::wire::field("tick"@, Some(c)) + crate::wire::field(
                "conversation_id"@,
                Some(d),
            ) + rest.0 + rest.1 + rest.2 + rest.3 + rest.4 + rest.5;
            &&& whole.len() >= 4
            &&& whole[0].0 == "version"@
            &&& whole[1].0 == "occurred_at_millis"@
            &&& whole[2].0 == "tick"@
            &&& whole[3].0 == "conversation_id"@
        }),
{
    reveal(crate::wire::field);
}

/// An event is written with its envelope first: version, time, tick and
/// conversation lead every event, in that order.
pub proof fn lemma_envelope_leads(event: ObservabilityEvent, fields: Vec<(String, WireValue)>)
    requires
        call_ensures(crate::wire::encode_event, (&event,), fields),
    ensures
        fields@.len() >= 4,
        fields@[0].0@ == "version"@,
        fields@[1].0@ == "occurred_at_millis"@,
        fields@[2].0@ == "tick"@,
        fields@[3].0@ == "conversation_id"@,
{
    let views = crate::wire::field_views(fields@);
    lemma_first_names(
        crate::wire::number(event.version as u64),
        crate::wire::number(event.occurred_at_millis),
        crate::wire::number(event.tick),
        crate::wire::WireView::Text(event.conversation_id@),
        (
            crate::wire::field("span_id"@, crate::wire::opt_number(event.span_id)),
            crate::wire::field("agent_id"@, crate::wire::opt_text(event.agent_id.deep_view())),
            crate::wire::field("trace_id"@, crate::wire::opt_number(event.trace_id)),
            crate::wire::field("severity"@, crate::wire::opt_severity(event.severity)),
            crate::wire::field(
                "kind"@,
                Some(crate::wire::WireView::Text(event.kind@.discriminant())),
            ),
            crate::wire_kinds::kind_fields(event.kind@),
        ),
    );
    assert(views[0].0 == fields@[0].0@);
    assert(views[1].0 == fields@[1].0@);
    assert(views[2].0 == fields@[2].0@);
    assert(views[3].0 == fields@[3].0@);
}

/// The duration that is read of a kind is the one that it carries.
pub proof fn lemma_duration_is_read(kind: EventKind, duration: Option<u64>)
    requires
        call_ensures(crate::insights::duration_ms_of, (&kind,), duration),
    ensures
        duration == (match kind {
            EventKind::PromptCompleted { duration_ms, .. } => duration_ms,
            EventKind::ToolCompleted { duration_ms, .. } => duration_ms,
            EventKind::ToolHostedCompleted { duration_ms, .. } => duration_ms,
            EventKind::ResponseTurnCompleted { duration_ms, .. } => duration_ms,
            EventKind::EmbeddingCompleted { duration_ms, .. } => duration_ms,
            EventKind::RetrievalQueried { duration_ms, .. } => duration_ms,
            EventKind::RerankCompleted { duration_ms, .. } => duration_ms,
            _ => None,
        }),
{
}

/// Every event of a tool surfaces its own tool and call, and every event of a
/// prompt its own model.
pub proof fn lemma_scalars_are_read(kind: EventKind, fields: ScalarFields<'_>)
    requires
        call_ensures(EventKind::scalar_fields, (&kind,), fields),
    ensures
        match kind {
            EventKind::ToolInvoked { tool_name, call_id, .. } => fields.tool_name@ == tool_name@
                && fields.call_id@ == call_id@,
            EventKind::ToolCompleted { tool_name, call_id, .. } => fields.tool_name@ == tool_name@
                && fields.call_id@ == call_id@,
            EventKind::ToolFailed { tool_name, call_id, .. } => fields.tool_name@ == tool_name@
                && fields.call_id@ == call_id@,
            EventKind::ToolSkipped { tool_name, call_id, .. } => fields.tool_name@ == tool_name@
                && fields.call_id@ == call_id@,
            EventKind::ToolTerminated { tool_name, call_id, .. } => fields.tool_name@ == tool_name@
                && fields.call_id@ == call_id@,
            EventKind::ToolHostedInvoked { tool_name, call_id, .. } => fields.tool_name@
                == tool_name@ && fields.call_id@ == call_id@,
            EventKind::ToolHostedCompleted { tool_name, call_id, .. } => fields.tool_name@
                == tool_name@ && fields.call_id@ == call_id@,
            EventKind::PromptStarted { model, .. } => fields.model@ == model@,
            EventKind::PromptCompleted { model, .. } => fields.model@ == model@,
            EventKind::PromptFailed { model, .. } => fields.model@ == model@,
            _ => true,
        },
{
}

/// The spans of a log change with one more event as its kind says.
pub proof fn lemma_spans_are_reconstructed(
    events: &[ObservabilityEvent],
    longer: &[ObservabilityEvent],
    event: ObservabilityEvent,
    before: Vec<ToolSpan>,
    after: Vec<ToolSpan>,
)
    requires
        longer@ == events@.push(event),
        call_ensures(crate::spans::reconstruct_spans, (events,), before),
        call_ensures(crate::spans::reconstruct_spans, (longer,), after),
    ensures
        crate::spans::spans_grow(
            before.deep_view(),
            after.deep_view(),
            crate::spans::invoke_times(crate::event::event_views(events@)),
            event,
        ),
{
    let views = crate::event::event_views(events@);
    assert(crate::event::event_views(longer@) =~= views.push(event@));
    crate::spans::lemma_spans_grow(views, event);
}

/// The hosted calls of a payload are those among the items under `output`, with
/// one pair of events each, which name the response of the caller, or else the
/// `id` of the payload.
pub proof fn lemma_hosted_tools_are_emitted<R: RedactionPolicy>(
    conversation: &str,
    response: Option<&str>,
    payload: serde_json::Value,
    policy: R,
    calls: Vec<HostedToolCall>,
    out: (usize, Vec<Emission>),
)
    requires
        call_ensures(crate::responses_extract::extract_hosted_tools, (&payload,), calls),
        call_ensures(
            crate::responses_extract::emit_hosted_tools_redacted::<R>,
            (conversation, response, &payload, &policy),
            out,
        ),
    ensures
        out.0 == calls.len(),
        out.1.len() == 2 * calls.len(),
        match response {
            Some(id) => crate::responses_extract::emits_pairs(
                policy,
                conversation@,
                calls.deep_view(),
                Some(id@),
                out.1.deep_view(),
            ),
            None => crate::responses_extract::emits_pairs(
                policy,
                conversation@,
                calls.deep_view(),
                crate::hosted_laws::string_at(payload, "id"@),
                out.1.deep_view(),
            ),
        },
{
    assert(calls.deep_view().len() == calls.len());
    assert(out.1.deep_view().len() == out.1.len());
}

} // verus!
