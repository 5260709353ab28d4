//! Stamping of events, and the fields under which they reach `tracing`.
//!
//! Every event is emitted as a single `tracing` record under the `rig_tap`
//! target. Its `event` field carries the JSON-encoded envelope, while stable
//! scalar `rig_tap.*` fields make OpenTelemetry collector routing and indexing
//! possible without JSON parsing.

use vstd::prelude::*;

pub use crate::clock::now_millis;
use crate::event::{EventKind, ObservabilityEvent, ScalarFields, SCHEMA_VERSION};

verus! {

/// Target string used on every `rig_tap` event.
pub const EVENT_TARGET: &'static str = "rig_tap";

/// An event that is due: its payload and the conversation that it belongs to.
#[derive(Debug, PartialEq)]
pub struct Emission {
    /// Conversation / thread identifier to stamp on the event.
    pub conversation_id: String,
    /// Payload of the event.
    pub kind: EventKind,
}

/// The content of an [`Emission`].
#[verifier::ext_equal]
pub struct EmissionView {
    pub conversation_id: Seq<char>,
    pub kind: crate::event::KindView,
}

impl View for Emission {
    type V = EmissionView;

    open spec fn view(&self) -> EmissionView {
        EmissionView { conversation_id: self.conversation_id@, kind: self.kind@ }
    }
}

impl DeepView for Emission {
    type V = EmissionView;

    open spec fn deep_view(&self) -> EmissionView {
        self@
    }
}

/// A source of consecutive numbers. One counter serves a whole process: one
/// for the ticks that order events, one for the ids of dispatch hooks.
#[derive(Debug)]
pub struct SequenceCounter {
    next: u64,
}

impl View for SequenceCounter {
    type V = u64;

    closed spec fn view(&self) -> u64 {
        self.next
    }
}

impl SequenceCounter {
    /// A counter whose first number is `0`.
    pub fn new() -> (ticks: Self)
        ensures
            ticks@ == 0,
    {
        SequenceCounter { next: 0 }
    }
}

/// The tick after `tick`. The counter wraps around past [`u64::MAX`].
pub open spec fn following(tick: u64) -> u64 {
    if tick == u64::MAX {
        0
    } else {
        (tick + 1) as u64
    }
}

/// Return the next monotonic tick.
pub fn next_tick(ticks: &mut SequenceCounter) -> (tick: u64)
    ensures
        tick == old(ticks)@,
        final(ticks)@ == following(old(ticks)@),
{
    let tick: u64 = ticks.next;
    ticks.next = if tick == u64::MAX {
        0
    } else {
        tick + 1
    };
    tick
}

/// The tick that a counter at `start` hands out on its `n`-th call, counted
/// from zero.
pub open spec fn nth_tick(start: u64, n: nat) -> u64
    decreases n,
{
    if n == 0 {
        start
    } else {
        following(nth_tick(start, (n - 1) as nat))
    }
}

/// Ticks increase from call to call, as long as the counter has not wrapped
/// around.
pub proof fn lemma_ticks_increase(start: u64, earlier: nat, later: nat)
    requires
        earlier < later,
        start + later <= u64::MAX,
    ensures
        nth_tick(start, earlier) < nth_tick(start, later),
{
    lemma_nth_tick(start, earlier);
    lemma_nth_tick(start, later);
}

proof fn lemma_nth_tick(start: u64, n: nat)
    requires
        start + n <= u64::MAX,
    ensures
        nth_tick(start, n) == start + n,
    decreases n,
{
    if n > 0 {
        lemma_nth_tick(start, (n - 1) as nat);
    }
}

/// Calls `tracing::Span::current`, `Span::id` and `Id::into_u64`. Which span
/// is active depends on the calling thread and its subscriber, so the contract
/// claims only that an id is never zero: `tracing` holds it as a `NonZeroU64`.
#[verifier::external_body]
fn active_span() -> (id: Option<u64>)
    ensures
        id != Some(0u64),
{
    tracing::Span::current().id().map(|id| id.into_u64())
}

/// Return the numeric id of the currently-active `tracing::Span`, if any.
///
/// Mirrors `tracing::span::Id::into_u64`. Subscribers that respect
/// span context (e.g. `tracing-opentelemetry`) attach this id to every
/// event automatically; surfacing it on the envelope lets consumers
/// reading only structured fields stitch events into the same
/// waterfall.
pub fn current_span_id() -> (id: Option<u64>)
    ensures
        id != Some(0u64),
{
    active_span()
}

/// Builds the envelope of an event from the readings that go on it.
pub fn stamp_event(
    conversation_id: &str,
    kind: EventKind,
    occurred_at_millis: u64,
    tick: u64,
    span_id: Option<u64>,
    agent_id: Option<String>,
    trace_id: Option<u64>,
) -> (event: ObservabilityEvent)
    ensures
        event@ == (crate::event::EventView {
            version: SCHEMA_VERSION,
            occurred_at_millis,
            tick,
            conversation_id: conversation_id@,
            span_id,
            agent_id: agent_id.deep_view(),
            trace_id,
            severity: None,
            kind: kind@,
        }),
{
    ObservabilityEvent {
        version: SCHEMA_VERSION,
        occurred_at_millis,
        tick,
        conversation_id: conversation_id.to_owned(),
        span_id,
        agent_id,
        trace_id,
        severity: None,
        kind,
    }
}

/// Build a fully-formed [`ObservabilityEvent`] for `kind` belonging to
/// `conversation_id`, stamped with the next tick, the current wall time and
/// the active span.
pub fn build_event(ticks: &mut SequenceCounter, conversation_id: &str, kind: EventKind) -> (event:
    ObservabilityEvent)
    ensures
        event@ == (crate::event::EventView {
            version: SCHEMA_VERSION,
            occurred_at_millis: event.occurred_at_millis,
            tick: old(ticks)@,
            conversation_id: conversation_id@,
            span_id: event.span_id,
            agent_id: None,
            trace_id: None,
            severity: None,
            kind: kind@,
        }),
        event.span_id != Some(0u64),
        final(ticks)@ == following(old(ticks)@),
{
    build_event_with(ticks, conversation_id, kind, None, None)
}

/// Like [`build_event`], but stamps the actor and the distributed trace that
/// the producer names.
pub fn build_event_with(
    ticks: &mut SequenceCounter,
    conversation_id: &str,
    kind: EventKind,
    agent_id: Option<String>,
    trace_id: Option<u64>,
) -> (event: ObservabilityEvent)
    ensures
        event@ == (crate::event::EventView {
            version: SCHEMA_VERSION,
            occurred_at_millis: event.occurred_at_millis,
            tick: old(ticks)@,
            conversation_id: conversation_id@,
            span_id: event.span_id,
            agent_id: agent_id.deep_view(),
            trace_id,
            severity: None,
            kind: kind@,
        }),
        event.span_id != Some(0u64),
        final(ticks)@ == following(old(ticks)@),
{
    let occurred_at_millis: u64 = now_millis();
    let tick: u64 = next_tick(ticks);
    let span_id = current_span_id();
    stamp_event(conversation_id, kind, occurred_at_millis, tick, span_id, agent_id, trace_id)
}

/// The scalar fields of the `tracing` record of an event, under the names
/// `rig_tap.*`.
#[derive(Debug, Clone, Copy)]
pub struct RecordFields<'a> {
    /// `rig_tap.version`: schema version.
    pub version: u32,
    /// `rig_tap.kind`: wire name of the payload variant.
    pub kind: &'static str,
    /// `rig_tap.conversation_id`: join key for multi-event traces.
    pub conversation_id: &'a str,
    /// `rig_tap.tick`: monotonic per-process sequence.
    pub tick: u64,
    /// `rig_tap.occurred_at_millis`: UNIX epoch milliseconds.
    pub occurred_at_millis: u64,
    /// `rig_tap.span_id`: numeric `tracing::Span` id, `0` where no span was
    /// active.
    pub span_id: u64,
    /// `rig_tap.agent_id`: actor identifier, empty where absent.
    pub agent_id: &'a str,
    /// Per-variant correlators, empty where absent.
    pub scalars: ScalarFields<'a>,
}

/// The number under which a span id is recorded, with absence as `0`.
pub open spec fn recorded_span(span_id: Option<u64>) -> u64 {
    match span_id {
        Some(id) => id,
        None => 0,
    }
}

/// Collects the scalar fields under which `event` is recorded.
pub fn record_fields(event: &ObservabilityEvent) -> (fields: RecordFields<'_>)
    ensures
        fields.version == event.version,
        fields.kind@ == event.kind@.discriminant(),
        fields.conversation_id@ == event.conversation_id@,
        fields.tick == event.tick,
        fields.occurred_at_millis == event.occurred_at_millis,
        fields.span_id == recorded_span(event.span_id),
        fields.agent_id@ == crate::event::or_empty(event.agent_id.deep_view()),
        fields.scalars@ == event.kind@.scalars(),
{
    let span_id: u64 = match event.span_id {
        Some(id) => id,
        None => 0,
    };
    RecordFields {
        version: event.version,
        kind: event.kind.discriminant(),
        conversation_id: event.conversation_id.as_str(),
        tick: event.tick,
        occurred_at_millis: event.occurred_at_millis,
        span_id,
        agent_id: crate::event::str_or_empty(&event.agent_id),
        scalars: event.kind.scalar_fields(),
    }
}

/// The recorded span id `0` stands for absence alone: for an event whose span
/// id is not zero, as on every event that is stamped with the active span, the
/// span can be read back from the record.
pub proof fn lemma_span_zero_means_absent(span_id: Option<u64>)
    requires
        span_id != Some(0u64),
    ensures
        recorded_span(span_id) == 0 <==> span_id is None,
        span_id is Some ==> recorded_span(span_id) == span_id->0,
{
}

} // verus!
