use rig_tap::clock::{elapsed_millis, epoch_millis, millis_between, saturate_millis};
use rig_tap::{
    build_event, build_event_with, current_span_id, next_tick, now_millis, record_fields, Error,
    ErrorClass, EventKind, EventVisitor, ObservabilityEvent, SequenceCounter, EVENT_TARGET,
    SCHEMA_VERSION,
};
use tracing::callsite::{Callsite, Identifier};
use tracing::field::FieldSet;
use tracing::metadata::Kind;
use tracing::subscriber::Interest;
use tracing::{Level, Metadata, Span};

fn started() -> EventKind {
    EventKind::PromptStarted {
        model: "m".into(),
        messages_in: 0,
        temperature: None,
        top_p: None,
        max_tokens: None,
    }
}

#[test]
fn tick_is_monotonic() {
    let mut ticks = SequenceCounter::new();
    let a = next_tick(&mut ticks);
    let b = next_tick(&mut ticks);
    assert!(b > a);
}

#[test]
fn build_event_stamps_envelope() {
    let mut ticks = SequenceCounter::new();
    let evt = build_event(&mut ticks, "c", started());
    assert_eq!(evt.version, SCHEMA_VERSION);
    assert_eq!(evt.conversation_id, "c");
    // occurred_at_millis is 0 only if the system clock is broken; in tests
    // it should always be a positive value.
    assert!(evt.occurred_at_millis > 0);
}

#[test]
fn ticks_are_monotonic_across_events() {
    let mut ticks = SequenceCounter::new();
    let mut events: Vec<ObservabilityEvent> = Vec::new();
    for i in 0..5 {
        events.push(build_event(
            &mut ticks,
            "conv",
            EventKind::MemoryDemoted {
                demoted_count: i,
                tags: vec![],
            },
        ));
    }
    assert_eq!(events.len(), 5);
    for window in events.windows(2) {
        assert!(
            window[1].tick > window[0].tick,
            "ticks must be monotonic; got {:?} then {:?}",
            window[0].tick,
            window[1].tick,
        );
    }
}

#[test]
fn build_event_with_stamps_actor_and_trace() {
    let mut ticks = SequenceCounter::new();
    let evt = build_event_with(&mut ticks, "c", started(), Some("planner".into()), Some(7));
    assert_eq!(evt.agent_id.as_deref(), Some("planner"));
    assert_eq!(evt.trace_id, Some(7));
    assert_eq!(evt.severity, None);
    assert_eq!(evt.tick, 0);
    let fields = record_fields(&evt);
    assert_eq!(fields.agent_id, "planner");
}

#[test]
fn wall_clock_is_past_the_epoch() {
    // 2020-01-01T00:00:00Z
    assert!(now_millis() > 1_577_836_800_000);
}

#[test]
fn no_span_is_active_without_a_subscriber() {
    assert_eq!(current_span_id(), None);
}

struct Site;

impl Callsite for Site {
    fn set_interest(&self, _interest: Interest) {}

    fn metadata(&self) -> &Metadata<'_> {
        &SITE_METADATA
    }
}

static SITE: Site = Site;

static SITE_METADATA: Metadata<'static> = Metadata::new(
    "work",
    "emit_test",
    Level::INFO,
    None,
    None,
    None,
    FieldSet::new(&[], Identifier(&SITE)),
    Kind::SPAN,
);

#[test]
fn active_span_is_stamped_and_recorded() {
    tracing::subscriber::with_default(tracing_subscriber::registry(), || {
        let span = Span::new(&SITE_METADATA, &SITE_METADATA.fields().value_set(&[]));
        let id = span.id().map(|id| id.into_u64());
        assert!(id.is_some());
        assert_eq!(current_span_id(), None);
        span.in_scope(|| {
            assert_eq!(current_span_id(), id);
            let mut ticks = SequenceCounter::new();
            let evt = build_event(&mut ticks, "c", started());
            assert_eq!(evt.span_id, id);
            assert_eq!(Some(record_fields(&evt).span_id), id);
        });
    });
}

#[test]
fn elapsed_time_is_counted_in_milliseconds() {
    let started_at = std::time::Instant::now();
    let pause = std::time::Duration::from_millis(20);
    while started_at.elapsed() < pause {}
    let elapsed = elapsed_millis(&started_at);
    assert!((20..20_000).contains(&elapsed), "{elapsed}");
}

#[test]
fn readings_saturate() {
    assert_eq!(saturate_millis(u128::MAX), u64::MAX);
    assert_eq!(saturate_millis(7), 7);
    assert_eq!(epoch_millis(None), 0);
    assert_eq!(epoch_millis(Some(u64::MAX as u128 + 1)), u64::MAX);
}

#[test]
fn record_fields_mirror_the_envelope() {
    let mut event = ObservabilityEvent::new(
        "conv",
        EventKind::ToolFailed {
            tool_name: "search".into(),
            call_id: "call-1".into(),
            error_class: ErrorClass::Timeout,
            message: "slow".into(),
        },
    );
    event.tick = 9;
    event.occurred_at_millis = 1_715_000_000_000;
    event.span_id = Some(42);
    let fields = record_fields(&event);
    assert_eq!(fields.version, SCHEMA_VERSION);
    assert_eq!(fields.kind, "tool.failed");
    assert_eq!(fields.conversation_id, "conv");
    assert_eq!(fields.tick, 9);
    assert_eq!(fields.occurred_at_millis, 1_715_000_000_000);
    assert_eq!(fields.span_id, 42);
    assert_eq!(fields.agent_id, "");
    assert_eq!(fields.scalars.tool_name, "search");
    assert_eq!(fields.scalars.call_id, "call-1");
    assert_eq!(fields.scalars.error_class, "timeout");
    assert_eq!(fields.scalars.model, "");
}

#[test]
fn error_kind_is_stable() {
    let inner = serde_json::from_str::<serde_json::Value>("{").unwrap_err();
    let error = Error::from(inner);
    assert_eq!(error.kind(), "serialize");
    assert!(matches!(error, Error::Serialize(_)));
}

#[test]
fn visitor_prefers_the_string_field() {
    let mut visitor = EventVisitor::new();
    visitor.record_debug("event", "\"rendered\"");
    visitor.record_str("other", "ignored");
    visitor.record_str("event", "plain");
    visitor.record_debug("event", "\"late\"");
    assert_eq!(visitor.finish(EVENT_TARGET).as_deref(), Some("plain"));
}

#[test]
fn visitor_falls_back_to_the_rendering() {
    let mut visitor = EventVisitor::new();
    visitor.record_debug("message", "x");
    visitor.record_debug("event", "{}");
    assert_eq!(visitor.finish("rig_tap").as_deref(), Some("{}"));
}

#[test]
fn visitor_ignores_other_targets() {
    let mut visitor = EventVisitor::new();
    visitor.record_str("event", "{}");
    assert_eq!(visitor.finish("rig"), None);
    assert_eq!(EventVisitor::new().finish(EVENT_TARGET), None);
}

#[test]
fn instants_are_apart_by_whole_milliseconds() {
    let start = std::time::Instant::now();
    let after = |micros: u64| start + std::time::Duration::from_micros(micros);
    assert_eq!(millis_between(start, start), 0);
    assert_eq!(millis_between(start, after(999)), 0);
    assert_eq!(millis_between(start, after(1_234_567)), 1_234);
    assert_eq!(millis_between(after(5_000), start), 0);
}
