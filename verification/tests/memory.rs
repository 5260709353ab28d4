use rig_tap::{
    build_event, CapturingLayer, CountingWriter, EventFilter, EventKind, ObservedMemory,
    SequenceCounter, SCHEMA_VERSION,
};

#[test]
fn observed_memory_emits_context_sampled() {
    let memory = ObservedMemory::new(());
    let mut writer = CountingWriter::new();
    // An empty list is written as "[]".
    assert_eq!(writer.write(b"[]"), 2);
    let emission = memory.on_load("thread-x", 0, writer.finish(true));
    let evt = build_event(
        &mut SequenceCounter::new(),
        &emission.conversation_id,
        emission.kind,
    );
    assert_eq!(evt.version, SCHEMA_VERSION);
    assert_eq!(evt.conversation_id, "thread-x");
    match &evt.kind {
        EventKind::ContextSampled {
            message_count,
            byte_size,
            token_estimate,
        } => {
            assert_eq!(*message_count, 0);
            // empty Vec serializes to "[]" = 2 bytes
            assert!(*byte_size >= 2);
            assert!(token_estimate.is_none());
        }
        other => panic!("expected ContextSampled, got {other:?}"),
    }
}

#[test]
fn wrapped_memory_can_be_taken_back() {
    let memory = ObservedMemory::new(vec![1, 2]);
    assert_eq!(memory.inner(), &vec![1, 2]);
    assert_eq!(memory.into_inner(), vec![1, 2]);
}

#[test]
fn byte_count_does_not_depend_on_the_split() {
    let mut whole = CountingWriter::new();
    whole.write(b"hello world");
    let mut parts = CountingWriter::new();
    parts.write(b"hello");
    parts.write(b"");
    parts.write(b" world");
    assert_eq!(whole.finish(true), 11);
    assert_eq!(parts.finish(true), 11);
}

#[test]
fn failed_serialization_counts_nothing() {
    let mut writer = CountingWriter::new();
    writer.write(b"partial");
    assert_eq!(writer.finish(false), 0);
}

#[test]
fn emit_kind_writes_full_envelope() {
    let mut capture = CapturingLayer::new();
    capture.on_event(build_event(
        &mut SequenceCounter::new(),
        "conv-1",
        EventKind::ContextCompacted {
            evicted_count: 8,
            evicted_bytes: 4096,
            carry_over: true,
            summary_bytes: 512,
        },
    ));
    let events = capture.snapshot();
    assert_eq!(events.len(), 1);
    let evt = &events[0];
    assert_eq!(evt.conversation_id, "conv-1");
    assert!(evt.occurred_at_millis > 0);
    match &evt.kind {
        EventKind::ContextCompacted {
            evicted_count,
            evicted_bytes,
            carry_over,
            summary_bytes,
        } => {
            assert_eq!(*evicted_count, 8);
            assert_eq!(*evicted_bytes, 4096);
            assert!(*carry_over);
            assert_eq!(*summary_bytes, 512);
        }
        other => panic!("expected ContextCompacted, got {other:?}"),
    }
}

#[test]
fn capturing_layer_exposes_query_snapshot() {
    let mut ticks = SequenceCounter::new();
    let mut capture = CapturingLayer::new();
    capture.on_event(build_event(
        &mut ticks,
        "conv-a",
        EventKind::ToolInvoked {
            tool_name: "search".into(),
            provider_call_id: None,
            call_id: "call-a".into(),
            args_json: "{}".into(),
            truncated: false,
        },
    ));
    capture.on_event(build_event(
        &mut ticks,
        "conv-b",
        EventKind::PromptStarted {
            model: "model-b".into(),
            messages_in: 1,
            temperature: None,
            top_p: None,
            max_tokens: None,
        },
    ));

    let query = capture.query();
    let tool_events = query.filter(
        &EventFilter::new()
            .conversation_id("conv-a")
            .kind("tool.invoked")
            .tool_name("search")
            .call_id("call-a"),
    );

    assert_eq!(query.len(), 2);
    assert_eq!(tool_events.len(), 1);
    assert_eq!(query.count_by_kind().get("tool.invoked"), Some(&1));
    assert_eq!(query.conversations(), vec!["conv-a", "conv-b"]);
}

#[test]
fn cleared_layer_starts_over() {
    let mut capture = CapturingLayer::default();
    assert!(capture.is_empty());
    capture.on_event(build_event(
        &mut SequenceCounter::new(),
        "c",
        EventKind::MemoryDemoted {
            demoted_count: 1,
            tags: vec![],
        },
    ));
    let before = capture.snapshot();
    assert_eq!(capture.len(), 1);
    capture.clear();
    assert!(capture.is_empty());
    assert_eq!(before.len(), 1);
}
