use rig_tap::{event_metrics, ErrorClass, EventKind, MetricUpdate, ObservabilityEvent};

#[test]
fn prompt_completed_emits_token_and_latency_series() {
    let event = ObservabilityEvent::new(
        "metrics-conv-1",
        EventKind::PromptCompleted {
            model: "m1".into(),
            tokens_in: Some(42),
            tokens_out: Some(10),
            cached_tokens_in: None,
            reasoning_tokens: None,
            cost_usd: None,
            finish_reason: None,
            response_id: None,
            previous_response_id: None,
            time_to_first_token_ms: Some(100),
            duration_ms: Some(150),
        },
    );

    let mut tokens_in = 0u64;
    let mut tokens_out = 0u64;
    let mut event_count = 0u64;
    let mut saw_ttft = false;
    let mut saw_duration = false;

    for metric in event_metrics(&event).updates {
        match (metric.name, metric.update) {
            ("rig_tap.tokens.in", MetricUpdate::Increment(v)) => tokens_in += v,
            ("rig_tap.tokens.out", MetricUpdate::Increment(v)) => tokens_out += v,
            ("rig_tap.events.count", MetricUpdate::Increment(v)) => event_count += v,
            ("rig_tap.ttft_ms", MetricUpdate::Record(sample)) => saw_ttft = sample == 100,
            ("rig_tap.duration_ms", MetricUpdate::Record(sample)) => saw_duration = sample == 150,
            _ => {}
        }
    }

    assert_eq!(
        tokens_in, 42,
        "tokens.in counter must equal the emitted value"
    );
    assert_eq!(
        tokens_out, 10,
        "tokens.out counter must equal the emitted value"
    );
    assert_eq!(event_count, 1, "exactly one event must be counted");
    assert!(
        saw_ttft,
        "ttft_ms histogram must record the time_to_first_token_ms sample"
    );
    assert!(
        saw_duration,
        "duration_ms histogram must record the duration_ms sample"
    );
}

#[test]
fn failure_event_carries_error_class_label() {
    let event = ObservabilityEvent::new(
        "metrics-conv-2",
        EventKind::PromptFailed {
            model: "m1".into(),
            error_class: ErrorClass::RateLimit,
            message: "429".into(),
            retriable: true,
            provider_error_code: None,
            http_status: Some(429),
        },
    );
    let metrics = event_metrics(&event);
    let labelled = metrics.updates.iter().any(|m| m.name == "rig_tap.events.count")
        && metrics
            .labels
            .iter()
            .any(|l| l.key == "error_class" && l.value == "rate_limit");

    assert!(
        labelled,
        "failure metric must carry the error_class=rate_limit label"
    );
}

#[test]
fn context_samples_record_their_size() {
    let event = ObservabilityEvent::new(
        "c",
        EventKind::ContextSampled {
            message_count: 3,
            byte_size: 120,
            token_estimate: None,
        },
    );
    let updates: Vec<(&str, MetricUpdate)> = event_metrics(&event)
        .updates
        .into_iter()
        .map(|m| (m.name, m.update))
        .collect();
    assert_eq!(
        updates,
        vec![
            ("rig_tap.events.count", MetricUpdate::Increment(1)),
            ("rig_tap.memory.message_count", MetricUpdate::Record(3)),
            ("rig_tap.memory.byte_size", MetricUpdate::Record(120)),
        ]
    );
}

#[test]
fn absent_scalars_give_no_labels() {
    let event = ObservabilityEvent::new(
        "c",
        EventKind::MemoryDemoted {
            demoted_count: 1,
            tags: vec![],
        },
    );
    let metrics = event_metrics(&event);
    assert_eq!(metrics.labels.len(), 1);
    assert_eq!(metrics.labels[0].key, "kind");
    assert_eq!(metrics.labels[0].value, "memory.demoted");
    assert_eq!(metrics.updates.len(), 1);
}
