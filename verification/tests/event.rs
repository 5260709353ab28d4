use rig_tap::wire_kinds::{decode_kind, encode_kind, kind_with_number};
use rig_tap::{
    decode_event, encode_event, ErrorClass, EventKind, Float64, ObservabilityEvent, Severity,
    WireNumber, WireValue, SCHEMA_VERSION,
};
use serde_json::{Number, Value};

fn double(value: f64) -> Float64 {
    Float64::from_bits(value.to_bits())
}

fn value_to_json(value: &WireValue) -> Value {
    match value {
        WireValue::Null | WireValue::Other => Value::Null,
        WireValue::Flag(flag) => Value::Bool(*flag),
        WireValue::Number(WireNumber {
            unsigned: Some(n), ..
        }) => Value::Number(Number::from(*n)),
        WireValue::Number(WireNumber { double, .. }) => double
            .and_then(|d| Number::from_f64(f64::from_bits(d.to_bits())))
            .map_or(Value::Null, Value::Number),
        WireValue::Text(text) => Value::String(text.clone()),
        WireValue::Texts(texts) => {
            Value::Array(texts.iter().cloned().map(Value::String).collect())
        }
        WireValue::NullMember(name) => object_of(name, Value::Null),
        WireValue::EmptyMember(name) => object_of(name, Value::Object(serde_json::Map::new())),
    }
}

fn object_of(name: &str, member: Value) -> Value {
    let mut object = serde_json::Map::new();
    object.insert(name.to_owned(), member);
    Value::Object(object)
}

fn value_from_json(value: &Value) -> WireValue {
    match value {
        Value::Null => WireValue::Null,
        Value::Bool(flag) => WireValue::Flag(*flag),
        Value::Number(n) => WireValue::Number(WireNumber {
            unsigned: n.as_u64(),
            double: n.as_f64().map(double),
        }),
        Value::String(text) => WireValue::Text(text.clone()),
        Value::Array(items) => items
            .iter()
            .map(|item| item.as_str().map(String::from))
            .collect::<Option<Vec<String>>>()
            .map_or(WireValue::Other, WireValue::Texts),
        Value::Object(members) => match members.iter().next() {
            Some((name, member)) if members.len() == 1 => match member {
                Value::Null => WireValue::NullMember(name.clone()),
                Value::Object(inner) if inner.is_empty() => WireValue::EmptyMember(name.clone()),
                _ => WireValue::Other,
            },
            _ => WireValue::Other,
        },
    }
}

fn fields_to_json(fields: &[(String, WireValue)]) -> serde_json::Map<String, Value> {
    fields
        .iter()
        .map(|(key, value)| (key.clone(), value_to_json(value)))
        .collect()
}

fn fields_from_json(json: &Value) -> Vec<(String, WireValue)> {
    json.as_object()
        .unwrap()
        .iter()
        .map(|(key, value)| (key.clone(), value_from_json(value)))
        .collect()
}

fn event_to_json(event: &ObservabilityEvent) -> Value {
    Value::Object(fields_to_json(&encode_event(event)))
}

fn event_from_json(json: &Value) -> Option<ObservabilityEvent> {
    decode_event(&fields_from_json(json))
}

fn kind_to_json(kind: &EventKind) -> Value {
    let mut object = fields_to_json(&encode_kind(kind));
    object.insert("kind".into(), kind.discriminant().into());
    Value::Object(object)
}

fn kind_from_json(json: &Value) -> Option<EventKind> {
    decode_kind(json["kind"].as_str()?, &fields_from_json(json))
}

#[test]
fn envelope_serializes_flat() {
    let event = ObservabilityEvent {
        version: SCHEMA_VERSION,
        occurred_at_millis: 1715000000000,
        tick: 42,
        conversation_id: "thread-1".into(),
        span_id: None,
        agent_id: None,
        trace_id: None,
        severity: Some(Severity::Info),
        kind: EventKind::PromptStarted {
            model: "gpt-4o".into(),
            messages_in: 3,
            temperature: None,
            top_p: None,
            max_tokens: None,
        },
    };

    let json = event_to_json(&event);
    assert_eq!(json["kind"], "prompt.started");
    assert_eq!(json["model"], "gpt-4o");
    assert_eq!(json["messages_in"], 3);
    assert_eq!(json["tick"], 42);
    assert_eq!(json["severity"], "info");
    assert_eq!(json["version"], SCHEMA_VERSION);
    // Absent envelope correlators must not serialize as `null` keys.
    let obj = json.as_object().unwrap();
    assert!(!obj.contains_key("span_id"));
    assert!(!obj.contains_key("agent_id"));
    assert!(!obj.contains_key("trace_id"));
    assert!(!obj.contains_key("temperature"));

    // Round-trip.
    let parsed = event_from_json(&json).unwrap();
    assert_eq!(parsed, event);
}

#[test]
fn envelope_carries_agent_and_trace_correlators() {
    let event = ObservabilityEvent {
        version: SCHEMA_VERSION,
        occurred_at_millis: 1715000000000,
        tick: 7,
        conversation_id: "thread-1".into(),
        span_id: Some(99),
        agent_id: Some("planner".into()),
        trace_id: Some(0xABCD),
        severity: None,
        kind: EventKind::PromptStarted {
            model: "gpt-4o".into(),
            messages_in: 1,
            temperature: Some(double(0.7)),
            top_p: Some(double(1.0)),
            max_tokens: Some(100),
        },
    };

    let json = event_to_json(&event);
    assert_eq!(json["agent_id"], "planner");
    assert_eq!(json["trace_id"], 0xABCD);
    assert_eq!(json["span_id"], 99);
    assert_eq!(json["temperature"], 0.7);

    let parsed = event_from_json(&json).unwrap();
    assert_eq!(parsed, event);
}

#[test]
fn optional_latency_and_economics_fields_omitted_when_none() {
    // Optional fields that are `None` are absent keys, not `null`.
    let kind = EventKind::PromptCompleted {
        model: "gpt-4o".into(),
        tokens_in: Some(10),
        tokens_out: Some(20),
        cached_tokens_in: None,
        reasoning_tokens: None,
        cost_usd: None,
        finish_reason: None,
        response_id: None,
        previous_response_id: None,
        time_to_first_token_ms: None,
        duration_ms: None,
    };

    let json = kind_to_json(&kind);
    let obj = json.as_object().unwrap();
    for absent in [
        "cached_tokens_in",
        "reasoning_tokens",
        "cost_usd",
        "finish_reason",
        "response_id",
        "previous_response_id",
        "time_to_first_token_ms",
        "duration_ms",
    ] {
        assert!(
            !obj.contains_key(absent),
            "{absent} must be omitted when None"
        );
    }
    assert_eq!(obj["tokens_in"], 10);
    assert_eq!(obj["tokens_out"], 20);

    let parsed = kind_from_json(&json).unwrap();
    assert_eq!(parsed, kind);
}

#[test]
fn optional_latency_and_economics_fields_present_when_set() {
    let kind = EventKind::PromptCompleted {
        model: "gpt-4o".into(),
        tokens_in: Some(10),
        tokens_out: Some(20),
        cached_tokens_in: Some(4),
        reasoning_tokens: Some(8),
        cost_usd: Some(double(0.0123)),
        finish_reason: Some("stop".into()),
        response_id: None,
        previous_response_id: None,
        time_to_first_token_ms: Some(180),
        duration_ms: Some(742),
    };

    let json = kind_to_json(&kind);
    assert_eq!(json["cached_tokens_in"], 4);
    assert_eq!(json["reasoning_tokens"], 8);
    assert_eq!(json["cost_usd"], 0.0123);
    assert_eq!(json["finish_reason"], "stop");
    assert_eq!(json["time_to_first_token_ms"], 180);
    assert_eq!(json["duration_ms"], 742);

    let parsed = kind_from_json(&json).unwrap();
    assert_eq!(parsed, kind);
}

#[test]
fn all_discriminants_round_trip() {
    let kinds = [
        EventKind::PromptStarted {
            model: "m".into(),
            messages_in: 1,
            temperature: None,
            top_p: None,
            max_tokens: None,
        },
        EventKind::PromptCompleted {
            model: "m".into(),
            tokens_in: Some(10),
            tokens_out: Some(20),
            cached_tokens_in: Some(5),
            reasoning_tokens: Some(7),
            cost_usd: Some(double(0.01)),
            finish_reason: Some("stop".into()),
            response_id: Some("r".into()),
            previous_response_id: Some("r_prev".into()),
            time_to_first_token_ms: Some(120),
            duration_ms: Some(450),
        },
        EventKind::PromptFailed {
            model: "m".into(),
            error_class: ErrorClass::Timeout,
            message: "timed out".into(),
            retriable: true,
            provider_error_code: Some("408".into()),
            http_status: Some(408),
        },
        EventKind::ToolInvoked {
            tool_name: "t".into(),
            provider_call_id: None,
            call_id: "c".into(),
            args_json: "{}".into(),
            truncated: false,
        },
        EventKind::ToolCompleted {
            tool_name: "t".into(),
            provider_call_id: None,
            call_id: "c".into(),
            result: "ok".into(),
            truncated: false,
            duration_ms: Some(30),
        },
        EventKind::ToolFailed {
            tool_name: "t".into(),
            call_id: "c".into(),
            error_class: ErrorClass::Validation,
            message: "bad args".into(),
        },
        EventKind::ToolSkipped {
            tool_name: "t".into(),
            call_id: "c".into(),
            reason: "policy".into(),
        },
        EventKind::ToolTerminated {
            tool_name: "t".into(),
            call_id: "c".into(),
            reason: "abort".into(),
        },
        EventKind::ContextSampled {
            message_count: 5,
            byte_size: 1024,
            token_estimate: None,
        },
        EventKind::ContextCompacted {
            evicted_count: 3,
            evicted_bytes: 200,
            carry_over: false,
            summary_bytes: 80,
        },
        EventKind::MemoryDemoted {
            demoted_count: 2,
            tags: vec!["t".into()],
        },
        EventKind::MemoryFrameWritten {
            frame_kind: "summary".into(),
            frame_count_after: Some(7),
            bytes_written: 42,
        },
        EventKind::ComposeKernelStart {
            kernel_id: "k".into(),
            skills_registered: Some(2),
            tools_registered: Some(3),
        },
        EventKind::ComposeKernelShutdown {
            kernel_id: "k".into(),
            reason: "normal".into(),
        },
        EventKind::ComposeLoopIteration {
            kernel_id: "k".into(),
            iteration: 1,
            skill_id: Some("skill".into()),
            confidence: Some(double(0.5)),
        },
        EventKind::ComposeSkillResolved {
            kernel_id: "k".into(),
            skill_id: "skill".into(),
            applies: true,
            delta: Some(double(0.25)),
            confidence: Some(double(0.75)),
        },
        EventKind::ComposeRetryAttempt {
            kernel_id: "k".into(),
            target: "tool".into(),
            attempt: 2,
            classification: "transient".into(),
        },
        EventKind::ComposeRecovery {
            kernel_id: "k".into(),
            reason: "retry_exhausted".into(),
            recovered: false,
        },
        EventKind::ToolHostedInvoked {
            tool_name: "web_search".into(),
            provider_call_id: Some("call_abc".into()),
            call_id: "hc".into(),
            response_id: Some("resp_1".into()),
            args_json: "{\"q\":\"x\"}".into(),
            truncated: false,
        },
        EventKind::ToolHostedCompleted {
            tool_name: "web_search".into(),
            provider_call_id: Some("call_abc".into()),
            call_id: "hc".into(),
            response_id: Some("resp_1".into()),
            status: Some("completed".into()),
            result: "".into(),
            truncated: false,
            duration_ms: None,
        },
        EventKind::ResponseSessionStarted {
            model: "gpt-4o".into(),
            session_id: "sess-1".into(),
        },
        EventKind::ResponseTurnStarted {
            session_id: "sess-1".into(),
            previous_response_id: Some("resp_0".into()),
        },
        EventKind::ResponseTurnCompleted {
            session_id: "sess-1".into(),
            response_id: "resp_1".into(),
            previous_response_id: Some("resp_0".into()),
            status: "completed".into(),
            tokens_in: Some(10),
            tokens_out: Some(20),
            hosted_tool_calls: 2,
            duration_ms: None,
        },
        EventKind::ResponseSessionEnded {
            session_id: "sess-1".into(),
            reason: "client_close".into(),
        },
        EventKind::EvalReport {
            report_id: "run-2026-05-27".into(),
            dataset: "beir/scifact".into(),
            metric: "ndcg@10".into(),
            value: double(0.512),
            ci_low: Some(double(0.487)),
            ci_high: Some(double(0.538)),
            baseline_value: Some(double(0.498)),
            delta: Some(double(0.014)),
            verdict: Some("improved".into()),
            sample_size: Some(300),
        },
    ];

    for kind in kinds {
        let discriminant = kind.discriminant();
        let evt = ObservabilityEvent::new("c", kind.clone());
        let json = event_to_json(&evt);
        assert_eq!(json["kind"], discriminant);
        let back = event_from_json(&json).unwrap();
        assert_eq!(back.kind, kind);
    }
}

#[test]
fn compose_events_are_classified() {
    let event = EventKind::ComposeLoopIteration {
        kernel_id: "kernel".into(),
        iteration: 4,
        skill_id: None,
        confidence: None,
    };

    assert!(event.is_compose_related());
    assert!(!event.is_prompt_related());
    assert!(!event.is_tool_related());
    assert!(!event.is_memory_related());
}

#[test]
fn hosted_tool_events_are_tool_related() {
    let invoked = EventKind::ToolHostedInvoked {
        tool_name: "web_search".into(),
        provider_call_id: None,
        call_id: "hc".into(),
        response_id: None,
        args_json: String::new(),
        truncated: false,
    };
    assert!(invoked.is_tool_related());
    assert!(!invoked.is_response_lifecycle_related());
    assert_eq!(invoked.tool_call_id(), Some("hc"));
}

#[test]
fn response_lifecycle_events_are_classified() {
    let started = EventKind::ResponseSessionStarted {
        model: "gpt-4o".into(),
        session_id: "sess-1".into(),
    };
    assert!(started.is_response_lifecycle_related());
    assert!(!started.is_tool_related());
    assert!(!started.is_prompt_related());
    assert!(!started.is_memory_related());
    assert!(!started.is_compose_related());
}

#[test]
fn turn_completed_surfaces_response_ids_as_scalars() {
    let evt = EventKind::ResponseTurnCompleted {
        session_id: "sess-1".into(),
        response_id: "resp_1".into(),
        previous_response_id: Some("resp_0".into()),
        status: "completed".into(),
        tokens_in: None,
        tokens_out: None,
        hosted_tool_calls: 0,
        duration_ms: None,
    };
    let fields = evt.scalar_fields();
    assert_eq!(fields.response_id, "resp_1");
    assert_eq!(fields.previous_response_id, "resp_0");
}

#[test]
fn prompt_completed_omits_previous_response_id_when_none() {
    let evt = ObservabilityEvent::new(
        "c",
        EventKind::PromptCompleted {
            model: "m".into(),
            tokens_in: None,
            tokens_out: None,
            cached_tokens_in: None,
            reasoning_tokens: None,
            cost_usd: None,
            finish_reason: None,
            response_id: None,
            previous_response_id: None,
            time_to_first_token_ms: None,
            duration_ms: None,
        },
    );
    let json = event_to_json(&evt);
    assert!(json.get("previous_response_id").is_none());
    assert!(json.get("response_id").is_none());
}

#[test]
fn turn_completed_omits_zero_hosted_tool_calls() {
    let evt = ObservabilityEvent::new(
        "c",
        EventKind::ResponseTurnCompleted {
            session_id: "sess-1".into(),
            response_id: "resp_1".into(),
            previous_response_id: None,
            status: "completed".into(),
            tokens_in: None,
            tokens_out: None,
            hosted_tool_calls: 0,
            duration_ms: None,
        },
    );
    let json = event_to_json(&evt);
    assert!(json.get("hosted_tool_calls").is_none());
}

#[test]
fn prompt_completed_round_trips_without_previous_response_id() {
    // Older producers do not write `previous_response_id`.
    let legacy: Value = serde_json::from_str(
        r#"{
            "version": 1,
            "occurred_at_millis": 0,
            "tick": 0,
            "conversation_id": "c",
            "kind": "prompt.completed",
            "model": "m"
        }"#,
    )
    .unwrap();
    let parsed = event_from_json(&legacy).unwrap();
    match parsed.kind {
        EventKind::PromptCompleted {
            previous_response_id,
            response_id,
            ..
        } => {
            assert!(previous_response_id.is_none());
            assert!(response_id.is_none());
        }
        other => panic!("unexpected kind: {other:?}"),
    }
}

#[test]
fn eval_report_surfaces_scalars_and_classifies() {
    let evt = EventKind::EvalReport {
        report_id: "run-1".into(),
        dataset: "beir/scifact".into(),
        metric: "ndcg@10".into(),
        value: double(0.5),
        ci_low: Some(double(0.48)),
        ci_high: Some(double(0.52)),
        baseline_value: Some(double(0.49)),
        delta: Some(double(0.01)),
        verdict: Some("improved".into()),
        sample_size: Some(300),
    };
    assert!(evt.is_eval_related());
    assert!(!evt.is_prompt_related());
    assert!(!evt.is_tool_related());
    assert!(!evt.is_memory_related());
    assert!(!evt.is_compose_related());
    assert!(!evt.is_response_lifecycle_related());

    let fields = evt.scalar_fields();
    assert_eq!(fields.dataset, "beir/scifact");
    assert_eq!(fields.metric, "ndcg@10");
    assert_eq!(fields.verdict, "improved");
}

#[test]
fn eval_report_omits_optional_fields_when_none() {
    let evt = ObservabilityEvent::new(
        "c",
        EventKind::EvalReport {
            report_id: "run-1".into(),
            dataset: "beir/scifact".into(),
            metric: "recall@100".into(),
            value: double(0.91),
            ci_low: None,
            ci_high: None,
            baseline_value: None,
            delta: None,
            verdict: None,
            sample_size: None,
        },
    );
    let json = event_to_json(&evt);
    assert_eq!(json["kind"], "eval.report");
    assert!(json.get("ci_low").is_none());
    assert!(json.get("ci_high").is_none());
    assert!(json.get("baseline_value").is_none());
    assert!(json.get("delta").is_none());
    assert!(json.get("verdict").is_none());
    assert!(json.get("sample_size").is_none());
}

#[test]
fn every_other_variant_round_trips() {
    let kinds = [
        EventKind::MemoryDemoted {
            demoted_count: 0,
            tags: vec![],
        },
        EventKind::ToolFailed {
            tool_name: "t".into(),
            call_id: "c".into(),
            error_class: ErrorClass::Unknown,
            message: String::new(),
        },
        EventKind::ComposeSkillResolved {
            kernel_id: "k".into(),
            skill_id: "s".into(),
            applies: false,
            delta: None,
            confidence: None,
        },
        EventKind::ContextPersisted {
            message_count: 4,
            byte_size: 99,
        },
        EventKind::EmbeddingCompleted {
            model: "e".into(),
            documents: 2,
            tokens_in: Some(u64::MAX),
            duration_ms: None,
        },
        EventKind::RetrievalQueried {
            queries: vec!["a".into(), "".into()],
            top_k: Some(3),
            results: 1,
            duration_ms: Some(7),
        },
        EventKind::RetrievalQueried {
            queries: vec![],
            top_k: None,
            results: 0,
            duration_ms: None,
        },
        EventKind::RerankCompleted {
            model: "r".into(),
            documents_in: 9,
            documents_out: 3,
            duration_ms: Some(1),
        },
    ];
    for kind in kinds {
        let event = ObservabilityEvent::new("c", kind.clone());
        assert_eq!(decode_event(&encode_event(&event)), Some(event.clone()));
        assert_eq!(event_from_json(&event_to_json(&event)), Some(event));
    }
}

#[test]
fn unknown_fields_and_nulls_are_tolerated() {
    let json: Value = serde_json::from_str(
        r#"{
            "future": {"nested": [1, 2]},
            "model": "m",
            "messages_in": 3,
            "temperature": null,
            "kind": "prompt.started",
            "span_id": null,
            "conversation_id": "c",
            "tick": 1,
            "occurred_at_millis": 2,
            "version": 9
        }"#,
    )
    .unwrap();
    let event = event_from_json(&json).unwrap();
    assert_eq!(event.version, 9);
    assert_eq!(event.tick, 1);
    assert_eq!(event.occurred_at_millis, 2);
    assert_eq!(event.span_id, None);
    assert_eq!(
        event.kind,
        EventKind::PromptStarted {
            model: "m".into(),
            messages_in: 3,
            temperature: None,
            top_p: None,
            max_tokens: None,
        }
    );
}

#[test]
fn malformed_events_are_refused() {
    let whole = r#"{"version":1,"occurred_at_millis":0,"tick":0,"conversation_id":"c","kind":"prompt.started","model":"m","messages_in":3}"#;
    let json: Value = serde_json::from_str(whole).unwrap();
    assert!(event_from_json(&json).is_some());
    for key in [
        "version",
        "occurred_at_millis",
        "tick",
        "conversation_id",
        "kind",
        "model",
        "messages_in",
    ] {
        let mut object = json.as_object().unwrap().clone();
        object.remove(key);
        assert!(event_from_json(&Value::Object(object)).is_none(), "without {key}");
    }
    for (key, wrong) in [
        ("version", "4294967296"),
        ("tick", "-1"),
        ("tick", "1.5"),
        ("conversation_id", "7"),
        ("kind", "\"prompt.unheard_of\""),
        ("model", "null"),
        ("severity", "\"loud\""),
        ("span_id", "\"x\""),
        ("temperature", "\"warm\""),
    ] {
        let mut object = json.as_object().unwrap().clone();
        object.insert(key.into(), serde_json::from_str(wrong).unwrap());
        assert!(
            event_from_json(&Value::Object(object)).is_none(),
            "{key} as {wrong}"
        );
    }
}

#[test]
fn labels_are_stable() {
    let severities = [
        (Severity::Trace, "trace"),
        (Severity::Debug, "debug"),
        (Severity::Info, "info"),
        (Severity::Warn, "warn"),
        (Severity::Error, "error"),
        (Severity::Fatal, "fatal"),
    ];
    for (severity, label) in severities {
        assert_eq!(severity.as_str(), label);
    }
    let classes = [
        (ErrorClass::Timeout, "timeout"),
        (ErrorClass::RateLimit, "rate_limit"),
        (ErrorClass::Auth, "auth"),
        (ErrorClass::Transport, "transport"),
        (ErrorClass::Validation, "validation"),
        (ErrorClass::ProviderServer, "provider_server"),
        (ErrorClass::Cancelled, "cancelled"),
        (ErrorClass::Unknown, "unknown"),
    ];
    for (class, label) in classes {
        assert_eq!(class.as_str(), label);
    }
}

#[test]
fn failures_are_classified() {
    let failed = EventKind::ToolFailed {
        tool_name: "t".into(),
        call_id: "c".into(),
        error_class: ErrorClass::Auth,
        message: String::new(),
    };
    assert!(failed.is_failure_related());
    assert!(failed.is_tool_related());
    assert!(!failed.is_retrieval_related());
    assert_eq!(failed.tool_call_id(), Some("c"));
    assert_eq!(failed.scalar_fields().error_class, "auth");
    let sampled = EventKind::ContextSampled {
        message_count: 0,
        byte_size: 0,
        token_estimate: None,
    };
    assert!(!sampled.is_failure_related());
    assert!(sampled.is_memory_related());
    assert_eq!(sampled.tool_call_id(), None);
}

#[test]
fn field_names_of_an_event_differ_and_none_is_null() {
    let mut event = ObservabilityEvent::new(
        "c",
        EventKind::PromptCompleted {
            model: "m".into(),
            tokens_in: Some(1),
            tokens_out: None,
            cached_tokens_in: Some(2),
            reasoning_tokens: None,
            cost_usd: Some(double(0.5)),
            finish_reason: Some("stop".into()),
            response_id: None,
            previous_response_id: Some("p".into()),
            time_to_first_token_ms: None,
            duration_ms: Some(3),
        },
    );
    event.severity = Some(Severity::Warn);
    event.trace_id = Some(1);
    let fields = encode_event(&event);
    let mut names: Vec<&str> = fields.iter().map(|(key, _)| key.as_str()).collect();
    assert!(fields.iter().all(|(_, value)| *value != WireValue::Null));
    assert_eq!(names.len(), 14);
    names.sort_unstable();
    names.dedup();
    assert_eq!(names.len(), 14);
}

#[test]
fn field_order_does_not_matter() {
    let event = ObservabilityEvent::new(
        "c",
        EventKind::ToolFailed {
            tool_name: "t".into(),
            call_id: "c".into(),
            error_class: ErrorClass::Cancelled,
            message: "m".into(),
        },
    );
    let mut fields = encode_event(&event);
    fields.reverse();
    assert_eq!(decode_event(&fields), Some(event));
}

fn started_fields() -> Vec<(String, WireValue)> {
    encode_event(&ObservabilityEvent::new(
        "c",
        EventKind::PromptStarted {
            model: "m".into(),
            messages_in: 3,
            temperature: Some(double(0.5)),
            top_p: None,
            max_tokens: None,
        },
    ))
}

fn count(n: u64) -> WireValue {
    WireValue::Number(WireNumber {
        unsigned: Some(n),
        double: None,
    })
}

#[test]
fn repeated_fields_are_refused() {
    let fields = started_fields();
    assert!(decode_event(&fields).is_some());
    for at in 0..fields.len() {
        let key = fields[at].0.clone();
        let mut doubled = started_fields();
        doubled.extend(started_fields().into_iter().skip(at).take(1));
        assert_eq!(decode_event(&doubled), None, "{key} twice");
    }
    let mut ticks = started_fields();
    ticks.retain(|(key, _)| key != "tick");
    ticks.push(("tick".into(), count(1)));
    assert_eq!(decode_event(&ticks).map(|event| event.tick), Some(1));
    ticks.push(("tick".into(), count(2)));
    assert_eq!(decode_event(&ticks), None);
    let mut absent = started_fields();
    absent.push(("top_p".into(), WireValue::Null));
    assert!(decode_event(&absent).is_some());
    absent.push(("top_p".into(), WireValue::Null));
    assert_eq!(decode_event(&absent), None);
}

#[test]
fn repeated_fields_that_an_event_does_not_have_are_ignored() {
    let mut fields = started_fields();
    for key in ["call_id", "call_id", "future", "future"] {
        fields.push((key.into(), count(1)));
    }
    assert_eq!(decode_event(&fields), decode_event(&started_fields()));
    assert!(decode_event(&fields).is_some());
}

fn failed_json(error_class: &str, severity: &str) -> Value {
    let text = format!(
        r#"{{"version":1,"occurred_at_millis":0,"tick":0,"conversation_id":"c",
            "severity":{severity},"kind":"tool.failed","tool_name":"t","call_id":"i",
            "error_class":{error_class},"message":"m"}}"#
    );
    serde_json::from_str(&text).unwrap()
}

#[test]
fn labels_are_read_from_texts_and_from_objects_that_hold_nothing_else() {
    for class in [r#""rate_limit""#, r#"{"rate_limit":null}"#, r#"{"rate_limit":{}}"#] {
        let event = event_from_json(&failed_json(class, "null")).unwrap();
        assert_eq!(
            event.kind,
            EventKind::ToolFailed {
                tool_name: "t".into(),
                call_id: "i".into(),
                error_class: ErrorClass::RateLimit,
                message: "m".into(),
            },
            "{class}"
        );
        assert_eq!(event.severity, None);
    }
    for class in [
        r#"{"heat":null}"#,
        r#"{"rate_limit":1}"#,
        r#"{"rate_limit":null,"auth":null}"#,
        "{}",
        "[]",
        "1",
    ] {
        assert_eq!(event_from_json(&failed_json(class, "null")), None, "{class}");
    }
    for severity in [r#""warn""#, r#"{"warn":null}"#] {
        let event = event_from_json(&failed_json(r#""auth""#, severity)).unwrap();
        assert_eq!(event.severity, Some(Severity::Warn), "{severity}");
    }
    for severity in [r#"{"warn":{}}"#, r#"{"loud":null}"#, "{}", "3"] {
        assert_eq!(event_from_json(&failed_json(r#""auth""#, severity)), None, "{severity}");
    }
}

#[test]
fn kinds_are_read_by_name_and_by_number() {
    let mut fields = started_fields();
    fields.retain(|(key, _)| key != "kind");
    fields.push(("kind".into(), count(0)));
    assert_eq!(decode_event(&fields), decode_event(&started_fields()));
    assert_eq!(kind_with_number(0), Some("prompt.started"));
    assert_eq!(kind_with_number(5), Some("tool.failed"));
    assert_eq!(kind_with_number(28), Some("rerank.completed"));
    assert_eq!(kind_with_number(29), None);
    fields.pop();
    fields.push(("kind".into(), count(29)));
    assert_eq!(decode_event(&fields), None);
    fields.pop();
    fields.push((
        "kind".into(),
        WireValue::Number(WireNumber {
            unsigned: None,
            double: Some(double(0.0)),
        }),
    ));
    assert_eq!(decode_event(&fields), None);
}
