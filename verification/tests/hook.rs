use rig_tap::{
    AlwaysSample, ErrorClass, EventFilter, EventKind, EventQuery, Float64, IdentityRedaction,
    ObservabilityEvent, PromptFailure, PromptUsage, RatePolicy, RedactionPolicy, SamplingPolicy,
    TelemetryHook, TelemetryHookConfig,
};
use std::borrow::Cow;

/// A scrubber that rewrites two known sensitive tokens. Returns
/// `Cow::Owned` only when it actually changes the input, exercising the
/// allocating branch; otherwise borrows through.
#[derive(Debug)]
struct Scrubber;

impl RedactionPolicy for Scrubber {
    fn redact_tool_args<'a>(&self, _tool_name: &str, args_json: &'a str) -> Cow<'a, str> {
        if args_json.contains("secret_token_123") {
            Cow::Owned(args_json.replace("secret_token_123", "[REDACTED]"))
        } else {
            Cow::Borrowed(args_json)
        }
    }

    fn redact_tool_result<'a>(&self, _tool_name: &str, result: &'a str) -> Cow<'a, str> {
        if result.contains("SSN=000-00-0000") {
            Cow::Owned(result.replace("SSN=000-00-0000", "[REDACTED-SSN]"))
        } else {
            Cow::Borrowed(result)
        }
    }
}

#[test]
fn redaction_policy_scrubs_agent_hook_payloads() {
    let hook = TelemetryHook::new(TelemetryHookConfig::new("gpt-4", "conv-redact"))
        .with_redaction_policy(Scrubber);
    let mut emissions = Vec::new();
    emissions.extend(hook.on_tool_call(
        "fetch",
        None,
        "call-1",
        r#"{"token":"secret_token_123"}"#,
        None,
    ));
    emissions.extend(hook.on_tool_result(
        "fetch",
        None,
        "call-1",
        r#"{"data":"SSN=000-00-0000"}"#,
        None,
        None,
    ));
    let events = EventQuery::new(
        emissions
            .into_iter()
            .map(|e| ObservabilityEvent::new(&e.conversation_id, e.kind))
            .collect(),
    );

    let invoked = events.filter(&EventFilter::new().kind("tool.invoked"));
    assert_eq!(invoked.len(), 1, "expected exactly one tool.invoked");
    assert_eq!(invoked[0].conversation_id, "conv-redact");
    match &invoked[0].kind {
        EventKind::ToolInvoked { args_json, .. } => {
            assert_eq!(
                args_json, r#"{"token":"[REDACTED]"}"#,
                "args secret must be scrubbed before emission"
            );
        }
        other => panic!("expected ToolInvoked, got {other:?}"),
    }

    let completed = events.filter(&EventFilter::new().kind("tool.completed"));
    assert_eq!(completed.len(), 1, "expected exactly one tool.completed");
    match &completed[0].kind {
        EventKind::ToolCompleted { result, .. } => {
            assert_eq!(
                result, r#"{"data":"[REDACTED-SSN]"}"#,
                "result secret must be scrubbed before emission"
            );
        }
        other => panic!("expected ToolCompleted, got {other:?}"),
    }
}

fn hook() -> TelemetryHook<AlwaysSample, IdentityRedaction> {
    TelemetryHook::with_defaults("gpt-4", "conv")
}

#[test]
fn prompts_are_reported_with_the_history_length() {
    let started = hook().on_completion_call(2, None).unwrap();
    assert_eq!(started.conversation_id, "conv");
    assert_eq!(
        started.kind,
        EventKind::PromptStarted {
            model: "gpt-4".into(),
            messages_in: 3,
            temperature: None,
            top_p: None,
            max_tokens: None,
        }
    );
    let saturated = hook().on_completion_call(usize::MAX, Some("other".into())).unwrap();
    assert_eq!(saturated.conversation_id, "other");
    assert!(matches!(
        saturated.kind,
        EventKind::PromptStarted { messages_in, .. } if messages_in == usize::MAX
    ));
}

#[test]
fn zero_token_counts_are_absent() {
    let usage = PromptUsage {
        input_tokens: 5,
        output_tokens: 0,
        cached_input_tokens: 2,
        reasoning_tokens: 0,
    };
    let completed = hook()
        .on_completion_response(usage, Some("msg".into()), None, None, Some("prev".into()), Some(9))
        .unwrap();
    assert_eq!(
        completed.kind,
        EventKind::PromptCompleted {
            model: "gpt-4".into(),
            tokens_in: Some(5),
            tokens_out: None,
            cached_tokens_in: Some(2),
            reasoning_tokens: None,
            cost_usd: None,
            finish_reason: None,
            response_id: Some("msg".into()),
            previous_response_id: Some("prev".into()),
            time_to_first_token_ms: None,
            duration_ms: Some(9),
        }
    );
}

#[test]
fn resolvers_win_over_the_configuration() {
    let hook = hook();
    assert_eq!(hook.resolved_model(None), "gpt-4");
    assert_eq!(hook.resolved_model(Some("gpt-5".into())), "gpt-5");
    assert_eq!(hook.resolved_conversation_id(None), "conv");
    assert_eq!(hook.resolved_conversation_id(Some("x".into())), "x");
}

#[test]
fn failures_are_reported_as_given() {
    let failure = PromptFailure {
        error_class: ErrorClass::RateLimit,
        message: "slow down".into(),
        retriable: true,
        provider_error_code: Some("rl".into()),
        http_status: Some(429),
    };
    let failed = hook().observe_prompt_error(&failure, None).unwrap();
    assert_eq!(
        failed.kind,
        EventKind::PromptFailed {
            model: "gpt-4".into(),
            error_class: ErrorClass::RateLimit,
            message: "slow down".into(),
            retriable: true,
            provider_error_code: Some("rl".into()),
            http_status: Some(429),
        }
    );
    let failed = hook()
        .observe_tool_error("t", "c", ErrorClass::Transport, "reset", None)
        .unwrap();
    assert_eq!(
        failed.kind,
        EventKind::ToolFailed {
            tool_name: "t".into(),
            call_id: "c".into(),
            error_class: ErrorClass::Transport,
            message: "reset".into(),
        }
    );
}

#[test]
fn payloads_are_truncated_to_the_configured_limit() {
    let mut config = TelemetryHookConfig::new("m", "c");
    config.payload_truncate_bytes = 4;
    let hook = TelemetryHook::new(config);
    let invoked = hook.on_tool_call("t", Some("p".into()), "c", "abcdef", None).unwrap();
    assert_eq!(
        invoked.kind,
        EventKind::ToolInvoked {
            tool_name: "t".into(),
            provider_call_id: Some("p".into()),
            call_id: "c".into(),
            args_json: "abcd".into(),
            truncated: true,
        }
    );
}

#[test]
fn sampled_out_events_are_not_emitted() {
    let none = RatePolicy::new().with_default_rate(Float64::from_bits(0));
    let hook = hook().with_sampling_policy(none);
    assert!(!hook.should_emit("tool.invoked", "c"));
    assert!(hook.on_tool_call("t", None, "c", "{}", None).is_none());
    assert!(hook.on_completion_call(0, None).is_none());
}

#[test]
fn tool_pairs_are_kept_or_dropped_together() {
    let half = RatePolicy::new().with_default_rate(Float64::from_bits(0.5f64.to_bits()));
    let mut kept = 0;
    for i in 0..64 {
        let id = format!("call-{i}");
        let hook = hook().with_sampling_policy(half.clone());
        let invoked = hook.on_tool_call("t", None, &id, "{}", None).is_some();
        let completed = hook.on_tool_result("t", None, &id, "ok", None, None).is_some();
        assert_eq!(invoked, completed);
        assert_eq!(invoked, half.should_sample("tool.invoked", &id));
        kept += usize::from(invoked);
    }
    assert!(kept > 0 && kept < 64);
}
