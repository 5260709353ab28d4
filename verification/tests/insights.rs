use rig_tap::latency::percentile;
use rig_tap::{
    ErrorClass, EventKind, EventQuery, Float64, Insights, LatencySummary, ObservabilityEvent,
    PromptStats, SortedTable, SuccessRate, TokenTotals, ToolOutcome, ToolStats, SCHEMA_VERSION,
};

fn double(value: f64) -> Float64 {
    Float64::from_bits(value.to_bits())
}

fn sum(costs: &[Float64]) -> f64 {
    costs.iter().map(|cost| f64::from_bits(cost.to_bits())).sum()
}

fn ratio(rate: SuccessRate) -> f64 {
    rate.completed as f64 / rate.resolved as f64
}

fn event(tick: u64, conversation_id: &str, kind: EventKind) -> ObservabilityEvent {
    ObservabilityEvent {
        version: SCHEMA_VERSION,
        occurred_at_millis: 1_715_000_000_000 + tick,
        tick,
        conversation_id: conversation_id.into(),
        span_id: None,
        agent_id: None,
        trace_id: None,
        severity: None,
        kind,
    }
}

fn invoked(tick: u64, conv: &str, call_id: &str) -> ObservabilityEvent {
    event(
        tick,
        conv,
        EventKind::ToolInvoked {
            tool_name: "search".into(),
            provider_call_id: None,
            call_id: call_id.into(),
            args_json: "{}".into(),
            truncated: false,
        },
    )
}

fn completed(
    tick: u64,
    conv: &str,
    call_id: &str,
    duration_ms: Option<u64>,
) -> ObservabilityEvent {
    event(
        tick,
        conv,
        EventKind::ToolCompleted {
            tool_name: "search".into(),
            provider_call_id: None,
            call_id: call_id.into(),
            result: "ok".into(),
            truncated: false,
            duration_ms,
        },
    )
}

#[test]
fn latency_summary_percentiles_and_mean() {
    let summary = LatencySummary::from_samples(vec![10, 20, 30, 40, 100]);
    assert_eq!(summary.count, 5);
    assert_eq!(summary.min_ms, Some(10));
    assert_eq!(summary.max_ms, Some(100));
    assert_eq!(summary.mean_ms, Some(40));
    assert_eq!(summary.p50_ms, Some(30));
    assert_eq!(summary.p90_ms, Some(100));
    assert!(!summary.is_empty());
}

#[test]
fn empty_latency_summary_is_empty() {
    let summary = LatencySummary::from_samples(vec![]);
    assert!(summary.is_empty());
    assert_eq!(summary.p50_ms, None);
}

#[test]
fn prompt_stats_sums_tokens_cost_and_finish_reasons() {
    let query = EventQuery::new(vec![
        event(
            1,
            "a",
            EventKind::PromptStarted {
                model: "m".into(),
                messages_in: 1,
                temperature: None,
                top_p: None,
                max_tokens: None,
            },
        ),
        event(
            2,
            "a",
            EventKind::PromptCompleted {
                model: "m".into(),
                tokens_in: Some(100),
                tokens_out: Some(50),
                cached_tokens_in: Some(10),
                reasoning_tokens: Some(5),
                cost_usd: Some(double(0.25)),
                finish_reason: Some("stop".into()),
                response_id: None,
                previous_response_id: None,
                time_to_first_token_ms: Some(120),
                duration_ms: Some(800),
            },
        ),
        event(
            3,
            "a",
            EventKind::PromptFailed {
                model: "m".into(),
                error_class: ErrorClass::RateLimit,
                message: "429".into(),
                retriable: true,
                provider_error_code: None,
                http_status: Some(429),
            },
        ),
    ]);

    let insights = query.insights();
    let stats = insights.prompt_stats();
    assert_eq!(stats.started, 1);
    assert_eq!(stats.completed, 1);
    assert_eq!(stats.failed, 1);
    assert_eq!(stats.tokens.tokens_in, 100);
    assert_eq!(stats.tokens.tokens_out, 50);
    assert_eq!(stats.tokens.cached_tokens_in, 10);
    assert_eq!(stats.tokens.reasoning_tokens, 5);
    assert!((sum(&stats.costs_usd) - 0.25).abs() < f64::EPSILON);
    assert_eq!(stats.finish_reasons.get("stop"), Some(&1));
    assert_eq!(stats.success_rate().map(ratio), Some(0.5));

    assert_eq!(insights.time_to_first_token().p50_ms, Some(120));
    assert_eq!(insights.latency("prompt.completed").p50_ms, Some(800));
    assert_eq!(insights.errors_by_class().get("rate_limit"), Some(&1));
    assert!(
        (sum(insights.cost_by_conversation().get("a").unwrap()) - 0.25).abs()
            < f64::EPSILON
    );
}

#[test]
fn tool_spans_pair_invoke_and_terminal_with_derived_duration() {
    let query = EventQuery::new(vec![
        invoked(1, "a", "call-1"),
        completed(5, "a", "call-1", None),
        invoked(2, "a", "call-2"),
        event(
            6,
            "a",
            EventKind::ToolFailed {
                tool_name: "search".into(),
                call_id: "call-2".into(),
                error_class: ErrorClass::Timeout,
                message: "slow".into(),
            },
        ),
        invoked(3, "a", "call-3"), // pending, no terminal
    ]);

    let insights = query.insights();
    let spans = insights.tool_spans();
    assert_eq!(spans.len(), 3);

    let first = &spans[0];
    assert_eq!(first.call_id, "call-1");
    assert_eq!(first.outcome, ToolOutcome::Completed);
    assert_eq!(first.duration_ms, Some(4)); // derived from millis delta (5 - 1)

    let second = &spans[1];
    assert_eq!(second.call_id, "call-2");
    assert_eq!(
        second.outcome,
        ToolOutcome::Failed {
            error_class: ErrorClass::Timeout
        }
    );

    let third = &spans[2];
    assert_eq!(third.call_id, "call-3");
    assert_eq!(third.outcome, ToolOutcome::Pending);
    assert_eq!(third.end_tick, None);
    assert_eq!(third.duration_ms, None);
}

#[test]
fn tool_completed_explicit_duration_wins_over_derived() {
    let query = EventQuery::new(vec![
        invoked(1, "a", "call-1"),
        completed(5, "a", "call-1", Some(999)),
    ]);
    let spans = query.insights().tool_spans();
    assert_eq!(spans[0].duration_ms, Some(999));
}

#[test]
fn tool_stats_counts_outcomes_and_pending() {
    let query = EventQuery::new(vec![
        invoked(1, "a", "call-1"),
        completed(2, "a", "call-1", None),
        invoked(3, "a", "call-2"),
        event(
            4,
            "a",
            EventKind::ToolSkipped {
                tool_name: "search".into(),
                call_id: "call-2".into(),
                reason: "gated".into(),
            },
        ),
        invoked(5, "a", "call-3"), // pending
    ]);

    let stats = query.insights().tool_stats();
    assert_eq!(stats.invoked, 3);
    assert_eq!(stats.completed, 1);
    assert_eq!(stats.skipped, 1);
    assert_eq!(stats.pending, 1);
    assert_eq!(stats.success_rate().map(ratio), Some(0.5));
}

/// The nearest-rank percentile on doubles.
fn nearest_rank(sorted: &[u64], p: f64) -> Option<u64> {
    if sorted.is_empty() {
        return None;
    }
    let rank = ((p / 100.0) * sorted.len() as f64).ceil() as usize;
    Some(sorted[rank.saturating_sub(1).min(sorted.len() - 1)])
}

#[test]
fn percentiles_match_the_nearest_rank_formula() {
    for len in 0..400u64 {
        let sorted: Vec<u64> = (0..len).map(|i| i * 3).collect();
        for p in [50, 90, 95, 99] {
            assert_eq!(
                percentile(&sorted, p),
                nearest_rank(&sorted, p as f64),
                "p{p} of {len}"
            );
        }
    }
}

#[test]
fn summaries_do_not_depend_on_the_order_of_samples() {
    let summary = LatencySummary::from_samples(vec![7, 1, 9, 3]);
    assert_eq!(summary, LatencySummary::from_samples(vec![9, 7, 3, 1]));
    assert_eq!(summary.count, 4);
    assert_eq!(summary.min_ms, Some(1));
    assert_eq!(summary.max_ms, Some(9));
    assert_eq!(summary.mean_ms, Some(5));
    assert_eq!(summary.p50_ms, Some(3));
    assert_eq!(summary.p99_ms, Some(9));
}

#[test]
fn mean_does_not_overflow() {
    let summary = LatencySummary::from_samples(vec![u64::MAX, u64::MAX]);
    assert_eq!(summary.mean_ms, Some(u64::MAX));
}

#[test]
fn single_sample_is_every_percentile() {
    let summary = LatencySummary::from_samples(vec![12]);
    assert_eq!(
        [summary.p50_ms, summary.p90_ms, summary.p95_ms, summary.p99_ms],
        [Some(12); 4]
    );
}

#[test]
fn hosted_calls_pair_within_their_conversation() {
    let hosted = |tick: u64, conv: &str| {
        event(
            tick,
            conv,
            EventKind::ToolHostedInvoked {
                tool_name: "web_search".into(),
                provider_call_id: None,
                call_id: "ws".into(),
                response_id: None,
                args_json: String::new(),
                truncated: false,
            },
        )
    };
    let done = event(
        9,
        "b",
        EventKind::ToolHostedCompleted {
            tool_name: "web_search".into(),
            provider_call_id: None,
            call_id: "ws".into(),
            response_id: None,
            status: None,
            result: String::new(),
            truncated: false,
            duration_ms: None,
        },
    );
    let events = vec![hosted(1, "a"), hosted(2, "b"), done];
    let spans = Insights::new(&events).tool_spans();
    assert_eq!(spans.len(), 2);
    assert!(spans[0].hosted && spans[1].hosted);
    assert_eq!(spans[0].outcome, ToolOutcome::Pending);
    assert_eq!(spans[1].outcome, ToolOutcome::Completed);
    assert_eq!(spans[1].start_tick, 2);
    assert_eq!(spans[1].end_tick, Some(9));
    assert_eq!(spans[1].duration_ms, Some(7));
}

#[test]
fn skipped_and_terminated_calls_close_their_spans() {
    let query = EventQuery::new(vec![
        invoked(1, "a", "x"),
        event(
            2,
            "a",
            EventKind::ToolTerminated {
                tool_name: "search".into(),
                call_id: "x".into(),
                reason: "stop".into(),
            },
        ),
        invoked(3, "a", "y"),
        event(
            4,
            "a",
            EventKind::ToolSkipped {
                tool_name: "search".into(),
                call_id: "y".into(),
                reason: "no".into(),
            },
        ),
    ]);
    let spans = query.insights().tool_spans();
    assert_eq!(spans[0].outcome, ToolOutcome::Terminated);
    assert_eq!(spans[1].outcome, ToolOutcome::Skipped);
    let stats = query.insights().tool_stats();
    assert_eq!((stats.terminated, stats.skipped, stats.pending), (1, 1, 0));
}

#[test]
fn tool_failures_count_by_class() {
    let failed = |tick: u64, class: ErrorClass| {
        event(
            tick,
            "a",
            EventKind::ToolFailed {
                tool_name: "t".into(),
                call_id: "c".into(),
                error_class: class,
                message: String::new(),
            },
        )
    };
    let query = EventQuery::new(vec![
        failed(1, ErrorClass::Timeout),
        failed(2, ErrorClass::Auth),
        failed(3, ErrorClass::Timeout),
    ]);
    let counts = query.insights().errors_by_class();
    assert_eq!(counts.keys(), vec!["auth", "timeout"]);
    assert_eq!(counts.get("timeout"), Some(&2));
}

#[test]
fn token_totals_report_overflow() {
    let spend = |tokens: u64| {
        event(
            1,
            "a",
            EventKind::PromptCompleted {
                model: "m".into(),
                tokens_in: Some(tokens),
                tokens_out: None,
                cached_tokens_in: None,
                reasoning_tokens: None,
                cost_usd: None,
                finish_reason: None,
                response_id: None,
                previous_response_id: None,
                time_to_first_token_ms: None,
                duration_ms: None,
            },
        )
    };
    let events = vec![spend(u64::MAX), spend(1)];
    assert_eq!(Insights::new(&events).token_totals(), None);
    let events = vec![spend(2), spend(1)];
    let totals = Insights::new(&events).token_totals().unwrap();
    assert_eq!(
        totals,
        TokenTotals {
            tokens_in: 3,
            tokens_out: 0,
            cached_tokens_in: 0,
            reasoning_tokens: 0,
        }
    );
}

#[test]
fn nothing_resolved_has_no_rate() {
    let stats = PromptStats {
        started: 2,
        completed: 0,
        failed: 0,
        tokens: TokenTotals {
            tokens_in: 0,
            tokens_out: 0,
            cached_tokens_in: 0,
            reasoning_tokens: 0,
        },
        costs_usd: vec![],
        finish_reasons: SortedTable::new(),
    };
    assert_eq!(stats.success_rate(), None);
    let tools = ToolStats {
        invoked: 4,
        completed: 1,
        failed: 2,
        skipped: 0,
        terminated: 1,
        pending: 0,
    };
    let rate = tools.success_rate().unwrap();
    assert_eq!((rate.completed, rate.resolved), (1, 4));
}

#[test]
fn embedding_durations_have_latencies() {
    let query = EventQuery::new(vec![event(
        1,
        "a",
        EventKind::EmbeddingCompleted {
            model: "e".into(),
            documents: 1,
            tokens_in: None,
            duration_ms: Some(33),
        },
    )]);
    assert_eq!(query.insights().latency("embedding.completed").p50_ms, Some(33));
    assert!(query.insights().latency("tool.completed").is_empty());
}

#[test]
fn orphaned_terminals_settle_nothing() {
    let query = EventQuery::new(vec![
        completed(1, "a", "lost", None),
        completed(2, "b", "call-1", None),
        invoked(3, "a", "call-1"),
    ]);
    let stats = query.insights().tool_stats();
    assert_eq!((stats.invoked, stats.completed, stats.pending), (1, 2, 1));
    assert_eq!(query.insights().tool_spans()[0].outcome, ToolOutcome::Pending);
}

#[test]
fn a_terminal_event_settles_the_latest_invocation() {
    let query = EventQuery::new(vec![
        invoked(1, "a", "call-1"),
        invoked(2, "a", "call-1"),
        completed(3, "a", "call-1", None),
    ]);
    let spans = query.insights().tool_spans();
    let stats = query.insights().tool_stats();
    assert_eq!(spans.len(), stats.invoked);
    assert_eq!(spans[0].outcome, ToolOutcome::Pending);
    assert_eq!(spans[1].outcome, ToolOutcome::Completed);
    assert_eq!(stats.pending, 1);
}

#[test]
fn summaries_are_ordered() {
    let summary = LatencySummary::from_samples((0..57).map(|i| (i * 37) % 101).collect());
    let order = [
        summary.min_ms,
        summary.p50_ms,
        summary.p90_ms,
        summary.p95_ms,
        summary.p99_ms,
        summary.max_ms,
    ];
    assert!(order.windows(2).all(|pair| pair[0] <= pair[1]));
    assert!(summary.min_ms <= summary.mean_ms && summary.mean_ms <= summary.max_ms);
}

fn at(millis: u64, event: ObservabilityEvent) -> ObservabilityEvent {
    ObservabilityEvent {
        occurred_at_millis: millis,
        ..event
    }
}

#[test]
fn derived_durations_do_not_mix_up_events_with_one_tick() {
    let query = EventQuery::new(vec![
        at(50, completed(1, "a", "call-9", None)),
        at(100, invoked(1, "a", "call-1")),
        at(150, completed(2, "a", "call-1", None)),
    ]);
    let spans = query.insights().tool_spans();
    assert_eq!(spans.len(), 1);
    assert_eq!(spans[0].duration_ms, Some(50));
    let query = EventQuery::new(vec![
        at(100, invoked(1, "a", "call-1")),
        at(700, invoked(2, "a", "call-2")),
        at(150, completed(2, "a", "call-1", None)),
    ]);
    assert_eq!(query.insights().tool_spans()[0].duration_ms, Some(50));
}

#[test]
fn a_clock_that_ran_backwards_gives_no_duration() {
    let query = EventQuery::new(vec![
        at(100, invoked(1, "a", "call-1")),
        at(99, completed(2, "a", "call-1", None)),
        at(100, invoked(3, "a", "call-2")),
        at(100, completed(4, "a", "call-2", None)),
    ]);
    let spans = query.insights().tool_spans();
    assert_eq!(spans[0].outcome, ToolOutcome::Completed);
    assert_eq!(spans[0].duration_ms, None);
    assert_eq!(spans[1].duration_ms, Some(0));
}

#[test]
fn every_invoke_has_one_span_and_orphans_have_none() {
    let hosted = event(
        4,
        "b",
        EventKind::ToolHostedInvoked {
            tool_name: "web_search".into(),
            call_id: "call-2".into(),
            provider_call_id: None,
            response_id: None,
            args_json: String::new(),
            truncated: false,
        },
    );
    let with_orphans = EventQuery::new(vec![
        completed(1, "a", "call-1", None),
        invoked(2, "a", "call-1"),
        completed(3, "b", "call-1", Some(9)),
        hosted.clone(),
        completed(5, "a", "call-2", Some(9)),
        completed(6, "a", "call-1", None),
    ]);
    let without = EventQuery::new(vec![
        invoked(2, "a", "call-1"),
        hosted,
        completed(6, "a", "call-1", None),
    ]);
    let spans = with_orphans.insights().tool_spans();
    assert_eq!(spans, without.insights().tool_spans());
    assert_eq!(spans.len(), 2);
    assert_eq!(
        (
            spans[0].conversation_id.as_str(),
            spans[0].tool_name.as_str(),
            spans[0].call_id.as_str(),
            spans[0].hosted,
            spans[0].start_tick,
            spans[0].end_tick,
        ),
        ("a", "search", "call-1", false, 2, Some(6))
    );
    assert_eq!(
        (
            spans[1].conversation_id.as_str(),
            spans[1].tool_name.as_str(),
            spans[1].call_id.as_str(),
            spans[1].hosted,
            spans[1].start_tick,
            spans[1].outcome,
        ),
        ("b", "web_search", "call-2", true, 4, ToolOutcome::Pending)
    );
}

#[test]
fn prompt_stats_clone_and_default() {
    let none = EventQuery::new(vec![]);
    assert_eq!(PromptStats::default(), none.insights().prompt_stats());
    let mut finish_reasons: SortedTable<usize> = SortedTable::default();
    finish_reasons.increment("stop");
    finish_reasons.increment("length");
    finish_reasons.increment("stop");
    let stats = PromptStats {
        started: 3,
        completed: 2,
        failed: 1,
        costs_usd: vec![double(0.5), double(0.25)],
        finish_reasons,
        ..PromptStats::default()
    };
    let copy = stats.clone();
    assert_eq!(copy, stats);
    assert_eq!(copy.finish_reasons.keys(), vec!["length", "stop"]);
    assert_eq!(copy.finish_reasons.get("stop"), Some(&2));
}
