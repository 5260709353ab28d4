use rig_tap::{
    ErrorClass, EventFilter, EventKind, EventQuery, Float64, ObservabilityEvent, SortedTable,
    SCHEMA_VERSION,
};

fn double(value: f64) -> Float64 {
    Float64::from_bits(value.to_bits())
}

fn event(tick: u64, conversation_id: &str, kind: EventKind) -> ObservabilityEvent {
    ObservabilityEvent {
        version: SCHEMA_VERSION,
        occurred_at_millis: 1_715_000_000_000 + tick,
        tick,
        conversation_id: conversation_id.into(),
        span_id: None,
        agent_id: None,
        trace_id: None,
        severity: None,
        kind,
    }
}

#[test]
fn filter_matches_conversation_kind_and_tick_window() {
    let query = EventQuery::new(vec![
        event(
            1,
            "a",
            EventKind::PromptStarted {
                model: "m".into(),
                messages_in: 1,
                temperature: None,
                top_p: None,
                max_tokens: None,
            },
        ),
        event(
            2,
            "a",
            EventKind::ToolCompleted {
                tool_name: "search".into(),
                provider_call_id: None,
                call_id: "call-1".into(),
                result: "ok".into(),
                truncated: false,
                duration_ms: None,
            },
        ),
        event(
            3,
            "b",
            EventKind::ToolCompleted {
                tool_name: "search".into(),
                provider_call_id: None,
                call_id: "call-2".into(),
                result: "ok".into(),
                truncated: false,
                duration_ms: None,
            },
        ),
    ]);

    let matches = query.filter(
        &EventFilter::new()
            .conversation_id("a")
            .kind("tool.completed")
            .min_tick(2)
            .max_tick(3),
    );

    assert_eq!(matches.len(), 1);
    assert_eq!(matches[0].tick, 2);
}

#[test]
fn filter_matches_scalar_fields() {
    let query = EventQuery::new(vec![event(
        1,
        "thread",
        EventKind::ComposeSkillResolved {
            kernel_id: "kernel".into(),
            skill_id: "retrieval".into(),
            applies: true,
            delta: Some(double(0.2)),
            confidence: Some(double(0.8)),
        },
    )]);

    let matches = query.filter(&EventFilter::new().kernel_id("kernel").skill_id("retrieval"));

    assert_eq!(matches.len(), 1);
    assert!(
        query
            .filter(&EventFilter::new().tool_name("search"))
            .is_empty()
    );
}

#[test]
fn query_summarizes_conversations_and_kinds() {
    let query = EventQuery::new(vec![
        event(
            1,
            "b",
            EventKind::PromptStarted {
                model: "m".into(),
                messages_in: 1,
                temperature: None,
                top_p: None,
                max_tokens: None,
            },
        ),
        event(
            2,
            "a",
            EventKind::PromptStarted {
                model: "m".into(),
                messages_in: 2,
                temperature: None,
                top_p: None,
                max_tokens: None,
            },
        ),
        event(
            3,
            "b",
            EventKind::ContextSampled {
                message_count: 1,
                byte_size: 2,
                token_estimate: None,
            },
        ),
    ]);

    assert_eq!(query.conversations(), vec!["a", "b"]);
    assert_eq!(query.count_by_kind().get("prompt.started"), Some(&2));
    assert_eq!(
        query
            .latest(2)
            .iter()
            .map(|event| event.tick)
            .collect::<Vec<_>>(),
        vec![2, 3]
    );
}

fn prompt(tick: u64, conversation_id: &str) -> ObservabilityEvent {
    event(
        tick,
        conversation_id,
        EventKind::PromptStarted {
            model: "m".into(),
            messages_in: 1,
            temperature: None,
            top_p: None,
            max_tokens: None,
        },
    )
}

#[test]
fn empty_filter_keeps_every_event() {
    let query = EventQuery::from(vec![prompt(1, "a"), prompt(2, "b")]);
    assert_eq!(query.filter(&EventFilter::default()), query.all().to_vec());
    assert_eq!(query.len(), 2);
    assert!(!query.is_empty());
    assert!(EventQuery::default().is_empty());
}

#[test]
fn filtering_twice_is_filtering_once() {
    let query = EventQuery::new(vec![prompt(1, "a"), prompt(2, "b"), prompt(3, "a")]);
    let filter = EventFilter::new().conversation_id("a").model("m");
    let once = query.filter(&filter);
    assert_eq!(once.iter().map(|e| e.tick).collect::<Vec<_>>(), vec![1, 3]);
    assert_eq!(EventQuery::new(once.clone()).filter(&filter), once);
}

#[test]
fn filter_reads_call_ids_and_models() {
    let failed = event(
        4,
        "a",
        EventKind::ToolFailed {
            tool_name: "t".into(),
            call_id: "c".into(),
            error_class: ErrorClass::Unknown,
            message: String::new(),
        },
    );
    assert!(EventFilter::new().call_id("c").tool_name("t").matches(&failed));
    assert!(!EventFilter::new().call_id("d").matches(&failed));
    assert!(!EventFilter::new().model("m").matches(&failed));
    assert!(!EventFilter::new().min_tick(5).matches(&failed));
    assert!(!EventFilter::new().max_tick(3).matches(&failed));
    // An empty text only matches events without the field.
    assert!(EventFilter::new().model("").matches(&failed));
    assert!(!EventFilter::new().tool_name("").matches(&failed));
}

#[test]
fn latest_returns_the_tail_in_order() {
    let query = EventQuery::new(vec![prompt(1, "a"), prompt(2, "a"), prompt(3, "a")]);
    let ticks = |limit: usize| query.latest(limit).iter().map(|e| e.tick).collect::<Vec<_>>();
    assert_eq!(ticks(0), Vec::<u64>::new());
    assert_eq!(ticks(1), vec![3]);
    assert_eq!(ticks(3), vec![1, 2, 3]);
    assert_eq!(ticks(100), vec![1, 2, 3]);
}

#[test]
fn tables_are_sorted_and_tally() {
    let mut table: SortedTable<usize> = SortedTable::new();
    for key in ["b", "a", "ab", "b", "", "é"] {
        table.increment(key);
    }
    assert_eq!(table.keys(), vec!["", "a", "ab", "b", "é"]);
    assert_eq!(table.get("b"), Some(&2));
    assert_eq!(table.get("c"), None);
    assert_eq!(table.len(), 5);
    assert_eq!(table.entries().iter().map(|(_, count)| count).sum::<usize>(), 6);
    assert!(!table.is_empty());
    table.insert("b", 9);
    table.insert("aa", 1);
    assert_eq!(table.get("b"), Some(&9));
    assert_eq!(table.keys(), vec!["", "a", "aa", "ab", "b", "é"]);
    let mut lists: SortedTable<Vec<u64>> = SortedTable::new();
    lists.append("x", 1);
    lists.append("y", 2);
    lists.append("x", 3);
    assert_eq!(lists.get("x"), Some(&vec![1, 3]));
    assert_eq!(lists.entries().len(), 2);
}
