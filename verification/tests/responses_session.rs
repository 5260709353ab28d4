use rig_tap::responses_session::{close_reason, response_status_string};
use rig_tap::{
    build_event, decode_event, encode_event, Emission, EventKind, ObservabilityEvent,
    RedactionPolicy, ResponseChunk, ResponseChunkKind, ResponsesSessionObserver, SequenceCounter,
    SessionEvent, TurnUsage, SCHEMA_VERSION,
};
use serde_json::Value;
use std::borrow::Cow;

fn json(text: &str) -> Value {
    serde_json::from_str(text).unwrap()
}

fn completed_chunk(id: &str, usage: Option<TurnUsage>) -> SessionEvent {
    SessionEvent::Response(ResponseChunk {
        kind: ResponseChunkKind::ResponseCompleted,
        response_id: id.into(),
        status: Some("completed".into()),
        usage,
    })
}

fn stamp(emissions: Vec<Emission>) -> Vec<ObservabilityEvent> {
    let mut ticks = SequenceCounter::new();
    emissions
        .into_iter()
        .map(|emission| build_event(&mut ticks, &emission.conversation_id, emission.kind))
        .collect()
}

fn kinds(events: &[ObservabilityEvent]) -> Vec<&'static str> {
    events.iter().map(|e| e.kind.discriminant()).collect()
}

#[test]
fn happy_path_session_turn_done_close() {
    let mut observer = ResponsesSessionObserver::new("conv-1", "gpt-5", "sess-1");
    let mut emissions = observer.observe_send(None);
    emissions.extend(observer.observe_event(&completed_chunk(
        "resp_1",
        Some(TurnUsage {
            input_tokens: 12,
            output_tokens: 34,
        }),
    )));
    emissions.extend(observer.observe_event(&SessionEvent::Done(json(
        r#"{
            "id": "resp_1",
            "status": "completed",
            "usage": { "input_tokens": 12, "output_tokens": 34 },
            "output": [
                { "type": "web_search_call", "id": "ws_1", "status": "completed",
                  "action": { "queries": ["x"] }, "results": [{"u": "v"}] }
            ]
        }"#,
    ))));
    emissions.extend(observer.observe_close("client_close"));
    let events = stamp(emissions);
    assert_eq!(
        kinds(&events),
        vec![
            "response.session_started",
            "response.turn_started",
            "tool.hosted_invoked",
            "tool.hosted_completed",
            "response.turn_completed",
            "response.session_ended",
        ]
    );
    let turn_completed = events
        .iter()
        .find(|e| e.kind.discriminant() == "response.turn_completed")
        .unwrap();
    match &turn_completed.kind {
        EventKind::ResponseTurnCompleted {
            response_id,
            status,
            tokens_in,
            tokens_out,
            hosted_tool_calls,
            session_id,
            ..
        } => {
            assert_eq!(response_id, "resp_1");
            assert_eq!(status, "completed");
            assert_eq!(*tokens_in, Some(12));
            assert_eq!(*tokens_out, Some(34));
            assert_eq!(*hosted_tool_calls, 1);
            assert_eq!(session_id, "sess-1");
        }
        other => panic!("unexpected variant: {other:?}"),
    }
}

#[test]
fn turn_finalized_lazily_when_caller_skips_done() {
    let mut observer = ResponsesSessionObserver::new("conv-2", "gpt-5", "sess-2");
    let mut emissions = observer.observe_send(None);
    emissions.extend(observer.observe_event(&completed_chunk("resp_a", None)));
    // Caller skips Done and immediately starts the next turn.
    emissions.extend(observer.observe_send(Some("resp_a")));
    emissions.extend(observer.observe_event(&SessionEvent::Done(json(
        r#"{ "id": "resp_b", "status": "completed", "output": [] }"#,
    ))));
    emissions.extend(observer.observe_close("client_close"));
    let events = stamp(emissions);
    assert_eq!(
        kinds(&events),
        vec![
            "response.session_started",
            "response.turn_started",
            "response.turn_completed",
            "response.turn_started",
            "response.turn_completed",
            "response.session_ended",
        ]
    );
    match &events[3].kind {
        EventKind::ResponseTurnStarted {
            previous_response_id,
            ..
        } => assert_eq!(previous_response_id.as_deref(), Some("resp_a")),
        other => panic!("unexpected: {other:?}"),
    }
}

#[test]
fn error_event_finalizes_turn_with_error_status() {
    let mut observer = ResponsesSessionObserver::new("conv-3", "gpt-5", "sess-3");
    let mut emissions = observer.observe_send(None);
    emissions.extend(observer.observe_event(&SessionEvent::Error));
    emissions.extend(observer.observe_close("response_failed"));
    let events = stamp(emissions);
    let turn_completed = events
        .iter()
        .find(|e| e.kind.discriminant() == "response.turn_completed")
        .unwrap();
    match &turn_completed.kind {
        EventKind::ResponseTurnCompleted { status, .. } => {
            assert_eq!(status, "error");
        }
        other => panic!("unexpected: {other:?}"),
    }
}

#[test]
fn send_error_finalizes_turn() {
    let mut observer = ResponsesSessionObserver::new("conv-4", "gpt-5", "sess-4");
    let mut emissions = observer.observe_send(None);
    emissions.extend(observer.observe_send_error());
    emissions.extend(observer.observe_close("client_close"));
    let events = stamp(emissions);
    assert_eq!(
        kinds(&events),
        vec![
            "response.session_started",
            "response.turn_started",
            "response.turn_completed",
            "response.session_ended",
        ]
    );
    match &events[2].kind {
        EventKind::ResponseTurnCompleted { status, .. } => assert_eq!(status, "send_error"),
        other => panic!("unexpected: {other:?}"),
    }
}

#[test]
fn session_ended_emitted_once() {
    let mut observer = ResponsesSessionObserver::new("conv-5", "gpt-5", "sess-5");
    let mut emissions = observer.observe_send(None);
    emissions.extend(observer.observe_event(&SessionEvent::Done(json(
        r#"{ "id": "resp_1", "status": "completed", "output": [] }"#,
    ))));
    emissions.extend(observer.observe_close("client_close"));
    emissions.extend(observer.observe_close("client_close"));
    let ended_count = stamp(emissions)
        .iter()
        .filter(|e| e.kind.discriminant() == "response.session_ended")
        .count();
    assert_eq!(ended_count, 1);
}

#[test]
fn close_without_any_turn_emits_nothing() {
    let mut observer = ResponsesSessionObserver::new("conv-6", "gpt-5", "sess-6");
    let events = observer.observe_close("never_opened");
    assert!(events.is_empty());
}

#[test]
fn multi_turn_session_envelope_is_well_formed() {
    let mut observer = ResponsesSessionObserver::new("conv-multi", "gpt-5", "sess-multi");

    // Turn 1: no previous response, one hosted tool call (web_search).
    let mut emissions = observer.observe_send(None);
    emissions.extend(observer.observe_event(&completed_chunk(
        "resp_1",
        Some(TurnUsage {
            input_tokens: 10,
            output_tokens: 20,
        }),
    )));
    emissions.extend(observer.observe_event(&SessionEvent::Done(json(
        r#"{
            "id": "resp_1",
            "status": "completed",
            "usage": { "input_tokens": 10, "output_tokens": 20 },
            "output": [
                {
                    "type": "web_search_call",
                    "id": "ws_1",
                    "status": "completed",
                    "action": { "queries": ["weather sf"] },
                    "results": [ { "url": "https://example.com" } ]
                }
            ]
        }"#,
    ))));

    // Turn 2: continuation, no hosted tools.
    emissions.extend(observer.observe_send(Some("resp_1")));
    emissions.extend(observer.observe_event(&SessionEvent::Done(json(
        r#"{
            "id": "resp_2",
            "status": "completed",
            "usage": { "input_tokens": 5, "output_tokens": 7 },
            "output": []
        }"#,
    ))));

    emissions.extend(observer.observe_close("client_close"));
    let events = stamp(emissions);

    assert_eq!(
        kinds(&events),
        vec![
            "response.session_started",
            "response.turn_started",
            "tool.hosted_invoked",
            "tool.hosted_completed",
            "response.turn_completed",
            "response.turn_started",
            "response.turn_completed",
            "response.session_ended",
        ],
        "envelope sequence is not well-formed"
    );

    for evt in &events {
        assert_eq!(evt.version, SCHEMA_VERSION);
        assert_eq!(evt.conversation_id, "conv-multi");
    }

    // session_started carries the model id.
    match &events[0].kind {
        EventKind::ResponseSessionStarted { model, session_id } => {
            assert_eq!(model, "gpt-5");
            assert_eq!(session_id, "sess-multi");
        }
        other => panic!("expected ResponseSessionStarted, got {other:?}"),
    }

    // Turn 1 completion: usage + 1 hosted tool call.
    match &events[4].kind {
        EventKind::ResponseTurnCompleted {
            response_id,
            previous_response_id,
            status,
            tokens_in,
            tokens_out,
            hosted_tool_calls,
            session_id,
            ..
        } => {
            assert_eq!(session_id, "sess-multi");
            assert_eq!(response_id, "resp_1");
            assert!(previous_response_id.is_none());
            assert_eq!(status, "completed");
            assert_eq!(*tokens_in, Some(10));
            assert_eq!(*tokens_out, Some(20));
            assert_eq!(*hosted_tool_calls, 1);
        }
        other => panic!("expected ResponseTurnCompleted, got {other:?}"),
    }

    // Turn 2 completion: previous_response_id threaded through, 0 hosted.
    match &events[6].kind {
        EventKind::ResponseTurnCompleted {
            response_id,
            previous_response_id,
            hosted_tool_calls,
            ..
        } => {
            assert_eq!(response_id, "resp_2");
            assert_eq!(previous_response_id.as_deref(), Some("resp_1"));
            assert_eq!(*hosted_tool_calls, 0);
        }
        other => panic!("expected ResponseTurnCompleted, got {other:?}"),
    }

    // Hosted-tool pair carries the web_search tool_name and the
    // turn's response_id.
    match &events[2].kind {
        EventKind::ToolHostedInvoked {
            tool_name,
            provider_call_id,
            response_id,
            ..
        } => {
            assert_eq!(tool_name, "web_search");
            assert_eq!(provider_call_id.as_deref(), Some("ws_1"));
            assert_eq!(response_id.as_deref(), Some("resp_1"));
        }
        other => panic!("expected ToolHostedInvoked, got {other:?}"),
    }

    // session_ended emitted exactly once with the close reason.
    match &events[7].kind {
        EventKind::ResponseSessionEnded { session_id, reason } => {
            assert_eq!(session_id, "sess-multi");
            assert_eq!(reason, "client_close");
        }
        other => panic!("expected ResponseSessionEnded, got {other:?}"),
    }

    // Every envelope survives the wire form, so that the schema stays
    // self-describing for downstream consumers.
    for evt in &events {
        let round = decode_event(&encode_event(evt)).unwrap();
        assert_eq!(round.tick, evt.tick);
        assert_eq!(round.kind.discriminant(), evt.kind.discriminant());
    }
}

#[test]
fn error_then_close_emits_failed_turn_and_session_ended() {
    let mut observer = ResponsesSessionObserver::new("conv-err", "gpt-5", "sess-err");
    let mut emissions = observer.observe_send(None);
    emissions.extend(observer.observe_event(&SessionEvent::Error));
    emissions.extend(observer.observe_close("transport_error"));
    let events = stamp(emissions);

    assert_eq!(
        kinds(&events),
        vec![
            "response.session_started",
            "response.turn_started",
            "response.turn_completed",
            "response.session_ended",
        ]
    );

    match &events[2].kind {
        EventKind::ResponseTurnCompleted { status, .. } => assert_eq!(status, "error"),
        other => panic!("expected ResponseTurnCompleted, got {other:?}"),
    }
    match &events[3].kind {
        EventKind::ResponseSessionEnded { reason, .. } => assert_eq!(reason, "transport_error"),
        other => panic!("expected ResponseSessionEnded, got {other:?}"),
    }
}

#[test]
fn turn_completed_stamps_duration() {
    let mut observer = ResponsesSessionObserver::new("conv-dur", "gpt-5", "sess-dur");
    let mut emissions = observer.observe_send(None);
    emissions.extend(observer.observe_event(&SessionEvent::Done(json(
        r#"{ "id": "resp_1", "status": "completed" }"#,
    ))));
    emissions.extend(observer.observe_close("client_close"));
    let events = stamp(emissions);

    let turn = events
        .iter()
        .find(|e| e.kind.discriminant() == "response.turn_completed")
        .expect("turn_completed emitted");
    match &turn.kind {
        EventKind::ResponseTurnCompleted { duration_ms, .. } => {
            assert!(
                duration_ms.is_some(),
                "observer owns both ends of the turn so duration_ms must be populated"
            );
        }
        other => panic!("expected ResponseTurnCompleted, got {other:?}"),
    }
}

#[test]
fn measured_duration_is_carried_through() {
    let mut observer = ResponsesSessionObserver::new("c", "m", "s");
    assert!(!observer.session_started());
    let sent = std::time::Instant::now();
    observer.observe_send_at(None, sent);
    assert!(observer.session_started());
    assert!(!observer.session_ended());
    let emissions = observer.observe_close_at("bye", sent + std::time::Duration::from_millis(77));
    assert!(observer.session_ended());
    assert_eq!(
        emissions[0].kind,
        EventKind::ResponseTurnCompleted {
            session_id: "s".into(),
            response_id: String::new(),
            previous_response_id: None,
            status: "completed".into(),
            tokens_in: None,
            tokens_out: None,
            hosted_tool_calls: 0,
            duration_ms: Some(77),
        }
    );
    assert_eq!(observer.session_id(), "s");
    assert_eq!(observer.model(), "m");
}

#[test]
fn item_events_emit_nothing() {
    let mut observer = ResponsesSessionObserver::new("c", "m", "s");
    observer.observe_send(None);
    assert!(observer.observe_event(&SessionEvent::Item).is_empty());
    assert!(observer.observe_event(&completed_chunk("r", None)).is_empty());
}

#[test]
fn events_outside_a_turn_complete_no_turn() {
    let mut observer = ResponsesSessionObserver::new("c", "m", "s");
    let emissions = observer.observe_event(&SessionEvent::Error);
    assert!(emissions
        .iter()
        .all(|e| e.kind.discriminant() != "response.turn_completed"));
    assert!(observer.observe_send_error().is_empty());
}

#[test]
fn statuses_follow_the_chunk_kind() {
    let cases = [
        (ResponseChunkKind::ResponseCompleted, "completed"),
        (ResponseChunkKind::ResponseFailed, "failed"),
        (ResponseChunkKind::ResponseIncomplete, "incomplete"),
    ];
    for (kind, label) in cases {
        assert_eq!(
            response_status_string(kind, &Some("queued".into())).as_deref(),
            Some(label)
        );
    }
    for kind in [
        ResponseChunkKind::ResponseCreated,
        ResponseChunkKind::ResponseInProgress,
    ] {
        assert_eq!(
            response_status_string(kind, &Some("queued".into())).as_deref(),
            Some("queued")
        );
        assert_eq!(response_status_string(kind, &None), None);
    }
}

#[derive(Debug)]
struct Blank;

impl RedactionPolicy for Blank {
    fn redact_tool_args<'a>(&self, _tool_name: &str, _args_json: &'a str) -> Cow<'a, str> {
        Cow::Borrowed("[args]")
    }

    fn redact_tool_result<'a>(&self, _tool_name: &str, _result: &'a str) -> Cow<'a, str> {
        Cow::Borrowed("[result]")
    }
}

#[test]
fn hosted_calls_of_a_session_are_redacted() {
    let mut observer = ResponsesSessionObserver::new("c", "m", "s").with_redaction_policy(Blank);
    observer.observe_send(None);
    let emissions = observer.observe_event(&SessionEvent::Done(json(
        r#"{"id":"r","output":[{"type":"web_search_call","action":{"q":"secret"},"results":["secret"]}]}"#,
    )));
    match (&emissions[0].kind, &emissions[1].kind) {
        (
            EventKind::ToolHostedInvoked { args_json, .. },
            EventKind::ToolHostedCompleted { result, .. },
        ) => {
            assert_eq!(args_json, "[args]");
            assert_eq!(result, "[result]");
        }
        other => panic!("unexpected: {other:?}"),
    }
}

#[test]
fn close_reasons_tell_whether_the_handshake_completed() {
    assert_eq!(close_reason(true), "client_close");
    assert_eq!(close_reason(false), "transport_error");
}

#[test]
fn a_session_starts_and_ends_once_even_with_sends_after_its_close() {
    let mut observer = ResponsesSessionObserver::new("c", "m", "s");
    let mut emissions = observer.observe_close("client_close");
    emissions.extend(observer.observe_event(&SessionEvent::Error));
    assert!(emissions.is_empty());
    for _ in 0..3 {
        emissions.extend(observer.observe_send(None));
        emissions.extend(observer.observe_close("client_close"));
    }
    emissions.extend(observer.observe_send(Some("resp_1")));
    emissions.extend(observer.observe_send_error());
    let events = stamp(emissions);
    let count = |kind: &str| events.iter().filter(|e| e.kind.discriminant() == kind).count();
    assert_eq!(count("response.session_started"), 1);
    assert_eq!(count("response.session_ended"), 1);
    assert_eq!(count("response.turn_started"), 4);
    assert_eq!(count("response.turn_completed"), 4);
}

#[test]
fn turns_are_timed_from_their_own_send() {
    let start = std::time::Instant::now();
    let at = |millis: u64| start + std::time::Duration::from_millis(millis);
    let durations = |emissions: &[Emission]| {
        emissions
            .iter()
            .filter_map(|emission| match &emission.kind {
                EventKind::ResponseTurnCompleted { duration_ms, .. } => *duration_ms,
                _ => None,
            })
            .collect::<Vec<u64>>()
    };
    let mut observer = ResponsesSessionObserver::new("c", "m", "s");
    assert_eq!(durations(&observer.observe_send_at(None, at(0))), Vec::<u64>::new());
    observer.observe_event_at(&completed_chunk("resp_1", None), at(7));
    assert_eq!(durations(&observer.observe_send_at(None, at(40))), vec![40]);
    let done = SessionEvent::Done(json(r#"{"id":"resp_2"}"#));
    assert_eq!(durations(&observer.observe_event_at(&done, at(45))), vec![5]);
    observer.observe_send_at(None, at(100));
    assert_eq!(durations(&observer.observe_send_error_at(at(103))), vec![3]);
    observer.observe_send_at(None, at(200));
    assert_eq!(durations(&observer.observe_event_at(&SessionEvent::Error, at(201))), vec![1]);
    observer.observe_send_at(None, at(300));
    assert_eq!(durations(&observer.observe_close_at("bye", at(390))), vec![90]);
}

#[test]
fn turn_events_alternate_even_with_sends_after_the_close() {
    let mut observer = ResponsesSessionObserver::new("c", "m", "s");
    let mut emissions = observer.observe_send(None);
    emissions.extend(observer.observe_send(None));
    emissions.extend(observer.observe_close("bye"));
    emissions.extend(observer.observe_close("bye"));
    emissions.extend(observer.observe_send(None));
    emissions.extend(observer.observe_send_error());
    emissions.extend(observer.observe_event(&SessionEvent::Error));
    emissions.extend(observer.observe_send(None));
    let events = stamp(emissions);
    let turns: Vec<&str> = kinds(&events)
        .into_iter()
        .filter(|kind| kind.starts_with("response.turn_"))
        .collect();
    assert_eq!(turns.len(), 7);
    for (at, kind) in turns.iter().enumerate() {
        let expected = if at % 2 == 0 {
            "response.turn_started"
        } else {
            "response.turn_completed"
        };
        assert_eq!(*kind, expected, "{at}");
    }
}
