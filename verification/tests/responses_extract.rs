use rig_tap::responses_extract::compact_json_subset;
use rig_tap::{
    emit_hosted_tools, emit_hosted_tools_redacted, extract_hosted_tools, EventKind,
    RedactionPolicy,
};
use serde_json::Value;
use std::borrow::Cow;

fn json(text: &str) -> Value {
    serde_json::from_str(text).unwrap()
}

#[test]
fn extracts_web_search_call() {
    let payload = json(r#"{
        "id": "resp_1",
        "output": [
            {
                "type": "web_search_call",
                "id": "ws_42",
                "status": "completed",
                "action": { "type": "search", "queries": ["rig observability"] },
                "results": [{ "url": "https://example.com" }]
            }
        ]
    }"#);
    let calls = extract_hosted_tools(&payload);
    assert_eq!(calls.len(), 1);
    let call = &calls[0];
    assert_eq!(call.tool_name, "web_search");
    assert_eq!(call.provider_call_id.as_deref(), Some("ws_42"));
    assert_eq!(call.call_id, "ws_42");
    assert_eq!(call.status.as_deref(), Some("completed"));
    assert!(call.args_json.contains("queries"));
    assert!(call.result_json.contains("example.com"));
    assert_eq!(call.output_index, 0);
}

#[test]
fn extracts_multiple_kinds_in_order() {
    let payload = json(r#"{
        "output": [
            { "type": "message", "id": "m1", "content": [] },
            { "type": "file_search_call", "id": "fs_1", "status": "in_progress",
              "queries": ["spec"] },
            { "type": "function_call", "id": "fn_1", "name": "calc",
              "arguments": "{}" },
            { "type": "code_interpreter_call", "id": "ci_1", "status": "completed",
              "code": "print(1)", "output": "1\n" }
        ]
    }"#);
    let calls = extract_hosted_tools(&payload);
    assert_eq!(calls.len(), 2);
    assert_eq!(calls[0].tool_name, "file_search");
    assert_eq!(calls[0].output_index, 1);
    assert_eq!(calls[1].tool_name, "code_interpreter");
    assert_eq!(calls[1].output_index, 3);
    assert!(calls[1].args_json.contains("print"));
    assert!(calls[1].result_json.contains("1"));
}

#[test]
fn synthesizes_call_id_when_provider_omits_id() {
    let payload = json(r#"{
        "output": [
            { "type": "computer_use_call", "status": "completed" }
        ]
    }"#);
    let calls = extract_hosted_tools(&payload);
    assert_eq!(calls.len(), 1);
    assert_eq!(calls[0].provider_call_id, None);
    assert_eq!(calls[0].call_id, "computer_use-0");
}

#[test]
fn forward_compatible_for_unknown_hosted_kind() {
    let payload = json(r#"{
        "output": [
            { "type": "future_thing_call", "id": "ft_1", "status": "completed" }
        ]
    }"#);
    let calls = extract_hosted_tools(&payload);
    assert_eq!(calls.len(), 1);
    assert_eq!(calls[0].tool_name, "future_thing");
}

#[test]
fn ignores_function_call_and_non_call_items() {
    let payload = json(r#"{
        "output": [
            { "type": "function_call", "id": "fn_1", "name": "x", "arguments": "{}" },
            { "type": "function_call_output", "call_id": "fn_1", "output": "ok" },
            { "type": "message", "id": "m1", "content": [] },
            { "type": "reasoning", "id": "r1", "summary": [] }
        ]
    }"#);
    assert!(extract_hosted_tools(&payload).is_empty());
}

#[test]
fn returns_empty_when_output_missing_or_wrong_shape() {
    assert!(extract_hosted_tools(&json(r#"{}"#)).is_empty());
    assert!(extract_hosted_tools(&json(r#"{ "output": "not an array" }"#)).is_empty());
    assert!(extract_hosted_tools(&json(r#"{ "output": [] }"#)).is_empty());
}

#[test]
fn emit_hosted_tools_emits_invoked_and_completed_per_call() {
    let payload = json(r#"{
        "id": "resp_xyz",
        "output": [
            { "type": "web_search_call", "id": "ws_1", "status": "completed",
              "action": { "type": "search", "queries": ["a"] },
              "results": [{ "url": "u" }] },
            { "type": "file_search_call", "id": "fs_1", "status": "completed",
              "queries": ["b"], "results": [{ "id": "doc1" }] }
        ]
    }"#);
    let (count, events) = emit_hosted_tools("conv-1", None, &payload);
    assert_eq!(count, 2);
    assert_eq!(events.len(), 4);
    let kinds: Vec<&str> = events.iter().map(|e| e.kind.discriminant()).collect();
    assert_eq!(
        kinds,
        vec![
            "tool.hosted_invoked",
            "tool.hosted_completed",
            "tool.hosted_invoked",
            "tool.hosted_completed",
        ]
    );
    for event in &events {
        assert_eq!(event.kind.scalar_fields().response_id, "resp_xyz");
    }
}

#[test]
fn hosted_payloads_hold_the_chosen_fields() {
    let payload = json(
        r#"{"output":[{"type":"web_search_call","id":"ws","action":{"b":1,"a":[true,null]},"results":["r"],"queries":"q"}]}"#,
    );
    let calls = extract_hosted_tools(&payload);
    let args = json(&calls[0].args_json);
    assert_eq!(args["action"]["a"][0], Value::Bool(true));
    assert!(calls[0].result_json.contains("\"r\""));
    assert_eq!(calls[0].raw, payload["output"][0]);
}

#[test]
fn subset_holds_the_keys_that_exist() {
    let item = json(r#"{"a":1,"b":"x","c":null}"#);
    let none = compact_json_subset(&item, &vec!["z"]);
    let one = compact_json_subset(&item, &vec!["z", "b"]);
    let two = compact_json_subset(&item, &vec!["b", "a"]);
    assert_eq!(none, "");
    assert_eq!(one, r#"{"b":"x"}"#);
    assert_eq!(json(&two), json(r#"{"a":1,"b":"x"}"#));
}

#[test]
fn synthetic_ids_differ_by_position() {
    let payload = json(
        r#"{"output":[{"type":"web_search_call"},{"type":"message"},{"type":"web_search_call"}]}"#,
    );
    let ids: Vec<String> = extract_hosted_tools(&payload)
        .into_iter()
        .map(|call| call.call_id)
        .collect();
    assert_eq!(ids, vec!["web_search-0", "web_search-2"]);
}

#[test]
fn hosted_pairs_share_their_call_id() {
    let payload = json(r#"{"output":[{"type":"x_call","id":"1"},{"type":"y_call"}]}"#);
    let (count, events) = emit_hosted_tools("c", Some("resp"), &payload);
    assert_eq!(count, 2);
    for pair in events.chunks(2) {
        assert_eq!(pair[0].kind.tool_call_id(), pair[1].kind.tool_call_id());
        assert_eq!(pair[0].kind.scalar_fields().response_id, "resp");
        assert_eq!(pair[0].conversation_id, "c");
    }
}

#[derive(Debug)]
struct Blank;

impl RedactionPolicy for Blank {
    fn redact_tool_args<'a>(&self, _tool_name: &str, _args_json: &'a str) -> Cow<'a, str> {
        Cow::Borrowed("-")
    }

    fn redact_tool_result<'a>(&self, tool_name: &str, result: &'a str) -> Cow<'a, str> {
        Cow::Owned(format!("{tool_name}:{}", result.len()))
    }
}

#[test]
fn hosted_payloads_are_redacted() {
    let payload = json(
        r#"{"output":[{"type":"web_search_call","id":"ws","action":{"q":"s"},"results":["secret"]}]}"#,
    );
    let (_, events) = emit_hosted_tools_redacted("c", None, &payload, &Blank);
    match &events[0].kind {
        EventKind::ToolHostedInvoked { args_json, .. } => assert_eq!(args_json, "-"),
        other => panic!("expected ToolHostedInvoked, got {other:?}"),
    }
    match &events[1].kind {
        EventKind::ToolHostedCompleted { result, .. } => {
            assert!(result.starts_with("web_search:"));
            assert!(!result.contains("secret"));
        }
        other => panic!("expected ToolHostedCompleted, got {other:?}"),
    }
}
