use rig_tap::{
    DispatchObserveHook, Emission, EventKind, Float64, RedactionPolicy, SequenceCounter,
    ToolInvocationOutcome,
};
use serde_json::Value;
use std::borrow::Cow;

fn json(text: &str) -> Value {
    serde_json::from_str(text).unwrap()
}

fn double(value: f64) -> Float64 {
    Float64::from_bits(value.to_bits())
}

fn new_hook(conversation_id: &str) -> DispatchObserveHook<rig_tap::IdentityRedaction> {
    DispatchObserveHook::new(&mut SequenceCounter::new(), conversation_id)
}

/// The call id of a `tool.invoked` for `tool`.
fn invoked_call_id(emission: &Emission, tool: &str) -> String {
    match &emission.kind {
        EventKind::ToolInvoked {
            tool_name, call_id, ..
        } => {
            assert_eq!(tool_name, tool);
            call_id.clone()
        }
        other => panic!("expected ToolInvoked, got {other:?}"),
    }
}

#[test]
fn call_ids_are_unique_per_instance() {
    let mut hook = new_hook("c");
    let a = hook.next_call_id();
    let b = hook.next_call_id();
    assert_ne!(a, b);
    assert!(a.starts_with(&format!("dispatch-{}-", hook.instance())));
}

#[test]
fn instances_get_different_ids() {
    let mut instances = SequenceCounter::new();
    let a = DispatchObserveHook::new(&mut instances, "c");
    let b = DispatchObserveHook::new(&mut instances, "c");
    assert_ne!(a.instance(), b.instance());
}

#[test]
fn observes_invoked_and_completed_for_continue_path() {
    let mut observe = new_hook("conv-1");
    let args = json(r#"{ "msg": "hi" }"#);
    let mut events = vec![observe.before_invocation("echo", &args)];
    events.extend(observe.after_invocation_with_outcome(
        "echo",
        &args,
        &args,
        &ToolInvocationOutcome::Completed,
    ));
    assert_eq!(events.len(), 2, "expected invoked + completed");
    assert_eq!(events[0].conversation_id, "conv-1");
    let id = invoked_call_id(&events[0], "echo");
    match &events[1].kind {
        EventKind::ToolCompleted {
            tool_name,
            call_id,
            result,
            duration_ms,
            ..
        } => {
            assert_eq!(tool_name, "echo");
            assert_eq!(call_id, &id, "call_id must pair");
            assert_eq!(result, r#"{"msg":"hi"}"#);
            assert!(duration_ms.is_some());
        }
        other => panic!("expected ToolCompleted, got {other:?}"),
    }
}

#[test]
fn observes_terminated_when_gate_hook_terminates() {
    let mut observe = new_hook("conv-2");
    let args = json(r#"{ "msg": "no" }"#);
    let mut events = vec![observe.before_invocation("echo", &args)];
    events.extend(observe.on_invocation_error("echo", &args, "budget exhausted"));
    assert_eq!(events.len(), 2, "expected invoked + terminated");
    let id = invoked_call_id(&events[0], "echo");
    match &events[1].kind {
        EventKind::ToolTerminated {
            tool_name,
            call_id,
            reason,
        } => {
            assert_eq!(tool_name, "echo");
            assert_eq!(call_id, &id, "call_id must pair");
            assert!(
                reason.contains("budget exhausted"),
                "reason should propagate, got: {reason}"
            );
        }
        other => panic!("expected ToolTerminated, got {other:?}"),
    }
}

#[test]
fn observes_terminated_when_gate_runs_before_observer() {
    let mut observe = new_hook("conv-2b");
    let args = json(r#"{ "msg": "no" }"#);
    let events = observe.on_invocation_error("echo", &args, "budget exhausted");
    assert_eq!(events.len(), 2, "expected synthetic invoked + terminated");
    let id = invoked_call_id(&events[0], "echo");
    match &events[1].kind {
        EventKind::ToolTerminated {
            tool_name,
            call_id,
            reason,
        } => {
            assert_eq!(tool_name, "echo");
            assert_eq!(call_id, &id, "call_id must pair");
            assert!(reason.contains("budget exhausted"));
        }
        other => panic!("expected ToolTerminated, got {other:?}"),
    }
}

#[test]
fn observes_terminated_when_tool_errors() {
    let mut observe = new_hook("conv-3");
    let args = json("{}");
    let mut events = vec![observe.before_invocation("boom", &args)];
    events.extend(observe.on_invocation_error("boom", &args, "tool failed: intentional"));
    assert_eq!(events.len(), 2, "expected invoked + terminated");
    let id = invoked_call_id(&events[0], "boom");
    match &events[1].kind {
        EventKind::ToolTerminated { call_id, .. } => {
            assert_eq!(call_id, &id, "call_id must pair");
        }
        other => panic!("expected ToolTerminated, got {other:?}"),
    }
}

#[test]
fn observes_skipped_when_gate_runs_after_observer() {
    let mut observe = new_hook("conv-4");
    let args = json(r#"{ "msg": "skip" }"#);
    let mut events = vec![observe.before_invocation("echo", &args)];
    events.extend(observe.after_invocation_with_outcome(
        "echo",
        &args,
        &json(r#"{ "status": "skipped" }"#),
        &ToolInvocationOutcome::Skipped {
            reason: Some("policy denied".into()),
        },
    ));
    assert_eq!(events.len(), 2, "expected invoked + skipped");
    let id = invoked_call_id(&events[0], "echo");
    match &events[1].kind {
        EventKind::ToolSkipped {
            tool_name,
            call_id,
            reason,
        } => {
            assert_eq!(tool_name, "echo");
            assert_eq!(call_id, &id, "call_id must pair");
            assert_eq!(reason, "policy denied");
        }
        other => panic!("expected ToolSkipped, got {other:?}"),
    }
}

#[test]
fn observes_skipped_when_gate_runs_before_observer() {
    let mut observe = new_hook("conv-5");
    let events = observe.after_invocation_with_outcome(
        "echo",
        &json(r#"{ "msg": "skip" }"#),
        &json(r#"{ "status": "skipped" }"#),
        &ToolInvocationOutcome::Skipped {
            reason: Some("policy denied".into()),
        },
    );
    assert_eq!(events.len(), 2, "expected synthetic invoked + skipped");
    let id = invoked_call_id(&events[0], "echo");
    match &events[1].kind {
        EventKind::ToolSkipped {
            tool_name,
            call_id,
            reason,
        } => {
            assert_eq!(tool_name, "echo");
            assert_eq!(call_id, &id, "call_id must pair");
            assert_eq!(reason, "policy denied");
        }
        other => panic!("expected ToolSkipped, got {other:?}"),
    }
}

#[test]
fn observes_generic_agent_lifecycle_events() {
    let mut observe = new_hook("conv-agent");
    let mut events = observe.before_step("agent-1", 1, 0);
    events.extend(observe.before_skill("agent-1", "skill.delta", true, double(0.0)));
    events.push(observe.after_skill("agent-1", "skill.delta", double(0.25), double(0.25)));
    events.extend(observe.shutdown());

    assert_eq!(events.len(), 4);
    assert!(events
        .iter()
        .all(|event| event.conversation_id == "conv-agent"));

    let kernel_id = match &events[0].kind {
        EventKind::ComposeKernelStart {
            kernel_id,
            skills_registered,
            tools_registered,
        } => {
            assert_eq!(skills_registered, &Some(1));
            assert_eq!(tools_registered, &Some(0));
            kernel_id.clone()
        }
        other => panic!("expected ComposeKernelStart, got {other:?}"),
    };
    match &events[1].kind {
        EventKind::ComposeLoopIteration {
            kernel_id: loop_kernel,
            iteration,
            skill_id,
            confidence,
        } => {
            assert_eq!(loop_kernel, &kernel_id);
            assert_eq!(iteration, &0);
            // Loop iteration is per-step, not per-skill.
            assert!(skill_id.is_none());
            assert!(confidence.is_none());
        }
        other => panic!("expected ComposeLoopIteration, got {other:?}"),
    }
    match &events[2].kind {
        EventKind::ComposeSkillResolved {
            kernel_id: skill_kernel,
            skill_id,
            applies,
            delta,
            confidence,
        } => {
            assert_eq!(skill_kernel, &kernel_id);
            assert_eq!(skill_id, "skill.delta");
            assert!(*applies);
            assert_eq!(delta, &Some(double(0.25)));
            assert_eq!(confidence, &Some(double(0.25)));
        }
        other => panic!("expected ComposeSkillResolved, got {other:?}"),
    }
    match &events[3].kind {
        EventKind::ComposeKernelShutdown {
            kernel_id: shutdown_kernel,
            reason,
        } => {
            assert_eq!(shutdown_kernel, &kernel_id);
            assert_eq!(reason, "normal");
        }
        other => panic!("expected ComposeKernelShutdown, got {other:?}"),
    }
}

#[test]
fn kernel_starts_once_and_iterations_count_up() {
    let mut observe = new_hook("c");
    assert_eq!(observe.before_step("k", 2, 3).len(), 2);
    for expected in 1..4 {
        let events = observe.before_step("k", 2, 3);
        assert_eq!(events.len(), 1);
        assert!(matches!(
            &events[0].kind,
            EventKind::ComposeLoopIteration { iteration, .. } if *iteration == expected
        ));
    }
}

#[test]
fn skills_that_do_not_apply_are_resolved_at_once() {
    let observe = new_hook("c");
    let emission = observe.before_skill("k", "s", false, double(0.5)).unwrap();
    assert_eq!(
        emission.kind,
        EventKind::ComposeSkillResolved {
            kernel_id: "k".into(),
            skill_id: "s".into(),
            applies: false,
            delta: None,
            confidence: Some(double(0.5)),
        }
    );
    assert!(observe.before_skill("k", "s", true, double(0.5)).is_none());
}

#[test]
fn step_errors_are_unrecovered() {
    let emission = new_hook("c").on_step_error("k", "boom");
    assert_eq!(
        emission.kind,
        EventKind::ComposeRecovery {
            kernel_id: "k".into(),
            reason: "boom".into(),
            recovered: false,
        }
    );
}

#[test]
fn unused_hook_shuts_down_silently() {
    assert!(new_hook("c").shutdown().is_none());
    let shared = new_hook("c").into_arc();
    assert_eq!(shared.instance(), 0);
}

#[derive(Debug)]
struct Blank;

impl RedactionPolicy for Blank {
    fn redact_tool_args<'a>(&self, _tool_name: &str, _args_json: &'a str) -> Cow<'a, str> {
        Cow::Borrowed("[args]")
    }

    fn redact_tool_result<'a>(&self, _tool_name: &str, _result: &'a str) -> Cow<'a, str> {
        Cow::Borrowed("[result]")
    }
}

#[test]
fn dispatched_payloads_are_redacted_then_truncated() {
    let mut observe = new_hook("c")
        .with_payload_truncate_bytes(5)
        .with_redaction_policy(Blank);
    let args = json(r#"{"token":"secret"}"#);
    let began = std::time::Instant::now();
    let invoked = observe.before_invocation_at("t", &args, began);
    match invoked.kind {
        EventKind::ToolInvoked {
            args_json,
            truncated,
            ..
        } => assert_eq!((args_json.as_str(), truncated), ("[args", true)),
        other => panic!("expected ToolInvoked, got {other:?}"),
    }
    let end = observe.after_invocation_at(
        "t",
        &args,
        &args,
        &ToolInvocationOutcome::Completed,
        began + std::time::Duration::from_millis(8),
    );
    match &end[0].kind {
        EventKind::ToolCompleted {
            result,
            truncated,
            duration_ms,
            ..
        } => assert_eq!((result.as_str(), *truncated, *duration_ms), ("[resu", true, Some(8))),
        other => panic!("expected ToolCompleted, got {other:?}"),
    }
}

#[test]
fn calls_are_timed_from_their_own_begin() {
    let start = std::time::Instant::now();
    let at = |millis: u64| start + std::time::Duration::from_millis(millis);
    let args = json("{}");
    let mut observe = new_hook("c");
    let mut end = |observe: &mut DispatchObserveHook<_>, millis: u64| {
        let emissions = observe.after_invocation_at(
            "t",
            &args,
            &args,
            &ToolInvocationOutcome::Completed,
            at(millis),
        );
        match &emissions[emissions.len() - 1].kind {
            EventKind::ToolCompleted { duration_ms, .. } => *duration_ms,
            other => panic!("expected ToolCompleted, got {other:?}"),
        }
    };
    observe.before_invocation_at("t", &json("{}"), at(10));
    assert_eq!(end(&mut observe, 15), Some(5));
    observe.before_invocation_at("t", &json("{}"), at(100));
    observe.before_step("k", 0, 0);
    assert_eq!(end(&mut observe, 130), Some(30));
    assert_eq!(end(&mut observe, 200), None);
}
