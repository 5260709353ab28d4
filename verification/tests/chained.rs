use rig_tap::chained::{combine_actions, combine_tool_actions, join_reasons};
use rig_tap::{ChainedHook, EventKind, HookAction, ToolCallHookAction};

#[test]
fn continue_dominates_when_both_continue() {
    let combined = combine_actions(HookAction::Continue, HookAction::Continue);
    assert!(matches!(combined, HookAction::Continue));
}

#[test]
fn terminate_beats_continue() {
    let combined = combine_actions(
        HookAction::Continue,
        HookAction::Terminate {
            reason: "stop".into(),
        },
    );
    match combined {
        HookAction::Terminate { reason } => assert_eq!(reason, "stop"),
        HookAction::Continue => panic!("expected Terminate"),
    }
}

#[test]
fn double_terminate_joins_reasons() {
    let combined = combine_actions(
        HookAction::Terminate { reason: "a".into() },
        HookAction::Terminate { reason: "b".into() },
    );
    match combined {
        HookAction::Terminate { reason } => assert_eq!(reason, "a | b"),
        HookAction::Continue => panic!("expected Terminate"),
    }
}

#[test]
fn tool_terminate_beats_skip() {
    let combined = combine_tool_actions(
        ToolCallHookAction::Skip {
            reason: "policy".into(),
        },
        ToolCallHookAction::Terminate {
            reason: "abort".into(),
        },
    );
    match combined {
        ToolCallHookAction::Terminate { reason } => assert_eq!(reason, "abort"),
        other => panic!("expected Terminate, got {other:?}"),
    }
}

#[test]
fn tool_skip_beats_continue() {
    let combined = combine_tool_actions(
        ToolCallHookAction::Skip {
            reason: "policy".into(),
        },
        ToolCallHookAction::Continue,
    );
    match combined {
        ToolCallHookAction::Skip { reason } => assert_eq!(reason, "policy"),
        other => panic!("expected Skip, got {other:?}"),
    }
}

#[test]
fn empty_reasons_leave_no_separator() {
    assert_eq!(join_reasons("", "b"), "b");
    assert_eq!(join_reasons("a", ""), "a");
    assert_eq!(join_reasons("", ""), "");
    assert_eq!(join_reasons("a", "b"), "a | b");
}

#[test]
fn double_skip_joins_reasons() {
    let combined = combine_tool_actions(
        ToolCallHookAction::Skip { reason: "a".into() },
        ToolCallHookAction::Skip { reason: "b".into() },
    );
    assert_eq!(
        combined,
        ToolCallHookAction::Skip {
            reason: "a | b".into()
        }
    );
}

#[test]
fn nesting_of_chains_does_not_matter() {
    let t = |reason: &str| ToolCallHookAction::Terminate {
        reason: reason.into(),
    };
    let left = combine_tool_actions(combine_tool_actions(t("a"), t("")), t("c"));
    let right = combine_tool_actions(t("a"), combine_tool_actions(t(""), t("c")));
    assert_eq!(left, right);
    assert_eq!(left, t("a | c"));
}

#[test]
fn observed_chain_reports_stopped_calls() {
    let chain = ChainedHook::new(1, 2).observe_with("conv");
    assert_eq!(chain.hooks(), (&1, &2));
    let (action, report) = chain.on_tool_call(
        "search",
        "call-1",
        ToolCallHookAction::Continue,
        ToolCallHookAction::Skip {
            reason: "gated".into(),
        },
    );
    assert!(matches!(action, ToolCallHookAction::Skip { .. }));
    let report = report.unwrap();
    assert_eq!(report.conversation_id, "conv");
    assert_eq!(
        report.kind,
        EventKind::ToolSkipped {
            tool_name: "search".into(),
            call_id: "call-1".into(),
            reason: "gated".into(),
        }
    );
    let (_, report) = chain.on_tool_call(
        "search",
        "call-2",
        ToolCallHookAction::Terminate {
            reason: "stop".into(),
        },
        ToolCallHookAction::Skip {
            reason: "gated".into(),
        },
    );
    assert_eq!(
        report.unwrap().kind,
        EventKind::ToolTerminated {
            tool_name: "search".into(),
            call_id: "call-2".into(),
            reason: "stop".into(),
        }
    );
    let (_, report) = chain.on_tool_call(
        "search",
        "call-3",
        ToolCallHookAction::Continue,
        ToolCallHookAction::Continue,
    );
    assert!(report.is_none());
}

#[test]
fn unobserved_chain_reports_nothing() {
    let chain = ChainedHook::new((), ());
    let (action, report) = chain.on_tool_call(
        "search",
        "call-1",
        ToolCallHookAction::Terminate {
            reason: "stop".into(),
        },
        ToolCallHookAction::Continue,
    );
    assert!(matches!(action, ToolCallHookAction::Terminate { .. }));
    assert!(report.is_none());
}
