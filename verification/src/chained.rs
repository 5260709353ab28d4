//! [`ChainedHook`]: compose two prompt hooks on a single agent.
//!
//! Rig's `agent.with_hook(...)` slot only accepts one hook value. When you
//! want to combine, say, [`crate::TelemetryHook`] with a persistence hook, wrap
//! them in a `ChainedHook`.
//!
//! # Combination semantics
//!
//! - [`HookAction`]: if either inner hook returns `Terminate { reason }`, the
//!   combined action is `Terminate { reason }` (reasons concatenated when
//!   both terminate). Otherwise `Continue`.
//! - [`ToolCallHookAction`]: `Terminate` > `Skip` > `Continue`. If both hooks
//!   produce the same severity, reasons are concatenated with a `" | "`
//!   separator.
//!
//! Both hooks are *always* invoked. A `Skip` from `A` does not short-circuit
//! `B`'s `on_tool_call` — telemetry still gets to record the call attempt
//! when paired with a gating hook.

use vstd::prelude::*;

use crate::emit::Emission;
use crate::event::EventKind;

verus! {

/// What a hook decides on a completion or a tool result.
#[derive(Debug, PartialEq, Eq)]
pub enum HookAction {
    /// Continue agentic loop execution as normal.
    Continue,
    /// Terminate agent loop early
    Terminate {
        /// Why the loop is to end.
        reason: String,
    },
}

/// What a hook decides on a tool call.
#[derive(Debug, PartialEq, Eq)]
pub enum ToolCallHookAction {
    /// Continue tool execution as normal.
    Continue,
    /// Skip tool execution and return the provided reason as the tool result.
    Skip {
        /// Why the tool is not run.
        reason: String,
    },
    /// Terminate agent loop early
    Terminate {
        /// Why the loop is to end.
        reason: String,
    },
}

/// The content of an action: how severe it is, and the reason where it has
/// one.
#[verifier::ext_equal]
pub enum ActionView {
    Continue,
    Skip { reason: Seq<char> },
    Terminate { reason: Seq<char> },
}

impl View for HookAction {
    type V = ActionView;

    open spec fn view(&self) -> ActionView {
        match self {
            HookAction::Continue => ActionView::Continue,
            HookAction::Terminate { reason } => ActionView::Terminate { reason: reason@ },
        }
    }
}

impl View for ToolCallHookAction {
    type V = ActionView;

    open spec fn view(&self) -> ActionView {
        match self {
            ToolCallHookAction::Continue => ActionView::Continue,
            ToolCallHookAction::Skip { reason } => ActionView::Skip { reason: reason@ },
            ToolCallHookAction::Terminate { reason } => ActionView::Terminate { reason: reason@ },
        }
    }
}

impl ActionView {
    /// How much an action stops: nothing, one tool call, or the loop.
    pub open spec fn severity(self) -> nat {
        match self {
            ActionView::Continue => 0,
            ActionView::Skip { .. } => 1,
            ActionView::Terminate { .. } => 2,
        }
    }
}

/// Two reasons in one text: separated by `" | "` where neither is empty.
pub open spec fn joined_reasons(a: Seq<char>, b: Seq<char>) -> Seq<char> {
    if a.len() == 0 {
        b
    } else if b.len() == 0 {
        a
    } else {
        a + " | "@ + b
    }
}

/// The more severe of two actions, and with equal severity the action with
/// both reasons.
pub open spec fn combined(a: ActionView, b: ActionView) -> ActionView {
    if a.severity() > b.severity() {
        a
    } else if b.severity() > a.severity() {
        b
    } else {
        match (a, b) {
            (ActionView::Skip { reason: ra }, ActionView::Skip { reason: rb }) =>
                ActionView::Skip { reason: joined_reasons(ra, rb) },
            (ActionView::Terminate { reason: ra }, ActionView::Terminate { reason: rb }) =>
                ActionView::Terminate { reason: joined_reasons(ra, rb) },
            _ => ActionView::Continue,
        }
    }
}

/// Joins two reasons.
pub fn join_reasons(a: &str, b: &str) -> (joined: String)
    ensures
        joined@ == joined_reasons(a@, b@),
{
    if a.is_empty() {
        b.to_owned()
    } else if b.is_empty() {
        a.to_owned()
    } else {
        let mut joined = a.to_owned();
        joined.append(" | ");
        joined.append(b);
        joined
    }
}

/// Combines the decisions of two hooks on a completion or a tool result.
pub fn combine_actions(a: HookAction, b: HookAction) -> (action: HookAction)
    ensures
        action@ == combined(a@, b@),
{
    match (a, b) {
        (HookAction::Continue, HookAction::Continue) => HookAction::Continue,
        (HookAction::Terminate { reason }, HookAction::Continue) => HookAction::Terminate {
            reason,
        },
        (HookAction::Continue, HookAction::Terminate { reason }) => HookAction::Terminate {
            reason,
        },
        (HookAction::Terminate { reason: ra }, HookAction::Terminate { reason: rb }) =>
            HookAction::Terminate { reason: join_reasons(ra.as_str(), rb.as_str()) },
    }
}

/// Combines the decisions of two hooks on a tool call.
pub fn combine_tool_actions(a: ToolCallHookAction, b: ToolCallHookAction) -> (action:
    ToolCallHookAction)
    ensures
        action@ == combined(a@, b@),
{
    match (a, b) {
        (ToolCallHookAction::Continue, b) => b,
        (a, ToolCallHookAction::Continue) => a,
        (ToolCallHookAction::Skip { reason: ra }, ToolCallHookAction::Skip { reason: rb }) =>
            ToolCallHookAction::Skip { reason: join_reasons(ra.as_str(), rb.as_str()) },
        // Terminate beats everything.
        (ToolCallHookAction::Terminate { reason }, ToolCallHookAction::Skip { .. }) =>
            ToolCallHookAction::Terminate { reason },
        (ToolCallHookAction::Skip { .. }, ToolCallHookAction::Terminate { reason }) =>
            ToolCallHookAction::Terminate { reason },
        (
            ToolCallHookAction::Terminate { reason: ra },
            ToolCallHookAction::Terminate { reason: rb },
        ) => ToolCallHookAction::Terminate { reason: join_reasons(ra.as_str(), rb.as_str()) },
    }
}

/// Combine two hooks into one. See module docs for combination semantics.
///
/// When [`ChainedHook::observe_with`] sets a conversation ID, the chain
/// also emits synthetic `tool.skipped` / `tool.terminated` events for tool
/// calls whose combined action is `Skip` / `Terminate`. This closes the
/// `tool.invoked` / `tool.completed` correlation gap when chaining a
/// telemetry hook with a gating hook.
#[derive(Debug, Clone)]
pub struct ChainedHook<A, B> {
    a: A,
    b: B,
    observe_conversation_id: Option<String>,
}

impl<A, B> ChainedHook<A, B> {
    /// The hook that runs first.
    pub closed spec fn first(self) -> A {
        self.a
    }

    /// The hook that runs second.
    pub closed spec fn second(self) -> B {
        self.b
    }

    /// The conversation in which the chain reports stopped tool calls.
    pub closed spec fn observed(self) -> Option<Seq<char>> {
        self.observe_conversation_id.deep_view()
    }

    /// Build a chained hook running `a` before `b` for every lifecycle event.
    /// By default the chain emits no synthetic terminal events; use
    /// [`ChainedHook::observe_with`] to opt in.
    pub fn new(a: A, b: B) -> (hook: Self)
        ensures
            hook.first() == a,
            hook.second() == b,
            hook.observed() is None,
    {
        ChainedHook { a, b, observe_conversation_id: None }
    }

    /// Opt in to synthetic `tool.skipped` / `tool.terminated` event emission
    /// stamped with `conversation_id`. Use the same conversation ID configured
    /// on the chain's telemetry hook so pair-correlation by `call_id` works
    /// end-to-end.
    #[must_use]
    pub fn observe_with(self, conversation_id: &str) -> (hook: Self)
        ensures
            hook.first() == self.first(),
            hook.second() == self.second(),
            hook.observed() == Some(conversation_id@),
    {
        ChainedHook {
            a: self.a,
            b: self.b,
            observe_conversation_id: Some(conversation_id.to_owned()),
        }
    }

    /// The two hooks, in the order in which they run.
    pub fn hooks(&self) -> (hooks: (&A, &B))
        ensures
            *hooks.0 == self.first(),
            *hooks.1 == self.second(),
    {
        (&self.a, &self.b)
    }

    /// Combines what the two hooks decided on a tool call, and returns it with
    /// the event that reports a stopped call, where the chain was asked to
    /// report those.
    pub fn on_tool_call(
        &self,
        tool_name: &str,
        internal_call_id: &str,
        first: ToolCallHookAction,
        second: ToolCallHookAction,
    ) -> (out: (ToolCallHookAction, Option<Emission>))
        ensures
            out.0@ == combined(first@, second@),
            out.1.deep_view() == stop_report(
                self.observed(),
                tool_name@,
                internal_call_id@,
                combined(first@, second@),
            ),
    {
        let action = combine_tool_actions(first, second);
        let report = match &self.observe_conversation_id {
            None => None,
            Some(conversation_id) => match &action {
                ToolCallHookAction::Continue => None,
                ToolCallHookAction::Skip { reason } => Some(
                    Emission {
                        conversation_id: conversation_id.clone(),
                        kind: EventKind::ToolSkipped {
                            tool_name: tool_name.to_owned(),
                            call_id: internal_call_id.to_owned(),
                            reason: reason.clone(),
                        },
                    },
                ),
                ToolCallHookAction::Terminate { reason } => Some(
                    Emission {
                        conversation_id: conversation_id.clone(),
                        kind: EventKind::ToolTerminated {
                            tool_name: tool_name.to_owned(),
                            call_id: internal_call_id.to_owned(),
                            reason: reason.clone(),
                        },
                    },
                ),
            },
        };
        (action, report)
    }
}

/// The event that reports a stopped tool call to the observed conversation.
pub open spec fn stop_report(
    observed: Option<Seq<char>>,
    tool_name: Seq<char>,
    call_id: Seq<char>,
    action: ActionView,
) -> Option<crate::emit::EmissionView> {
    match (observed, action) {
        (Some(conversation_id), ActionView::Skip { reason }) => Some(
            crate::emit::EmissionView {
                conversation_id,
                kind: crate::event::KindView::ToolSkipped { tool_name, call_id, reason },
            },
        ),
        (Some(conversation_id), ActionView::Terminate { reason }) => Some(
            crate::emit::EmissionView {
                conversation_id,
                kind: crate::event::KindView::ToolTerminated { tool_name, call_id, reason },
            },
        ),
        _ => None,
    }
}

/// The combined action is as severe as the more severe of the two, and it
/// continues only where both do.
pub proof fn lemma_severity_dominates(a: ActionView, b: ActionView)
    ensures
        combined(a, b).severity() >= a.severity(),
        combined(a, b).severity() >= b.severity(),
        combined(a, b).severity() == a.severity() || combined(a, b).severity() == b.severity(),
        combined(a, b) is Continue <==> a is Continue && b is Continue,
{
}

/// Chaining is associative: how a chain of three hooks is nested changes
/// nothing of the combined action.
pub proof fn lemma_chaining_is_associative(a: ActionView, b: ActionView, c: ActionView)
    ensures
        combined(combined(a, b), c) == combined(a, combined(b, c)),
{
    match (a, b, c) {
        (
            ActionView::Skip { reason: ra },
            ActionView::Skip { reason: rb },
            ActionView::Skip { reason: rc },
        ) => {
            lemma_joining_is_associative(ra, rb, rc);
        },
        (
            ActionView::Terminate { reason: ra },
            ActionView::Terminate { reason: rb },
            ActionView::Terminate { reason: rc },
        ) => {
            lemma_joining_is_associative(ra, rb, rc);
        },
        _ => {},
    }
}

proof fn lemma_joining_is_associative(a: Seq<char>, b: Seq<char>, c: Seq<char>)
    ensures
        joined_reasons(joined_reasons(a, b), c) == joined_reasons(a, joined_reasons(b, c)),
{
    reveal_strlit(" | ");
    if a.len() > 0 && b.len() > 0 && c.len() > 0 {
        assert(a + " | "@ + b + " | "@ + c =~= a + " | "@ + (b + " | "@ + c));
    }
}

/// A stopped call is reported under the `call_id` of the invocation, so that
/// the pair can be found, and a call that continues is not reported.
pub proof fn lemma_stop_report_pairs(
    observed: Option<Seq<char>>,
    tool_name: Seq<char>,
    call_id: Seq<char>,
    action: ActionView,
)
    ensures
        stop_report(observed, tool_name, call_id, action) is Some <==> observed is Some
            && action !is Continue,
        stop_report(observed, tool_name, call_id, action) matches Some(report) ==> {
            &&& report.kind.call_id() == Some(call_id)
            &&& report.conversation_id == observed->0
        },
{
}

} // verus!
