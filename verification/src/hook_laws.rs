//! What the prompt hooks emit, member by member.

use vstd::prelude::*;

use crate::chained::{ChainedHook, HookAction, ToolCallHookAction};
use crate::emit::Emission;
use crate::event::{ErrorClass, EventKind};
use crate::hook::{PromptFailure, PromptUsage, TelemetryHook};
use crate::redaction::RedactionPolicy;
use crate::sampling::SamplingPolicy;

verus! {

/// The text that was found, or else the one that was configured.
pub open spec fn found_or(found: Option<String>, configured: Seq<char>) -> Seq<char> {
    match found {
        Some(text) => text@,
        None => configured,
    }
}

/// A count of tokens, told apart from none.
pub open spec fn tokens_or_none(count: u64, reported: Option<u64>) -> bool {
    match reported {
        Some(tokens) => tokens == count && count > 0,
        None => count == 0,
    }
}

/// A payload is the longest prefix of the text within the limit, counted in
/// bytes of UTF-8, and is marked as truncated exactly where something is
/// missing from it.
pub proof fn lemma_payload(text: Seq<char>, limit: nat, carried: (Seq<char>, bool))
    requires
        carried == crate::redaction::payload(text, limit),
    ensures
        carried.0.len() <= text.len(),
        carried.0 == text.take(carried.0.len() as int),
        vstd::utf8::encode_utf8(carried.0).len() <= limit,
        forall|n: int|
            carried.0.len() < n <= text.len() ==> vstd::utf8::encode_utf8(
                #[trigger] text.take(n),
            ).len() > limit,
        carried.1 <==> carried.0 != text,
        carried.1 <==> vstd::utf8::encode_utf8(text).len() > limit,
{
    crate::truncate::lemma_truncation_is_longest_prefix(text, limit);
    crate::truncate::lemma_truncation_is_idempotent(text, limit);
    assert forall|n: int| carried.0.len() < n <= text.len() implies vstd::utf8::encode_utf8(
        #[trigger] text.take(n),
    ).len() > limit by {
        assert(crate::truncate::byte_len(text.take(n)) > limit);
    }
}

/// Whether arguments are carried as the policy may leave them, cut to the limit.
pub open spec fn carries_args<R: RedactionPolicy>(
    policy: R,
    limit: nat,
    tool: Seq<char>,
    args: Seq<char>,
    carried: Seq<char>,
    truncated: bool,
) -> bool {
    exists|redacted: Seq<char>| #[trigger]
        policy.may_redact_args(tool, args, redacted) && (carried, truncated)
            == crate::redaction::payload(redacted, limit)
}

/// Whether a result is carried as the policy may leave it, cut to the limit.
pub open spec fn carries_result<R: RedactionPolicy>(
    policy: R,
    limit: nat,
    tool: Seq<char>,
    result: Seq<char>,
    carried: Seq<char>,
    truncated: bool,
) -> bool {
    exists|redacted: Seq<char>| #[trigger]
        policy.may_redact_result(tool, result, redacted) && (carried, truncated)
            == crate::redaction::payload(redacted, limit)
}

/// A prompt that is sent is reported, where it is sampled, with the configured
/// model and one message more than its history has.
pub proof fn lemma_prompt_is_started<S: SamplingPolicy, R: RedactionPolicy>(
    hook: TelemetryHook<S, R>,
    history_len: usize,
    conversation_id: Option<String>,
    out: Option<Emission>,
)
    requires
        call_ensures(
            TelemetryHook::<S, R>::on_completion_call,
            (&hook, history_len, conversation_id),
            out,
        ),
    ensures
        out is Some <==> hook.sampling().samples(
            "prompt.started"@,
            found_or(conversation_id, hook.conversation()),
        ),
        out matches Some(emission) ==> {
            &&& emission.conversation_id@ == found_or(conversation_id, hook.conversation())
            &&& emission.kind matches EventKind::PromptStarted {
                model,
                messages_in,
                temperature,
                top_p,
                max_tokens,
            } && {
                &&& model@ == hook.model()
                &&& history_len < usize::MAX ==> messages_in == history_len + 1
                &&& history_len == usize::MAX ==> messages_in == usize::MAX
                &&& temperature is None
                &&& top_p is None
                &&& max_tokens is None
            }
        },
{
}

/// A completion is reported, where it is sampled, with what its usage tells,
/// each count for its own, and with what the resolvers found.
pub proof fn lemma_prompt_is_completed<S: SamplingPolicy, R: RedactionPolicy>(
    hook: TelemetryHook<S, R>,
    usage: PromptUsage,
    message_id: Option<String>,
    conversation_id: Option<String>,
    found_model: Option<String>,
    ancestor: Option<String>,
    elapsed: Option<u64>,
    out: Option<Emission>,
)
    requires
        call_ensures(
            TelemetryHook::<S, R>::on_completion_response,
            (&hook, usage, message_id, conversation_id, found_model, ancestor, elapsed),
            out,
        ),
    ensures
        out is Some <==> hook.sampling().samples(
            "prompt.completed"@,
            found_or(conversation_id, hook.conversation()),
        ),
        out matches Some(emission) ==> {
            &&& emission.conversation_id@ == found_or(conversation_id, hook.conversation())
            &&& emission.kind matches EventKind::PromptCompleted {
                model,
                tokens_in,
                tokens_out,
                cached_tokens_in,
                reasoning_tokens,
                cost_usd,
                finish_reason,
                response_id,
                previous_response_id,
                time_to_first_token_ms,
                duration_ms,
            } && {
                &&& model@ == found_or(found_model, hook.model())
                &&& tokens_or_none(usage.input_tokens, tokens_in)
                &&& tokens_or_none(usage.output_tokens, tokens_out)
                &&& tokens_or_none(usage.cached_input_tokens, cached_tokens_in)
                &&& tokens_or_none(usage.reasoning_tokens, reasoning_tokens)
                &&& cost_usd is None
                &&& finish_reason is None
                &&& response_id.deep_view() == message_id.deep_view()
                &&& previous_response_id.deep_view() == ancestor.deep_view()
                &&& time_to_first_token_ms is None
                &&& duration_ms == elapsed
            }
        },
{
}

/// A failed prompt is reported, where it is sampled, with all that is known of
/// the failure.
pub proof fn lemma_prompt_is_failed<S: SamplingPolicy, R: RedactionPolicy>(
    hook: TelemetryHook<S, R>,
    failure: PromptFailure,
    conversation_id: Option<String>,
    out: Option<Emission>,
)
    requires
        call_ensures(
            TelemetryHook::<S, R>::observe_prompt_error,
            (&hook, &failure, conversation_id),
            out,
        ),
    ensures
        out is Some <==> hook.sampling().samples(
            "prompt.failed"@,
            found_or(conversation_id, hook.conversation()),
        ),
        out matches Some(emission) ==> {
            &&& emission.conversation_id@ == found_or(conversation_id, hook.conversation())
            &&& emission.kind matches EventKind::PromptFailed {
                model,
                error_class,
                message,
                retriable,
                provider_error_code,
                http_status,
            } && {
                &&& model@ == hook.model()
                &&& error_class == failure.error_class
                &&& message@ == failure.message@
                &&& retriable == failure.retriable
                &&& provider_error_code.deep_view() == failure.provider_error_code.deep_view()
                &&& http_status == failure.http_status
            }
        },
{
}

/// A tool call is reported, where it is sampled by its internal id, under that
/// id, with the id of the provider and its arguments redacted before they are
/// cut.
pub proof fn lemma_tool_is_invoked<S: SamplingPolicy, R: RedactionPolicy>(
    hook: TelemetryHook<S, R>,
    tool: &str,
    provider_id: Option<String>,
    internal_id: &str,
    args: &str,
    conversation_id: Option<String>,
    out: Option<Emission>,
)
    requires
        call_ensures(
            TelemetryHook::<S, R>::on_tool_call,
            (&hook, tool, provider_id, internal_id, args, conversation_id),
            out,
        ),
    ensures
        out is Some <==> hook.sampling().samples("tool.invoked"@, internal_id@),
        out matches Some(emission) ==> {
            &&& emission.conversation_id@ == found_or(conversation_id, hook.conversation())
            &&& emission.kind matches EventKind::ToolInvoked {
                tool_name,
                provider_call_id,
                call_id,
                args_json,
                truncated,
            } && {
                &&& tool_name@ == tool@
                &&& provider_call_id.deep_view() == provider_id.deep_view()
                &&& call_id@ == internal_id@
                &&& carries_args(
                    hook.redaction(),
                    hook.limit() as nat,
                    tool@,
                    args@,
                    args_json@,
                    truncated,
                )
            }
        },
{
}

/// A tool result is reported, where it is sampled by the internal id of the
/// call, under that id, with the time it took and the result redacted before it
/// is cut.
pub proof fn lemma_tool_is_completed<S: SamplingPolicy, R: RedactionPolicy>(
    hook: TelemetryHook<S, R>,
    tool: &str,
    provider_id: Option<String>,
    internal_id: &str,
    returned: &str,
    conversation_id: Option<String>,
    elapsed: Option<u64>,
    out: Option<Emission>,
)
    requires
        call_ensures(
            TelemetryHook::<S, R>::on_tool_result,
            (&hook, tool, provider_id, internal_id, returned, conversation_id, elapsed),
            out,
        ),
    ensures
        out is Some <==> hook.sampling().samples("tool.completed"@, internal_id@),
        out matches Some(emission) ==> {
            &&& emission.conversation_id@ == found_or(conversation_id, hook.conversation())
            &&& emission.kind matches EventKind::ToolCompleted {
                tool_name,
                provider_call_id,
                call_id,
                result,
                truncated,
                duration_ms,
            } && {
                &&& tool_name@ == tool@
                &&& provider_call_id.deep_view() == provider_id.deep_view()
                &&& call_id@ == internal_id@
                &&& duration_ms == elapsed
                &&& carries_result(
                    hook.redaction(),
                    hook.limit() as nat,
                    tool@,
                    returned@,
                    result@,
                    truncated,
                )
            }
        },
{
}

/// A failed tool call is reported, where it is sampled by its internal id, with
/// class and message of the failure.
pub proof fn lemma_tool_is_failed<S: SamplingPolicy, R: RedactionPolicy>(
    hook: TelemetryHook<S, R>,
    tool: &str,
    internal_id: &str,
    class: ErrorClass,
    text: &str,
    conversation_id: Option<String>,
    out: Option<Emission>,
)
    requires
        call_ensures(
            TelemetryHook::<S, R>::observe_tool_error,
            (&hook, tool, internal_id, class, text, conversation_id),
            out,
        ),
    ensures
        out is Some <==> hook.sampling().samples("tool.failed"@, internal_id@),
        out matches Some(emission) ==> {
            &&& emission.conversation_id@ == found_or(conversation_id, hook.conversation())
            &&& emission.kind matches EventKind::ToolFailed {
                tool_name,
                call_id,
                error_class,
                message,
            } && {
                &&& tool_name@ == tool@
                &&& call_id@ == internal_id@
                &&& error_class == class
                &&& message@ == text@
            }
        },
{
}

/// Two reasons are joined by a bar between spaces, where there are two.
pub proof fn lemma_joined_reasons(a: &str, b: &str, joined: String)
    requires
        call_ensures(crate::chained::join_reasons, (a, b), joined),
    ensures
        a@.len() > 0 && b@.len() > 0 ==> joined@ == a@ + " | "@ + b@,
        a@.len() == 0 ==> joined@ == b@,
        b@.len() == 0 ==> joined@ == a@,
{
}

/// Whether `reason` is that of both: the one that is not empty, or both with a
/// bar between them.
pub open spec fn joins(a: Seq<char>, b: Seq<char>, reason: Seq<char>) -> bool {
    &&& a.len() > 0 && b.len() > 0 ==> reason == a + " | "@ + b
    &&& a.len() == 0 ==> reason == b
    &&& a.len() > 0 && b.len() == 0 ==> reason == a
}

/// Two hooks continue where both do, and end the loop where one of them does,
/// with its reason or both of them.
pub proof fn lemma_actions_combine(a: HookAction, b: HookAction, action: HookAction)
    requires
        call_ensures(crate::chained::combine_actions, (a, b), action),
    ensures
        match (a, b) {
            (HookAction::Continue, HookAction::Continue) => action is Continue,
            (HookAction::Terminate { reason: ra }, HookAction::Continue) => action matches HookAction::Terminate {
                reason,
            } && reason@ == ra@,
            (HookAction::Continue, HookAction::Terminate { reason: rb }) => action matches HookAction::Terminate {
                reason,
            } && reason@ == rb@,
            (
                HookAction::Terminate { reason: ra },
                HookAction::Terminate { reason: rb },
            ) => action matches HookAction::Terminate { reason } && joins(ra@, rb@, reason@),
        },
{
}

/// Of what two hooks decide on a tool call, ending the loop goes before skipping
/// the call, and that before continuing; two of a kind have both reasons.
pub open spec fn tool_actions_combine(
    a: ToolCallHookAction,
    b: ToolCallHookAction,
    action: ToolCallHookAction,
) -> bool {
    match (a, b) {
        (ToolCallHookAction::Continue, ToolCallHookAction::Continue) => action is Continue,
        (ToolCallHookAction::Skip { reason: ra }, ToolCallHookAction::Continue) => action matches ToolCallHookAction::Skip {
            reason,
        } && reason@ == ra@,
        (ToolCallHookAction::Continue, ToolCallHookAction::Skip { reason: rb }) => action matches ToolCallHookAction::Skip {
            reason,
        } && reason@ == rb@,
        (
            ToolCallHookAction::Skip { reason: ra },
            ToolCallHookAction::Skip { reason: rb },
        ) => action matches ToolCallHookAction::Skip { reason } && joins(ra@, rb@, reason@),
        (
            ToolCallHookAction::Terminate { reason: ra },
            ToolCallHookAction::Terminate { reason: rb },
        ) => action matches ToolCallHookAction::Terminate { reason } && joins(ra@, rb@, reason@),
        (ToolCallHookAction::Terminate { reason: ra }, _) => action matches ToolCallHookAction::Terminate {
            reason,
        } && reason@ == ra@,
        (_, ToolCallHookAction::Terminate { reason: rb }) => action matches ToolCallHookAction::Terminate {
            reason,
        } && reason@ == rb@,
    }
}

/// The decisions of two hooks on a tool call combine by severity.
pub proof fn lemma_tool_actions_combine(
    a: ToolCallHookAction,
    b: ToolCallHookAction,
    action: ToolCallHookAction,
)
    requires
        call_ensures(crate::chained::combine_tool_actions, (a, b), action),
    ensures
        tool_actions_combine(a, b, action),
{
}

/// A chain decides on a tool call as its hooks do together, and where it was
/// asked to, reports a call that was skipped or ended, under the internal id of
/// the call and with the reason of the decision.
pub proof fn lemma_chain_reports<A, B>(
    chain: ChainedHook<A, B>,
    tool: &str,
    internal_id: &str,
    first: ToolCallHookAction,
    second: ToolCallHookAction,
    out: (ToolCallHookAction, Option<Emission>),
)
    requires
        call_ensures(
            ChainedHook::<A, B>::on_tool_call,
            (&chain, tool, internal_id, first, second),
            out,
        ),
    ensures
        tool_actions_combine(first, second, out.0),
        match (chain.observed(), out.0) {
            (Some(conversation), ToolCallHookAction::Skip { reason: told }) => {
                &&& out.1 matches Some(emission)
                &&& emission.conversation_id@ == conversation
                &&& emission.kind matches EventKind::ToolSkipped { tool_name, call_id, reason }
                &&& tool_name@ == tool@
                &&& call_id@ == internal_id@
                &&& reason@ == told@
            },
            (Some(conversation), ToolCallHookAction::Terminate { reason: told }) => {
                &&& out.1 matches Some(emission)
                &&& emission.conversation_id@ == conversation
                &&& emission.kind matches EventKind::ToolTerminated { tool_name, call_id, reason }
                &&& tool_name@ == tool@
                &&& call_id@ == internal_id@
                &&& reason@ == told@
            },
            _ => out.1 is None,
        },
{
}

} // verus!
