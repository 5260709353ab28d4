//! Data redaction policies for [`TelemetryHook`](crate::TelemetryHook).
//!
//! Enterprise environments often require stripping PII (Personally Identifiable
//! Information), credentials, or sensitive business data from logs *before*
//! they are serialized and emitted to standard observability pipelines (like
//! OpenTelemetry collectors).
//!
//! The [`RedactionPolicy`] trait allows host applications to intercept and
//! scrub `args_json` and `result` strings on tool invocations and completions.
//!
//! The default policy ([`IdentityRedaction`]) performs no scrubbing.

use std::borrow::Cow;

use vstd::prelude::*;

use crate::truncate::truncate_utf8;

verus! {

/// Defines how sensitive fields in telemetry events should be redacted before
/// emission.
///
/// Implemented by host applications to scrub PII or secrets.
pub trait RedactionPolicy: Send + Sync + std::fmt::Debug {
    /// The texts that the policy may put in place of the arguments: any, unless
    /// the policy says more.
    open spec fn may_redact_args(
        &self,
        tool_name: Seq<char>,
        args_json: Seq<char>,
        redacted: Seq<char>,
    ) -> bool {
        true
    }

    /// The texts that the policy may put in place of the result: any, unless
    /// the policy says more.
    open spec fn may_redact_result(
        &self,
        tool_name: Seq<char>,
        result: Seq<char>,
        redacted: Seq<char>,
    ) -> bool {
        true
    }

    /// Scrub sensitive data from JSON-encoded tool arguments.
    ///
    /// This is called just before `tool.invoked` and `tool.hosted_invoked`
    /// events are emitted. The input `args_json` is the raw stringified JSON
    /// (pre-truncation).
    ///
    /// Returns the redacted string.
    fn redact_tool_args<'a>(&self, tool_name: &str, args_json: &'a str) -> (redacted: Cow<'a, str>)
        ensures
            self.may_redact_args(tool_name@, args_json@, redacted@),
    ;

    /// Scrub sensitive data from tool execution results.
    ///
    /// This is called just before `tool.completed` and `tool.hosted_completed`
    /// events are emitted. The input `result` is the raw stringified result
    /// (pre-truncation).
    ///
    /// Returns the redacted string.
    fn redact_tool_result<'a>(&self, tool_name: &str, result: &'a str) -> (redacted: Cow<'a, str>)
        ensures
            self.may_redact_result(tool_name@, result@, redacted@),
    ;
}

/// A no-op redaction policy that leaves all payloads intact.
///
/// This is the default policy for [`TelemetryHook`](crate::TelemetryHook).
#[derive(Debug, Default, Clone, Copy)]
pub struct IdentityRedaction;

impl RedactionPolicy for IdentityRedaction {
    open spec fn may_redact_args(
        &self,
        tool_name: Seq<char>,
        args_json: Seq<char>,
        redacted: Seq<char>,
    ) -> bool {
        redacted == args_json
    }

    open spec fn may_redact_result(
        &self,
        tool_name: Seq<char>,
        result: Seq<char>,
        redacted: Seq<char>,
    ) -> bool {
        redacted == result
    }

    fn redact_tool_args<'a>(&self, _tool_name: &str, args_json: &'a str) -> (redacted: Cow<
        'a,
        str,
    >) {
        Cow::Borrowed(args_json)
    }

    fn redact_tool_result<'a>(&self, _tool_name: &str, result: &'a str) -> (redacted: Cow<
        'a,
        str,
    >) {
        Cow::Borrowed(result)
    }
}

/// A payload as an event carries it: `text` truncated to `limit` bytes, and
/// whether something was cut off.
pub open spec fn payload(text: Seq<char>, limit: nat) -> (Seq<char>, bool) {
    (crate::truncate::truncated(text, limit), crate::truncate::byte_len(text) > limit)
}

/// The payloads that arguments may turn into: what the policy may put in
/// their place, then truncated.
pub open spec fn may_carry_args<R: RedactionPolicy>(
    policy: R,
    tool_name: Seq<char>,
    args_json: Seq<char>,
    limit: nat,
    carried: (Seq<char>, bool),
) -> bool {
    exists|redacted: Seq<char>| #[trigger]
        policy.may_redact_args(tool_name, args_json, redacted) && carried == payload(
            redacted,
            limit,
        )
}

/// The payloads that a result may turn into: what the policy may put in its
/// place, then truncated.
pub open spec fn may_carry_result<R: RedactionPolicy>(
    policy: R,
    tool_name: Seq<char>,
    result: Seq<char>,
    limit: nat,
    carried: (Seq<char>, bool),
) -> bool {
    exists|redacted: Seq<char>| #[trigger]
        policy.may_redact_result(tool_name, result, redacted) && carried == payload(redacted, limit)
}

/// Truncates what a policy returned.
pub fn truncate_redacted(redacted: &Cow<'_, str>, limit: usize) -> (carried: (String, bool))
    ensures
        (carried.0@, carried.1) == payload(redacted@, limit as nat),
{
    match redacted {
        Cow::Borrowed(text) => truncate_utf8(text, limit),
        Cow::Owned(text) => truncate_utf8(text.as_str(), limit),
    }
}

/// Redacts arguments and truncates what is left.
pub fn carry_args<R: RedactionPolicy>(
    policy: &R,
    tool_name: &str,
    args_json: &str,
    limit: usize,
) -> (carried: (String, bool))
    ensures
        may_carry_args(*policy, tool_name@, args_json@, limit as nat, (carried.0@, carried.1)),
{
    let redacted = policy.redact_tool_args(tool_name, args_json);
    truncate_redacted(&redacted, limit)
}

/// Redacts a result and truncates what is left.
pub fn carry_result<R: RedactionPolicy>(
    policy: &R,
    tool_name: &str,
    result: &str,
    limit: usize,
) -> (carried: (String, bool))
    ensures
        may_carry_result(*policy, tool_name@, result@, limit as nat, (carried.0@, carried.1)),
{
    let redacted = policy.redact_tool_result(tool_name, result);
    truncate_redacted(&redacted, limit)
}

/// The `tool.invoked` event of a call with the given payload.
pub open spec fn invoked_kind(
    tool_name: Seq<char>,
    provider_call_id: Option<Seq<char>>,
    call_id: Seq<char>,
    carried: (Seq<char>, bool),
) -> crate::event::KindView {
    crate::event::KindView::ToolInvoked {
        tool_name,
        provider_call_id,
        call_id,
        args_json: carried.0,
        truncated: carried.1,
    }
}

/// The `tool.completed` event of a call with the given payload.
pub open spec fn completed_kind(
    tool_name: Seq<char>,
    provider_call_id: Option<Seq<char>>,
    call_id: Seq<char>,
    carried: (Seq<char>, bool),
    duration_ms: Option<u64>,
) -> crate::event::KindView {
    crate::event::KindView::ToolCompleted {
        tool_name,
        provider_call_id,
        call_id,
        result: carried.0,
        truncated: carried.1,
        duration_ms,
    }
}

/// Without redaction a payload is the raw text truncated, and nothing else.
pub proof fn lemma_identity_carries_raw(
    tool_name: Seq<char>,
    text: Seq<char>,
    limit: nat,
    carried: (Seq<char>, bool),
)
    ensures
        may_carry_args(IdentityRedaction, tool_name, text, limit, carried) <==> carried == payload(
            text,
            limit,
        ),
        may_carry_result(IdentityRedaction, tool_name, text, limit, carried) <==> carried
            == payload(text, limit),
{
    assert(IdentityRedaction.may_redact_args(tool_name, text, text));
    assert(IdentityRedaction.may_redact_result(tool_name, text, text));
}

} // verus!
