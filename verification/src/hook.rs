//! [`TelemetryHook`]: turns the callbacks of a Rig prompt hook into
//! `prompt.*` and `tool.*` events.

use vstd::prelude::*;

use crate::emit::Emission;
use crate::event::{ErrorClass, EventKind, PAYLOAD_TRUNCATE_BYTES};
use crate::redaction::{carry_args, carry_result, IdentityRedaction, RedactionPolicy};
use crate::sampling::{AlwaysSample, SamplingPolicy};
use crate::text::copy_option;

verus! {

/// Conversation identifier to stamp on emitted events when the agent runtime
/// does not surface one to the hook. The Rig hook callbacks do not currently
/// propagate the conversation ID, so the hook stamps events with a
/// constant chosen by the caller (typically `"default"` for single-thread
/// agents, or a unique value per agent instance for multi-thread setups),
/// unless a per-request resolver finds one.
#[derive(Debug)]
pub struct TelemetryHookConfig {
    /// Default model label (e.g. `"gpt-4o"`) recorded on `prompt.*` events.
    pub model: String,
    /// Default conversation ID stamped on every emitted event when no
    /// per-request resolver is registered or the resolver returns `None`.
    pub conversation_id: String,
    /// Maximum byte length of inline `args_json` / `result` payloads before
    /// truncation. Defaults to [`PAYLOAD_TRUNCATE_BYTES`].
    pub payload_truncate_bytes: usize,
}

impl TelemetryHookConfig {
    /// Build a config with the given model label and conversation ID, using
    /// the default truncation threshold.
    pub fn new(model: &str, conversation_id: &str) -> (config: Self)
        ensures
            config.model@ == model@,
            config.conversation_id@ == conversation_id@,
            config.payload_truncate_bytes == PAYLOAD_TRUNCATE_BYTES,
    {
        TelemetryHookConfig {
            model: model.to_owned(),
            conversation_id: conversation_id.to_owned(),
            payload_truncate_bytes: PAYLOAD_TRUNCATE_BYTES,
        }
    }
}

impl Clone for TelemetryHookConfig {
    fn clone(&self) -> (copy: Self)
        ensures
            copy.model@ == self.model@,
            copy.conversation_id@ == self.conversation_id@,
            copy.payload_truncate_bytes == self.payload_truncate_bytes,
    {
        TelemetryHookConfig {
            model: self.model.clone(),
            conversation_id: self.conversation_id.clone(),
            payload_truncate_bytes: self.payload_truncate_bytes,
        }
    }
}

/// Token usage that a completion reports, with `0` for what it does not.
#[derive(Debug, Clone, Copy, PartialEq, Eq, Structural)]
pub struct PromptUsage {
    /// Input tokens.
    pub input_tokens: u64,
    /// Output tokens.
    pub output_tokens: u64,
    /// Input tokens read from a provider-managed cache.
    pub cached_input_tokens: u64,
    /// Tokens spent on internal reasoning.
    pub reasoning_tokens: u64,
}

/// How a prompt failed.
#[derive(Debug, PartialEq, Eq)]
pub struct PromptFailure {
    /// Classification of the error.
    pub error_class: ErrorClass,
    /// Displayed message or stringified error.
    pub message: String,
    /// Whether the failure was deemed retriable.
    pub retriable: bool,
    /// Provider-specific error code if available.
    pub provider_error_code: Option<String>,
    /// HTTP status code if the error was a transport or server error.
    pub http_status: Option<u16>,
}

/// A reported count, with `0` as absence.
pub open spec fn reported(value: u64) -> Option<u64> {
    if value == 0 {
        None
    } else {
        Some(value)
    }
}

/// Reads a reported count, with `0` as absence.
pub fn positive(value: u64) -> (count: Option<u64>)
    ensures
        count == reported(value),
{
    if value == 0 {
        None
    } else {
        Some(value)
    }
}

/// A value that a resolver found, or else the configured one.
pub open spec fn resolved(found: Option<Seq<char>>, configured: Seq<char>) -> Seq<char> {
    match found {
        Some(value) => value,
        None => configured,
    }
}

fn resolve(found: Option<String>, configured: &String) -> (value: String)
    ensures
        value@ == resolved(found.deep_view(), configured@),
{
    match found {
        Some(value) => value,
        None => configured.clone(),
    }
}

/// Per-request hook that turns the prompt-hook callbacks into structured
/// observability events.
///
/// A sampling policy gates every `prompt.*` and `tool.*` emission: it is asked
/// with the resolved conversation id as the correlator for `prompt.*` events
/// and with the internal call id for `tool.*` events. A redaction policy
/// scrubs tool payloads before they are truncated.
///
/// What per-request resolvers find is handed to each callback; `None` leaves
/// the configured value in place.
#[derive(Debug, Clone)]
pub struct TelemetryHook<S: SamplingPolicy, R: RedactionPolicy> {
    config: TelemetryHookConfig,
    sampling: S,
    redaction: R,
}

impl TelemetryHook<AlwaysSample, IdentityRedaction> {
    /// Build a hook from `config` that keeps every event and redacts nothing.
    pub fn new(config: TelemetryHookConfig) -> (hook: Self)
        ensures
            hook.model() == config.model@,
            hook.conversation() == config.conversation_id@,
            hook.limit() == config.payload_truncate_bytes,
    {
        TelemetryHook { config, sampling: AlwaysSample, redaction: IdentityRedaction }
    }

    /// Convenience: build a hook stamping events with `model` and
    /// `conversation_id` and default truncation.
    pub fn with_defaults(model: &str, conversation_id: &str) -> (hook: Self)
        ensures
            hook.model() == model@,
            hook.conversation() == conversation_id@,
            hook.limit() == PAYLOAD_TRUNCATE_BYTES,
    {
        TelemetryHook::new(TelemetryHookConfig::new(model, conversation_id))
    }
}

impl<S: SamplingPolicy, R: RedactionPolicy> TelemetryHook<S, R> {
    /// The configured model label.
    pub closed spec fn model(self) -> Seq<char> {
        self.config.model@
    }

    /// The configured conversation.
    pub closed spec fn conversation(self) -> Seq<char> {
        self.config.conversation_id@
    }

    /// The truncation threshold of payloads.
    pub closed spec fn limit(self) -> usize {
        self.config.payload_truncate_bytes
    }

    /// The sampling policy.
    pub closed spec fn sampling(self) -> S {
        self.sampling
    }

    /// The redaction policy.
    pub closed spec fn redaction(self) -> R {
        self.redaction
    }

    /// Install a [`SamplingPolicy`] that gates every `prompt.*` and
    /// `tool.*` emission from this hook. The default policy is
    /// [`AlwaysSample`].
    ///
    /// Pairing: the hook passes the resolved conversation id as the
    /// correlator for `prompt.*` events and the internal call id for
    /// `tool.*` events. Policies that hash the correlator (such as
    /// [`RatePolicy`](crate::RatePolicy)) therefore keep
    /// `tool.invoked` / `tool.completed` pairs coherent
    /// automatically.
    #[must_use]
    pub fn with_sampling_policy<P: SamplingPolicy>(self, policy: P) -> (hook: TelemetryHook<P, R>)
        ensures
            hook.sampling() == policy,
            hook.redaction() == self.redaction(),
            hook.model() == self.model(),
            hook.conversation() == self.conversation(),
            hook.limit() == self.limit(),
    {
        TelemetryHook { config: self.config, sampling: policy, redaction: self.redaction }
    }

    /// Install a [`RedactionPolicy`] that scrubs tool arguments and results
    /// before they are truncated and emitted. The default policy is
    /// [`IdentityRedaction`].
    #[must_use]
    pub fn with_redaction_policy<P: RedactionPolicy>(self, policy: P) -> (hook: TelemetryHook<S, P>)
        ensures
            hook.sampling() == self.sampling(),
            hook.redaction() == policy,
            hook.model() == self.model(),
            hook.conversation() == self.conversation(),
            hook.limit() == self.limit(),
    {
        TelemetryHook { config: self.config, sampling: self.sampling, redaction: policy }
    }

    /// Whether an event of `kind` with this correlator would be emitted.
    pub fn should_emit(&self, kind: &str, correlator: &str) -> (emit: bool)
        ensures
            emit == self.sampling().samples(kind@, correlator@),
    {
        self.sampling.should_sample(kind, correlator)
    }

    /// The conversation to stamp on events: what a resolver found, or else
    /// the configured one.
    pub fn resolved_conversation_id(&self, found: Option<String>) -> (id: String)
        ensures
            id@ == resolved(found.deep_view(), self.conversation()),
    {
        resolve(found, &self.config.conversation_id)
    }

    /// The model to record on `prompt.completed`: what a resolver found, or
    /// else the configured one.
    pub fn resolved_model(&self, found: Option<String>) -> (model: String)
        ensures
            model@ == resolved(found.deep_view(), self.model()),
    {
        resolve(found, &self.config.model)
    }

    /// A prompt is about to be sent, on top of `history_len` messages of
    /// history. `messages_in` counts the prompt and the history.
    pub fn on_completion_call(&self, history_len: usize, conversation_id: Option<String>) -> (out:
        Option<Emission>)
        ensures
            out.deep_view() == ({
                let id = resolved(conversation_id.deep_view(), self.conversation());
                if self.sampling().samples("prompt.started"@, id) {
                    Some(
                        crate::emit::EmissionView {
                            conversation_id: id,
                            kind: crate::event::KindView::PromptStarted {
                                model: self.model(),
                                messages_in: if history_len == usize::MAX {
                                    usize::MAX
                                } else {
                                    (history_len + 1) as usize
                                },
                                temperature: None,
                                top_p: None,
                                max_tokens: None,
                            },
                        },
                    )
                } else {
                    None
                }
            }),
    {
        let messages_in: usize = if history_len == usize::MAX {
            usize::MAX
        } else {
            history_len + 1
        };
        let id = self.resolved_conversation_id(conversation_id);
        if self.sampling.should_sample("prompt.started", id.as_str()) {
            Some(
                Emission {
                    conversation_id: id,
                    kind: EventKind::PromptStarted {
                        model: self.config.model.clone(),
                        messages_in,
                        temperature: None,
                        top_p: None,
                        max_tokens: None,
                    },
                },
            )
        } else {
            None
        }
    }

    /// A completion arrived. `model` and `previous_response_id` are what the
    /// resolvers found in it; `duration_ms` is the time since the prompt was
    /// sent, where it was measured.
    pub fn on_completion_response(
        &self,
        usage: PromptUsage,
        message_id: Option<String>,
        conversation_id: Option<String>,
        model: Option<String>,
        previous_response_id: Option<String>,
        duration_ms: Option<u64>,
    ) -> (out: Option<Emission>)
        ensures
            out.deep_view() == ({
                let id = resolved(conversation_id.deep_view(), self.conversation());
                if self.sampling().samples("prompt.completed"@, id) {
                    Some(
                        crate::emit::EmissionView {
                            conversation_id: id,
                            kind: crate::event::KindView::PromptCompleted {
                                model: resolved(model.deep_view(), self.model()),
                                tokens_in: reported(usage.input_tokens),
                                tokens_out: reported(usage.output_tokens),
                                cached_tokens_in: reported(usage.cached_input_tokens),
                                reasoning_tokens: reported(usage.reasoning_tokens),
                                cost_usd: None,
                                finish_reason: None,
                                response_id: message_id.deep_view(),
                                previous_response_id: previous_response_id.deep_view(),
                                time_to_first_token_ms: None,
                                duration_ms,
                            },
                        },
                    )
                } else {
                    None
                }
            }),
    {
        let id = self.resolved_conversation_id(conversation_id);
        if self.sampling.should_sample("prompt.completed", id.as_str()) {
            Some(
                Emission {
                    conversation_id: id,
                    kind: EventKind::PromptCompleted {
                        model: self.resolved_model(model),
                        tokens_in: positive(usage.input_tokens),
                        tokens_out: positive(usage.output_tokens),
                        cached_tokens_in: positive(usage.cached_input_tokens),
                        reasoning_tokens: positive(usage.reasoning_tokens),
                        cost_usd: None,
                        finish_reason: None,
                        response_id: message_id,
                        previous_response_id,
                        time_to_first_token_ms: None,
                        duration_ms,
                    },
                },
            )
        } else {
            None
        }
    }

    /// A prompt failed.
    pub fn observe_prompt_error(
        &self,
        failure: &PromptFailure,
        conversation_id: Option<String>,
    ) -> (out: Option<Emission>)
        ensures
            out.deep_view() == ({
                let id = resolved(conversation_id.deep_view(), self.conversation());
                if self.sampling().samples("prompt.failed"@, id) {
                    Some(
                        crate::emit::EmissionView {
                            conversation_id: id,
                            kind: crate::event::KindView::PromptFailed {
                                model: self.model(),
                                error_class: failure.error_class,
                                message: failure.message@,
                                retriable: failure.retriable,
                                provider_error_code: failure.provider_error_code.deep_view(),
                                http_status: failure.http_status,
                            },
                        },
                    )
                } else {
                    None
                }
            }),
    {
        let id = self.resolved_conversation_id(conversation_id);
        if self.sampling.should_sample("prompt.failed", id.as_str()) {
            Some(
                Emission {
                    conversation_id: id,
                    kind: EventKind::PromptFailed {
                        model: self.config.model.clone(),
                        error_class: failure.error_class,
                        message: failure.message.clone(),
                        retriable: failure.retriable,
                        provider_error_code: copy_option(&failure.provider_error_code),
                        http_status: failure.http_status,
                    },
                },
            )
        } else {
            None
        }
    }

    /// A tool is about to be invoked.
    pub fn on_tool_call(
        &self,
        tool_name: &str,
        tool_call_id: Option<String>,
        internal_call_id: &str,
        args: &str,
        conversation_id: Option<String>,
    ) -> (out: Option<Emission>)
        ensures
            out is Some <==> self.sampling().samples("tool.invoked"@, internal_call_id@),
            out matches Some(emission) ==> {
                &&& emission.conversation_id@ == resolved(
                    conversation_id.deep_view(),
                    self.conversation(),
                )
                &&& exists|carried: (Seq<char>, bool)| #[trigger]
                    crate::redaction::may_carry_args(
                        self.redaction(),
                        tool_name@,
                        args@,
                        self.limit() as nat,
                        carried,
                    ) && emission.kind@ == crate::redaction::invoked_kind(
                        tool_name@,
                        tool_call_id.deep_view(),
                        internal_call_id@,
                        carried,
                    )
            },
    {
        if !self.sampling.should_sample("tool.invoked", internal_call_id) {
            return None;
        }
        let (args_json, truncated) = carry_args(
            &self.redaction,
            tool_name,
            args,
            self.config.payload_truncate_bytes,
        );
        let ghost carried = (args_json@, truncated);
        assert(crate::redaction::may_carry_args(
            self.redaction(),
            tool_name@,
            args@,
            self.limit() as nat,
            carried,
        ));
        Some(
            Emission {
                conversation_id: self.resolved_conversation_id(conversation_id),
                kind: EventKind::ToolInvoked {
                    tool_name: tool_name.to_owned(),
                    provider_call_id: tool_call_id,
                    call_id: internal_call_id.to_owned(),
                    args_json,
                    truncated,
                },
            },
        )
    }

    /// A tool returned. `duration_ms` is the time since it was invoked, where
    /// it was measured.
    pub fn on_tool_result(
        &self,
        tool_name: &str,
        tool_call_id: Option<String>,
        internal_call_id: &str,
        result: &str,
        conversation_id: Option<String>,
        duration_ms: Option<u64>,
    ) -> (out: Option<Emission>)
        ensures
            out is Some <==> self.sampling().samples("tool.completed"@, internal_call_id@),
            out matches Some(emission) ==> {
                &&& emission.conversation_id@ == resolved(
                    conversation_id.deep_view(),
                    self.conversation(),
                )
                &&& exists|carried: (Seq<char>, bool)| #[trigger]
                    crate::redaction::may_carry_result(
                        self.redaction(),
                        tool_name@,
                        result@,
                        self.limit() as nat,
                        carried,
                    ) && emission.kind@ == crate::redaction::completed_kind(
                        tool_name@,
                        tool_call_id.deep_view(),
                        internal_call_id@,
                        carried,
                        duration_ms,
                    )
            },
    {
        if !self.sampling.should_sample("tool.completed", internal_call_id) {
            return None;
        }
        let (text, truncated) = carry_result(
            &self.redaction,
            tool_name,
            result,
            self.config.payload_truncate_bytes,
        );
        let ghost carried = (text@, truncated);
        assert(crate::redaction::may_carry_result(
            self.redaction(),
            tool_name@,
            result@,
            self.limit() as nat,
            carried,
        ));
        Some(
            Emission {
                conversation_id: self.resolved_conversation_id(conversation_id),
                kind: EventKind::ToolCompleted {
                    tool_name: tool_name.to_owned(),
                    provider_call_id: tool_call_id,
                    call_id: internal_call_id.to_owned(),
                    result: text,
                    truncated,
                    duration_ms,
                },
            },
        )
    }

    /// A tool failed.
    pub fn observe_tool_error(
        &self,
        tool_name: &str,
        internal_call_id: &str,
        error_class: ErrorClass,
        message: &str,
        conversation_id: Option<String>,
    ) -> (out: Option<Emission>)
        ensures
            out.deep_view() == (if self.sampling().samples("tool.failed"@, internal_call_id@) {
                Some(
                    crate::emit::EmissionView {
                        conversation_id: resolved(
                            conversation_id.deep_view(),
                            self.conversation(),
                        ),
                        kind: crate::event::KindView::ToolFailed {
                            tool_name: tool_name@,
                            call_id: internal_call_id@,
                            error_class,
                            message: message@,
                        },
                    },
                )
            } else {
                None
            }),
    {
        if self.sampling.should_sample("tool.failed", internal_call_id) {
            Some(
                Emission {
                    conversation_id: self.resolved_conversation_id(conversation_id),
                    kind: EventKind::ToolFailed {
                        tool_name: tool_name.to_owned(),
                        call_id: internal_call_id.to_owned(),
                        error_class,
                        message: message.to_owned(),
                    },
                },
            )
        } else {
            None
        }
    }
}

/// Tool pairs ship together: under rate sampling with one rate for
/// `tool.invoked` and `tool.completed`, the hook emits both events of a call or
/// neither.
pub proof fn lemma_tool_pairs_ship_together<R: RedactionPolicy>(
    hook: TelemetryHook<crate::sampling::RatePolicy, R>,
    internal_call_id: Seq<char>,
)
    requires
        hook.sampling().rate("tool.invoked"@) == hook.sampling().rate("tool.completed"@),
    ensures
        hook.sampling().samples("tool.invoked"@, internal_call_id) == hook.sampling().samples(
            "tool.completed"@,
            internal_call_id,
        ),
{
}

} // verus!
