//! Observability event schema (v1).
//!
//! All events flow through the [`ObservabilityEvent`] envelope so consumers
//! see a single, flat shape regardless of the producing crate.

use vstd::prelude::*;

use crate::float::Float64;
use crate::text::{copy_option, copy_texts};

verus! {

/// Current schema version. Bumped on breaking changes to the wire format.
pub const SCHEMA_VERSION: u32 = 1;

/// Maximum byte length of inline `args_json` / `result_json` payloads before
/// they are truncated and marked with `"truncated": true`.
pub const PAYLOAD_TRUNCATE_BYTES: usize = 4096;

/// A single observability event with envelope metadata.
#[derive(Debug, PartialEq)]
pub struct ObservabilityEvent {
    /// Schema version. See [`SCHEMA_VERSION`].
    pub version: u32,
    /// Wall-clock timestamp in milliseconds since the Unix epoch.
    pub occurred_at_millis: u64,
    /// Monotonic per-process counter. Use to order events without clock skew.
    pub tick: u64,
    /// Conversation / thread identifier this event belongs to.
    pub conversation_id: String,
    /// Numeric id of the `tracing::Span` that was current when this event
    /// was emitted. Absent when no span is active at emit time.
    pub span_id: Option<u64>,
    /// Logical agent / actor identifier, when the producer runs more than
    /// one agent and needs to distinguish actors. Promoted to the
    /// `rig_tap.agent_id` scalar so collectors can group by actor without
    /// parsing the JSON envelope. Absent for single-agent producers.
    pub agent_id: Option<String>,
    /// Distributed-trace identifier the producer is participating in, when
    /// known. Kept JSON-only (not a scalar) because most collectors derive
    /// the trace id from span context. Absent unless a producer stamps it
    /// explicitly via [`crate::emit::build_event_with`].
    pub trace_id: Option<u64>,
    /// Optional severity level for this event. Useful for non-error warning
    /// signals (e.g. partial results, recovered degradation).
    pub severity: Option<Severity>,
    /// Event-specific payload. Flattened into the parent object.
    pub kind: EventKind,
}

/// The content of an [`ObservabilityEvent`].
#[verifier::ext_equal]
pub struct EventView {
    pub version: u32,
    pub occurred_at_millis: u64,
    pub tick: u64,
    pub conversation_id: Seq<char>,
    pub span_id: Option<u64>,
    pub agent_id: Option<Seq<char>>,
    pub trace_id: Option<u64>,
    pub severity: Option<Severity>,
    pub kind: KindView,
}

impl View for ObservabilityEvent {
    type V = EventView;

    open spec fn view(&self) -> EventView {
        EventView {
            version: self.version,
            occurred_at_millis: self.occurred_at_millis,
            tick: self.tick,
            conversation_id: self.conversation_id@,
            span_id: self.span_id,
            agent_id: self.agent_id.deep_view(),
            trace_id: self.trace_id,
            severity: self.severity,
            kind: self.kind@,
        }
    }
}

impl DeepView for ObservabilityEvent {
    type V = EventView;

    open spec fn deep_view(&self) -> EventView {
        self@
    }
}

/// The contents of a list of events.
pub open spec fn event_views(events: Seq<ObservabilityEvent>) -> Seq<EventView> {
    Seq::new(events.len(), |i: int| events[i]@)
}

impl Clone for ObservabilityEvent {
    fn clone(&self) -> (copy: Self)
        ensures
            copy@ == self@,
    {
        ObservabilityEvent {
            version: self.version,
            occurred_at_millis: self.occurred_at_millis,
            tick: self.tick,
            conversation_id: self.conversation_id.clone(),
            span_id: self.span_id,
            agent_id: copy_option(&self.agent_id),
            trace_id: self.trace_id,
            severity: self.severity,
            kind: self.kind.clone(),
        }
    }
}

impl ObservabilityEvent {
    /// Build a new envelope around `kind` using the current schema version.
    /// Callers normally use [`crate::emit::build_event`] which fills in `tick`
    /// and `occurred_at_millis`.
    pub fn new(conversation_id: &str, kind: EventKind) -> (event: Self)
        ensures
            event@ == (EventView {
                version: SCHEMA_VERSION,
                occurred_at_millis: 0,
                tick: 0,
                conversation_id: conversation_id@,
                span_id: None,
                agent_id: None,
                trace_id: None,
                severity: None,
                kind: kind@,
            }),
    {
        ObservabilityEvent {
            version: SCHEMA_VERSION,
            occurred_at_millis: 0,
            tick: 0,
            conversation_id: conversation_id.to_owned(),
            span_id: None,
            agent_id: None,
            trace_id: None,
            severity: None,
            kind,
        }
    }
}

/// Envelope-level severity classification.
#[derive(Debug, Clone, Copy, PartialEq, Eq, Structural)]
#[non_exhaustive]
pub enum Severity {
    /// Diagnostic or tracing information.
    Trace,
    /// General debugging information.
    Debug,
    /// Normal operational event.
    Info,
    /// A non-fatal warning (e.g., partial degradation, retried failure).
    Warn,
    /// A failure or error.
    Error,
    /// A fatal error requiring immediate shutdown.
    Fatal,
}

impl Severity {
    /// The wire label of this level.
    pub open spec fn label(self) -> Seq<char> {
        match self {
            Severity::Trace => "trace"@,
            Severity::Debug => "debug"@,
            Severity::Info => "info"@,
            Severity::Warn => "warn"@,
            Severity::Error => "error"@,
            Severity::Fatal => "fatal"@,
        }
    }

    /// Returns the string discriminant.
    pub fn as_str(&self) -> (label: &'static str)
        ensures
            label@ == self.label(),
    {
        match self {
            Severity::Trace => "trace",
            Severity::Debug => "debug",
            Severity::Info => "info",
            Severity::Warn => "warn",
            Severity::Error => "error",
            Severity::Fatal => "fatal",
        }
    }
}

/// High-level classification of a prompt or tool failure.
#[derive(Debug, Clone, Copy, PartialEq, Eq, Structural)]
#[non_exhaustive]
pub enum ErrorClass {
    /// The request exceeded a deadline (connect, read, or overall).
    Timeout,
    /// The provider returned a rate-limit / quota signal (e.g. HTTP 429).
    RateLimit,
    /// Authentication or authorization failed (e.g. HTTP 401/403).
    Auth,
    /// A network/transport-level failure occurred before a usable response.
    Transport,
    /// The request was rejected as invalid (e.g. HTTP 400, bad arguments).
    Validation,
    /// The provider reported a server-side error (e.g. HTTP 5xx).
    ProviderServer,
    /// The operation was cancelled before completion.
    Cancelled,
    /// The failure could not be classified into a more specific class.
    Unknown,
}

impl ErrorClass {
    /// The wire label of this class.
    pub open spec fn label(self) -> Seq<char> {
        match self {
            ErrorClass::Timeout => "timeout"@,
            ErrorClass::RateLimit => "rate_limit"@,
            ErrorClass::Auth => "auth"@,
            ErrorClass::Transport => "transport"@,
            ErrorClass::Validation => "validation"@,
            ErrorClass::ProviderServer => "provider_server"@,
            ErrorClass::Cancelled => "cancelled"@,
            ErrorClass::Unknown => "unknown"@,
        }
    }

    /// Returns the string discriminant.
    pub fn as_str(&self) -> (label: &'static str)
        ensures
            label@ == self.label(),
    {
        match self {
            ErrorClass::Timeout => "timeout",
            ErrorClass::RateLimit => "rate_limit",
            ErrorClass::Auth => "auth",
            ErrorClass::Transport => "transport",
            ErrorClass::Validation => "validation",
            ErrorClass::ProviderServer => "provider_server",
            ErrorClass::Cancelled => "cancelled",
            ErrorClass::Unknown => "unknown",
        }
    }
}

/// Payload variants. Tagged on the wire as `"kind": "<dotted.name>"`.
///
/// New variants are additive; rename or remove is a breaking change requiring
/// a bump of [`SCHEMA_VERSION`].
#[derive(Debug, PartialEq)]
#[allow(inconsistent_fields)]
#[non_exhaustive]
pub enum EventKind {
    /// A prompt is about to be sent to the model provider.
    PromptStarted {
        /// Model name as declared on the agent.
        model: String,
        /// Number of messages in the history at the time of the call.
        messages_in: usize,
        /// Sampling temperature used for the prompt, if tracked.
        temperature: Option<Float64>,
        /// Top-P sampling parameter used for the prompt, if tracked.
        top_p: Option<Float64>,
        /// Maximum output tokens allowed for the prompt, if tracked.
        max_tokens: Option<u64>,
    },
    /// A prompt finished; the model returned a completion response.
    PromptCompleted {
        /// Model name as reported by the provider response (may differ from
        /// the requested model for routed providers).
        model: String,
        /// Provider-reported input tokens, if known.
        tokens_in: Option<u64>,
        /// Provider-reported output tokens, if known.
        tokens_out: Option<u64>,
        /// Number of tokens pulled from prefix cache, if reported.
        cached_tokens_in: Option<u64>,
        /// Number of reasoning (chain-of-thought) tokens generated, if reported.
        reasoning_tokens: Option<u64>,
        /// Producer-computed USD cost, if available.
        cost_usd: Option<Float64>,
        /// Reason why generation stopped (e.g. "stop", "length", "tool_calls").
        finish_reason: Option<String>,
        /// Provider response ID, if supplied.
        response_id: Option<String>,
        /// Server-side chain ancestor when the producer is on a stateful
        /// endpoint (e.g. OpenAI's Responses API). `None` for one-shot
        /// Chat Completions or the first turn of a chain. Populated by
        /// [`crate::TelemetryHook::with_previous_response_id_resolver`] or
        /// by producer crates emitting the kind directly.
        previous_response_id: Option<String>,
        /// Time elapsed between call start and the first token yielded, if the producer is streaming.
        time_to_first_token_ms: Option<u64>,
        /// Total time elapsed for the prompt execution, if the producer tracks it.
        duration_ms: Option<u64>,
    },
    /// A prompt failed to complete successfully.
    PromptFailed {
        /// Model name as reported by the provider/system.
        model: String,
        /// Classification of the error.
        error_class: ErrorClass,
        /// Displayed message or stringified error.
        message: String,
        /// Indicates if the failure was deemed retriable.
        retriable: bool,
        /// Provider-specific error code if available.
        provider_error_code: Option<String>,
        /// HTTP status code if the error was a transport or server error.
        http_status: Option<u16>,
    },
    /// A tool is about to be invoked.
    ToolInvoked {
        /// Tool name as registered on the agent.
        tool_name: String,
        /// Provider-supplied tool-call ID, when present.
        provider_call_id: Option<String>,
        /// Stable internal correlation ID (always present).
        call_id: String,
        /// JSON-encoded arguments (possibly truncated; see `truncated`).
        args_json: String,
        /// `true` if `args_json` was truncated to
        /// [`PAYLOAD_TRUNCATE_BYTES`].
        truncated: bool,
    },
    /// A tool finished executing.
    ToolCompleted {
        /// Tool name (matches the paired `tool.invoked`).
        tool_name: String,
        /// Provider-supplied tool-call ID, when present.
        provider_call_id: Option<String>,
        /// Stable internal correlation ID (matches the paired `tool.invoked`).
        call_id: String,
        /// Tool result text (possibly truncated; see `truncated`).
        result: String,
        /// `true` if `result` was truncated to [`PAYLOAD_TRUNCATE_BYTES`].
        truncated: bool,
        /// Total time elapsed for the tool execution, if the producer tracks it.
        duration_ms: Option<u64>,
    },
    /// A tool failed to complete its execution.
    ToolFailed {
        /// Tool name (matches the paired `tool.invoked`).
        tool_name: String,
        /// Stable internal correlation ID (matches the paired `tool.invoked`).
        call_id: String,
        /// High-level classification of the failure.
        error_class: ErrorClass,
        /// Displayed message or root error.
        message: String,
    },
    /// A previously-`ToolInvoked` call was skipped by a gating hook before
    /// the tool body ran. Pairs by `call_id` and closes the
    /// `tool.invoked`/`tool.completed` gap that would otherwise leave the
    /// invoke event orphaned.
    ToolSkipped {
        /// Tool name (matches the paired `tool.invoked`).
        tool_name: String,
        /// Stable internal correlation ID (matches the paired `tool.invoked`).
        call_id: String,
        /// Human-readable reason from the gating hook.
        reason: String,
    },
    /// A previously-`ToolInvoked` call triggered a hook-driven termination
    /// of the agent loop. Pairs by `call_id`.
    ToolTerminated {
        /// Tool name (matches the paired `tool.invoked`).
        tool_name: String,
        /// Stable internal correlation ID (matches the paired `tool.invoked`).
        call_id: String,
        /// Human-readable reason from the hook.
        reason: String,
    },
    /// A provider-native hosted tool was invoked. Hosted tools (OpenAI
    /// Responses `web_search` / `file_search` / `computer_use` /
    /// `code_interpreter`, future Anthropic/Google equivalents) run inside
    /// the provider's infrastructure rather than in the Rig agent loop, so
    /// `PromptHook::on_tool_call` never fires for them. Producers wire this
    /// variant from a streaming-chunk tap or session decorator.
    ToolHostedInvoked {
        /// Provider-native hosted tool name (e.g. `"web_search"`,
        /// `"file_search"`, `"computer_use"`, `"code_interpreter"`).
        tool_name: String,
        /// Provider-supplied call ID for the hosted invocation, when
        /// surfaced by the provider stream.
        provider_call_id: Option<String>,
        /// Stable correlation ID chosen by the producer so the matching
        /// `tool.hosted_completed` can be paired.
        call_id: String,
        /// Provider response ID the hosted call belongs to, when known.
        response_id: Option<String>,
        /// JSON-encoded arguments visible to the producer (possibly
        /// truncated; see `truncated`). May be empty for providers that
        /// do not expose hosted-tool inputs in the stream.
        args_json: String,
        /// `true` if `args_json` was truncated to
        /// [`PAYLOAD_TRUNCATE_BYTES`].
        truncated: bool,
    },
    /// A provider-native hosted tool finished. Pairs with
    /// [`EventKind::ToolHostedInvoked`] by `call_id`.
    ToolHostedCompleted {
        /// Hosted tool name (matches the paired `tool.hosted_invoked`).
        tool_name: String,
        /// Provider-supplied call ID, when surfaced.
        provider_call_id: Option<String>,
        /// Stable correlation ID (matches the paired `tool.hosted_invoked`).
        call_id: String,
        /// Provider response ID the hosted call belongs to, when known.
        response_id: Option<String>,
        /// Provider-reported status (e.g. `"completed"`, `"failed"`),
        /// when surfaced. Free-form string per provider.
        status: Option<String>,
        /// Hosted result text or JSON (possibly truncated). May be empty
        /// for providers that do not surface hosted-tool outputs in the
        /// stream beyond the status.
        result: String,
        /// `true` if `result` was truncated to [`PAYLOAD_TRUNCATE_BYTES`].
        truncated: bool,
        /// Total time elapsed for the hosted tool execution, if the producer tracks it.
        duration_ms: Option<u64>,
    },
    /// The active context was sampled (typically on `ConversationMemory::load`).
    ContextSampled {
        /// Number of messages in the loaded history.
        message_count: usize,
        /// JSON byte size of the loaded history (rough size estimate).
        byte_size: usize,
        /// Optional token-count estimate. `None` in the default build; populated
        /// by consumers that wire a tokenizer.
        token_estimate: Option<u64>,
    },
    /// The active context was persisted (typically on the write side of a
    /// [`ConversationMemory`](rig::memory::ConversationMemory), i.e. an
    /// `append`). Mirrors [`EventKind::ContextSampled`] so consumers can
    /// observe both the read and write sides of a conversation's history
    /// without pairing against a separate `prompt.*` event.
    ContextPersisted {
        /// Number of messages written in this persist call.
        message_count: usize,
        /// JSON byte size of the written messages (rough size estimate).
        byte_size: usize,
    },
    /// A compactor fired, replacing some evicted history with a summary
    /// artifact.
    ContextCompacted {
        /// Number of messages evicted from the active context.
        evicted_count: usize,
        /// Approximate byte size of the evicted messages.
        evicted_bytes: usize,
        /// `true` if the compactor produced a carry-over artifact for the
        /// next compaction cycle.
        carry_over: bool,
        /// Byte size of the summary text written to long-term memory.
        summary_bytes: usize,
    },
    /// A demotion hook moved messages to long-term storage.
    MemoryDemoted {
        /// Number of messages demoted.
        demoted_count: usize,
        /// Tags applied to the demoted frames.
        tags: Vec<String>,
    },
    /// A frame was written to the long-term store.
    MemoryFrameWritten {
        /// Frame kind as classified by the producer (e.g. `"summary"`,
        /// `"demoted"`).
        frame_kind: String,
        /// Total frame count in the store after the write. `None` when the
        /// producer does not expose a cheap cumulative count (e.g. memvid).
        /// Consumers SHOULD NOT assume `0` means "empty store" — use this
        /// `Option` and treat absence as "unknown".
        frame_count_after: Option<u64>,
        /// Byte size of the written frame's text payload.
        bytes_written: usize,
    },
    /// A `rig-compose` kernel became active for a conversation.
    ComposeKernelStart {
        /// Stable kernel identifier chosen by the producer.
        kernel_id: String,
        /// Number of skills registered at startup, when known.
        skills_registered: Option<usize>,
        /// Number of tools registered at startup, when known.
        tools_registered: Option<usize>,
    },
    /// A `rig-compose` kernel stopped processing.
    ComposeKernelShutdown {
        /// Stable kernel identifier chosen by the producer.
        kernel_id: String,
        /// Producer-specific shutdown reason (e.g. `"normal"`, `"error"`).
        reason: String,
    },
    /// One iteration of a `rig-compose` agent/kernel loop began.
    ComposeLoopIteration {
        /// Stable kernel identifier chosen by the producer.
        kernel_id: String,
        /// Monotonic iteration counter inside the kernel.
        iteration: u64,
        /// Skill being considered or executed during this iteration.
        skill_id: Option<String>,
        /// Current confidence score, when exposed by the producer.
        confidence: Option<Float64>,
    },
    /// A `rig-compose` skill resolution completed.
    ComposeSkillResolved {
        /// Stable kernel identifier chosen by the producer.
        kernel_id: String,
        /// Skill identifier.
        skill_id: String,
        /// Whether the skill applied to the current context.
        applies: bool,
        /// Confidence delta returned by the skill, when present.
        delta: Option<Float64>,
        /// Post-application confidence score, when exposed by the producer.
        /// For `applies = false` resolutions this is the unchanged context
        /// confidence; for `applies = true` it reflects `confidence + delta`
        /// clamped to `[0.0, 1.0]`.
        confidence: Option<Float64>,
    },
    /// A retry attempt occurred in a `rig-compose` dispatch or recovery path.
    ///
    /// `rig-tap` does not emit this variant itself: the
    /// [`crate::DispatchObserveHook`] only observes the lifecycle hooks
    /// surfaced by `rig-compose` and `rig-compose` does not currently expose
    /// a per-tool retry hook. Producers with their own retry policy (custom
    /// skills, transports, or higher-level orchestrators) should emit this
    /// variant directly via [`crate::emit_kind`] so consumers receive a
    /// consistent shape.
    ComposeRetryAttempt {
        /// Stable kernel identifier chosen by the producer.
        kernel_id: String,
        /// Tool or operation being retried.
        target: String,
        /// One-based retry attempt number.
        attempt: u64,
        /// Retry classification chosen by the producer.
        classification: String,
    },
    /// A `rig-compose` recovery path completed.
    ComposeRecovery {
        /// Stable kernel identifier chosen by the producer.
        kernel_id: String,
        /// Recovery reason or source error classification.
        reason: String,
        /// Whether the recovery path restored normal execution.
        recovered: bool,
    },
    /// A stateful provider session opened. Producers wrap a long-lived
    /// session (today: OpenAI Responses WebSocket) and emit this on connect.
    ResponseSessionStarted {
        /// Model name as declared on the session.
        model: String,
        /// Producer-chosen session identifier. Stable for the lifetime of
        /// the wrapped session; correlates every `response.turn_*` and
        /// the final `response.session_ended`.
        session_id: String,
    },
    /// A turn began inside a stateful provider session. Producers emit this
    /// when the session enqueues a new server-side response.
    ResponseTurnStarted {
        /// Session identifier (matches the paired
        /// `response.session_started`).
        session_id: String,
        /// Chain ancestor for this turn (`previous_response_id` sent to the
        /// provider). `None` for the first turn of a session.
        previous_response_id: Option<String>,
    },
    /// A turn finished inside a stateful provider session. Pairs with the
    /// most recent `response.turn_started` by `session_id`.
    ResponseTurnCompleted {
        /// Session identifier (matches the paired `response.turn_started`).
        session_id: String,
        /// Provider response identifier for this turn.
        response_id: String,
        /// Chain ancestor for this turn, when present.
        previous_response_id: Option<String>,
        /// Terminal provider status (`"completed"`, `"failed"`,
        /// `"incomplete"`).
        status: String,
        /// Provider-reported input tokens, if known.
        tokens_in: Option<u64>,
        /// Provider-reported output tokens, if known.
        tokens_out: Option<u64>,
        /// Number of hosted-tool invocations observed during this turn.
        /// Each hosted call is also emitted individually via
        /// [`EventKind::ToolHostedInvoked`] / [`EventKind::ToolHostedCompleted`].
        hosted_tool_calls: usize,
        /// Total time elapsed for the turn execution, if the producer tracks it.
        duration_ms: Option<u64>,
    },
    /// A stateful provider session closed. Producers emit this on the
    /// underlying close handshake, on a provider `response.failed`, or on
    /// any session-fatal transport error.
    ResponseSessionEnded {
        /// Session identifier (matches the paired `response.session_started`).
        session_id: String,
        /// Human-readable reason for the close. Free-form, producer-chosen
        /// (e.g. `"client_close"`, `"response_failed"`,
        /// `"transport_error"`).
        reason: String,
    },
    /// One evaluation metric from a retrieval/RAG eval report. Producers
    /// emit one event per `(report_id, dataset, metric)` triple so
    /// consumers can filter and aggregate via the `rig_tap.*` scalars
    /// without parsing the JSON envelope. Pairs naturally with the
    /// `MultiReport` / `ReportDiff` summaries surfaced by
    /// `rig-retrieval-evals`, but the variant is producer-agnostic: any
    /// crate emitting metric verdicts on the same tracing target can
    /// reuse it.
    EvalReport {
        /// Stable identifier for the report run (e.g. a commit SHA, a
        /// harness invocation id, or a wall-clock-named run).
        report_id: String,
        /// Dataset / qrels label the metric was computed against
        /// (e.g. `"beir/scifact"`, `"internal/v3"`).
        dataset: String,
        /// Metric name (e.g. `"ndcg@10"`, `"recall@100"`, `"mrr"`).
        metric: String,
        /// Point estimate for the metric.
        value: Float64,
        /// Bootstrap confidence-interval lower bound, when computed.
        ci_low: Option<Float64>,
        /// Bootstrap confidence-interval upper bound, when computed.
        ci_high: Option<Float64>,
        /// Baseline value the report was compared against, when a
        /// `ReportDiff` is being emitted.
        baseline_value: Option<Float64>,
        /// Signed delta vs `baseline_value`, when a diff is being
        /// emitted. Positive = improvement for higher-is-better metrics.
        delta: Option<Float64>,
        /// Regression-gate verdict (e.g. `"improved"`, `"regressed"`,
        /// `"neutral"`, `"flaky"`). Free-form so producers can carry
        /// their own taxonomy.
        verdict: Option<String>,
        /// Number of underlying samples (queries, judgments, etc.) the
        /// metric was computed over, when known.
        sample_size: Option<u64>,
    },
    /// An embedding generation request completed.
    EmbeddingCompleted {
        /// The model used to generate embeddings.
        model: String,
        /// Number of documents/items embedded in this request.
        documents: usize,
        /// Provider-reported input tokens, if known.
        tokens_in: Option<u64>,
        /// Total time elapsed for the embedding execution, if tracked.
        duration_ms: Option<u64>,
    },
    /// A retrieval operation (e.g. vector search) completed.
    RetrievalQueried {
        /// The search query strings, if the producer opts into logging them.
        queries: Vec<String>,
        /// The requested limit on top results.
        top_k: Option<usize>,
        /// The actual number of results returned.
        results: usize,
        /// Total time elapsed for the retrieval operation, if tracked.
        duration_ms: Option<u64>,
    },
    /// A reranking operation completed.
    RerankCompleted {
        /// The model used for reranking.
        model: String,
        /// Number of candidate documents passed in for reranking.
        documents_in: usize,
        /// Number of documents returned after reranking.
        documents_out: usize,
        /// Total time elapsed for the reranking operation, if tracked.
        duration_ms: Option<u64>,
    },
}

/// The content of an [`EventKind`]: every text as its characters.
#[verifier::ext_equal]
#[allow(inconsistent_fields)]
pub enum KindView {
    PromptStarted {
        model: Seq<char>,
        messages_in: usize,
        temperature: Option<Float64>,
        top_p: Option<Float64>,
        max_tokens: Option<u64>,
    },
    PromptCompleted {
        model: Seq<char>,
        tokens_in: Option<u64>,
        tokens_out: Option<u64>,
        cached_tokens_in: Option<u64>,
        reasoning_tokens: Option<u64>,
        cost_usd: Option<Float64>,
        finish_reason: Option<Seq<char>>,
        response_id: Option<Seq<char>>,
        previous_response_id: Option<Seq<char>>,
        time_to_first_token_ms: Option<u64>,
        duration_ms: Option<u64>,
    },
    PromptFailed {
        model: Seq<char>,
        error_class: ErrorClass,
        message: Seq<char>,
        retriable: bool,
        provider_error_code: Option<Seq<char>>,
        http_status: Option<u16>,
    },
    ToolInvoked {
        tool_name: Seq<char>,
        provider_call_id: Option<Seq<char>>,
        call_id: Seq<char>,
        args_json: Seq<char>,
        truncated: bool,
    },
    ToolCompleted {
        tool_name: Seq<char>,
        provider_call_id: Option<Seq<char>>,
        call_id: Seq<char>,
        result: Seq<char>,
        truncated: bool,
        duration_ms: Option<u64>,
    },
    ToolFailed {
        tool_name: Seq<char>,
        call_id: Seq<char>,
        error_class: ErrorClass,
        message: Seq<char>,
    },
    ToolSkipped {
        tool_name: Seq<char>,
        call_id: Seq<char>,
        reason: Seq<char>,
    },
    ToolTerminated {
        tool_name: Seq<char>,
        call_id: Seq<char>,
        reason: Seq<char>,
    },
    ToolHostedInvoked {
        tool_name: Seq<char>,
        provider_call_id: Option<Seq<char>>,
        call_id: Seq<char>,
        response_id: Option<Seq<char>>,
        args_json: Seq<char>,
        truncated: bool,
    },
    ToolHostedCompleted {
        tool_name: Seq<char>,
        provider_call_id: Option<Seq<char>>,
        call_id: Seq<char>,
        response_id: Option<Seq<char>>,
        status: Option<Seq<char>>,
        result: Seq<char>,
        truncated: bool,
        duration_ms: Option<u64>,
    },
    ContextSampled {
        message_count: usize,
        byte_size: usize,
        token_estimate: Option<u64>,
    },
    ContextPersisted {
        message_count: usize,
        byte_size: usize,
    },
    ContextCompacted {
        evicted_count: usize,
        evicted_bytes: usize,
        carry_over: bool,
        summary_bytes: usize,
    },
    MemoryDemoted {
        demoted_count: usize,
        tags: Seq<Seq<char>>,
    },
    MemoryFrameWritten {
        frame_kind: Seq<char>,
        frame_count_after: Option<u64>,
        bytes_written: usize,
    },
    ComposeKernelStart {
        kernel_id: Seq<char>,
        skills_registered: Option<usize>,
        tools_registered: Option<usize>,
    },
    ComposeKernelShutdown {
        kernel_id: Seq<char>,
        reason: Seq<char>,
    },
    ComposeLoopIteration {
        kernel_id: Seq<char>,
        iteration: u64,
        skill_id: Option<Seq<char>>,
        confidence: Option<Float64>,
    },
    ComposeSkillResolved {
        kernel_id: Seq<char>,
        skill_id: Seq<char>,
        applies: bool,
        delta: Option<Float64>,
        confidence: Option<Float64>,
    },
    ComposeRetryAttempt {
        kernel_id: Seq<char>,
        target: Seq<char>,
        attempt: u64,
        classification: Seq<char>,
    },
    ComposeRecovery {
        kernel_id: Seq<char>,
        reason: Seq<char>,
        recovered: bool,
    },
    ResponseSessionStarted {
        model: Seq<char>,
        session_id: Seq<char>,
    },
    ResponseTurnStarted {
        session_id: Seq<char>,
        previous_response_id: Option<Seq<char>>,
    },
    ResponseTurnCompleted {
        session_id: Seq<char>,
        response_id: Seq<char>,
        previous_response_id: Option<Seq<char>>,
        status: Seq<char>,
        tokens_in: Option<u64>,
        tokens_out: Option<u64>,
        hosted_tool_calls: usize,
        duration_ms: Option<u64>,
    },
    ResponseSessionEnded {
        session_id: Seq<char>,
        reason: Seq<char>,
    },
    EvalReport {
        report_id: Seq<char>,
        dataset: Seq<char>,
        metric: Seq<char>,
        value: Float64,
        ci_low: Option<Float64>,
        ci_high: Option<Float64>,
        baseline_value: Option<Float64>,
        delta: Option<Float64>,
        verdict: Option<Seq<char>>,
        sample_size: Option<u64>,
    },
    EmbeddingCompleted {
        model: Seq<char>,
        documents: usize,
        tokens_in: Option<u64>,
        duration_ms: Option<u64>,
    },
    RetrievalQueried {
        queries: Seq<Seq<char>>,
        top_k: Option<usize>,
        results: usize,
        duration_ms: Option<u64>,
    },
    RerankCompleted {
        model: Seq<char>,
        documents_in: usize,
        documents_out: usize,
        duration_ms: Option<u64>,
    },
}

impl View for EventKind {
    type V = KindView;

    open spec fn view(&self) -> KindView {
        match self {
            EventKind::PromptStarted { model, messages_in, temperature, top_p, max_tokens } => KindView::PromptStarted {
                model: model@,
                messages_in: *messages_in,
                temperature: *temperature,
                top_p: *top_p,
                max_tokens: *max_tokens,
            },
            EventKind::PromptCompleted { model, tokens_in, tokens_out, cached_tokens_in, reasoning_tokens, cost_usd, finish_reason, response_id, previous_response_id, time_to_first_token_ms, duration_ms } => KindView::PromptCompleted {
                model: model@,
                tokens_in: *tokens_in,
                tokens_out: *tokens_out,
                cached_tokens_in: *cached_tokens_in,
                reasoning_tokens: *reasoning_tokens,
                cost_usd: *cost_usd,
                finish_reason: finish_reason.deep_view(),
                response_id: response_id.deep_view(),
                previous_response_id: previous_response_id.deep_view(),
                time_to_first_token_ms: *time_to_first_token_ms,
                duration_ms: *duration_ms,
            },
            EventKind::PromptFailed { model, error_class, message, retriable, provider_error_code, http_status } => KindView::PromptFailed {
                model: model@,
                error_class: *error_class,
                message: message@,
                retriable: *retriable,
                provider_error_code: provider_error_code.deep_view(),
                http_status: *http_status,
            },
            EventKind::ToolInvoked { tool_name, provider_call_id, call_id, args_json, truncated } => KindView::ToolInvoked {
                tool_name: tool_name@,
                provider_call_id: provider_call_id.deep_view(),
                call_id: call_id@,
                args_json: args_json@,
                truncated: *truncated,
            },
            EventKind::ToolCompleted { tool_name, provider_call_id, call_id, result, truncated, duration_ms } => KindView::ToolCompleted {
                tool_name: tool_name@,
                provider_call_id: provider_call_id.deep_view(),
                call_id: call_id@,
                result: result@,
                truncated: *truncated,
                duration_ms: *duration_ms,
            },
            EventKind::ToolFailed { tool_name, call_id, error_class, message } => KindView::ToolFailed {
                tool_name: tool_name@,
                call_id: call_id@,
                error_class: *error_class,
                message: message@,
            },
            EventKind::ToolSkipped { tool_name, call_id, reason } => KindView::ToolSkipped {
                tool_name: tool_name@,
                call_id: call_id@,
                reason: reason@,
            },
            EventKind::ToolTerminated { tool_name, call_id, reason } => KindView::ToolTerminated {
                tool_name: tool_name@,
                call_id: call_id@,
                reason: reason@,
            },
            EventKind::ToolHostedInvoked { tool_name, provider_call_id, call_id, response_id, args_json, truncated } => KindView::ToolHostedInvoked {
                tool_name: tool_name@,
                provider_call_id: provider_call_id.deep_view(),
                call_id: call_id@,
                response_id: response_id.deep_view(),
                args_json: args_json@,
                truncated: *truncated,
            },
            EventKind::ToolHostedCompleted { tool_name, provider_call_id, call_id, response_id, status, result, truncated, duration_ms } => KindView::ToolHostedCompleted {
                tool_name: tool_name@,
                provider_call_id: provider_call_id.deep_view(),
                call_id: call_id@,
                response_id: response_id.deep_view(),
                status: status.deep_view(),
                result: result@,
                truncated: *truncated,
                duration_ms: *duration_ms,
            },
            EventKind::ContextSampled { message_count, byte_size, token_estimate } => KindView::ContextSampled {
                message_count: *message_count,
                byte_size: *byte_size,
                token_estimate: *token_estimate,
            },
            EventKind::ContextPersisted { message_count, byte_size } => KindView::ContextPersisted {
                message_count: *message_count,
                byte_size: *byte_size,
            },
            EventKind::ContextCompacted { evicted_count, evicted_bytes, carry_over, summary_bytes } => KindView::ContextCompacted {
                evicted_count: *evicted_count,
                evicted_bytes: *evicted_bytes,
                carry_over: *carry_over,
                summary_bytes: *summary_bytes,
            },
            EventKind::MemoryDemoted { demoted_count, tags } => KindView::MemoryDemoted {
                demoted_count: *demoted_count,
                tags: tags.deep_view(),
            },
            EventKind::MemoryFrameWritten { frame_kind, frame_count_after, bytes_written } => KindView::MemoryFrameWritten {
                frame_kind: frame_kind@,
                frame_count_after: *frame_count_after,
                bytes_written: *bytes_written,
            },
            EventKind::ComposeKernelStart { kernel_id, skills_registered, tools_registered } => KindView::ComposeKernelStart {
                kernel_id: kernel_id@,
                skills_registered: *skills_registered,
                tools_registered: *tools_registered,
            },
            EventKind::ComposeKernelShutdown { kernel_id, reason } => KindView::ComposeKernelShutdown {
                kernel_id: kernel_id@,
                reason: reason@,
            },
            EventKind::ComposeLoopIteration { kernel_id, iteration, skill_id, confidence } => KindView::ComposeLoopIteration {
                kernel_id: kernel_id@,
                iteration: *iteration,
                skill_id: skill_id.deep_view(),
                confidence: *confidence,
            },
            EventKind::ComposeSkillResolved { kernel_id, skill_id, applies, delta, confidence } => KindView::ComposeSkillResolved {
                kernel_id: kernel_id@,
                skill_id: skill_id@,
                applies: *applies,
                delta: *delta,
                confidence: *confidence,
            },
            EventKind::ComposeRetryAttempt { kernel_id, target, attempt, classification } => KindView::ComposeRetryAttempt {
                kernel_id: kernel_id@,
                target: target@,
                attempt: *attempt,
                classification: classification@,
            },
            EventKind::ComposeRecovery { kernel_id, reason, recovered } => KindView::ComposeRecovery {
                kernel_id: kernel_id@,
                reason: reason@,
                recovered: *recovered,
            },
            EventKind::ResponseSessionStarted { model, session_id } => KindView::ResponseSessionStarted {
                model: model@,
                session_id: session_id@,
            },
            EventKind::ResponseTurnStarted { session_id, previous_response_id } => KindView::ResponseTurnStarted {
                session_id: session_id@,
                previous_response_id: previous_response_id.deep_view(),
            },
            EventKind::ResponseTurnCompleted { session_id, response_id, previous_response_id, status, tokens_in, tokens_out, hosted_tool_calls, duration_ms } => KindView::ResponseTurnCompleted {
                session_id: session_id@,
                response_id: response_id@,
                previous_response_id: previous_response_id.deep_view(),
                status: status@,
                tokens_in: *tokens_in,
                tokens_out: *tokens_out,
                hosted_tool_calls: *hosted_tool_calls,
                duration_ms: *duration_ms,
            },
            EventKind::ResponseSessionEnded { session_id, reason } => KindView::ResponseSessionEnded {
                session_id: session_id@,
                reason: reason@,
            },
            EventKind::EvalReport { report_id, dataset, metric, value, ci_low, ci_high, baseline_value, delta, verdict, sample_size } => KindView::EvalReport {
                report_id: report_id@,
                dataset: dataset@,
                metric: metric@,
                value: *value,
                ci_low: *ci_low,
                ci_high: *ci_high,
                baseline_value: *baseline_value,
                delta: *delta,
                verdict: verdict.deep_view(),
                sample_size: *sample_size,
            },
            EventKind::EmbeddingCompleted { model, documents, tokens_in, duration_ms } => KindView::EmbeddingCompleted {
                model: model@,
                documents: *documents,
                tokens_in: *tokens_in,
                duration_ms: *duration_ms,
            },
            EventKind::RetrievalQueried { queries, top_k, results, duration_ms } => KindView::RetrievalQueried {
                queries: queries.deep_view(),
                top_k: *top_k,
                results: *results,
                duration_ms: *duration_ms,
            },
            EventKind::RerankCompleted { model, documents_in, documents_out, duration_ms } => KindView::RerankCompleted {
                model: model@,
                documents_in: *documents_in,
                documents_out: *documents_out,
                duration_ms: *duration_ms,
            },
        }
    }
}

impl DeepView for EventKind {
    type V = KindView;

    open spec fn deep_view(&self) -> KindView {
        self@
    }
}

impl Clone for EventKind {
    fn clone(&self) -> (copy: Self)
        ensures
            copy@ == self@,
    {
        match self {
            EventKind::PromptStarted { model, messages_in, temperature, top_p, max_tokens } => EventKind::PromptStarted {
                model: model.clone(),
                messages_in: *messages_in,
                temperature: *temperature,
                top_p: *top_p,
                max_tokens: *max_tokens,
            },
            EventKind::PromptCompleted { model, tokens_in, tokens_out, cached_tokens_in, reasoning_tokens, cost_usd, finish_reason, response_id, previous_response_id, time_to_first_token_ms, duration_ms } => EventKind::PromptCompleted {
                model: model.clone(),
                tokens_in: *tokens_in,
                tokens_out: *tokens_out,
                cached_tokens_in: *cached_tokens_in,
                reasoning_tokens: *reasoning_tokens,
                cost_usd: *cost_usd,
                finish_reason: copy_option(finish_reason),
                response_id: copy_option(response_id),
                previous_response_id: copy_option(previous_response_id),
                time_to_first_token_ms: *time_to_first_token_ms,
                duration_ms: *duration_ms,
            },
            EventKind::PromptFailed { model, error_class, message, retriable, provider_error_code, http_status } => EventKind::PromptFailed {
                model: model.clone(),
                error_class: *error_class,
                message: message.clone(),
                retriable: *retriable,
                provider_error_code: copy_option(provider_error_code),
                http_status: *http_status,
            },
            EventKind::ToolInvoked { tool_name, provider_call_id, call_id, args_json, truncated } => EventKind::ToolInvoked {
                tool_name: tool_name.clone(),
                provider_call_id: copy_option(provider_call_id),
                call_id: call_id.clone(),
                args_json: args_json.clone(),
                truncated: *truncated,
            },
            EventKind::ToolCompleted { tool_name, provider_call_id, call_id, result, truncated, duration_ms } => EventKind::ToolCompleted {
                tool_name: tool_name.clone(),
                provider_call_id: copy_option(provider_call_id),
                call_id: call_id.clone(),
                result: result.clone(),
                truncated: *truncated,
                duration_ms: *duration_ms,
            },
            EventKind::ToolFailed { tool_name, call_id, error_class, message } => EventKind::ToolFailed {
                tool_name: tool_name.clone(),
                call_id: call_id.clone(),
                error_class: *error_class,
                message: message.clone(),
            },
            EventKind::ToolSkipped { tool_name, call_id, reason } => EventKind::ToolSkipped {
                tool_name: tool_name.clone(),
                call_id: call_id.clone(),
                reason: reason.clone(),
            },
            EventKind::ToolTerminated { tool_name, call_id, reason } => EventKind::ToolTerminated {
                tool_name: tool_name.clone(),
                call_id: call_id.clone(),
                reason: reason.clone(),
            },
            EventKind::ToolHostedInvoked { tool_name, provider_call_id, call_id, response_id, args_json, truncated } => EventKind::ToolHostedInvoked {
                tool_name: tool_name.clone(),
                provider_call_id: copy_option(provider_call_id),
                call_id: call_id.clone(),
                response_id: copy_option(response_id),
                args_json: args_json.clone(),
                truncated: *truncated,
            },
            EventKind::ToolHostedCompleted { tool_name, provider_call_id, call_id, response_id, status, result, truncated, duration_ms } => EventKind::ToolHostedCompleted {
                tool_name: tool_name.clone(),
                provider_call_id: copy_option(provider_call_id),
                call_id: call_id.clone(),
                response_id: copy_option(response_id),
                status: copy_option(status),
                result: result.clone(),
                truncated: *truncated,
                duration_ms: *duration_ms,
            },
            EventKind::ContextSampled { message_count, byte_size, token_estimate } => EventKind::ContextSampled {
                message_count: *message_count,
                byte_size: *byte_size,
                token_estimate: *token_estimate,
            },
            EventKind::ContextPersisted { message_count, byte_size } => EventKind::ContextPersisted {
                message_count: *message_count,
                byte_size: *byte_size,
            },
            EventKind::ContextCompacted { evicted_count, evicted_bytes, carry_over, summary_bytes } => EventKind::ContextCompacted {
                evicted_count: *evicted_count,
                evicted_bytes: *evicted_bytes,
                carry_over: *carry_over,
                summary_bytes: *summary_bytes,
            },
            EventKind::MemoryDemoted { demoted_count, tags } => EventKind::MemoryDemoted {
                demoted_count: *demoted_count,
                tags: copy_texts(tags),
            },
            EventKind::MemoryFrameWritten { frame_kind, frame_count_after, bytes_written } => EventKind::MemoryFrameWritten {
                frame_kind: frame_kind.clone(),
                frame_count_after: *frame_count_after,
                bytes_written: *bytes_written,
            },
            EventKind::ComposeKernelStart { kernel_id, skills_registered, tools_registered } => EventKind::ComposeKernelStart {
                kernel_id: kernel_id.clone(),
                skills_registered: *skills_registered,
                tools_registered: *tools_registered,
            },
            EventKind::ComposeKernelShutdown { kernel_id, reason } => EventKind::ComposeKernelShutdown {
                kernel_id: kernel_id.clone(),
                reason: reason.clone(),
            },
            EventKind::ComposeLoopIteration { kernel_id, iteration, skill_id, confidence } => EventKind::ComposeLoopIteration {
                kernel_id: kernel_id.clone(),
                iteration: *iteration,
                skill_id: copy_option(skill_id),
                confidence: *confidence,
            },
            EventKind::ComposeSkillResolved { kernel_id, skill_id, applies, delta, confidence } => EventKind::ComposeSkillResolved {
                kernel_id: kernel_id.clone(),
                skill_id: skill_id.clone(),
                applies: *applies,
                delta: *delta,
                confidence: *confidence,
            },
            EventKind::ComposeRetryAttempt { kernel_id, target, attempt, classification } => EventKind::ComposeRetryAttempt {
                kernel_id: kernel_id.clone(),
                target: target.clone(),
                attempt: *attempt,
                classification: classification.clone(),
            },
            EventKind::ComposeRecovery { kernel_id, reason, recovered } => EventKind::ComposeRecovery {
                kernel_id: kernel_id.clone(),
                reason: reason.clone(),
                recovered: *recovered,
            },
            EventKind::ResponseSessionStarted { model, session_id } => EventKind::ResponseSessionStarted {
                model: model.clone(),
                session_id: session_id.clone(),
            },
            EventKind::ResponseTurnStarted { session_id, previous_response_id } => EventKind::ResponseTurnStarted {
                session_id: session_id.clone(),
                previous_response_id: copy_option(previous_response_id),
            },
            EventKind::ResponseTurnCompleted { session_id, response_id, previous_response_id, status, tokens_in, tokens_out, hosted_tool_calls, duration_ms } => EventKind::ResponseTurnCompleted {
                session_id: session_id.clone(),
                response_id: response_id.clone(),
                previous_response_id: copy_option(previous_response_id),
                status: status.clone(),
                tokens_in: *tokens_in,
                tokens_out: *tokens_out,
                hosted_tool_calls: *hosted_tool_calls,
                duration_ms: *duration_ms,
            },
            EventKind::ResponseSessionEnded { session_id, reason } => EventKind::ResponseSessionEnded {
                session_id: session_id.clone(),
                reason: reason.clone(),
            },
            EventKind::EvalReport { report_id, dataset, metric, value, ci_low, ci_high, baseline_value, delta, verdict, sample_size } => EventKind::EvalReport {
                report_id: report_id.clone(),
                dataset: dataset.clone(),
                metric: metric.clone(),
                value: *value,
                ci_low: *ci_low,
                ci_high: *ci_high,
                baseline_value: *baseline_value,
                delta: *delta,
                verdict: copy_option(verdict),
                sample_size: *sample_size,
            },
            EventKind::EmbeddingCompleted { model, documents, tokens_in, duration_ms } => EventKind::EmbeddingCompleted {
                model: model.clone(),
                documents: *documents,
                tokens_in: *tokens_in,
                duration_ms: *duration_ms,
            },
            EventKind::RetrievalQueried { queries, top_k, results, duration_ms } => EventKind::RetrievalQueried {
                queries: copy_texts(queries),
                top_k: *top_k,
                results: *results,
                duration_ms: *duration_ms,
            },
            EventKind::RerankCompleted { model, documents_in, documents_out, duration_ms } => EventKind::RerankCompleted {
                model: model.clone(),
                documents_in: *documents_in,
                documents_out: *documents_out,
                duration_ms: *duration_ms,
            },
        }
    }
}

impl KindView {
    /// The wire name of the variant.
    pub open spec fn discriminant(self) -> Seq<char> {
        match self {
            KindView::PromptStarted { .. } => "prompt.started"@,
            KindView::PromptCompleted { .. } => "prompt.completed"@,
            KindView::PromptFailed { .. } => "prompt.failed"@,
            KindView::ToolInvoked { .. } => "tool.invoked"@,
            KindView::ToolCompleted { .. } => "tool.completed"@,
            KindView::ToolFailed { .. } => "tool.failed"@,
            KindView::ToolSkipped { .. } => "tool.skipped"@,
            KindView::ToolTerminated { .. } => "tool.terminated"@,
            KindView::ToolHostedInvoked { .. } => "tool.hosted_invoked"@,
            KindView::ToolHostedCompleted { .. } => "tool.hosted_completed"@,
            KindView::ContextSampled { .. } => "context.sampled"@,
            KindView::ContextPersisted { .. } => "context.persisted"@,
            KindView::ContextCompacted { .. } => "context.compacted"@,
            KindView::MemoryDemoted { .. } => "memory.demoted"@,
            KindView::MemoryFrameWritten { .. } => "memory.frame_written"@,
            KindView::ComposeKernelStart { .. } => "compose.kernel_start"@,
            KindView::ComposeKernelShutdown { .. } => "compose.kernel_shutdown"@,
            KindView::ComposeLoopIteration { .. } => "compose.loop_iteration"@,
            KindView::ComposeSkillResolved { .. } => "compose.skill_resolved"@,
            KindView::ComposeRetryAttempt { .. } => "compose.retry_attempt"@,
            KindView::ComposeRecovery { .. } => "compose.recovery"@,
            KindView::ResponseSessionStarted { .. } => "response.session_started"@,
            KindView::ResponseTurnStarted { .. } => "response.turn_started"@,
            KindView::ResponseTurnCompleted { .. } => "response.turn_completed"@,
            KindView::ResponseSessionEnded { .. } => "response.session_ended"@,
            KindView::EvalReport { .. } => "eval.report"@,
            KindView::EmbeddingCompleted { .. } => "embedding.completed"@,
            KindView::RetrievalQueried { .. } => "retrieval.queried"@,
            KindView::RerankCompleted { .. } => "rerank.completed"@,
        }
    }
}

/// Per-variant scalar correlation fields surfaced as direct `tracing`
/// attributes alongside the JSON event blob. See [`EventKind::scalar_fields`].
///
/// Absent fields are represented as `""`.
#[derive(Debug, Clone, Copy, PartialEq, Eq)]
#[non_exhaustive]
pub struct ScalarFields<'a> {
    /// `compose.*` event kernel identifier.
    pub kernel_id: &'a str,
    /// `tool.*` and `compose.retry_attempt` target/tool name.
    pub tool_name: &'a str,
    /// `tool.*` stable correlation identifier.
    pub call_id: &'a str,
    /// `compose.skill_resolved` / `compose.loop_iteration` skill identifier.
    pub skill_id: &'a str,
    /// `prompt.*` model identifier.
    pub model: &'a str,
    /// `prompt.completed` / `response.*` provider response identifier.
    pub response_id: &'a str,
    /// `prompt.completed` / `response.turn_*` chain ancestor — populated when
    /// the producer is on a stateful endpoint such as OpenAI's Responses API
    /// where the current turn was created with `previous_response_id`.
    pub previous_response_id: &'a str,
    /// `eval.report` dataset / qrels label.
    pub dataset: &'a str,
    /// `eval.report` metric name.
    pub metric: &'a str,
    /// `eval.report` regression-gate verdict.
    pub verdict: &'a str,
    /// `*.failed` error classification.
    pub error_class: &'a str,
}

/// The content of [`ScalarFields`].
#[verifier::ext_equal]
pub struct ScalarsView {
    pub kernel_id: Seq<char>,
    pub tool_name: Seq<char>,
    pub call_id: Seq<char>,
    pub skill_id: Seq<char>,
    pub model: Seq<char>,
    pub response_id: Seq<char>,
    pub previous_response_id: Seq<char>,
    pub dataset: Seq<char>,
    pub metric: Seq<char>,
    pub verdict: Seq<char>,
    pub error_class: Seq<char>,
}

impl<'a> View for ScalarFields<'a> {
    type V = ScalarsView;

    open spec fn view(&self) -> ScalarsView {
        ScalarsView {
            kernel_id: self.kernel_id@,
            tool_name: self.tool_name@,
            call_id: self.call_id@,
            skill_id: self.skill_id@,
            model: self.model@,
            response_id: self.response_id@,
            previous_response_id: self.previous_response_id@,
            dataset: self.dataset@,
            metric: self.metric@,
            verdict: self.verdict@,
            error_class: self.error_class@,
        }
    }
}

/// Scalars that are all absent.
pub open spec fn no_scalars() -> ScalarsView {
    ScalarsView {
        kernel_id: seq![],
        tool_name: seq![],
        call_id: seq![],
        skill_id: seq![],
        model: seq![],
        response_id: seq![],
        previous_response_id: seq![],
        dataset: seq![],
        metric: seq![],
        verdict: seq![],
        error_class: seq![],
    }
}

impl<'a> Default for ScalarFields<'a> {
    fn default() -> (fields: Self)
        ensures
            fields@ == no_scalars(),
    {
        proof {
            reveal_strlit("");
        }
        let fields = ScalarFields {
            kernel_id: "",
            tool_name: "",
            call_id: "",
            skill_id: "",
            model: "",
            response_id: "",
            previous_response_id: "",
            dataset: "",
            metric: "",
            verdict: "",
            error_class: "",
        };
        assert(fields@ =~= no_scalars());
        fields
    }
}

/// The text of an optional field, with absence as the empty string.
pub open spec fn or_empty(text: Option<Seq<char>>) -> Seq<char> {
    match text {
        Some(inner) => inner,
        None => seq![],
    }
}

/// Reads an optional text, with absence as the empty string.
pub fn str_or_empty(text: &Option<String>) -> (out: &str)
    ensures
        out@ == or_empty(text.deep_view()),
{
    match text {
        Some(inner) => inner.as_str(),
        None => {
            proof {
                reveal_strlit("");
            }
            assert(""@ =~= seq![]);
            ""
        },
    }
}

impl KindView {
    /// The scalar correlators of the event: what each variant carries of
    /// them, and the empty string for the rest.
    pub open spec fn scalars(self) -> ScalarsView {
        match self {
            KindView::PromptStarted { model, .. } => ScalarsView { model, ..no_scalars() },
            KindView::PromptCompleted { model, response_id, previous_response_id, .. } =>
                ScalarsView {
                    model,
                    response_id: or_empty(response_id),
                    previous_response_id: or_empty(previous_response_id),
                    ..no_scalars()
                },
            KindView::PromptFailed { model, error_class, .. } => ScalarsView {
                model,
                error_class: error_class.label(),
                ..no_scalars()
            },
            KindView::ToolInvoked { tool_name, call_id, .. } => ScalarsView {
                tool_name,
                call_id,
                ..no_scalars()
            },
            KindView::ToolCompleted { tool_name, call_id, .. } => ScalarsView {
                tool_name,
                call_id,
                ..no_scalars()
            },
            KindView::ToolFailed { tool_name, call_id, error_class, .. } => ScalarsView {
                tool_name,
                call_id,
                error_class: error_class.label(),
                ..no_scalars()
            },
            KindView::ToolSkipped { tool_name, call_id, .. } => ScalarsView {
                tool_name,
                call_id,
                ..no_scalars()
            },
            KindView::ToolTerminated { tool_name, call_id, .. } => ScalarsView {
                tool_name,
                call_id,
                ..no_scalars()
            },
            KindView::ToolHostedInvoked { tool_name, call_id, response_id, .. } => ScalarsView {
                tool_name,
                call_id,
                response_id: or_empty(response_id),
                ..no_scalars()
            },
            KindView::ToolHostedCompleted { tool_name, call_id, response_id, .. } => ScalarsView {
                tool_name,
                call_id,
                response_id: or_empty(response_id),
                ..no_scalars()
            },
            KindView::ComposeKernelStart { kernel_id, .. } => ScalarsView {
                kernel_id,
                ..no_scalars()
            },
            KindView::ComposeKernelShutdown { kernel_id, .. } => ScalarsView {
                kernel_id,
                ..no_scalars()
            },
            KindView::ComposeRecovery { kernel_id, .. } => ScalarsView {
                kernel_id,
                ..no_scalars()
            },
            KindView::ComposeLoopIteration { kernel_id, skill_id, .. } => ScalarsView {
                kernel_id,
                skill_id: or_empty(skill_id),
                ..no_scalars()
            },
            KindView::ComposeSkillResolved { kernel_id, skill_id, .. } => ScalarsView {
                kernel_id,
                skill_id,
                ..no_scalars()
            },
            KindView::ComposeRetryAttempt { kernel_id, target, .. } => ScalarsView {
                kernel_id,
                tool_name: target,
                ..no_scalars()
            },
            KindView::ResponseSessionStarted { model, .. } => ScalarsView {
                model,
                ..no_scalars()
            },
            KindView::ResponseTurnStarted { previous_response_id, .. } => ScalarsView {
                previous_response_id: or_empty(previous_response_id),
                ..no_scalars()
            },
            KindView::ResponseTurnCompleted { response_id, previous_response_id, .. } =>
                ScalarsView {
                    response_id,
                    previous_response_id: or_empty(previous_response_id),
                    ..no_scalars()
                },
            KindView::EvalReport { dataset, metric, verdict, .. } => ScalarsView {
                dataset,
                metric,
                verdict: or_empty(verdict),
                ..no_scalars()
            },
            KindView::EmbeddingCompleted { model, .. } => ScalarsView { model, ..no_scalars() },
            KindView::RerankCompleted { model, .. } => ScalarsView { model, ..no_scalars() },
            _ => no_scalars(),
        }
    }

    /// Whether the event is part of the prompt lifecycle.
    pub open spec fn prompt_related(self) -> bool {
        self is PromptStarted || self is PromptCompleted || self is PromptFailed
    }

    /// Whether the event is part of the tool lifecycle.
    pub open spec fn tool_related(self) -> bool {
        ||| self is ToolInvoked
        ||| self is ToolCompleted
        ||| self is ToolFailed
        ||| self is ToolSkipped
        ||| self is ToolTerminated
        ||| self is ToolHostedInvoked
        ||| self is ToolHostedCompleted
    }

    /// Whether the event reports a failed prompt or tool call.
    pub open spec fn failure_related(self) -> bool {
        self is PromptFailed || self is ToolFailed
    }

    /// Whether the event is part of the response-session lifecycle.
    pub open spec fn response_lifecycle_related(self) -> bool {
        ||| self is ResponseSessionStarted
        ||| self is ResponseTurnStarted
        ||| self is ResponseTurnCompleted
        ||| self is ResponseSessionEnded
    }

    /// Whether the event concerns memory or context management.
    pub open spec fn memory_related(self) -> bool {
        ||| self is ContextSampled
        ||| self is ContextPersisted
        ||| self is ContextCompacted
        ||| self is MemoryDemoted
        ||| self is MemoryFrameWritten
    }

    /// Whether the event comes from a `rig-compose` kernel or agent loop.
    pub open spec fn compose_related(self) -> bool {
        ||| self is ComposeKernelStart
        ||| self is ComposeKernelShutdown
        ||| self is ComposeLoopIteration
        ||| self is ComposeSkillResolved
        ||| self is ComposeRetryAttempt
        ||| self is ComposeRecovery
    }

    /// Whether the event is an evaluation report metric.
    pub open spec fn eval_related(self) -> bool {
        self is EvalReport
    }

    /// Whether the event is part of a retrieval pipeline.
    pub open spec fn retrieval_related(self) -> bool {
        self is EmbeddingCompleted || self is RetrievalQueried || self is RerankCompleted
    }

    /// The correlation identifier of a tool event.
    pub open spec fn call_id(self) -> Option<Seq<char>> {
        match self {
            KindView::ToolInvoked { call_id, .. } => Some(call_id),
            KindView::ToolCompleted { call_id, .. } => Some(call_id),
            KindView::ToolFailed { call_id, .. } => Some(call_id),
            KindView::ToolSkipped { call_id, .. } => Some(call_id),
            KindView::ToolTerminated { call_id, .. } => Some(call_id),
            KindView::ToolHostedInvoked { call_id, .. } => Some(call_id),
            KindView::ToolHostedCompleted { call_id, .. } => Some(call_id),
            _ => None,
        }
    }
}

impl EventKind {
    /// Returns the wire `kind` discriminant for this event.
    pub fn discriminant(&self) -> (name: &'static str)
        ensures
            name@ == self@.discriminant(),
    {
        match self {
            EventKind::PromptStarted { .. } => "prompt.started",
            EventKind::PromptCompleted { .. } => "prompt.completed",
            EventKind::PromptFailed { .. } => "prompt.failed",
            EventKind::ToolInvoked { .. } => "tool.invoked",
            EventKind::ToolCompleted { .. } => "tool.completed",
            EventKind::ToolFailed { .. } => "tool.failed",
            EventKind::ToolSkipped { .. } => "tool.skipped",
            EventKind::ToolTerminated { .. } => "tool.terminated",
            EventKind::ToolHostedInvoked { .. } => "tool.hosted_invoked",
            EventKind::ToolHostedCompleted { .. } => "tool.hosted_completed",
            EventKind::ContextSampled { .. } => "context.sampled",
            EventKind::ContextPersisted { .. } => "context.persisted",
            EventKind::ContextCompacted { .. } => "context.compacted",
            EventKind::MemoryDemoted { .. } => "memory.demoted",
            EventKind::MemoryFrameWritten { .. } => "memory.frame_written",
            EventKind::ComposeKernelStart { .. } => "compose.kernel_start",
            EventKind::ComposeKernelShutdown { .. } => "compose.kernel_shutdown",
            EventKind::ComposeLoopIteration { .. } => "compose.loop_iteration",
            EventKind::ComposeSkillResolved { .. } => "compose.skill_resolved",
            EventKind::ComposeRetryAttempt { .. } => "compose.retry_attempt",
            EventKind::ComposeRecovery { .. } => "compose.recovery",
            EventKind::ResponseSessionStarted { .. } => "response.session_started",
            EventKind::ResponseTurnStarted { .. } => "response.turn_started",
            EventKind::ResponseTurnCompleted { .. } => "response.turn_completed",
            EventKind::ResponseSessionEnded { .. } => "response.session_ended",
            EventKind::EvalReport { .. } => "eval.report",
            EventKind::EmbeddingCompleted { .. } => "embedding.completed",
            EventKind::RetrievalQueried { .. } => "retrieval.queried",
            EventKind::RerankCompleted { .. } => "rerank.completed",
        }
    }

    /// Extract the per-variant scalar correlation fields that are surfaced
    /// directly on the `tracing` event so that OpenTelemetry collectors and
    /// log indexers can route on them without parsing the JSON `event` blob.
    ///
    /// Absent fields are returned as `""`. Consumers should filter
    /// `rig_tap.<field> != ""` to detect presence.
    pub fn scalar_fields(&self) -> (fields: ScalarFields<'_>)
        ensures
            fields@ == self@.scalars(),
    {
        let mut f = ScalarFields::default();
        match self {
            EventKind::PromptStarted { model, .. } => {
                f.model = model.as_str();
            },
            EventKind::PromptCompleted { model, response_id, previous_response_id, .. } => {
                f.model = model.as_str();
                f.response_id = str_or_empty(response_id);
                f.previous_response_id = str_or_empty(previous_response_id);
            },
            EventKind::PromptFailed { model, error_class, .. } => {
                f.model = model.as_str();
                f.error_class = error_class.as_str();
            },
            EventKind::ToolInvoked { tool_name, call_id, .. }
            | EventKind::ToolCompleted { tool_name, call_id, .. }
            | EventKind::ToolSkipped { tool_name, call_id, .. }
            | EventKind::ToolTerminated { tool_name, call_id, .. } => {
                f.tool_name = tool_name.as_str();
                f.call_id = call_id.as_str();
            },
            EventKind::ToolFailed { tool_name, call_id, error_class, .. } => {
                f.tool_name = tool_name.as_str();
                f.call_id = call_id.as_str();
                f.error_class = error_class.as_str();
            },
            EventKind::ToolHostedInvoked { tool_name, call_id, response_id, .. }
            | EventKind::ToolHostedCompleted { tool_name, call_id, response_id, .. } => {
                f.tool_name = tool_name.as_str();
                f.call_id = call_id.as_str();
                f.response_id = str_or_empty(response_id);
            },
            EventKind::ComposeKernelStart { kernel_id, .. }
            | EventKind::ComposeKernelShutdown { kernel_id, .. }
            | EventKind::ComposeRecovery { kernel_id, .. } => {
                f.kernel_id = kernel_id.as_str();
            },
            EventKind::ComposeLoopIteration { kernel_id, skill_id, .. } => {
                f.kernel_id = kernel_id.as_str();
                f.skill_id = str_or_empty(skill_id);
            },
            EventKind::ComposeSkillResolved { kernel_id, skill_id, .. } => {
                f.kernel_id = kernel_id.as_str();
                f.skill_id = skill_id.as_str();
            },
            EventKind::ComposeRetryAttempt { kernel_id, target, .. } => {
                f.kernel_id = kernel_id.as_str();
                f.tool_name = target.as_str();
            },
            EventKind::ResponseSessionStarted { model, .. } => {
                f.model = model.as_str();
            },
            EventKind::ResponseTurnStarted { previous_response_id, .. } => {
                f.previous_response_id = str_or_empty(previous_response_id);
            },
            EventKind::ResponseTurnCompleted { response_id, previous_response_id, .. } => {
                f.response_id = response_id.as_str();
                f.previous_response_id = str_or_empty(previous_response_id);
            },
            EventKind::EvalReport { dataset, metric, verdict, .. } => {
                f.dataset = dataset.as_str();
                f.metric = metric.as_str();
                f.verdict = str_or_empty(verdict);
            },
            EventKind::EmbeddingCompleted { model, .. }
            | EventKind::RerankCompleted { model, .. } => {
                f.model = model.as_str();
            },
            EventKind::ResponseSessionEnded { .. }
            | EventKind::RetrievalQueried { .. }
            | EventKind::ContextSampled { .. }
            | EventKind::ContextPersisted { .. }
            | EventKind::ContextCompacted { .. }
            | EventKind::MemoryDemoted { .. }
            | EventKind::MemoryFrameWritten { .. } => {},
        }
        f
    }

    /// Returns `true` if the event is part of the prompt lifecycle
    /// (`prompt.started`, `prompt.completed`, `prompt.failed`).
    pub fn is_prompt_related(&self) -> (related: bool)
        ensures
            related == self@.prompt_related(),
    {
        matches!(
            self,
            EventKind::PromptStarted { .. }
                | EventKind::PromptCompleted { .. }
                | EventKind::PromptFailed { .. }
        )
    }

    /// Returns `true` if the event is part of the tool lifecycle
    /// (`tool.invoked`, `tool.completed`, `tool.failed`, `tool.skipped`,
    /// `tool.terminated`, `tool.hosted_invoked`, `tool.hosted_completed`).
    pub fn is_tool_related(&self) -> (related: bool)
        ensures
            related == self@.tool_related(),
    {
        matches!(
            self,
            EventKind::ToolInvoked { .. }
                | EventKind::ToolCompleted { .. }
                | EventKind::ToolFailed { .. }
                | EventKind::ToolSkipped { .. }
                | EventKind::ToolTerminated { .. }
                | EventKind::ToolHostedInvoked { .. }
                | EventKind::ToolHostedCompleted { .. }
        )
    }

    /// Returns `true` if this event indicates a failure in a prompt or tool call.
    pub fn is_failure_related(&self) -> (related: bool)
        ensures
            related == self@.failure_related(),
    {
        matches!(
            self,
            EventKind::PromptFailed { .. } | EventKind::ToolFailed { .. }
        )
    }

    /// Returns `true` if the event is part of the stateful response-session
    /// lifecycle (`response.session_started`, `response.turn_started`,
    /// `response.turn_completed`, `response.session_ended`).
    pub fn is_response_lifecycle_related(&self) -> (related: bool)
        ensures
            related == self@.response_lifecycle_related(),
    {
        matches!(
            self,
            EventKind::ResponseSessionStarted { .. }
                | EventKind::ResponseTurnStarted { .. }
                | EventKind::ResponseTurnCompleted { .. }
                | EventKind::ResponseSessionEnded { .. }
        )
    }

    /// Returns `true` if the event is related to memory and context management.
    pub fn is_memory_related(&self) -> (related: bool)
        ensures
            related == self@.memory_related(),
    {
        matches!(
            self,
            EventKind::ContextSampled { .. }
                | EventKind::ContextPersisted { .. }
                | EventKind::ContextCompacted { .. }
                | EventKind::MemoryDemoted { .. }
                | EventKind::MemoryFrameWritten { .. }
        )
    }

    /// Returns `true` if the event is related to a `rig-compose` kernel or agent loop.
    pub fn is_compose_related(&self) -> (related: bool)
        ensures
            related == self@.compose_related(),
    {
        matches!(
            self,
            EventKind::ComposeKernelStart { .. }
                | EventKind::ComposeKernelShutdown { .. }
                | EventKind::ComposeLoopIteration { .. }
                | EventKind::ComposeSkillResolved { .. }
                | EventKind::ComposeRetryAttempt { .. }
                | EventKind::ComposeRecovery { .. }
        )
    }

    /// Returns `true` if the event is an evaluation report metric
    /// (`eval.report`).
    pub fn is_eval_related(&self) -> (related: bool)
        ensures
            related == self@.eval_related(),
    {
        matches!(self, EventKind::EvalReport { .. })
    }

    /// Returns `true` if the event is part of a retrieval or RAG pipeline
    /// (`embedding.completed`, `retrieval.queried`, `rerank.completed`).
    pub fn is_retrieval_related(&self) -> (related: bool)
        ensures
            related == self@.retrieval_related(),
    {
        matches!(
            self,
            EventKind::EmbeddingCompleted { .. }
                | EventKind::RetrievalQueried { .. }
                | EventKind::RerankCompleted { .. }
        )
    }

    /// Extracts the stable `call_id` for tool events, if present.
    pub fn tool_call_id(&self) -> (id: Option<&str>)
        ensures
            id.deep_view() == self@.call_id(),
    {
        match self {
            EventKind::ToolInvoked { call_id, .. } => Some(call_id.as_str()),
            EventKind::ToolCompleted { call_id, .. } => Some(call_id.as_str()),
            EventKind::ToolFailed { call_id, .. } => Some(call_id.as_str()),
            EventKind::ToolSkipped { call_id, .. } => Some(call_id.as_str()),
            EventKind::ToolTerminated { call_id, .. } => Some(call_id.as_str()),
            EventKind::ToolHostedInvoked { call_id, .. } => Some(call_id.as_str()),
            EventKind::ToolHostedCompleted { call_id, .. } => Some(call_id.as_str()),
            _ => None,
        }
    }
}

} // verus!
