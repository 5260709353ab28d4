//! Uniform telemetry for Rig agents and companion crates.
//!
//! `rig_tap` defines a stable, versioned [`ObservabilityEvent`] stream for
//! prompt, tool, context, memory, and dispatch lifecycle events. Producer
//! crates can use the same event vocabulary whether the event came from a Rig
//! agent hook, `rig-compose` dispatch, memory behavior, or host application
//! code.
//!
//! The library decides which events are due and what they hold; it does not
//! send them anywhere. Hooks and observers are state machines whose methods
//! return [`Emission`]s; [`build_event`] stamps them, [`encode_event`] writes
//! the flat wire form, and [`record_fields`] gives the scalar fields that go
//! next to it on a `tracing` record.

pub mod call_laws;
pub mod chained;
pub mod clock;
pub mod dispatch;
pub mod dispatch_laws;
pub mod dispatch_trace;
pub mod effect_laws;
pub mod emit;
pub mod error;
pub mod event;
pub mod event_laws;
pub mod extract;
pub mod float;
pub mod hook;
pub mod hook_laws;
pub mod hosted_laws;
pub mod insight_laws;
pub mod insights;
pub mod json;
pub mod latency;
pub mod metrics_ext;
pub mod observed_memory;
pub mod query;
pub mod query_laws;
pub mod redaction;
pub mod responses_extract;
pub mod responses_session;
pub mod rollup_laws;
pub mod sampling;
pub mod schema_laws;
pub mod session_envelope;
pub mod session_laws;
pub mod spans;
pub mod subscriber;
pub mod table;
pub mod text;
pub mod truncate;
pub mod value_laws;
pub mod wire;
pub mod wire_kinds;
pub mod wire_laws;

pub use chained::{ChainedHook, HookAction, ToolCallHookAction};
pub use clock::now_millis;
pub use dispatch::{DispatchObserveHook, ToolInvocationOutcome};
pub use emit::{
    build_event, build_event_with, current_span_id, next_tick, record_fields, Emission,
    RecordFields, SequenceCounter, EVENT_TARGET,
};
pub use error::Error;
pub use event::{
    ErrorClass, EventKind, ObservabilityEvent, ScalarFields, Severity, PAYLOAD_TRUNCATE_BYTES,
    SCHEMA_VERSION,
};
pub use extract::EventVisitor;
pub use float::Float64;
pub use hook::{PromptFailure, PromptUsage, TelemetryHook, TelemetryHookConfig};
pub use insights::{Insights, PromptStats, SuccessRate, TokenTotals, ToolStats};
pub use latency::LatencySummary;
pub use metrics_ext::{event_metrics, EventMetrics, MetricUpdate};
pub use observed_memory::{CountingWriter, ObservedMemory};
pub use query::{EventFilter, EventQuery};
pub use redaction::{IdentityRedaction, RedactionPolicy};
pub use responses_extract::{
    emit_hosted_tools, emit_hosted_tools_redacted, extract_hosted_tools, HostedToolCall,
};
pub use responses_session::{
    ResponseChunk, ResponseChunkKind, ResponsesSessionObserver, SessionEvent, TurnUsage,
};
pub use sampling::{AdaptiveErrorPolicy, AlwaysSample, RatePolicy, SamplingPolicy};
pub use spans::{ToolOutcome, ToolSpan};
pub use subscriber::CapturingLayer;
pub use table::SortedTable;
pub use truncate::truncate_utf8;
pub use wire::{decode_event, encode_event, WireNumber, WireValue};
