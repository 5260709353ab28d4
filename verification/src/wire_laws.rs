//! What holds of the wire form of every event.

use vstd::prelude::*;

verus! {

/// A number that tells the names of the schema apart: made of length, first,
/// last and middle character.
pub open spec fn code(name: Seq<char>) -> int {
    ((name.len() * 128 + name[0] as int) * 128 + name[name.len() - 1] as int) * 128 + name[(
    name.len() / 2) as int] as int
}

/// The keys of the envelope.
pub open spec fn envelope_key(key: Seq<char>) -> bool {
    ||| key == "version"@
    ||| key == "occurred_at_millis"@
    ||| key == "tick"@
    ||| key == "conversation_id"@
    ||| key == "span_id"@
    ||| key == "agent_id"@
    ||| key == "trace_id"@
    ||| key == "severity"@
    ||| key == "kind"@
}

/// The keys of the `prompt.started` payload.
pub open spec fn prompt_started_key(key: Seq<char>) -> bool {
    ||| key == "model"@
    ||| key == "messages_in"@
    ||| key == "temperature"@
    ||| key == "top_p"@
    ||| key == "max_tokens"@
}

/// The keys of the `prompt.completed` payload.
pub open spec fn prompt_completed_key(key: Seq<char>) -> bool {
    ||| key == "model"@
    ||| key == "tokens_in"@
    ||| key == "tokens_out"@
    ||| key == "cached_tokens_in"@
    ||| key == "reasoning_tokens"@
    ||| key == "cost_usd"@
    ||| key == "finish_reason"@
    ||| key == "response_id"@
    ||| key == "previous_response_id"@
    ||| key == "time_to_first_token_ms"@
    ||| key == "duration_ms"@
}

/// The keys of the `prompt.failed` payload.
pub open spec fn prompt_failed_key(key: Seq<char>) -> bool {
    ||| key == "model"@
    ||| key == "error_class"@
    ||| key == "message"@
    ||| key == "retriable"@
    ||| key == "provider_error_code"@
    ||| key == "http_status"@
}

/// The keys of the `tool.invoked` payload.
pub open spec fn tool_invoked_key(key: Seq<char>) -> bool {
    ||| key == "tool_name"@
    ||| key == "provider_call_id"@
    ||| key == "call_id"@
    ||| key == "args_json"@
    ||| key == "truncated"@
}

/// The keys of the `tool.completed` payload.
pub open spec fn tool_completed_key(key: Seq<char>) -> bool {
    ||| key == "tool_name"@
    ||| key == "provider_call_id"@
    ||| key == "call_id"@
    ||| key == "result"@
    ||| key == "truncated"@
    ||| key == "duration_ms"@
}

/// The keys of the `tool.failed` payload.
pub open spec fn tool_failed_key(key: Seq<char>) -> bool {
    ||| key == "tool_name"@
    ||| key == "call_id"@
    ||| key == "error_class"@
    ||| key == "message"@
}

/// The keys of the `tool.skipped` payload.
pub open spec fn tool_skipped_key(key: Seq<char>) -> bool {
    ||| key == "tool_name"@
    ||| key == "call_id"@
    ||| key == "reason"@
}

/// The keys of the `tool.terminated` payload.
pub open spec fn tool_terminated_key(key: Seq<char>) -> bool {
    ||| key == "tool_name"@
    ||| key == "call_id"@
    ||| key == "reason"@
}

/// The keys of the `tool.hosted_invoked` payload.
pub open spec fn tool_hosted_invoked_key(key: Seq<char>) -> bool {
    ||| key == "tool_name"@
    ||| key == "provider_call_id"@
    ||| key == "call_id"@
    ||| key == "response_id"@
    ||| key == "args_json"@
    ||| key == "truncated"@
}

/// The keys of the `tool.hosted_completed` payload.
pub open spec fn tool_hosted_completed_key(key: Seq<char>) -> bool {
    ||| key == "tool_name"@
    ||| key == "provider_call_id"@
    ||| key == "call_id"@
    ||| key == "response_id"@
    ||| key == "status"@
    ||| key == "result"@
    ||| key == "truncated"@
    ||| key == "duration_ms"@
}

/// The keys of the `context.sampled` payload.
pub open spec fn context_sampled_key(key: Seq<char>) -> bool {
    ||| key == "message_count"@
    ||| key == "byte_size"@
    ||| key == "token_estimate"@
}

/// The keys of the `context.persisted` payload.
pub open spec fn context_persisted_key(key: Seq<char>) -> bool {
    ||| key == "message_count"@
    ||| key == "byte_size"@
}

/// The keys of the `context.compacted` payload.
pub open spec fn context_compacted_key(key: Seq<char>) -> bool {
    ||| key == "evicted_count"@
    ||| key == "evicted_bytes"@
    ||| key == "carry_over"@
    ||| key == "summary_bytes"@
}

/// The keys of the `memory.demoted` payload.
pub open spec fn memory_demoted_key(key: Seq<char>) -> bool {
    ||| key == "demoted_count"@
    ||| key == "tags"@
}

/// The keys of the `memory.frame_written` payload.
pub open spec fn memory_frame_written_key(key: Seq<char>) -> bool {
    ||| key == "frame_kind"@
    ||| key == "frame_count_after"@
    ||| key == "bytes_written"@
}

/// The keys of the `compose.kernel_start` payload.
pub open spec fn compose_kernel_start_key(key: Seq<char>) -> bool {
    ||| key == "kernel_id"@
    ||| key == "skills_registered"@
    ||| key == "tools_registered"@
}

/// The keys of the `compose.kernel_shutdown` payload.
pub open spec fn compose_kernel_shutdown_key(key: Seq<char>) -> bool {
    ||| key == "kernel_id"@
    ||| key == "reason"@
}

/// The keys of the `compose.loop_iteration` payload.
pub open spec fn compose_loop_iteration_key(key: Seq<char>) -> bool {
    ||| key == "kernel_id"@
    ||| key == "iteration"@
    ||| key == "skill_id"@
    ||| key == "confidence"@
}

/// The keys of the `compose.skill_resolved` payload.
pub open spec fn compose_skill_resolved_key(key: Seq<char>) -> bool {
    ||| key == "kernel_id"@
    ||| key == "skill_id"@
    ||| key == "applies"@
    ||| key == "delta"@
    ||| key == "confidence"@
}

/// The keys of the `compose.retry_attempt` payload.
pub open spec fn compose_retry_attempt_key(key: Seq<char>) -> bool {
    ||| key == "kernel_id"@
    ||| key == "target"@
    ||| key == "attempt"@
    ||| key == "classification"@
}

/// The keys of the `compose.recovery` payload.
pub open spec fn compose_recovery_key(key: Seq<char>) -> bool {
    ||| key == "kernel_id"@
    ||| key == "reason"@
    ||| key == "recovered"@
}

/// The keys of the `response.session_started` payload.
pub open spec fn response_session_started_key(key: Seq<char>) -> bool {
    ||| key == "model"@
    ||| key == "session_id"@
}

/// The keys of the `response.turn_started` payload.
pub open spec fn response_turn_started_key(key: Seq<char>) -> bool {
    ||| key == "session_id"@
    ||| key == "previous_response_id"@
}

/// The keys of the `response.turn_completed` payload.
pub open spec fn response_turn_completed_key(key: Seq<char>) -> bool {
    ||| key == "session_id"@
    ||| key == "response_id"@
    ||| key == "previous_response_id"@
    ||| key == "status"@
    ||| key == "tokens_in"@
    ||| key == "tokens_out"@
    ||| key == "hosted_tool_calls"@
    ||| key == "duration_ms"@
}

/// The keys of the `response.session_ended` payload.
pub open spec fn response_session_ended_key(key: Seq<char>) -> bool {
    ||| key == "session_id"@
    ||| key == "reason"@
}

/// The keys of the `eval.report` payload.
pub open spec fn eval_report_key(key: Seq<char>) -> bool {
    ||| key == "report_id"@
    ||| key == "dataset"@
    ||| key == "metric"@
    ||| key == "value"@
    ||| key == "ci_low"@
    ||| key == "ci_high"@
    ||| key == "baseline_value"@
    ||| key == "delta"@
    ||| key == "verdict"@
    ||| key == "sample_size"@
}

/// The keys of the `embedding.completed` payload.
pub open spec fn embedding_completed_key(key: Seq<char>) -> bool {
    ||| key == "model"@
    ||| key == "documents"@
    ||| key == "tokens_in"@
    ||| key == "duration_ms"@
}

/// The keys of the `retrieval.queried` payload.
pub open spec fn retrieval_queried_key(key: Seq<char>) -> bool {
    ||| key == "queries"@
    ||| key == "top_k"@
    ||| key == "results"@
    ||| key == "duration_ms"@
}

/// The keys of the `rerank.completed` payload.
pub open spec fn rerank_completed_key(key: Seq<char>) -> bool {
    ||| key == "model"@
    ||| key == "documents_in"@
    ||| key == "documents_out"@
    ||| key == "duration_ms"@
}

/// The keys of the payload with the wire name `name`.
pub open spec fn named_key(name: Seq<char>, key: Seq<char>) -> bool {
    if name == "prompt.started"@ {
        prompt_started_key(key)
    } else if name == "prompt.completed"@ {
        prompt_completed_key(key)
    } else if name == "prompt.failed"@ {
        prompt_failed_key(key)
    } else if name == "tool.invoked"@ {
        tool_invoked_key(key)
    } else if name == "tool.completed"@ {
        tool_completed_key(key)
    } else if name == "tool.failed"@ {
        tool_failed_key(key)
    } else if name == "tool.skipped"@ {
        tool_skipped_key(key)
    } else if name == "tool.terminated"@ {
        tool_terminated_key(key)
    } else if name == "tool.hosted_invoked"@ {
        tool_hosted_invoked_key(key)
    } else if name == "tool.hosted_completed"@ {
        tool_hosted_completed_key(key)
    } else if name == "context.sampled"@ {
        context_sampled_key(key)
    } else if name == "context.persisted"@ {
        context_persisted_key(key)
    } else if name == "context.compacted"@ {
        context_compacted_key(key)
    } else if name == "memory.demoted"@ {
        memory_demoted_key(key)
    } else if name == "memory.frame_written"@ {
        memory_frame_written_key(key)
    } else if name == "compose.kernel_start"@ {
        compose_kernel_start_key(key)
    } else if name == "compose.kernel_shutdown"@ {
        compose_kernel_shutdown_key(key)
    } else if name == "compose.loop_iteration"@ {
        compose_loop_iteration_key(key)
    } else if name == "compose.skill_resolved"@ {
        compose_skill_resolved_key(key)
    } else if name == "compose.retry_attempt"@ {
        compose_retry_attempt_key(key)
    } else if name == "compose.recovery"@ {
        compose_recovery_key(key)
    } else if name == "response.session_started"@ {
        response_session_started_key(key)
    } else if name == "response.turn_started"@ {
        response_turn_started_key(key)
    } else if name == "response.turn_completed"@ {
        response_turn_completed_key(key)
    } else if name == "response.session_ended"@ {
        response_session_ended_key(key)
    } else if name == "eval.report"@ {
        eval_report_key(key)
    } else if name == "embedding.completed"@ {
        embedding_completed_key(key)
    } else if name == "retrieval.queried"@ {
        retrieval_queried_key(key)
    } else if name == "rerank.completed"@ {
        rerank_completed_key(key)
    } else {
        false
    }
}

/// The keys of a payload.
pub open spec fn payload_key(kind: crate::event::KindView, key: Seq<char>) -> bool {
    match kind {
        crate::event::KindView::PromptStarted { .. } => prompt_started_key(key),
        crate::event::KindView::PromptCompleted { .. } => prompt_completed_key(key),
        crate::event::KindView::PromptFailed { .. } => prompt_failed_key(key),
        crate::event::KindView::ToolInvoked { .. } => tool_invoked_key(key),
        crate::event::KindView::ToolCompleted { .. } => tool_completed_key(key),
        crate::event::KindView::ToolFailed { .. } => tool_failed_key(key),
        crate::event::KindView::ToolSkipped { .. } => tool_skipped_key(key),
        crate::event::KindView::ToolTerminated { .. } => tool_terminated_key(key),
        crate::event::KindView::ToolHostedInvoked { .. } => tool_hosted_invoked_key(key),
        crate::event::KindView::ToolHostedCompleted { .. } => tool_hosted_completed_key(key),
        crate::event::KindView::ContextSampled { .. } => context_sampled_key(key),
        crate::event::KindView::ContextPersisted { .. } => context_persisted_key(key),
        crate::event::KindView::ContextCompacted { .. } => context_compacted_key(key),
        crate::event::KindView::MemoryDemoted { .. } => memory_demoted_key(key),
        crate::event::KindView::MemoryFrameWritten { .. } => memory_frame_written_key(key),
        crate::event::KindView::ComposeKernelStart { .. } => compose_kernel_start_key(key),
        crate::event::KindView::ComposeKernelShutdown { .. } => compose_kernel_shutdown_key(key),
        crate::event::KindView::ComposeLoopIteration { .. } => compose_loop_iteration_key(key),
        crate::event::KindView::ComposeSkillResolved { .. } => compose_skill_resolved_key(key),
        crate::event::KindView::ComposeRetryAttempt { .. } => compose_retry_attempt_key(key),
        crate::event::KindView::ComposeRecovery { .. } => compose_recovery_key(key),
        crate::event::KindView::ResponseSessionStarted { .. } => response_session_started_key(key),
        crate::event::KindView::ResponseTurnStarted { .. } => response_turn_started_key(key),
        crate::event::KindView::ResponseTurnCompleted { .. } => response_turn_completed_key(key),
        crate::event::KindView::ResponseSessionEnded { .. } => response_session_ended_key(key),
        crate::event::KindView::EvalReport { .. } => eval_report_key(key),
        crate::event::KindView::EmbeddingCompleted { .. } => embedding_completed_key(key),
        crate::event::KindView::RetrievalQueried { .. } => retrieval_queried_key(key),
        crate::event::KindView::RerankCompleted { .. } => rerank_completed_key(key),
    }
}

/// Whether the value `read` carries the value `written`: it is the same, but
/// that a number may have more readings than it was written with.
pub open spec fn carried(
    written: Option<crate::wire::WireView>,
    read: Option<crate::wire::WireView>,
) -> bool {
    match (written, read) {
        (
            Some(crate::wire::WireView::Number(w)),
            Some(crate::wire::WireView::Number(r)),
        ) => {
            &&& w.unsigned is Some ==> r.unsigned == w.unsigned
            &&& w.double is Some ==> r.double == w.double
        },
        _ => written == read,
    }
}

/// Whether the fields `read` carry what was written under the keys of the
/// payload `kind`.
pub open spec fn payload_carried(
    kind: crate::event::KindView,
    written: Seq<(Seq<char>, crate::wire::WireView)>,
    read: Seq<(Seq<char>, crate::wire::WireView)>,
) -> bool {
    forall|key: Seq<char>|
        payload_key(kind, key) ==> carried(
            crate::wire::lookup(written, key),
            #[trigger] crate::wire::lookup(read, key),
        )
}

/// Whether the fields `read` carry what was written of `event` under every key
/// of the envelope and of its payload, in whatever order and with whatever else
/// beside it.
pub open spec fn event_carried(
    event: crate::event::EventView,
    read: Seq<(Seq<char>, crate::wire::WireView)>,
) -> bool {
    forall|key: Seq<char>|
        envelope_key(key) || payload_key(event.kind, key) ==> carried(
            crate::wire::lookup(crate::wire::event_fields(event), key),
            #[trigger] crate::wire::lookup(read, key),
        )
}

/// The keys of the schema have different codes, so they are different keys.
pub proof fn lemma_key_codes()
    ensures
        code("version"@) == 16627571,
        code("occurred_at_millis"@) == 39582177,
        code("tick"@) == 10302947,
        code("conversation_id"@) == 33092193,
        code("span_id"@) == 16577134,
        code("agent_id"@) == 18379380,
        code("trace_id"@) == 18690661,
        code("severity"@) == 18676978,
        code("kind"@) == 10154606,
        code("model"@) == 12285540,
        code("messages_in"@) == 24868711,
        code("temperature"@) == 24982258,
        code("top_p"@) == 12400752,
        code("max_tokens"@) == 22772207,
        code("tokens_in"@) == 20789102,
        code("tokens_out"@) == 22887027,
        code("cached_tokens_in"@) == 35190639,
        code("reasoning_tokens"@) == 35437031,
        code("cost_usd"@) == 18412127,
        code("finish_reason"@) == 28948319,
        code("response_id"@) == 24949358,
        code("previous_response_id"@) == 43790949,
        code("time_to_first_token_ms"@) == 48052723,
        code("duration_ms"@) == 24721897,
        code("error_class"@) == 24738271,
        code("message"@) == 16478963,
        code("retriable"@) == 20755177,
        code("provider_error_code"@) == 41693925,
        code("http_status"@) == 24787443,
        code("tool_name"@) == 20787935,
        code("provider_call_id"@) == 35402335,
        code("call_id"@) == 16314988,
        code("args_json"@) == 20477791,
        code("truncated"@) == 20787811,
        code("result"@) == 14465653,
        code("reason"@) == 14464883,
        code("status"@) == 14481908,
        code("message_count"@) == 29063781,
        code("byte_size"@) == 20493023,
        code("token_estimate"@) == 31273715,
        code("evicted_count"@) == 28932708,
        code("evicted_bytes"@) == 28932580,
        code("carry_over"@) == 22608223,
        code("summary_bytes"@) == 29161977,
        code("demoted_count"@) == 28916324,
        code("tags"@) == 10303975,
        code("frame_kind"@) == 22655583,
        code("frame_count_after"@) == 37337461,
        code("bytes_written"@) == 28882807,
        code("kernel_id"@) == 20640357,
        code("skills_registered"@) == 37548645,
        code("tools_registered"@) == 35467879,
        code("iteration"@) == 20608865,
        code("skill_id"@) == 18674284,
        code("confidence"@) == 22606564,
        code("applies"@) == 16284140,
        code("delta"@) == 12136684,
        code("target"@) == 14498407,
        code("attempt"@) == 16284261,
        code("classification"@) == 30996329,
        code("recovered"@) == 20755062,
        code("session_id"@) == 22868591,
        code("hosted_tool_calls"@) == 37370351,
        code("report_id"@) == 20755058,
        code("dataset"@) == 16333409,
        code("metric"@) == 14381554,
        code("value"@) == 12432108,
        code("ci_low"@) == 14220268,
        code("ci_high"@) == 16315496,
        code("baseline_value"@) == 30978789,
        code("verdict"@) == 16628324,
        code("sample_size"@) == 24965861,
        code("documents"@) == 20527597,
        code("queries"@) == 16546290,
        code("top_k"@) == 12400112,
        code("results"@) == 16562677,
        code("documents_in"@) == 26818414,
        code("documents_out"@) == 28916334,
{
    reveal_strlit("version");
    reveal_strlit("occurred_at_millis");
    reveal_strlit("tick");
    reveal_strlit("conversation_id");
    reveal_strlit("span_id");
    reveal_strlit("agent_id");
    reveal_strlit("trace_id");
    reveal_strlit("severity");
    reveal_strlit("kind");
    reveal_strlit("model");
    reveal_strlit("messages_in");
    reveal_strlit("temperature");
    reveal_strlit("top_p");
    reveal_strlit("max_tokens");
    reveal_strlit("tokens_in");
    reveal_strlit("tokens_out");
    reveal_strlit("cached_tokens_in");
    reveal_strlit("reasoning_tokens");
    reveal_strlit("cost_usd");
    reveal_strlit("finish_reason");
    reveal_strlit("response_id");
    reveal_strlit("previous_response_id");
    reveal_strlit("time_to_first_token_ms");
    reveal_strlit("duration_ms");
    reveal_strlit("error_class");
    reveal_strlit("message");
    reveal_strlit("retriable");
    reveal_strlit("provider_error_code");
    reveal_strlit("http_status");
    reveal_strlit("tool_name");
    reveal_strlit("provider_call_id");
    reveal_strlit("call_id");
    reveal_strlit("args_json");
    reveal_strlit("truncated");
    reveal_strlit("result");
    reveal_strlit("reason");
    reveal_strlit("status");
    reveal_strlit("message_count");
    reveal_strlit("byte_size");
    reveal_strlit("token_estimate");
    reveal_strlit("evicted_count");
    reveal_strlit("evicted_bytes");
    reveal_strlit("carry_over");
    reveal_strlit("summary_bytes");
    reveal_strlit("demoted_count");
    reveal_strlit("tags");
    reveal_strlit("frame_kind");
    reveal_strlit("frame_count_after");
    reveal_strlit("bytes_written");
    reveal_strlit("kernel_id");
    reveal_strlit("skills_registered");
    reveal_strlit("tools_registered");
    reveal_strlit("iteration");
    reveal_strlit("skill_id");
    reveal_strlit("confidence");
    reveal_strlit("applies");
    reveal_strlit("delta");
    reveal_strlit("target");
    reveal_strlit("attempt");
    reveal_strlit("classification");
    reveal_strlit("recovered");
    reveal_strlit("session_id");
    reveal_strlit("hosted_tool_calls");
    reveal_strlit("report_id");
    reveal_strlit("dataset");
    reveal_strlit("metric");
    reveal_strlit("value");
    reveal_strlit("ci_low");
    reveal_strlit("ci_high");
    reveal_strlit("baseline_value");
    reveal_strlit("verdict");
    reveal_strlit("sample_size");
    reveal_strlit("documents");
    reveal_strlit("queries");
    reveal_strlit("top_k");
    reveal_strlit("results");
    reveal_strlit("documents_in");
    reveal_strlit("documents_out");
}

/// The wire names of the kinds have different codes, so they are different
/// names.
pub proof fn lemma_kind_codes()
    ensures
        code("prompt.started"@) == 31208051,
        code("prompt.completed"@) == 35402351,
        code("prompt.failed"@) == 29110830,
        code("tool.invoked"@) == 27079278,
        code("tool.completed"@) == 31273581,
        code("tool.failed"@) == 24982118,
        code("tool.skipped"@) == 27079275,
        code("tool.terminated"@) == 33370738,
        code("tool.hosted_invoked"@) == 41759333,
        code("tool.hosted_completed"@) == 45953636,
        code("context.sampled"@) == 33092142,
        code("context.persisted"@) == 37286512,
        code("context.compacted"@) == 37286499,
        code("memory.demoted"@) == 31158884,
        code("memory.frame_written"@) == 43743085,
        code("compose.kernel_start"@) == 43580018,
        code("compose.kernel_shutdown"@) == 49870702,
        code("compose.loop_iteration"@) == 47773552,
        code("compose.skill_resolved"@) == 47772268,
        code("compose.retry_attempt"@) == 45677172,
        code("compose.recovery"@) == 35192050,
        code("response.session_started"@) == 52212339,
        code("response.turn_started"@) == 45920885,
        code("response.turn_completed"@) == 50115186,
        code("response.session_ended"@) == 48018035,
        code("eval.report"@) == 24738418,
        code("embedding.completed"@) == 41513518,
        code("retrieval.queried"@) == 37532268,
        code("rerank.completed"@) == 35435119,
{
    reveal_strlit("prompt.started");
    reveal_strlit("prompt.completed");
    reveal_strlit("prompt.failed");
    reveal_strlit("tool.invoked");
    reveal_strlit("tool.completed");
    reveal_strlit("tool.failed");
    reveal_strlit("tool.skipped");
    reveal_strlit("tool.terminated");
    reveal_strlit("tool.hosted_invoked");
    reveal_strlit("tool.hosted_completed");
    reveal_strlit("context.sampled");
    reveal_strlit("context.persisted");
    reveal_strlit("context.compacted");
    reveal_strlit("memory.demoted");
    reveal_strlit("memory.frame_written");
    reveal_strlit("compose.kernel_start");
    reveal_strlit("compose.kernel_shutdown");
    reveal_strlit("compose.loop_iteration");
    reveal_strlit("compose.skill_resolved");
    reveal_strlit("compose.retry_attempt");
    reveal_strlit("compose.recovery");
    reveal_strlit("response.session_started");
    reveal_strlit("response.turn_started");
    reveal_strlit("response.turn_completed");
    reveal_strlit("response.session_ended");
    reveal_strlit("eval.report");
    reveal_strlit("embedding.completed");
    reveal_strlit("retrieval.queried");
    reveal_strlit("rerank.completed");
}

proof fn lemma_prompt_started_round_trip(
    before: Seq<(Seq<char>, crate::wire::WireView)>,
    kind: crate::event::KindView,
    read: Seq<(Seq<char>, crate::wire::WireView)>,
)
    requires
        kind is PromptStarted,
        forall|key: Seq<char>|
            !envelope_key(key) ==> #[trigger] crate::wire::lookup(before, key) is None,
        payload_carried(kind, before + crate::wire_kinds::kind_fields(kind), read),
    ensures
        crate::wire_kinds::decoded_prompt_started(read) == Some(kind),
{
    broadcast use {crate::wire::lemma_lookup_join, crate::wire::lemma_lookup_field};

    lemma_key_codes();
    let fields = before + crate::wire_kinds::kind_fields(kind);
    if let crate::event::KindView::PromptStarted { model, messages_in, temperature, top_p, max_tokens } = kind {
        assert(crate::wire::lookup(fields, "model"@) == Some(crate::wire::WireView::Text(model)));
        assert(crate::wire::lookup(fields, "messages_in"@) == Some(crate::wire::number(messages_in as u64)));
        assert(crate::wire::lookup(fields, "temperature"@) == crate::wire::opt_double(temperature));
        assert(crate::wire::lookup(fields, "top_p"@) == crate::wire::opt_double(top_p));
        assert(crate::wire::lookup(fields, "max_tokens"@) == crate::wire::opt_number(max_tokens));
    }
}

proof fn lemma_prompt_completed_round_trip(
    before: Seq<(Seq<char>, crate::wire::WireView)>,
    kind: crate::event::KindView,
    read: Seq<(Seq<char>, crate::wire::WireView)>,
)
    requires
        kind is PromptCompleted,
        forall|key: Seq<char>|
            !envelope_key(key) ==> #[trigger] crate::wire::lookup(before, key) is None,
        payload_carried(kind, before + crate::wire_kinds::kind_fields(kind), read),
    ensures
        crate::wire_kinds::decoded_prompt_completed(read) == Some(kind),
{
    broadcast use {crate::wire::lemma_lookup_join, crate::wire::lemma_lookup_field};

    lemma_key_codes();
    let fields = before + crate::wire_kinds::kind_fields(kind);
    if let crate::event::KindView::PromptCompleted { model, tokens_in, tokens_out, cached_tokens_in, reasoning_tokens, cost_usd, finish_reason, response_id, previous_response_id, time_to_first_token_ms, duration_ms } = kind {
        assert(crate::wire::lookup(fields, "model"@) == Some(crate::wire::WireView::Text(model)));
        assert(crate::wire::lookup(fields, "tokens_in"@) == crate::wire::opt_number(tokens_in));
        assert(crate::wire::lookup(fields, "tokens_out"@) == crate::wire::opt_number(tokens_out));
        assert(crate::wire::lookup(fields, "cached_tokens_in"@) == crate::wire::opt_number(cached_tokens_in));
        assert(crate::wire::lookup(fields, "reasoning_tokens"@) == crate::wire::opt_number(reasoning_tokens));
        assert(crate::wire::lookup(fields, "cost_usd"@) == crate::wire::opt_double(cost_usd));
        assert(crate::wire::lookup(fields, "finish_reason"@) == crate::wire::opt_text(finish_reason));
        assert(crate::wire::lookup(fields, "response_id"@) == crate::wire::opt_text(response_id));
        assert(crate::wire::lookup(fields, "previous_response_id"@) == crate::wire::opt_text(previous_response_id));
        assert(crate::wire::lookup(fields, "time_to_first_token_ms"@) == crate::wire::opt_number(time_to_first_token_ms));
        assert(crate::wire::lookup(fields, "duration_ms"@) == crate::wire::opt_number(duration_ms));
    }
}

proof fn lemma_prompt_failed_round_trip(
    before: Seq<(Seq<char>, crate::wire::WireView)>,
    kind: crate::event::KindView,
    read: Seq<(Seq<char>, crate::wire::WireView)>,
)
    requires
        kind is PromptFailed,
        forall|key: Seq<char>|
            !envelope_key(key) ==> #[trigger] crate::wire::lookup(before, key) is None,
        payload_carried(kind, before + crate::wire_kinds::kind_fields(kind), read),
    ensures
        crate::wire_kinds::decoded_prompt_failed(read) == Some(kind),
{
    broadcast use {crate::wire::lemma_lookup_join, crate::wire::lemma_lookup_field};

    lemma_key_codes();
    let fields = before + crate::wire_kinds::kind_fields(kind);
    if let crate::event::KindView::PromptFailed { model, error_class, message, retriable, provider_error_code, http_status } = kind {
        assert(crate::wire::lookup(fields, "model"@) == Some(crate::wire::WireView::Text(model)));
        assert(crate::wire::lookup(fields, "error_class"@) == Some(crate::wire::WireView::Text(error_class.label())));
        assert(crate::wire::lookup(fields, "message"@) == Some(crate::wire::WireView::Text(message)));
        assert(crate::wire::lookup(fields, "retriable"@) == Some(crate::wire::WireView::Flag(retriable)));
        assert(crate::wire::lookup(fields, "provider_error_code"@) == crate::wire::opt_text(provider_error_code));
        assert(crate::wire::lookup(fields, "http_status"@) == crate::wire::opt_status(http_status));
        crate::wire::lemma_error_class_round_trip(error_class);
    }
}

proof fn lemma_tool_invoked_round_trip(
    before: Seq<(Seq<char>, crate::wire::WireView)>,
    kind: crate::event::KindView,
    read: Seq<(Seq<char>, crate::wire::WireView)>,
)
    requires
        kind is ToolInvoked,
        forall|key: Seq<char>|
            !envelope_key(key) ==> #[trigger] crate::wire::lookup(before, key) is None,
        payload_carried(kind, before + crate::wire_kinds::kind_fields(kind), read),
    ensures
        crate::wire_kinds::decoded_tool_invoked(read) == Some(kind),
{
    broadcast use {crate::wire::lemma_lookup_join, crate::wire::lemma_lookup_field};

    lemma_key_codes();
    let fields = before + crate::wire_kinds::kind_fields(kind);
    if let crate::event::KindView::ToolInvoked { tool_name, provider_call_id, call_id, args_json, truncated } = kind {
        assert(crate::wire::lookup(fields, "tool_name"@) == Some(crate::wire::WireView::Text(tool_name)));
        assert(crate::wire::lookup(fields, "provider_call_id"@) == crate::wire::opt_text(provider_call_id));
        assert(crate::wire::lookup(fields, "call_id"@) == Some(crate::wire::WireView::Text(call_id)));
        assert(crate::wire::lookup(fields, "args_json"@) == Some(crate::wire::WireView::Text(args_json)));
        assert(crate::wire::lookup(fields, "truncated"@) == Some(crate::wire::WireView::Flag(truncated)));
    }
}

proof fn lemma_tool_completed_round_trip(
    before: Seq<(Seq<char>, crate::wire::WireView)>,
    kind: crate::event::KindView,
    read: Seq<(Seq<char>, crate::wire::WireView)>,
)
    requires
        kind is ToolCompleted,
        forall|key: Seq<char>|
            !envelope_key(key) ==> #[trigger] crate::wire::lookup(before, key) is None,
        payload_carried(kind, before + crate::wire_kinds::kind_fields(kind), read),
    ensures
        crate::wire_kinds::decoded_tool_completed(read) == Some(kind),
{
    broadcast use {crate::wire::lemma_lookup_join, crate::wire::lemma_lookup_field};

    lemma_key_codes();
    let fields = before + crate::wire_kinds::kind_fields(kind);
    if let crate::event::KindView::ToolCompleted { tool_name, provider_call_id, call_id, result, truncated, duration_ms } = kind {
        assert(crate::wire::lookup(fields, "tool_name"@) == Some(crate::wire::WireView::Text(tool_name)));
        assert(crate::wire::lookup(fields, "provider_call_id"@) == crate::wire::opt_text(provider_call_id));
        assert(crate::wire::lookup(fields, "call_id"@) == Some(crate::wire::WireView::Text(call_id)));
        assert(crate::wire::lookup(fields, "result"@) == Some(crate::wire::WireView::Text(result)));
        assert(crate::wire::lookup(fields, "truncated"@) == Some(crate::wire::WireView::Flag(truncated)));
        assert(crate::wire::lookup(fields, "duration_ms"@) == crate::wire::opt_number(duration_ms));
    }
}

proof fn lemma_tool_failed_round_trip(
    before: Seq<(Seq<char>, crate::wire::WireView)>,
    kind: crate::event::KindView,
    read: Seq<(Seq<char>, crate::wire::WireView)>,
)
    requires
        kind is ToolFailed,
        forall|key: Seq<char>|
            !envelope_key(key) ==> #[trigger] crate::wire::lookup(before, key) is None,
        payload_carried(kind, before + crate::wire_kinds::kind_fields(kind), read),
    ensures
        crate::wire_kinds::decoded_tool_failed(read) == Some(kind),
{
    broadcast use {crate::wire::lemma_lookup_join, crate::wire::lemma_lookup_field};

    lemma_key_codes();
    let fields = before + crate::wire_kinds::kind_fields(kind);
    if let crate::event::KindView::ToolFailed { tool_name, call_id, error_class, message } = kind {
        assert(crate::wire::lookup(fields, "tool_name"@) == Some(crate::wire::WireView::Text(tool_name)));
        assert(crate::wire::lookup(fields, "call_id"@) == Some(crate::wire::WireView::Text(call_id)));
        assert(crate::wire::lookup(fields, "error_class"@) == Some(crate::wire::WireView::Text(error_class.label())));
        assert(crate::wire::lookup(fields, "message"@) == Some(crate::wire::WireView::Text(message)));
        crate::wire::lemma_error_class_round_trip(error_class);
    }
}

proof fn lemma_tool_skipped_round_trip(
    before: Seq<(Seq<char>, crate::wire::WireView)>,
    kind: crate::event::KindView,
    read: Seq<(Seq<char>, crate::wire::WireView)>,
)
    requires
        kind is ToolSkipped,
        forall|key: Seq<char>|
            !envelope_key(key) ==> #[trigger] crate::wire::lookup(before, key) is None,
        payload_carried(kind, before + crate::wire_kinds::kind_fields(kind), read),
    ensures
        crate::wire_kinds::decoded_tool_skipped(read) == Some(kind),
{
    broadcast use {crate::wire::lemma_lookup_join, crate::wire::lemma_lookup_field};

    lemma_key_codes();
    let fields = before + crate::wire_kinds::kind_fields(kind);
    if let crate::event::KindView::ToolSkipped { tool_name, call_id, reason } = kind {
        assert(crate::wire::lookup(fields, "tool_name"@) == Some(crate::wire::WireView::Text(tool_name)));
        assert(crate::wire::lookup(fields, "call_id"@) == Some(crate::wire::WireView::Text(call_id)));
        assert(crate::wire::lookup(fields, "reason"@) == Some(crate::wire::WireView::Text(reason)));
    }
}

proof fn lemma_tool_terminated_round_trip(
    before: Seq<(Seq<char>, crate::wire::WireView)>,
    kind: crate::event::KindView,
    read: Seq<(Seq<char>, crate::wire::WireView)>,
)
    requires
        kind is ToolTerminated,
        forall|key: Seq<char>|
            !envelope_key(key) ==> #[trigger] crate::wire::lookup(before, key) is None,
        payload_carried(kind, before + crate::wire_kinds::kind_fields(kind), read),
    ensures
        crate::wire_kinds::decoded_tool_terminated(read) == Some(kind),
{
    broadcast use {crate::wire::lemma_lookup_join, crate::wire::lemma_lookup_field};

    lemma_key_codes();
    let fields = before + crate::wire_kinds::kind_fields(kind);
    if let crate::event::KindView::ToolTerminated { tool_name, call_id, reason } = kind {
        assert(crate::wire::lookup(fields, "tool_name"@) == Some(crate::wire::WireView::Text(tool_name)));
        assert(crate::wire::lookup(fields, "call_id"@) == Some(crate::wire::WireView::Text(call_id)));
        assert(crate::wire::lookup(fields, "reason"@) == Some(crate::wire::WireView::Text(reason)));
    }
}

proof fn lemma_tool_hosted_invoked_round_trip(
    before: Seq<(Seq<char>, crate::wire::WireView)>,
    kind: crate::event::KindView,
    read: Seq<(Seq<char>, crate::wire::WireView)>,
)
    requires
        kind is ToolHostedInvoked,
        forall|key: Seq<char>|
            !envelope_key(key) ==> #[trigger] crate::wire::lookup(before, key) is None,
        payload_carried(kind, before + crate::wire_kinds::kind_fields(kind), read),
    ensures
        crate::wire_kinds::decoded_tool_hosted_invoked(read) == Some(kind),
{
    broadcast use {crate::wire::lemma_lookup_join, crate::wire::lemma_lookup_field};

    lemma_key_codes();
    let fields = before + crate::wire_kinds::kind_fields(kind);
    if let crate::event::KindView::ToolHostedInvoked { tool_name, provider_call_id, call_id, response_id, args_json, truncated } = kind {
        assert(crate::wire::lookup(fields, "tool_name"@) == Some(crate::wire::WireView::Text(tool_name)));
        assert(crate::wire::lookup(fields, "provider_call_id"@) == crate::wire::opt_text(provider_call_id));
        assert(crate::wire::lookup(fields, "call_id"@) == Some(crate::wire::WireView::Text(call_id)));
        assert(crate::wire::lookup(fields, "response_id"@) == crate::wire::opt_text(response_id));
        assert(crate::wire::lookup(fields, "args_json"@) == Some(crate::wire::WireView::Text(args_json)));
        assert(crate::wire::lookup(fields, "truncated"@) == Some(crate::wire::WireView::Flag(truncated)));
    }
}

proof fn lemma_tool_hosted_completed_round_trip(
    before: Seq<(Seq<char>, crate::wire::WireView)>,
    kind: crate::event::KindView,
    read: Seq<(Seq<char>, crate::wire::WireView)>,
)
    requires
        kind is ToolHostedCompleted,
        forall|key: Seq<char>|
            !envelope_key(key) ==> #[trigger] crate::wire::lookup(before, key) is None,
        payload_carried(kind, before + crate::wire_kinds::kind_fields(kind), read),
    ensures
        crate::wire_kinds::decoded_tool_hosted_completed(read) == Some(kind),
{
    broadcast use {crate::wire::lemma_lookup_join, crate::wire::lemma_lookup_field};

    lemma_key_codes();
    let fields = before + crate::wire_kinds::kind_fields(kind);
    if let crate::event::KindView::ToolHostedCompleted { tool_name, provider_call_id, call_id, response_id, status, result, truncated, duration_ms } = kind {
        assert(crate::wire::lookup(fields, "tool_name"@) == Some(crate::wire::WireView::Text(tool_name)));
        assert(crate::wire::lookup(fields, "provider_call_id"@) == crate::wire::opt_text(provider_call_id));
        assert(crate::wire::lookup(fields, "call_id"@) == Some(crate::wire::WireView::Text(call_id)));
        assert(crate::wire::lookup(fields, "response_id"@) == crate::wire::opt_text(response_id));
        assert(crate::wire::lookup(fields, "status"@) == crate::wire::opt_text(status));
        assert(crate::wire::lookup(fields, "result"@) == Some(crate::wire::WireView::Text(result)));
        assert(crate::wire::lookup(fields, "truncated"@) == Some(crate::wire::WireView::Flag(truncated)));
        assert(crate::wire::lookup(fields, "duration_ms"@) == crate::wire::opt_number(duration_ms));
    }
}

proof fn lemma_context_sampled_round_trip(
    before: Seq<(Seq<char>, crate::wire::WireView)>,
    kind: crate::event::KindView,
    read: Seq<(Seq<char>, crate::wire::WireView)>,
)
    requires
        kind is ContextSampled,
        forall|key: Seq<char>|
            !envelope_key(key) ==> #[trigger] crate::wire::lookup(before, key) is None,
        payload_carried(kind, before + crate::wire_kinds::kind_fields(kind), read),
    ensures
        crate::wire_kinds::decoded_context_sampled(read) == Some(kind),
{
    broadcast use {crate::wire::lemma_lookup_join, crate::wire::lemma_lookup_field};

    lemma_key_codes();
    let fields = before + crate::wire_kinds::kind_fields(kind);
    if let crate::event::KindView::ContextSampled { message_count, byte_size, token_estimate } = kind {
        assert(crate::wire::lookup(fields, "message_count"@) == Some(crate::wire::number(message_count as u64)));
        assert(crate::wire::lookup(fields, "byte_size"@) == Some(crate::wire::number(byte_size as u64)));
        assert(crate::wire::lookup(fields, "token_estimate"@) == crate::wire::opt_number(token_estimate));
    }
}

proof fn lemma_context_persisted_round_trip(
    before: Seq<(Seq<char>, crate::wire::WireView)>,
    kind: crate::event::KindView,
    read: Seq<(Seq<char>, crate::wire::WireView)>,
)
    requires
        kind is ContextPersisted,
        forall|key: Seq<char>|
            !envelope_key(key) ==> #[trigger] crate::wire::lookup(before, key) is None,
        payload_carried(kind, before + crate::wire_kinds::kind_fields(kind), read),
    ensures
        crate::wire_kinds::decoded_context_persisted(read) == Some(kind),
{
    broadcast use {crate::wire::lemma_lookup_join, crate::wire::lemma_lookup_field};

    lemma_key_codes();
    let fields = before + crate::wire_kinds::kind_fields(kind);
    if let crate::event::KindView::ContextPersisted { message_count, byte_size } = kind {
        assert(crate::wire::lookup(fields, "message_count"@) == Some(crate::wire::number(message_count as u64)));
        assert(crate::wire::lookup(fields, "byte_size"@) == Some(crate::wire::number(byte_size as u64)));
    }
}

proof fn lemma_context_compacted_round_trip(
    before: Seq<(Seq<char>, crate::wire::WireView)>,
    kind: crate::event::KindView,
    read: Seq<(Seq<char>, crate::wire::WireView)>,
)
    requires
        kind is ContextCompacted,
        forall|key: Seq<char>|
            !envelope_key(key) ==> #[trigger] crate::wire::lookup(before, key) is None,
        payload_carried(kind, before + crate::wire_kinds::kind_fields(kind), read),
    ensures
        crate::wire_kinds::decoded_context_compacted(read) == Some(kind),
{
    broadcast use {crate::wire::lemma_lookup_join, crate::wire::lemma_lookup_field};

    lemma_key_codes();
    let fields = before + crate::wire_kinds::kind_fields(kind);
    if let crate::event::KindView::ContextCompacted { evicted_count, evicted_bytes, carry_over, summary_bytes } = kind {
        assert(crate::wire::lookup(fields, "evicted_count"@) == Some(crate::wire::number(evicted_count as u64)));
        assert(crate::wire::lookup(fields, "evicted_bytes"@) == Some(crate::wire::number(evicted_bytes as u64)));
        assert(crate::wire::lookup(fields, "carry_over"@) == Some(crate::wire::WireView::Flag(carry_over)));
        assert(crate::wire::lookup(fields, "summary_bytes"@) == Some(crate::wire::number(summary_bytes as u64)));
    }
}

proof fn lemma_memory_demoted_round_trip(
    before: Seq<(Seq<char>, crate::wire::WireView)>,
    kind: crate::event::KindView,
    read: Seq<(Seq<char>, crate::wire::WireView)>,
)
    requires
        kind is MemoryDemoted,
        forall|key: Seq<char>|
            !envelope_key(key) ==> #[trigger] crate::wire::lookup(before, key) is None,
        payload_carried(kind, before + crate::wire_kinds::kind_fields(kind), read),
    ensures
        crate::wire_kinds::decoded_memory_demoted(read) == Some(kind),
{
    broadcast use {crate::wire::lemma_lookup_join, crate::wire::lemma_lookup_field};

    lemma_key_codes();
    let fields = before + crate::wire_kinds::kind_fields(kind);
    if let crate::event::KindView::MemoryDemoted { demoted_count, tags } = kind {
        assert(crate::wire::lookup(fields, "demoted_count"@) == Some(crate::wire::number(demoted_count as u64)));
        assert(crate::wire::lookup(fields, "tags"@) == Some(crate::wire::WireView::Texts(tags)));
    }
}

proof fn lemma_memory_frame_written_round_trip(
    before: Seq<(Seq<char>, crate::wire::WireView)>,
    kind: crate::event::KindView,
    read: Seq<(Seq<char>, crate::wire::WireView)>,
)
    requires
        kind is MemoryFrameWritten,
        forall|key: Seq<char>|
            !envelope_key(key) ==> #[trigger] crate::wire::lookup(before, key) is None,
        payload_carried(kind, before + crate::wire_kinds::kind_fields(kind), read),
    ensures
        crate::wire_kinds::decoded_memory_frame_written(read) == Some(kind),
{
    broadcast use {crate::wire::lemma_lookup_join, crate::wire::lemma_lookup_field};

    lemma_key_codes();
    let fields = before + crate::wire_kinds::kind_fields(kind);
    if let crate::event::KindView::MemoryFrameWritten { frame_kind, frame_count_after, bytes_written } = kind {
        assert(crate::wire::lookup(fields, "frame_kind"@) == Some(crate::wire::WireView::Text(frame_kind)));
        assert(crate::wire::lookup(fields, "frame_count_after"@) == crate::wire::opt_number(frame_count_after));
        assert(crate::wire::lookup(fields, "bytes_written"@) == Some(crate::wire::number(bytes_written as u64)));
    }
}

proof fn lemma_compose_kernel_start_round_trip(
    before: Seq<(Seq<char>, crate::wire::WireView)>,
    kind: crate::event::KindView,
    read: Seq<(Seq<char>, crate::wire::WireView)>,
)
    requires
        kind is ComposeKernelStart,
        forall|key: Seq<char>|
            !envelope_key(key) ==> #[trigger] crate::wire::lookup(before, key) is None,
        payload_carried(kind, before + crate::wire_kinds::kind_fields(kind), read),
    ensures
        crate::wire_kinds::decoded_compose_kernel_start(read) == Some(kind),
{
    broadcast use {crate::wire::lemma_lookup_join, crate::wire::lemma_lookup_field};

    lemma_key_codes();
    let fields = before + crate::wire_kinds::kind_fields(kind);
    if let crate::event::KindView::ComposeKernelStart { kernel_id, skills_registered, tools_registered } = kind {
        assert(crate::wire::lookup(fields, "kernel_id"@) == Some(crate::wire::WireView::Text(kernel_id)));
        assert(crate::wire::lookup(fields, "skills_registered"@) == crate::wire::opt_size(skills_registered));
        assert(crate::wire::lookup(fields, "tools_registered"@) == crate::wire::opt_size(tools_registered));
    }
}

proof fn lemma_compose_kernel_shutdown_round_trip(
    before: Seq<(Seq<char>, crate::wire::WireView)>,
    kind: crate::event::KindView,
    read: Seq<(Seq<char>, crate::wire::WireView)>,
)
    requires
        kind is ComposeKernelShutdown,
        forall|key: Seq<char>|
            !envelope_key(key) ==> #[trigger] crate::wire::lookup(before, key) is None,
        payload_carried(kind, before + crate::wire_kinds::kind_fields(kind), read),
    ensures
        crate::wire_kinds::decoded_compose_kernel_shutdown(read) == Some(kind),
{
    broadcast use {crate::wire::lemma_lookup_join, crate::wire::lemma_lookup_field};

    lemma_key_codes();
    let fields = before + crate::wire_kinds::kind_fields(kind);
    if let crate::event::KindView::ComposeKernelShutdown { kernel_id, reason } = kind {
        assert(crate::wire::lookup(fields, "kernel_id"@) == Some(crate::wire::WireView::Text(kernel_id)));
        assert(crate::wire::lookup(fields, "reason"@) == Some(crate::wire::WireView::Text(reason)));
    }
}

proof fn lemma_compose_loop_iteration_round_trip(
    before: Seq<(Seq<char>, crate::wire::WireView)>,
    kind: crate::event::KindView,
    read: Seq<(Seq<char>, crate::wire::WireView)>,
)
    requires
        kind is ComposeLoopIteration,
        forall|key: Seq<char>|
            !envelope_key(key) ==> #[trigger] crate::wire::lookup(before, key) is None,
        payload_carried(kind, before + crate::wire_kinds::kind_fields(kind), read),
    ensures
        crate::wire_kinds::decoded_compose_loop_iteration(read) == Some(kind),
{
    broadcast use {crate::wire::lemma_lookup_join, crate::wire::lemma_lookup_field};

    lemma_key_codes();
    let fields = before + crate::wire_kinds::kind_fields(kind);
    if let crate::event::KindView::ComposeLoopIteration { kernel_id, iteration, skill_id, confidence } = kind {
        assert(crate::wire::lookup(fields, "kernel_id"@) == Some(crate::wire::WireView::Text(kernel_id)));
        assert(crate::wire::lookup(fields, "iteration"@) == Some(crate::wire::number(iteration)));
        assert(crate::wire::lookup(fields, "skill_id"@) == crate::wire::opt_text(skill_id));
        assert(crate::wire::lookup(fields, "confidence"@) == crate::wire::opt_double(confidence));
    }
}

proof fn lemma_compose_skill_resolved_round_trip(
    before: Seq<(Seq<char>, crate::wire::WireView)>,
    kind: crate::event::KindView,
    read: Seq<(Seq<char>, crate::wire::WireView)>,
)
    requires
        kind is ComposeSkillResolved,
        forall|key: Seq<char>|
            !envelope_key(key) ==> #[trigger] crate::wire::lookup(before, key) is None,
        payload_carried(kind, before + crate::wire_kinds::kind_fields(kind), read),
    ensures
        crate::wire_kinds::decoded_compose_skill_resolved(read) == Some(kind),
{
    broadcast use {crate::wire::lemma_lookup_join, crate::wire::lemma_lookup_field};

    lemma_key_codes();
    let fields = before + crate::wire_kinds::kind_fields(kind);
    if let crate::event::KindView::ComposeSkillResolved { kernel_id, skill_id, applies, delta, confidence } = kind {
        assert(crate::wire::lookup(fields, "kernel_id"@) == Some(crate::wire::WireView::Text(kernel_id)));
        assert(crate::wire::lookup(fields, "skill_id"@) == Some(crate::wire::WireView::Text(skill_id)));
        assert(crate::wire::lookup(fields, "applies"@) == Some(crate::wire::WireView::Flag(applies)));
        assert(crate::wire::lookup(fields, "delta"@) == crate::wire::opt_double(delta));
        assert(crate::wire::lookup(fields, "confidence"@) == crate::wire::opt_double(confidence));
    }
}

proof fn lemma_compose_retry_attempt_round_trip(
    before: Seq<(Seq<char>, crate::wire::WireView)>,
    kind: crate::event::KindView,
    read: Seq<(Seq<char>, crate::wire::WireView)>,
)
    requires
        kind is ComposeRetryAttempt,
        forall|key: Seq<char>|
            !envelope_key(key) ==> #[trigger] crate::wire::lookup(before, key) is None,
        payload_carried(kind, before + crate::wire_kinds::kind_fields(kind), read),
    ensures
        crate::wire_kinds::decoded_compose_retry_attempt(read) == Some(kind),
{
    broadcast use {crate::wire::lemma_lookup_join, crate::wire::lemma_lookup_field};

    lemma_key_codes();
    let fields = before + crate::wire_kinds::kind_fields(kind);
    if let crate::event::KindView::ComposeRetryAttempt { kernel_id, target, attempt, classification } = kind {
        assert(crate::wire::lookup(fields, "kernel_id"@) == Some(crate::wire::WireView::Text(kernel_id)));
        assert(crate::wire::lookup(fields, "target"@) == Some(crate::wire::WireView::Text(target)));
        assert(crate::wire::lookup(fields, "attempt"@) == Some(crate::wire::number(attempt)));
        assert(crate::wire::lookup(fields, "classification"@) == Some(crate::wire::WireView::Text(classification)));
    }
}

proof fn lemma_compose_recovery_round_trip(
    before: Seq<(Seq<char>, crate::wire::WireView)>,
    kind: crate::event::KindView,
    read: Seq<(Seq<char>, crate::wire::WireView)>,
)
    requires
        kind is ComposeRecovery,
        forall|key: Seq<char>|
            !envelope_key(key) ==> #[trigger] crate::wire::lookup(before, key) is None,
        payload_carried(kind, before + crate::wire_kinds::kind_fields(kind), read),
    ensures
        crate::wire_kinds::decoded_compose_recovery(read) == Some(kind),
{
    broadcast use {crate::wire::lemma_lookup_join, crate::wire::lemma_lookup_field};

    lemma_key_codes();
    let fields = before + crate::wire_kinds::kind_fields(kind);
    if let crate::event::KindView::ComposeRecovery { kernel_id, reason, recovered } = kind {
        assert(crate::wire::lookup(fields, "kernel_id"@) == Some(crate::wire::WireView::Text(kernel_id)));
        assert(crate::wire::lookup(fields, "reason"@) == Some(crate::wire::WireView::Text(reason)));
        assert(crate::wire::lookup(fields, "recovered"@) == Some(crate::wire::WireView::Flag(recovered)));
    }
}

proof fn lemma_response_session_started_round_trip(
    before: Seq<(Seq<char>, crate::wire::WireView)>,
    kind: crate::event::KindView,
    read: Seq<(Seq<char>, crate::wire::WireView)>,
)
    requires
        kind is ResponseSessionStarted,
        forall|key: Seq<char>|
            !envelope_key(key) ==> #[trigger] crate::wire::lookup(before, key) is None,
        payload_carried(kind, before + crate::wire_kinds::kind_fields(kind), read),
    ensures
        crate::wire_kinds::decoded_response_session_started(read) == Some(kind),
{
    broadcast use {crate::wire::lemma_lookup_join, crate::wire::lemma_lookup_field};

    lemma_key_codes();
    let fields = before + crate::wire_kinds::kind_fields(kind);
    if let crate::event::KindView::ResponseSessionStarted { model, session_id } = kind {
        assert(crate::wire::lookup(fields, "model"@) == Some(crate::wire::WireView::Text(model)));
        assert(crate::wire::lookup(fields, "session_id"@) == Some(crate::wire::WireView::Text(session_id)));
    }
}

proof fn lemma_response_turn_started_round_trip(
    before: Seq<(Seq<char>, crate::wire::WireView)>,
    kind: crate::event::KindView,
    read: Seq<(Seq<char>, crate::wire::WireView)>,
)
    requires
        kind is ResponseTurnStarted,
        forall|key: Seq<char>|
            !envelope_key(key) ==> #[trigger] crate::wire::lookup(before, key) is None,
        payload_carried(kind, before + crate::wire_kinds::kind_fields(kind), read),
    ensures
        crate::wire_kinds::decoded_response_turn_started(read) == Some(kind),
{
    broadcast use {crate::wire::lemma_lookup_join, crate::wire::lemma_lookup_field};

    lemma_key_codes();
    let fields = before + crate::wire_kinds::kind_fields(kind);
    if let crate::event::KindView::ResponseTurnStarted { session_id, previous_response_id } = kind {
        assert(crate::wire::lookup(fields, "session_id"@) == Some(crate::wire::WireView::Text(session_id)));
        assert(crate::wire::lookup(fields, "previous_response_id"@) == crate::wire::opt_text(previous_response_id));
    }
}

proof fn lemma_response_turn_completed_round_trip(
    before: Seq<(Seq<char>, crate::wire::WireView)>,
    kind: crate::event::KindView,
    read: Seq<(Seq<char>, crate::wire::WireView)>,
)
    requires
        kind is ResponseTurnCompleted,
        forall|key: Seq<char>|
            !envelope_key(key) ==> #[trigger] crate::wire::lookup(before, key) is None,
        payload_carried(kind, before + crate::wire_kinds::kind_fields(kind), read),
    ensures
        crate::wire_kinds::decoded_response_turn_completed(read) == Some(kind),
{
    broadcast use {crate::wire::lemma_lookup_join, crate::wire::lemma_lookup_field};

    lemma_key_codes();
    let fields = before + crate::wire_kinds::kind_fields(kind);
    if let crate::event::KindView::ResponseTurnCompleted { session_id, response_id, previous_response_id, status, tokens_in, tokens_out, hosted_tool_calls, duration_ms } = kind {
        assert(crate::wire::lookup(fields, "session_id"@) == Some(crate::wire::WireView::Text(session_id)));
        assert(crate::wire::lookup(fields, "response_id"@) == Some(crate::wire::WireView::Text(response_id)));
        assert(crate::wire::lookup(fields, "previous_response_id"@) == crate::wire::opt_text(previous_response_id));
        assert(crate::wire::lookup(fields, "status"@) == Some(crate::wire::WireView::Text(status)));
        assert(crate::wire::lookup(fields, "tokens_in"@) == crate::wire::opt_number(tokens_in));
        assert(crate::wire::lookup(fields, "tokens_out"@) == crate::wire::opt_number(tokens_out));
        assert(crate::wire::lookup(fields, "hosted_tool_calls"@) == crate::wire::nonzero(hosted_tool_calls));
        assert(crate::wire::lookup(fields, "duration_ms"@) == crate::wire::opt_number(duration_ms));
    }
}

proof fn lemma_response_session_ended_round_trip(
    before: Seq<(Seq<char>, crate::wire::WireView)>,
    kind: crate::event::KindView,
    read: Seq<(Seq<char>, crate::wire::WireView)>,
)
    requires
        kind is ResponseSessionEnded,
        forall|key: Seq<char>|
            !envelope_key(key) ==> #[trigger] crate::wire::lookup(before, key) is None,
        payload_carried(kind, before + crate::wire_kinds::kind_fields(kind), read),
    ensures
        crate::wire_kinds::decoded_response_session_ended(read) == Some(kind),
{
    broadcast use {crate::wire::lemma_lookup_join, crate::wire::lemma_lookup_field};

    lemma_key_codes();
    let fields = before + crate::wire_kinds::kind_fields(kind);
    if let crate::event::KindView::ResponseSessionEnded { session_id, reason } = kind {
        assert(crate::wire::lookup(fields, "session_id"@) == Some(crate::wire::WireView::Text(session_id)));
        assert(crate::wire::lookup(fields, "reason"@) == Some(crate::wire::WireView::Text(reason)));
    }
}

proof fn lemma_eval_report_round_trip(
    before: Seq<(Seq<char>, crate::wire::WireView)>,
    kind: crate::event::KindView,
    read: Seq<(Seq<char>, crate::wire::WireView)>,
)
    requires
        kind is EvalReport,
        forall|key: Seq<char>|
            !envelope_key(key) ==> #[trigger] crate::wire::lookup(before, key) is None,
        payload_carried(kind, before + crate::wire_kinds::kind_fields(kind), read),
    ensures
        crate::wire_kinds::decoded_eval_report(read) == Some(kind),
{
    broadcast use {crate::wire::lemma_lookup_join, crate::wire::lemma_lookup_field};

    lemma_key_codes();
    let fields = before + crate::wire_kinds::kind_fields(kind);
    if let crate::event::KindView::EvalReport { report_id, dataset, metric, value, ci_low, ci_high, baseline_value, delta, verdict, sample_size } = kind {
        assert(crate::wire::lookup(fields, "report_id"@) == Some(crate::wire::WireView::Text(report_id)));
        assert(crate::wire::lookup(fields, "dataset"@) == Some(crate::wire::WireView::Text(dataset)));
        assert(crate::wire::lookup(fields, "metric"@) == Some(crate::wire::WireView::Text(metric)));
        assert(crate::wire::lookup(fields, "value"@) == Some(crate::wire::double(value)));
        assert(crate::wire::lookup(fields, "ci_low"@) == crate::wire::opt_double(ci_low));
        assert(crate::wire::lookup(fields, "ci_high"@) == crate::wire::opt_double(ci_high));
        assert(crate::wire::lookup(fields, "baseline_value"@) == crate::wire::opt_double(baseline_value));
        assert(crate::wire::lookup(fields, "delta"@) == crate::wire::opt_double(delta));
        assert(crate::wire::lookup(fields, "verdict"@) == crate::wire::opt_text(verdict));
        assert(crate::wire::lookup(fields, "sample_size"@) == crate::wire::opt_number(sample_size));
    }
}

proof fn lemma_embedding_completed_round_trip(
    before: Seq<(Seq<char>, crate::wire::WireView)>,
    kind: crate::event::KindView,
    read: Seq<(Seq<char>, crate::wire::WireView)>,
)
    requires
        kind is EmbeddingCompleted,
        forall|key: Seq<char>|
            !envelope_key(key) ==> #[trigger] crate::wire::lookup(before, key) is None,
        payload_carried(kind, before + crate::wire_kinds::kind_fields(kind), read),
    ensures
        crate::wire_kinds::decoded_embedding_completed(read) == Some(kind),
{
    broadcast use {crate::wire::lemma_lookup_join, crate::wire::lemma_lookup_field};

    lemma_key_codes();
    let fields = before + crate::wire_kinds::kind_fields(kind);
    if let crate::event::KindView::EmbeddingCompleted { model, documents, tokens_in, duration_ms } = kind {
        assert(crate::wire::lookup(fields, "model"@) == Some(crate::wire::WireView::Text(model)));
        assert(crate::wire::lookup(fields, "documents"@) == Some(crate::wire::number(documents as u64)));
        assert(crate::wire::lookup(fields, "tokens_in"@) == crate::wire::opt_number(tokens_in));
        assert(crate::wire::lookup(fields, "duration_ms"@) == crate::wire::opt_number(duration_ms));
    }
}

proof fn lemma_retrieval_queried_round_trip(
    before: Seq<(Seq<char>, crate::wire::WireView)>,
    kind: crate::event::KindView,
    read: Seq<(Seq<char>, crate::wire::WireView)>,
)
    requires
        kind is RetrievalQueried,
        forall|key: Seq<char>|
            !envelope_key(key) ==> #[trigger] crate::wire::lookup(before, key) is None,
        payload_carried(kind, before + crate::wire_kinds::kind_fields(kind), read),
    ensures
        crate::wire_kinds::decoded_retrieval_queried(read) == Some(kind),
{
    broadcast use {crate::wire::lemma_lookup_join, crate::wire::lemma_lookup_field};

    lemma_key_codes();
    let fields = before + crate::wire_kinds::kind_fields(kind);
    if let crate::event::KindView::RetrievalQueried { queries, top_k, results, duration_ms } = kind {
        assert(crate::wire::lookup(fields, "queries"@) == crate::wire::nonempty(queries));
        assert(crate::wire::lookup(fields, "top_k"@) == crate::wire::opt_size(top_k));
        assert(crate::wire::lookup(fields, "results"@) == Some(crate::wire::number(results as u64)));
        assert(crate::wire::lookup(fields, "duration_ms"@) == crate::wire::opt_number(duration_ms));
        assert(queries.len() == 0 ==> queries =~= seq![]);
    }
}

proof fn lemma_rerank_completed_round_trip(
    before: Seq<(Seq<char>, crate::wire::WireView)>,
    kind: crate::event::KindView,
    read: Seq<(Seq<char>, crate::wire::WireView)>,
)
    requires
        kind is RerankCompleted,
        forall|key: Seq<char>|
            !envelope_key(key) ==> #[trigger] crate::wire::lookup(before, key) is None,
        payload_carried(kind, before + crate::wire_kinds::kind_fields(kind), read),
    ensures
        crate::wire_kinds::decoded_rerank_completed(read) == Some(kind),
{
    broadcast use {crate::wire::lemma_lookup_join, crate::wire::lemma_lookup_field};

    lemma_key_codes();
    let fields = before + crate::wire_kinds::kind_fields(kind);
    if let crate::event::KindView::RerankCompleted { model, documents_in, documents_out, duration_ms } = kind {
        assert(crate::wire::lookup(fields, "model"@) == Some(crate::wire::WireView::Text(model)));
        assert(crate::wire::lookup(fields, "documents_in"@) == Some(crate::wire::number(documents_in as u64)));
        assert(crate::wire::lookup(fields, "documents_out"@) == Some(crate::wire::number(documents_out as u64)));
        assert(crate::wire::lookup(fields, "duration_ms"@) == crate::wire::opt_number(duration_ms));
    }
}

/// What is written of a payload is what is read of it.
proof fn lemma_kind_round_trip(
    before: Seq<(Seq<char>, crate::wire::WireView)>,
    kind: crate::event::KindView,
    read: Seq<(Seq<char>, crate::wire::WireView)>,
)
    requires
        forall|key: Seq<char>|
            !envelope_key(key) ==> #[trigger] crate::wire::lookup(before, key) is None,
        payload_carried(kind, before + crate::wire_kinds::kind_fields(kind), read),
    ensures
        crate::wire_kinds::decoded_kind(kind.discriminant(), read) == Some(kind),
{
    lemma_kind_codes();
    match kind {
        crate::event::KindView::PromptStarted { .. } => {
            lemma_prompt_started_round_trip(before, kind, read);
        },
        crate::event::KindView::PromptCompleted { .. } => {
            lemma_prompt_completed_round_trip(before, kind, read);
        },
        crate::event::KindView::PromptFailed { .. } => {
            lemma_prompt_failed_round_trip(before, kind, read);
        },
        crate::event::KindView::ToolInvoked { .. } => {
            lemma_tool_invoked_round_trip(before, kind, read);
        },
        crate::event::KindView::ToolCompleted { .. } => {
            lemma_tool_completed_round_trip(before, kind, read);
        },
        crate::event::KindView::ToolFailed { .. } => {
            lemma_tool_failed_round_trip(before, kind, read);
        },
        crate::event::KindView::ToolSkipped { .. } => {
            lemma_tool_skipped_round_trip(before, kind, read);
        },
        crate::event::KindView::ToolTerminated { .. } => {
            lemma_tool_terminated_round_trip(before, kind, read);
        },
        crate::event::KindView::ToolHostedInvoked { .. } => {
            lemma_tool_hosted_invoked_round_trip(before, kind, read);
        },
        crate::event::KindView::ToolHostedCompleted { .. } => {
            lemma_tool_hosted_completed_round_trip(before, kind, read);
        },
        crate::event::KindView::ContextSampled { .. } => {
            lemma_context_sampled_round_trip(before, kind, read);
        },
        crate::event::KindView::ContextPersisted { .. } => {
            lemma_context_persisted_round_trip(before, kind, read);
        },
        crate::event::KindView::ContextCompacted { .. } => {
            lemma_context_compacted_round_trip(before, kind, read);
        },
        crate::event::KindView::MemoryDemoted { .. } => {
            lemma_memory_demoted_round_trip(before, kind, read);
        },
        crate::event::KindView::MemoryFrameWritten { .. } => {
            lemma_memory_frame_written_round_trip(before, kind, read);
        },
        crate::event::KindView::ComposeKernelStart { .. } => {
            lemma_compose_kernel_start_round_trip(before, kind, read);
        },
        crate::event::KindView::ComposeKernelShutdown { .. } => {
            lemma_compose_kernel_shutdown_round_trip(before, kind, read);
        },
        crate::event::KindView::ComposeLoopIteration { .. } => {
            lemma_compose_loop_iteration_round_trip(before, kind, read);
        },
        crate::event::KindView::ComposeSkillResolved { .. } => {
            lemma_compose_skill_resolved_round_trip(before, kind, read);
        },
        crate::event::KindView::ComposeRetryAttempt { .. } => {
            lemma_compose_retry_attempt_round_trip(before, kind, read);
        },
        crate::event::KindView::ComposeRecovery { .. } => {
            lemma_compose_recovery_round_trip(before, kind, read);
        },
        crate::event::KindView::ResponseSessionStarted { .. } => {
            lemma_response_session_started_round_trip(before, kind, read);
        },
        crate::event::KindView::ResponseTurnStarted { .. } => {
            lemma_response_turn_started_round_trip(before, kind, read);
        },
        crate::event::KindView::ResponseTurnCompleted { .. } => {
            lemma_response_turn_completed_round_trip(before, kind, read);
        },
        crate::event::KindView::ResponseSessionEnded { .. } => {
            lemma_response_session_ended_round_trip(before, kind, read);
        },
        crate::event::KindView::EvalReport { .. } => {
            lemma_eval_report_round_trip(before, kind, read);
        },
        crate::event::KindView::EmbeddingCompleted { .. } => {
            lemma_embedding_completed_round_trip(before, kind, read);
        },
        crate::event::KindView::RetrievalQueried { .. } => {
            lemma_retrieval_queried_round_trip(before, kind, read);
        },
        crate::event::KindView::RerankCompleted { .. } => {
            lemma_rerank_completed_round_trip(before, kind, read);
        },
    }
}

/// The position of the variant in the schema.
pub open spec fn variant(kind: crate::event::KindView) -> nat {
    match kind {
        crate::event::KindView::PromptStarted { .. } => 0,
        crate::event::KindView::PromptCompleted { .. } => 1,
        crate::event::KindView::PromptFailed { .. } => 2,
        crate::event::KindView::ToolInvoked { .. } => 3,
        crate::event::KindView::ToolCompleted { .. } => 4,
        crate::event::KindView::ToolFailed { .. } => 5,
        crate::event::KindView::ToolSkipped { .. } => 6,
        crate::event::KindView::ToolTerminated { .. } => 7,
        crate::event::KindView::ToolHostedInvoked { .. } => 8,
        crate::event::KindView::ToolHostedCompleted { .. } => 9,
        crate::event::KindView::ContextSampled { .. } => 10,
        crate::event::KindView::ContextPersisted { .. } => 11,
        crate::event::KindView::ContextCompacted { .. } => 12,
        crate::event::KindView::MemoryDemoted { .. } => 13,
        crate::event::KindView::MemoryFrameWritten { .. } => 14,
        crate::event::KindView::ComposeKernelStart { .. } => 15,
        crate::event::KindView::ComposeKernelShutdown { .. } => 16,
        crate::event::KindView::ComposeLoopIteration { .. } => 17,
        crate::event::KindView::ComposeSkillResolved { .. } => 18,
        crate::event::KindView::ComposeRetryAttempt { .. } => 19,
        crate::event::KindView::ComposeRecovery { .. } => 20,
        crate::event::KindView::ResponseSessionStarted { .. } => 21,
        crate::event::KindView::ResponseTurnStarted { .. } => 22,
        crate::event::KindView::ResponseTurnCompleted { .. } => 23,
        crate::event::KindView::ResponseSessionEnded { .. } => 24,
        crate::event::KindView::EvalReport { .. } => 25,
        crate::event::KindView::EmbeddingCompleted { .. } => 26,
        crate::event::KindView::RetrievalQueried { .. } => 27,
        crate::event::KindView::RerankCompleted { .. } => 28,
    }
}

/// The wire name identifies the variant: events of different variants have
/// different names.
pub proof fn lemma_wire_name_identifies_variant(
    a: crate::event::KindView,
    b: crate::event::KindView,
)
    ensures
        a.discriminant() == b.discriminant() <==> variant(a) == variant(b),
{
    lemma_kind_codes();
}


/// Payloads have no field with the name of an envelope field.
proof fn lemma_payload_leaves_envelope(kind: crate::event::KindView, key: Seq<char>)
    requires
        envelope_key(key),
    ensures
        crate::wire::lookup(crate::wire_kinds::kind_fields(kind), key) is None,
{
    broadcast use {crate::wire::lemma_lookup_join, crate::wire::lemma_lookup_field};

    lemma_key_codes();
}

proof fn lemma_envelope_holds_envelope_keys(event: crate::event::EventView, key: Seq<char>)
    requires
        !envelope_key(key),
    ensures
        crate::wire::lookup(crate::wire::envelope_fields(event), key) is None,
{
    broadcast use {crate::wire::lemma_lookup_join, crate::wire::lemma_lookup_field};

}

/// What is written of an event is what is read of it, however the fields are
/// carried: as an object of JSON carries them, without their order, with
/// numbers that can also be read as doubles, and with members that the schema
/// does not know.
pub proof fn lemma_event_survives_transport(
    event: crate::event::EventView,
    read: Seq<(Seq<char>, crate::wire::WireView)>,
)
    requires
        event_carried(event, read),
    ensures
        crate::wire::decoded_event(read) == Some(event),
{
    broadcast use {crate::wire::lemma_lookup_join, crate::wire::lemma_lookup_field};

    let envelope = crate::wire::envelope_fields(event);
    let fields = crate::wire::event_fields(event);
    assert forall|key: Seq<char>| !envelope_key(key) implies #[trigger] crate::wire::lookup(
        envelope,
        key,
    ) is None by {
        lemma_envelope_holds_envelope_keys(event, key);
    }
    lemma_kind_round_trip(envelope, event.kind, read);
    assert forall|key: Seq<char>| envelope_key(key) implies #[trigger] crate::wire::lookup(
        fields,
        key,
    ) == crate::wire::lookup(envelope, key) by {
        lemma_payload_leaves_envelope(event.kind, key);
    }
    lemma_key_codes();
    if let Some(severity) = event.severity {
        crate::wire::lemma_severity_round_trip(severity);
    }
    assert(crate::wire::lookup(fields, "version"@) == Some(
        crate::wire::number(event.version as u64),
    ));
    assert(crate::wire::lookup(fields, "occurred_at_millis"@) == Some(
        crate::wire::number(event.occurred_at_millis),
    ));
    assert(crate::wire::lookup(fields, "tick"@) == Some(crate::wire::number(event.tick)));
    assert(crate::wire::lookup(fields, "conversation_id"@) == Some(
        crate::wire::WireView::Text(event.conversation_id),
    ));
    assert(crate::wire::lookup(fields, "span_id"@) == crate::wire::opt_number(event.span_id));
    assert(crate::wire::lookup(fields, "agent_id"@) == crate::wire::opt_text(event.agent_id));
    assert(crate::wire::lookup(fields, "trace_id"@) == crate::wire::opt_number(event.trace_id));
    assert(crate::wire::lookup(fields, "severity"@) == crate::wire::opt_severity(event.severity));
    assert(crate::wire::lookup(fields, "kind"@) == Some(
        crate::wire::WireView::Text(event.kind.discriminant()),
    ));
}

/// What the names of the envelope stand for in the wire form of an event.
pub proof fn lemma_envelope_lookups(event: crate::event::EventView)
    ensures
        crate::wire::lookup(crate::wire::event_fields(event), "version"@) == Some(crate::wire::number(event.version as u64)),
        crate::wire::lookup(crate::wire::event_fields(event), "occurred_at_millis"@) == Some(crate::wire::number(event.occurred_at_millis)),
        crate::wire::lookup(crate::wire::event_fields(event), "tick"@) == Some(crate::wire::number(event.tick)),
        crate::wire::lookup(crate::wire::event_fields(event), "conversation_id"@) == Some(crate::wire::WireView::Text(event.conversation_id)),
        crate::wire::lookup(crate::wire::event_fields(event), "span_id"@) == crate::wire::opt_number(event.span_id),
        crate::wire::lookup(crate::wire::event_fields(event), "agent_id"@) == crate::wire::opt_text(event.agent_id),
        crate::wire::lookup(crate::wire::event_fields(event), "trace_id"@) == crate::wire::opt_number(event.trace_id),
        crate::wire::lookup(crate::wire::event_fields(event), "severity"@) == crate::wire::opt_severity(event.severity),
        crate::wire::lookup(crate::wire::event_fields(event), "kind"@) == Some(crate::wire::WireView::Text(event.kind.discriminant())),
{
    broadcast use {crate::wire::lemma_lookup_join, crate::wire::lemma_lookup_field};

    let envelope = crate::wire::envelope_fields(event);
    let fields = crate::wire::event_fields(event);
    assert forall|key: Seq<char>| envelope_key(key) implies #[trigger] crate::wire::lookup(
        fields,
        key,
    ) == crate::wire::lookup(envelope, key) by {
        lemma_payload_leaves_envelope(event.kind, key);
    }
    lemma_key_codes();
}

/// The envelope has no field beside its own.
pub proof fn lemma_envelope_alone(event: crate::event::EventView)
    ensures
        forall|key: Seq<char>|
            !envelope_key(key) ==> #[trigger] crate::wire::lookup(
                crate::wire::envelope_fields(event),
                key,
            ) is None,
{
    assert forall|key: Seq<char>| !envelope_key(key) implies #[trigger] crate::wire::lookup(
        crate::wire::envelope_fields(event),
        key,
    ) is None by {
        lemma_envelope_holds_envelope_keys(event, key);
    }
}

/// What is written of an event is what is read of it.
pub proof fn lemma_event_round_trip(event: crate::event::EventView)
    ensures
        crate::wire::decoded_event(crate::wire::event_fields(event)) == Some(event),
{
    lemma_event_survives_transport(event, crate::wire::event_fields(event));
}

/// The wire form is unambiguous: two events that are written alike are the
/// same event.
pub proof fn lemma_wire_form_is_unambiguous(
    a: crate::event::EventView,
    b: crate::event::EventView,
)
    requires
        crate::wire::event_fields(a) == crate::wire::event_fields(b),
    ensures
        a == b,
{
    lemma_event_round_trip(a);
    lemma_event_round_trip(b);
}

/// Whether no two fields have the same name.
pub open spec fn names_differ(fields: Seq<(Seq<char>, crate::wire::WireView)>) -> bool {
    forall|i: int, j: int|
        0 <= i < j < fields.len() ==> (#[trigger] fields[i]).0 != (#[trigger] fields[j]).0
}

broadcast proof fn lemma_names_join(
    first: Seq<(Seq<char>, crate::wire::WireView)>,
    key: Seq<char>,
    value: Option<crate::wire::WireView>,
)
    requires
        names_differ(first),
        crate::wire::lookup(first, key) is None,
    ensures
        #[trigger] names_differ(first + crate::wire::field(key, value)),
{
    reveal(crate::wire::field);
    let fields = first + crate::wire::field(key, value);
    assert forall|i: int, j: int| 0 <= i < j < fields.len() implies (#[trigger] fields[i]).0 != (
    #[trigger] fields[j]).0 by {
        crate::wire::lemma_name_found(first, i);
    }
}

broadcast proof fn lemma_names_field(key: Seq<char>, value: Option<crate::wire::WireView>)
    ensures
        #[trigger] names_differ(crate::wire::field(key, value)),
{
    reveal(crate::wire::field);
}

proof fn lemma_payload_names_differ(kind: crate::event::KindView)
    ensures
        names_differ(crate::wire_kinds::kind_fields(kind)),
{
    broadcast use {
        crate::wire::lemma_lookup_join,
        crate::wire::lemma_lookup_field,
        lemma_names_join,
        lemma_names_field,
    };

    lemma_key_codes();
}

/// Flattening keeps an event in one flat object: no two of its fields, of the
/// envelope or of the payload, have the same name.
pub proof fn lemma_field_names_differ(event: crate::event::EventView)
    ensures
        names_differ(crate::wire::event_fields(event)),
{
    let envelope = crate::wire::envelope_fields(event);
    let payload = crate::wire_kinds::kind_fields(event.kind);
    lemma_payload_names_differ(event.kind);
    assert(names_differ(envelope)) by {
        broadcast use {
            crate::wire::lemma_lookup_join,
            crate::wire::lemma_lookup_field,
            lemma_names_join,
            lemma_names_field,
        };

        lemma_key_codes();
    }
    let fields = envelope + payload;
    assert forall|i: int, j: int| 0 <= i < j < fields.len() implies (#[trigger] fields[i]).0 != (
    #[trigger] fields[j]).0 by {
        if i < envelope.len() && j >= envelope.len() {
            crate::wire::lemma_name_found(envelope, i);
            crate::wire::lemma_name_found(payload, j - envelope.len());
            if !envelope_key(envelope[i].0) {
                lemma_envelope_holds_envelope_keys(event, envelope[i].0);
            }
            lemma_payload_leaves_envelope(event.kind, envelope[i].0);
        } else if i >= envelope.len() {
            assert(payload[i - envelope.len()].0 != payload[j - envelope.len()].0);
        } else {
            assert(envelope[i].0 != envelope[j].0);
        }
    }
}

/// Whether no field is `null`.
pub open spec fn without_nulls(fields: Seq<(Seq<char>, crate::wire::WireView)>) -> bool {
    forall|i: int| 0 <= i < fields.len() ==> (#[trigger] fields[i]).1 !is Null
}

broadcast proof fn lemma_nulls_join(
    first: Seq<(Seq<char>, crate::wire::WireView)>,
    second: Seq<(Seq<char>, crate::wire::WireView)>,
)
    requires
        without_nulls(first),
        without_nulls(second),
    ensures
        #[trigger] without_nulls(first + second),
{
}

broadcast proof fn lemma_nulls_field(key: Seq<char>, value: Option<crate::wire::WireView>)
    requires
        value != Some(crate::wire::WireView::Null),
    ensures
        #[trigger] without_nulls(crate::wire::field(key, value)),
{
    reveal(crate::wire::field);
}

/// Absent fields are left out: no event has a field that is `null`.
pub proof fn lemma_absent_fields_are_left_out(event: crate::event::EventView)
    ensures
        without_nulls(crate::wire::event_fields(event)),
{
    broadcast use {lemma_nulls_join, lemma_nulls_field};

    assert(without_nulls(crate::wire::envelope_fields(event)));
    assert(without_nulls(crate::wire_kinds::kind_fields(event.kind)));
}

/// Reading a payload looks at its own fields only.
#[verifier::rlimit(60)]
proof fn lemma_payload_reads_its_fields(
    name: Seq<char>,
    fields: Seq<(Seq<char>, crate::wire::WireView)>,
    more: Seq<(Seq<char>, crate::wire::WireView)>,
    key: Seq<char>,
)
    requires
        !named_key(name, key),
        forall|known: Seq<char>|
            known != key ==> #[trigger] crate::wire::lookup(more, known) == crate::wire::lookup(
                fields,
                known,
            ),
    ensures
        crate::wire_kinds::decoded_kind(name, more) == crate::wire_kinds::decoded_kind(
            name,
            fields,
        ),
{
    if name == "prompt.started"@ {
        assert(crate::wire_kinds::decoded_prompt_started(more)
            == crate::wire_kinds::decoded_prompt_started(fields));
    } else if name == "prompt.completed"@ {
        assert(crate::wire_kinds::decoded_prompt_completed(more)
            == crate::wire_kinds::decoded_prompt_completed(fields));
    } else if name == "prompt.failed"@ {
        assert(crate::wire_kinds::decoded_prompt_failed(more)
            == crate::wire_kinds::decoded_prompt_failed(fields));
    } else if name == "tool.invoked"@ {
        assert(crate::wire_kinds::decoded_tool_invoked(more)
            == crate::wire_kinds::decoded_tool_invoked(fields));
    } else if name == "tool.completed"@ {
        assert(crate::wire_kinds::decoded_tool_completed(more)
            == crate::wire_kinds::decoded_tool_completed(fields));
    } else if name == "tool.failed"@ {
        assert(crate::wire_kinds::decoded_tool_failed(more)
            == crate::wire_kinds::decoded_tool_failed(fields));
    } else if name == "tool.skipped"@ {
        assert(crate::wire_kinds::decoded_tool_skipped(more)
            == crate::wire_kinds::decoded_tool_skipped(fields));
    } else if name == "tool.terminated"@ {
        assert(crate::wire_kinds::decoded_tool_terminated(more)
            == crate::wire_kinds::decoded_tool_terminated(fields));
    } else if name == "tool.hosted_invoked"@ {
        assert(crate::wire_kinds::decoded_tool_hosted_invoked(more)
            == crate::wire_kinds::decoded_tool_hosted_invoked(fields));
    } else if name == "tool.hosted_completed"@ {
        assert(crate::wire_kinds::decoded_tool_hosted_completed(more)
            == crate::wire_kinds::decoded_tool_hosted_completed(fields));
    } else if name == "context.sampled"@ {
        assert(crate::wire_kinds::decoded_context_sampled(more)
            == crate::wire_kinds::decoded_context_sampled(fields));
    } else if name == "context.persisted"@ {
        assert(crate::wire_kinds::decoded_context_persisted(more)
            == crate::wire_kinds::decoded_context_persisted(fields));
    } else if name == "context.compacted"@ {
        assert(crate::wire_kinds::decoded_context_compacted(more)
            == crate::wire_kinds::decoded_context_compacted(fields));
    } else if name == "memory.demoted"@ {
        assert(crate::wire_kinds::decoded_memory_demoted(more)
            == crate::wire_kinds::decoded_memory_demoted(fields));
    } else if name == "memory.frame_written"@ {
        assert(crate::wire_kinds::decoded_memory_frame_written(more)
            == crate::wire_kinds::decoded_memory_frame_written(fields));
    } else if name == "compose.kernel_start"@ {
        assert(crate::wire_kinds::decoded_compose_kernel_start(more)
            == crate::wire_kinds::decoded_compose_kernel_start(fields));
    } else if name == "compose.kernel_shutdown"@ {
        assert(crate::wire_kinds::decoded_compose_kernel_shutdown(more)
            == crate::wire_kinds::decoded_compose_kernel_shutdown(fields));
    } else if name == "compose.loop_iteration"@ {
        assert(crate::wire_kinds::decoded_compose_loop_iteration(more)
            == crate::wire_kinds::decoded_compose_loop_iteration(fields));
    } else if name == "compose.skill_resolved"@ {
        assert(crate::wire_kinds::decoded_compose_skill_resolved(more)
            == crate::wire_kinds::decoded_compose_skill_resolved(fields));
    } else if name == "compose.retry_attempt"@ {
        assert(crate::wire_kinds::decoded_compose_retry_attempt(more)
            == crate::wire_kinds::decoded_compose_retry_attempt(fields));
    } else if name == "compose.recovery"@ {
        assert(crate::wire_kinds::decoded_compose_recovery(more)
            == crate::wire_kinds::decoded_compose_recovery(fields));
    } else if name == "response.session_started"@ {
        assert(crate::wire_kinds::decoded_response_session_started(more)
            == crate::wire_kinds::decoded_response_session_started(fields));
    } else if name == "response.turn_started"@ {
        assert(crate::wire_kinds::decoded_response_turn_started(more)
            == crate::wire_kinds::decoded_response_turn_started(fields));
    } else if name == "response.turn_completed"@ {
        assert(crate::wire_kinds::decoded_response_turn_completed(more)
            == crate::wire_kinds::decoded_response_turn_completed(fields));
    } else if name == "response.session_ended"@ {
        assert(crate::wire_kinds::decoded_response_session_ended(more)
            == crate::wire_kinds::decoded_response_session_ended(fields));
    } else if name == "eval.report"@ {
        assert(crate::wire_kinds::decoded_eval_report(more)
            == crate::wire_kinds::decoded_eval_report(fields));
    } else if name == "embedding.completed"@ {
        assert(crate::wire_kinds::decoded_embedding_completed(more)
            == crate::wire_kinds::decoded_embedding_completed(fields));
    } else if name == "retrieval.queried"@ {
        assert(crate::wire_kinds::decoded_retrieval_queried(more)
            == crate::wire_kinds::decoded_retrieval_queried(fields));
    } else if name == "rerank.completed"@ {
        assert(crate::wire_kinds::decoded_rerank_completed(more)
            == crate::wire_kinds::decoded_rerank_completed(fields));
    }
}

/// Fields that an event does not know change nothing: with a field added that
/// belongs neither to the envelope nor to the payload that is named, an event
/// reads as it read without it.
pub proof fn lemma_unknown_fields_are_ignored(
    fields: Seq<(Seq<char>, crate::wire::WireView)>,
    key: Seq<char>,
    value: crate::wire::WireView,
)
    requires
        !envelope_key(key),
        crate::wire::as_kind_name(crate::wire::lookup(fields, "kind"@)) matches Some(name)
            ==> !named_key(name, key),
    ensures
        crate::wire::decoded_event(fields.push((key, value))) == crate::wire::decoded_event(
            fields,
        ),
{
    let more = fields.push((key, value));
    assert forall|known: Seq<char>| known != key implies #[trigger] crate::wire::lookup(more, known)
        == crate::wire::lookup(fields, known) by {
        reveal(crate::wire::lookup);
        assert(more.drop_last() =~= fields);
    }
    if let Some(name) = crate::wire::as_kind_name(crate::wire::lookup(fields, "kind"@)) {
        lemma_payload_reads_its_fields(name, fields, more, key);
    }
}

/// Where a field of a payload has a value that no field takes, there is no
/// payload.
#[verifier::rlimit(60)]
proof fn lemma_payload_refuses(
    name: Seq<char>,
    fields: Seq<(Seq<char>, crate::wire::WireView)>,
    key: Seq<char>,
)
    requires
        named_key(name, key),
        crate::wire::lookup(fields, key) == Some(crate::wire::WireView::Other),
    ensures
        crate::wire_kinds::decoded_kind(name, fields) is None,
{
    if name == "prompt.started"@ {
        assert(crate::wire_kinds::decoded_prompt_started(fields) is None);
    } else if name == "prompt.completed"@ {
        assert(crate::wire_kinds::decoded_prompt_completed(fields) is None);
    } else if name == "prompt.failed"@ {
        assert(crate::wire_kinds::decoded_prompt_failed(fields) is None);
    } else if name == "tool.invoked"@ {
        assert(crate::wire_kinds::decoded_tool_invoked(fields) is None);
    } else if name == "tool.completed"@ {
        assert(crate::wire_kinds::decoded_tool_completed(fields) is None);
    } else if name == "tool.failed"@ {
        assert(crate::wire_kinds::decoded_tool_failed(fields) is None);
    } else if name == "tool.skipped"@ {
        assert(crate::wire_kinds::decoded_tool_skipped(fields) is None);
    } else if name == "tool.terminated"@ {
        assert(crate::wire_kinds::decoded_tool_terminated(fields) is None);
    } else if name == "tool.hosted_invoked"@ {
        assert(crate::wire_kinds::decoded_tool_hosted_invoked(fields) is None);
    } else if name == "tool.hosted_completed"@ {
        assert(crate::wire_kinds::decoded_tool_hosted_completed(fields) is None);
    } else if name == "context.sampled"@ {
        assert(crate::wire_kinds::decoded_context_sampled(fields) is None);
    } else if name == "context.persisted"@ {
        assert(crate::wire_kinds::decoded_context_persisted(fields) is None);
    } else if name == "context.compacted"@ {
        assert(crate::wire_kinds::decoded_context_compacted(fields) is None);
    } else if name == "memory.demoted"@ {
        assert(crate::wire_kinds::decoded_memory_demoted(fields) is None);
    } else if name == "memory.frame_written"@ {
        assert(crate::wire_kinds::decoded_memory_frame_written(fields) is None);
    } else if name == "compose.kernel_start"@ {
        assert(crate::wire_kinds::decoded_compose_kernel_start(fields) is None);
    } else if name == "compose.kernel_shutdown"@ {
        assert(crate::wire_kinds::decoded_compose_kernel_shutdown(fields) is None);
    } else if name == "compose.loop_iteration"@ {
        assert(crate::wire_kinds::decoded_compose_loop_iteration(fields) is None);
    } else if name == "compose.skill_resolved"@ {
        assert(crate::wire_kinds::decoded_compose_skill_resolved(fields) is None);
    } else if name == "compose.retry_attempt"@ {
        assert(crate::wire_kinds::decoded_compose_retry_attempt(fields) is None);
    } else if name == "compose.recovery"@ {
        assert(crate::wire_kinds::decoded_compose_recovery(fields) is None);
    } else if name == "response.session_started"@ {
        assert(crate::wire_kinds::decoded_response_session_started(fields) is None);
    } else if name == "response.turn_started"@ {
        assert(crate::wire_kinds::decoded_response_turn_started(fields) is None);
    } else if name == "response.turn_completed"@ {
        assert(crate::wire_kinds::decoded_response_turn_completed(fields) is None);
    } else if name == "response.session_ended"@ {
        assert(crate::wire_kinds::decoded_response_session_ended(fields) is None);
    } else if name == "eval.report"@ {
        assert(crate::wire_kinds::decoded_eval_report(fields) is None);
    } else if name == "embedding.completed"@ {
        assert(crate::wire_kinds::decoded_embedding_completed(fields) is None);
    } else if name == "retrieval.queried"@ {
        assert(crate::wire_kinds::decoded_retrieval_queried(fields) is None);
    } else if name == "rerank.completed"@ {
        assert(crate::wire_kinds::decoded_rerank_completed(fields) is None);
    }
}

/// A field of the envelope, the kind among it, or of the payload that is named
/// must not stand there twice: such a list of fields holds no event.
pub proof fn lemma_repeated_fields_are_refused(
    fields: Seq<(Seq<char>, crate::wire::WireView)>,
    key: Seq<char>,
)
    requires
        crate::wire::repeats(fields, key),
        envelope_key(key) || (crate::wire::as_kind_name(
            crate::wire::lookup(fields, "kind"@),
        ) matches Some(name) && named_key(name, key)),
    ensures
        crate::wire::decoded_event(fields) is None,
{
    crate::wire::lemma_repeated_name(fields, key);
    if !envelope_key(key) {
        let name = crate::wire::as_kind_name(crate::wire::lookup(fields, "kind"@))->0;
        lemma_payload_refuses(name, fields, key);
    }
}

} // verus!
