//! The payload part of the wire form: which fields each event kind has.

use vstd::prelude::*;

use crate::event::EventKind;
use crate::text::{copy_texts, same_text};
use crate::wire::{
    push_field, read_count, read_error_class, read_flag, read_optional_count, read_optional_double,
    read_optional_size, read_optional_status, read_optional_text, read_double_number, read_size,
    read_size_or_zero, read_text, read_texts, read_texts_or_empty, wire_nonempty, wire_nonzero,
    wire_number, wire_opt_number, wire_opt_double, wire_opt_size, wire_opt_status, wire_opt_text,
    wire_double, WireValue,
};

verus! {

/// The fields of a payload, in the order of the schema. An optional field that
/// is absent leaves no field behind.
pub open spec fn kind_fields(kind: crate::event::KindView) -> Seq<
    (Seq<char>, crate::wire::WireView),
> {
    match kind {
        crate::event::KindView::PromptStarted { model, messages_in, temperature, top_p, max_tokens } => prompt_started_fields(
            model,
            messages_in,
            temperature,
            top_p,
            max_tokens,
        ),
        crate::event::KindView::PromptCompleted { model, tokens_in, tokens_out, cached_tokens_in, reasoning_tokens, cost_usd, finish_reason, response_id, previous_response_id, time_to_first_token_ms, duration_ms } => prompt_completed_fields(
            model,
            tokens_in,
            tokens_out,
            cached_tokens_in,
            reasoning_tokens,
            cost_usd,
            finish_reason,
            response_id,
            previous_response_id,
            time_to_first_token_ms,
            duration_ms,
        ),
        crate::event::KindView::PromptFailed { model, error_class, message, retriable, provider_error_code, http_status } => prompt_failed_fields(
            model,
            error_class,
            message,
            retriable,
            provider_error_code,
            http_status,
        ),
        crate::event::KindView::ToolInvoked { tool_name, provider_call_id, call_id, args_json, truncated } => tool_invoked_fields(
            tool_name,
            provider_call_id,
            call_id,
            args_json,
            truncated,
        ),
        crate::event::KindView::ToolCompleted { tool_name, provider_call_id, call_id, result, truncated, duration_ms } => tool_completed_fields(
            tool_name,
            provider_call_id,
            call_id,
            result,
            truncated,
            duration_ms,
        ),
        crate::event::KindView::ToolFailed { tool_name, call_id, error_class, message } => tool_failed_fields(
            tool_name,
            call_id,
            error_class,
            message,
        ),
        crate::event::KindView::ToolSkipped { tool_name, call_id, reason } => tool_skipped_fields(
            tool_name,
            call_id,
            reason,
        ),
        crate::event::KindView::ToolTerminated { tool_name, call_id, reason } => tool_terminated_fields(
            tool_name,
            call_id,
            reason,
        ),
        crate::event::KindView::ToolHostedInvoked { tool_name, provider_call_id, call_id, response_id, args_json, truncated } => tool_hosted_invoked_fields(
            tool_name,
            provider_call_id,
            call_id,
            response_id,
            args_json,
            truncated,
        ),
        crate::event::KindView::ToolHostedCompleted { tool_name, provider_call_id, call_id, response_id, status, result, truncated, duration_ms } => tool_hosted_completed_fields(
            tool_name,
            provider_call_id,
            call_id,
            response_id,
            status,
            result,
            truncated,
            duration_ms,
        ),
        crate::event::KindView::ContextSampled { message_count, byte_size, token_estimate } => context_sampled_fields(
            message_count,
            byte_size,
            token_estimate,
        ),
        crate::event::KindView::ContextPersisted { message_count, byte_size } => context_persisted_fields(
            message_count,
            byte_size,
        ),
        crate::event::KindView::ContextCompacted { evicted_count, evicted_bytes, carry_over, summary_bytes } => context_compacted_fields(
            evicted_count,
            evicted_bytes,
            carry_over,
            summary_bytes,
        ),
        crate::event::KindView::MemoryDemoted { demoted_count, tags } => memory_demoted_fields(
            demoted_count,
            tags,
        ),
        crate::event::KindView::MemoryFrameWritten { frame_kind, frame_count_after, bytes_written } => memory_frame_written_fields(
            frame_kind,
            frame_count_after,
            bytes_written,
        ),
        crate::event::KindView::ComposeKernelStart { kernel_id, skills_registered, tools_registered } => compose_kernel_start_fields(
            kernel_id,
            skills_registered,
            tools_registered,
        ),
        crate::event::KindView::ComposeKernelShutdown { kernel_id, reason } => compose_kernel_shutdown_fields(
            kernel_id,
            reason,
        ),
        crate::event::KindView::ComposeLoopIteration { kernel_id, iteration, skill_id, confidence } => compose_loop_iteration_fields(
            kernel_id,
            iteration,
            skill_id,
            confidence,
        ),
        crate::event::KindView::ComposeSkillResolved { kernel_id, skill_id, applies, delta, confidence } => compose_skill_resolved_fields(
            kernel_id,
            skill_id,
            applies,
            delta,
            confidence,
        ),
        crate::event::KindView::ComposeRetryAttempt { kernel_id, target, attempt, classification } => compose_retry_attempt_fields(
            kernel_id,
            target,
            attempt,
            classification,
        ),
        crate::event::KindView::ComposeRecovery { kernel_id, reason, recovered } => compose_recovery_fields(
            kernel_id,
            reason,
            recovered,
        ),
        crate::event::KindView::ResponseSessionStarted { model, session_id } => response_session_started_fields(
            model,
            session_id,
        ),
        crate::event::KindView::ResponseTurnStarted { session_id, previous_response_id } => response_turn_started_fields(
            session_id,
            previous_response_id,
        ),
        crate::event::KindView::ResponseTurnCompleted { session_id, response_id, previous_response_id, status, tokens_in, tokens_out, hosted_tool_calls, duration_ms } => response_turn_completed_fields(
            session_id,
            response_id,
            previous_response_id,
            status,
            tokens_in,
            tokens_out,
            hosted_tool_calls,
            duration_ms,
        ),
        crate::event::KindView::ResponseSessionEnded { session_id, reason } => response_session_ended_fields(
            session_id,
            reason,
        ),
        crate::event::KindView::EvalReport { report_id, dataset, metric, value, ci_low, ci_high, baseline_value, delta, verdict, sample_size } => eval_report_fields(
            report_id,
            dataset,
            metric,
            value,
            ci_low,
            ci_high,
            baseline_value,
            delta,
            verdict,
            sample_size,
        ),
        crate::event::KindView::EmbeddingCompleted { model, documents, tokens_in, duration_ms } => embedding_completed_fields(
            model,
            documents,
            tokens_in,
            duration_ms,
        ),
        crate::event::KindView::RetrievalQueried { queries, top_k, results, duration_ms } => retrieval_queried_fields(
            queries,
            top_k,
            results,
            duration_ms,
        ),
        crate::event::KindView::RerankCompleted { model, documents_in, documents_out, duration_ms } => rerank_completed_fields(
            model,
            documents_in,
            documents_out,
            duration_ms,
        ),
    }
}

/// The fields of `prompt.started`.
pub open spec fn prompt_started_fields(
    model: Seq<char>,
    messages_in: usize,
    temperature: Option<crate::float::Float64>,
    top_p: Option<crate::float::Float64>,
    max_tokens: Option<u64>,
) -> Seq<(Seq<char>, crate::wire::WireView)> {
    crate::wire::field("model"@, Some(crate::wire::WireView::Text(model)))
        + crate::wire::field("messages_in"@, Some(crate::wire::number(messages_in as u64)))
        + crate::wire::field("temperature"@, crate::wire::opt_double(temperature))
        + crate::wire::field("top_p"@, crate::wire::opt_double(top_p))
        + crate::wire::field("max_tokens"@, crate::wire::opt_number(max_tokens))
}

/// The fields of `prompt.completed`.
pub open spec fn prompt_completed_fields(
    model: Seq<char>,
    tokens_in: Option<u64>,
    tokens_out: Option<u64>,
    cached_tokens_in: Option<u64>,
    reasoning_tokens: Option<u64>,
    cost_usd: Option<crate::float::Float64>,
    finish_reason: Option<Seq<char>>,
    response_id: Option<Seq<char>>,
    previous_response_id: Option<Seq<char>>,
    time_to_first_token_ms: Option<u64>,
    duration_ms: Option<u64>,
) -> Seq<(Seq<char>, crate::wire::WireView)> {
    crate::wire::field("model"@, Some(crate::wire::WireView::Text(model)))
        + crate::wire::field("tokens_in"@, crate::wire::opt_number(tokens_in))
        + crate::wire::field("tokens_out"@, crate::wire::opt_number(tokens_out))
        + crate::wire::field("cached_tokens_in"@, crate::wire::opt_number(cached_tokens_in))
        + crate::wire::field("reasoning_tokens"@, crate::wire::opt_number(reasoning_tokens))
        + crate::wire::field("cost_usd"@, crate::wire::opt_double(cost_usd))
        + crate::wire::field("finish_reason"@, crate::wire::opt_text(finish_reason))
        + crate::wire::field("response_id"@, crate::wire::opt_text(response_id))
        + crate::wire::field("previous_response_id"@, crate::wire::opt_text(previous_response_id))
        + crate::wire::field("time_to_first_token_ms"@, crate::wire::opt_number(time_to_first_token_ms))
        + crate::wire::field("duration_ms"@, crate::wire::opt_number(duration_ms))
}

/// The fields of `prompt.failed`.
pub open spec fn prompt_failed_fields(
    model: Seq<char>,
    error_class: crate::event::ErrorClass,
    message: Seq<char>,
    retriable: bool,
    provider_error_code: Option<Seq<char>>,
    http_status: Option<u16>,
) -> Seq<(Seq<char>, crate::wire::WireView)> {
    crate::wire::field("model"@, Some(crate::wire::WireView::Text(model)))
        + crate::wire::field("error_class"@, Some(crate::wire::WireView::Text(error_class.label())))
        + crate::wire::field("message"@, Some(crate::wire::WireView::Text(message)))
        + crate::wire::field("retriable"@, Some(crate::wire::WireView::Flag(retriable)))
        + crate::wire::field("provider_error_code"@, crate::wire::opt_text(provider_error_code))
        + crate::wire::field("http_status"@, crate::wire::opt_status(http_status))
}

/// The fields of `tool.invoked`.
pub open spec fn tool_invoked_fields(
    tool_name: Seq<char>,
    provider_call_id: Option<Seq<char>>,
    call_id: Seq<char>,
    args_json: Seq<char>,
    truncated: bool,
) -> Seq<(Seq<char>, crate::wire::WireView)> {
    crate::wire::field("tool_name"@, Some(crate::wire::WireView::Text(tool_name)))
        + crate::wire::field("provider_call_id"@, crate::wire::opt_text(provider_call_id))
        + crate::wire::field("call_id"@, Some(crate::wire::WireView::Text(call_id)))
        + crate::wire::field("args_json"@, Some(crate::wire::WireView::Text(args_json)))
        + crate::wire::field("truncated"@, Some(crate::wire::WireView::Flag(truncated)))
}

/// The fields of `tool.completed`.
pub open spec fn tool_completed_fields(
    tool_name: Seq<char>,
    provider_call_id: Option<Seq<char>>,
    call_id: Seq<char>,
    result: Seq<char>,
    truncated: bool,
    duration_ms: Option<u64>,
) -> Seq<(Seq<char>, crate::wire::WireView)> {
    crate::wire::field("tool_name"@, Some(crate::wire::WireView::Text(tool_name)))
        + crate::wire::field("provider_call_id"@, crate::wire::opt_text(provider_call_id))
        + crate::wire::field("call_id"@, Some(crate::wire::WireView::Text(call_id)))
        + crate::wire::field("result"@, Some(crate::wire::WireView::Text(result)))
        + crate::wire::field("truncated"@, Some(crate::wire::WireView::Flag(truncated)))
        + crate::wire::field("duration_ms"@, crate::wire::opt_number(duration_ms))
}

/// The fields of `tool.failed`.
pub open spec fn tool_failed_fields(
    tool_name: Seq<char>,
    call_id: Seq<char>,
    error_class: crate::event::ErrorClass,
    message: Seq<char>,
) -> Seq<(Seq<char>, crate::wire::WireView)> {
    crate::wire::field("tool_name"@, Some(crate::wire::WireView::Text(tool_name)))
        + crate::wire::field("call_id"@, Some(crate::wire::WireView::Text(call_id)))
        + crate::wire::field("error_class"@, Some(crate::wire::WireView::Text(error_class.label())))
        + crate::wire::field("message"@, Some(crate::wire::WireView::Text(message)))
}

/// The fields of `tool.skipped`.
pub open spec fn tool_skipped_fields(
    tool_name: Seq<char>,
    call_id: Seq<char>,
    reason: Seq<char>,
) -> Seq<(Seq<char>, crate::wire::WireView)> {
    crate::wire::field("tool_name"@, Some(crate::wire::WireView::Text(tool_name)))
        + crate::wire::field("call_id"@, Some(crate::wire::WireView::Text(call_id)))
        + crate::wire::field("reason"@, Some(crate::wire::WireView::Text(reason)))
}

/// The fields of `tool.terminated`.
pub open spec fn tool_terminated_fields(
    tool_name: Seq<char>,
    call_id: Seq<char>,
    reason: Seq<char>,
) -> Seq<(Seq<char>, crate::wire::WireView)> {
    crate::wire::field("tool_name"@, Some(crate::wire::WireView::Text(tool_name)))
        + crate::wire::field("call_id"@, Some(crate::wire::WireView::Text(call_id)))
        + crate::wire::field("reason"@, Some(crate::wire::WireView::Text(reason)))
}

/// The fields of `tool.hosted_invoked`.
pub open spec fn tool_hosted_invoked_fields(
    tool_name: Seq<char>,
    provider_call_id: Option<Seq<char>>,
    call_id: Seq<char>,
    response_id: Option<Seq<char>>,
    args_json: Seq<char>,
    truncated: bool,
) -> Seq<(Seq<char>, crate::wire::WireView)> {
    crate::wire::field("tool_name"@, Some(crate::wire::WireView::Text(tool_name)))
        + crate::wire::field("provider_call_id"@, crate::wire::opt_text(provider_call_id))
        + crate::wire::field("call_id"@, Some(crate::wire::WireView::Text(call_id)))
        + crate::wire::field("response_id"@, crate::wire::opt_text(response_id))
        + crate::wire::field("args_json"@, Some(crate::wire::WireView::Text(args_json)))
        + crate::wire::field("truncated"@, Some(crate::wire::WireView::Flag(truncated)))
}

/// The fields of `tool.hosted_completed`.
pub open spec fn tool_hosted_completed_fields(
    tool_name: Seq<char>,
    provider_call_id: Option<Seq<char>>,
    call_id: Seq<char>,
    response_id: Option<Seq<char>>,
    status: Option<Seq<char>>,
    result: Seq<char>,
    truncated: bool,
    duration_ms: Option<u64>,
) -> Seq<(Seq<char>, crate::wire::WireView)> {
    crate::wire::field("tool_name"@, Some(crate::wire::WireView::Text(tool_name)))
        + crate::wire::field("provider_call_id"@, crate::wire::opt_text(provider_call_id))
        + crate::wire::field("call_id"@, Some(crate::wire::WireView::Text(call_id)))
        + crate::wire::field("response_id"@, crate::wire::opt_text(response_id))
        + crate::wire::field("status"@, crate::wire::opt_text(status))
        + crate::wire::field("result"@, Some(crate::wire::WireView::Text(result)))
        + crate::wire::field("truncated"@, Some(crate::wire::WireView::Flag(truncated)))
        + crate::wire::field("duration_ms"@, crate::wire::opt_number(duration_ms))
}

/// The fields of `context.sampled`.
pub open spec fn context_sampled_fields(
    message_count: usize,
    byte_size: usize,
    token_estimate: Option<u64>,
) -> Seq<(Seq<char>, crate::wire::WireView)> {
    crate::wire::field("message_count"@, Some(crate::wire::number(message_count as u64)))
        + crate::wire::field("byte_size"@, Some(crate::wire::number(byte_size as u64)))
        + crate::wire::field("token_estimate"@, crate::wire::opt_number(token_estimate))
}

/// The fields of `context.persisted`.
pub open spec fn context_persisted_fields(
    message_count: usize,
    byte_size: usize,
) -> Seq<(Seq<char>, crate::wire::WireView)> {
    crate::wire::field("message_count"@, Some(crate::wire::number(message_count as u64)))
        + crate::wire::field("byte_size"@, Some(crate::wire::number(byte_size as u64)))
}

/// The fields of `context.compacted`.
pub open spec fn context_compacted_fields(
    evicted_count: usize,
    evicted_bytes: usize,
    carry_over: bool,
    summary_bytes: usize,
) -> Seq<(Seq<char>, crate::wire::WireView)> {
    crate::wire::field("evicted_count"@, Some(crate::wire::number(evicted_count as u64)))
        + crate::wire::field("evicted_bytes"@, Some(crate::wire::number(evicted_bytes as u64)))
        + crate::wire::field("carry_over"@, Some(crate::wire::WireView::Flag(carry_over)))
        + crate::wire::field("summary_bytes"@, Some(crate::wire::number(summary_bytes as u64)))
}

/// The fields of `memory.demoted`.
pub open spec fn memory_demoted_fields(
    demoted_count: usize,
    tags: Seq<Seq<char>>,
) -> Seq<(Seq<char>, crate::wire::WireView)> {
    crate::wire::field("demoted_count"@, Some(crate::wire::number(demoted_count as u64)))
        + crate::wire::field("tags"@, Some(crate::wire::WireView::Texts(tags)))
}

/// The fields of `memory.frame_written`.
pub open spec fn memory_frame_written_fields(
    frame_kind: Seq<char>,
    frame_count_after: Option<u64>,
    bytes_written: usize,
) -> Seq<(Seq<char>, crate::wire::WireView)> {
    crate::wire::field("frame_kind"@, Some(crate::wire::WireView::Text(frame_kind)))
        + crate::wire::field("frame_count_after"@, crate::wire::opt_number(frame_count_after))
        + crate::wire::field("bytes_written"@, Some(crate::wire::number(bytes_written as u64)))
}

/// The fields of `compose.kernel_start`.
pub open spec fn compose_kernel_start_fields(
    kernel_id: Seq<char>,
    skills_registered: Option<usize>,
    tools_registered: Option<usize>,
) -> Seq<(Seq<char>, crate::wire::WireView)> {
    crate::wire::field("kernel_id"@, Some(crate::wire::WireView::Text(kernel_id)))
        + crate::wire::field("skills_registered"@, crate::wire::opt_size(skills_registered))
        + crate::wire::field("tools_registered"@, crate::wire::opt_size(tools_registered))
}

/// The fields of `compose.kernel_shutdown`.
pub open spec fn compose_kernel_shutdown_fields(
    kernel_id: Seq<char>,
    reason: Seq<char>,
) -> Seq<(Seq<char>, crate::wire::WireView)> {
    crate::wire::field("kernel_id"@, Some(crate::wire::WireView::Text(kernel_id)))
        + crate::wire::field("reason"@, Some(crate::wire::WireView::Text(reason)))
}

/// The fields of `compose.loop_iteration`.
pub open spec fn compose_loop_iteration_fields(
    kernel_id: Seq<char>,
    iteration: u64,
    skill_id: Option<Seq<char>>,
    confidence: Option<crate::float::Float64>,
) -> Seq<(Seq<char>, crate::wire::WireView)> {
    crate::wire::field("kernel_id"@, Some(crate::wire::WireView::Text(kernel_id)))
        + crate::wire::field("iteration"@, Some(crate::wire::number(iteration)))
        + crate::wire::field("skill_id"@, crate::wire::opt_text(skill_id))
        + crate::wire::field("confidence"@, crate::wire::opt_double(confidence))
}

/// The fields of `compose.skill_resolved`.
pub open spec fn compose_skill_resolved_fields(
    kernel_id: Seq<char>,
    skill_id: Seq<char>,
    applies: bool,
    delta: Option<crate::float::Float64>,
    confidence: Option<crate::float::Float64>,
) -> Seq<(Seq<char>, crate::wire::WireView)> {
    crate::wire::field("kernel_id"@, Some(crate::wire::WireView::Text(kernel_id)))
        + crate::wire::field("skill_id"@, Some(crate::wire::WireView::Text(skill_id)))
        + crate::wire::field("applies"@, Some(crate::wire::WireView::Flag(applies)))
        + crate::wire::field("delta"@, crate::wire::opt_double(delta))
        + crate::wire::field("confidence"@, crate::wire::opt_double(confidence))
}

/// The fields of `compose.retry_attempt`.
pub open spec fn compose_retry_attempt_fields(
    kernel_id: Seq<char>,
    target: Seq<char>,
    attempt: u64,
    classification: Seq<char>,
) -> Seq<(Seq<char>, crate::wire::WireView)> {
    crate::wire::field("kernel_id"@, Some(crate::wire::WireView::Text(kernel_id)))
        + crate::wire::field("target"@, Some(crate::wire::WireView::Text(target)))
        + crate::wire::field("attempt"@, Some(crate::wire::number(attempt)))
        + crate::wire::field("classification"@, Some(crate::wire::WireView::Text(classification)))
}

/// The fields of `compose.recovery`.
pub open spec fn compose_recovery_fields(
    kernel_id: Seq<char>,
    reason: Seq<char>,
    recovered: bool,
) -> Seq<(Seq<char>, crate::wire::WireView)> {
    crate::wire::field("kernel_id"@, Some(crate::wire::WireView::Text(kernel_id)))
        + crate::wire::field("reason"@, Some(crate::wire::WireView::Text(reason)))
        + crate::wire::field("recovered"@, Some(crate::wire::WireView::Flag(recovered)))
}

/// The fields of `response.session_started`.
pub open spec fn response_session_started_fields(
    model: Seq<char>,
    session_id: Seq<char>,
) -> Seq<(Seq<char>, crate::wire::WireView)> {
    crate::wire::field("model"@, Some(crate::wire::WireView::Text(model)))
        + crate::wire::field("session_id"@, Some(crate::wire::WireView::Text(session_id)))
}

/// The fields of `response.turn_started`.
pub open spec fn response_turn_started_fields(
    session_id: Seq<char>,
    previous_response_id: Option<Seq<char>>,
) -> Seq<(Seq<char>, crate::wire::WireView)> {
    crate::wire::field("session_id"@, Some(crate::wire::WireView::Text(session_id)))
        + crate::wire::field("previous_response_id"@, crate::wire::opt_text(previous_response_id))
}

/// The fields of `response.turn_completed`.
pub open spec fn response_turn_completed_fields(
    session_id: Seq<char>,
    response_id: Seq<char>,
    previous_response_id: Option<Seq<char>>,
    status: Seq<char>,
    tokens_in: Option<u64>,
    tokens_out: Option<u64>,
    hosted_tool_calls: usize,
    duration_ms: Option<u64>,
) -> Seq<(Seq<char>, crate::wire::WireView)> {
    crate::wire::field("session_id"@, Some(crate::wire::WireView::Text(session_id)))
        + crate::wire::field("response_id"@, Some(crate::wire::WireView::Text(response_id)))
        + crate::wire::field("previous_response_id"@, crate::wire::opt_text(previous_response_id))
        + crate::wire::field("status"@, Some(crate::wire::WireView::Text(status)))
        + crate::wire::field("tokens_in"@, crate::wire::opt_number(tokens_in))
        + crate::wire::field("tokens_out"@, crate::wire::opt_number(tokens_out))
        + crate::wire::field("hosted_tool_calls"@, crate::wire::nonzero(hosted_tool_calls))
        + crate::wire::field("duration_ms"@, crate::wire::opt_number(duration_ms))
}

/// The fields of `response.session_ended`.
pub open spec fn response_session_ended_fields(
    session_id: Seq<char>,
    reason: Seq<char>,
) -> Seq<(Seq<char>, crate::wire::WireView)> {
    crate::wire::field("session_id"@, Some(crate::wire::WireView::Text(session_id)))
        + crate::wire::field("reason"@, Some(crate::wire::WireView::Text(reason)))
}

/// The fields of `eval.report`.
pub open spec fn eval_report_fields(
    report_id: Seq<char>,
    dataset: Seq<char>,
    metric: Seq<char>,
    value: crate::float::Float64,
    ci_low: Option<crate::float::Float64>,
    ci_high: Option<crate::float::Float64>,
    baseline_value: Option<crate::float::Float64>,
    delta: Option<crate::float::Float64>,
    verdict: Option<Seq<char>>,
    sample_size: Option<u64>,
) -> Seq<(Seq<char>, crate::wire::WireView)> {
    crate::wire::field("report_id"@, Some(crate::wire::WireView::Text(report_id)))
        + crate::wire::field("dataset"@, Some(crate::wire::WireView::Text(dataset)))
        + crate::wire::field("metric"@, Some(crate::wire::WireView::Text(metric)))
        + crate::wire::field("value"@, Some(crate::wire::double(value)))
        + crate::wire::field("ci_low"@, crate::wire::opt_double(ci_low))
        + crate::wire::field("ci_high"@, crate::wire::opt_double(ci_high))
        + crate::wire::field("baseline_value"@, crate::wire::opt_double(baseline_value))
        + crate::wire::field("delta"@, crate::wire::opt_double(delta))
        + crate::wire::field("verdict"@, crate::wire::opt_text(verdict))
        + crate::wire::field("sample_size"@, crate::wire::opt_number(sample_size))
}

/// The fields of `embedding.completed`.
pub open spec fn embedding_completed_fields(
    model: Seq<char>,
    documents: usize,
    tokens_in: Option<u64>,
    duration_ms: Option<u64>,
) -> Seq<(Seq<char>, crate::wire::WireView)> {
    crate::wire::field("model"@, Some(crate::wire::WireView::Text(model)))
        + crate::wire::field("documents"@, Some(crate::wire::number(documents as u64)))
        + crate::wire::field("tokens_in"@, crate::wire::opt_number(tokens_in))
        + crate::wire::field("duration_ms"@, crate::wire::opt_number(duration_ms))
}

/// The fields of `retrieval.queried`.
pub open spec fn retrieval_queried_fields(
    queries: Seq<Seq<char>>,
    top_k: Option<usize>,
    results: usize,
    duration_ms: Option<u64>,
) -> Seq<(Seq<char>, crate::wire::WireView)> {
    crate::wire::field("queries"@, crate::wire::nonempty(queries))
        + crate::wire::field("top_k"@, crate::wire::opt_size(top_k))
        + crate::wire::field("results"@, Some(crate::wire::number(results as u64)))
        + crate::wire::field("duration_ms"@, crate::wire::opt_number(duration_ms))
}

/// The fields of `rerank.completed`.
pub open spec fn rerank_completed_fields(
    model: Seq<char>,
    documents_in: usize,
    documents_out: usize,
    duration_ms: Option<u64>,
) -> Seq<(Seq<char>, crate::wire::WireView)> {
    crate::wire::field("model"@, Some(crate::wire::WireView::Text(model)))
        + crate::wire::field("documents_in"@, Some(crate::wire::number(documents_in as u64)))
        + crate::wire::field("documents_out"@, Some(crate::wire::number(documents_out as u64)))
        + crate::wire::field("duration_ms"@, crate::wire::opt_number(duration_ms))
}

/// The `prompt.started` payload that the fields hold, if they hold one.
pub open spec fn decoded_prompt_started(fields: Seq<(Seq<char>, crate::wire::WireView)>) -> Option<
    crate::event::KindView,
> {
    match (
        crate::wire::as_text(crate::wire::lookup(fields, "model"@)),
        crate::wire::as_size(crate::wire::lookup(fields, "messages_in"@)),
        crate::wire::as_optional_double(crate::wire::lookup(fields, "temperature"@)),
        crate::wire::as_optional_double(crate::wire::lookup(fields, "top_p"@)),
        crate::wire::as_optional_count(crate::wire::lookup(fields, "max_tokens"@)),
    ) {
        (Some(model), Some(messages_in), Some(temperature), Some(top_p), Some(max_tokens)) => Some(
            crate::event::KindView::PromptStarted { model, messages_in, temperature, top_p, max_tokens },
        ),
        _ => None,
    }
}

/// The `prompt.completed` payload that the fields hold, if they hold one.
pub open spec fn decoded_prompt_completed(fields: Seq<(Seq<char>, crate::wire::WireView)>) -> Option<
    crate::event::KindView,
> {
    match (
        crate::wire::as_text(crate::wire::lookup(fields, "model"@)),
        crate::wire::as_optional_count(crate::wire::lookup(fields, "tokens_in"@)),
        crate::wire::as_optional_count(crate::wire::lookup(fields, "tokens_out"@)),
        crate::wire::as_optional_count(crate::wire::lookup(fields, "cached_tokens_in"@)),
        crate::wire::as_optional_count(crate::wire::lookup(fields, "reasoning_tokens"@)),
        crate::wire::as_optional_double(crate::wire::lookup(fields, "cost_usd"@)),
        crate::wire::as_optional_text(crate::wire::lookup(fields, "finish_reason"@)),
        crate::wire::as_optional_text(crate::wire::lookup(fields, "response_id"@)),
        crate::wire::as_optional_text(crate::wire::lookup(fields, "previous_response_id"@)),
        crate::wire::as_optional_count(crate::wire::lookup(fields, "time_to_first_token_ms"@)),
        crate::wire::as_optional_count(crate::wire::lookup(fields, "duration_ms"@)),
    ) {
        (Some(model), Some(tokens_in), Some(tokens_out), Some(cached_tokens_in), Some(reasoning_tokens), Some(cost_usd), Some(finish_reason), Some(response_id), Some(previous_response_id), Some(time_to_first_token_ms), Some(duration_ms)) => Some(
            crate::event::KindView::PromptCompleted { model, tokens_in, tokens_out, cached_tokens_in, reasoning_tokens, cost_usd, finish_reason, response_id, previous_response_id, time_to_first_token_ms, duration_ms },
        ),
        _ => None,
    }
}

/// The `prompt.failed` payload that the fields hold, if they hold one.
pub open spec fn decoded_prompt_failed(fields: Seq<(Seq<char>, crate::wire::WireView)>) -> Option<
    crate::event::KindView,
> {
    match (
        crate::wire::as_text(crate::wire::lookup(fields, "model"@)),
        crate::wire::as_error_class(crate::wire::lookup(fields, "error_class"@)),
        crate::wire::as_text(crate::wire::lookup(fields, "message"@)),
        crate::wire::as_flag(crate::wire::lookup(fields, "retriable"@)),
        crate::wire::as_optional_text(crate::wire::lookup(fields, "provider_error_code"@)),
        crate::wire::as_optional_status(crate::wire::lookup(fields, "http_status"@)),
    ) {
        (Some(model), Some(error_class), Some(message), Some(retriable), Some(provider_error_code), Some(http_status)) => Some(
            crate::event::KindView::PromptFailed { model, error_class, message, retriable, provider_error_code, http_status },
        ),
        _ => None,
    }
}

/// The `tool.invoked` payload that the fields hold, if they hold one.
pub open spec fn decoded_tool_invoked(fields: Seq<(Seq<char>, crate::wire::WireView)>) -> Option<
    crate::event::KindView,
> {
    match (
        crate::wire::as_text(crate::wire::lookup(fields, "tool_name"@)),
        crate::wire::as_optional_text(crate::wire::lookup(fields, "provider_call_id"@)),
        crate::wire::as_text(crate::wire::lookup(fields, "call_id"@)),
        crate::wire::as_text(crate::wire::lookup(fields, "args_json"@)),
        crate::wire::as_flag(crate::wire::lookup(fields, "truncated"@)),
    ) {
        (Some(tool_name), Some(provider_call_id), Some(call_id), Some(args_json), Some(truncated)) => Some(
            crate::event::KindView::ToolInvoked { tool_name, provider_call_id, call_id, args_json, truncated },
        ),
        _ => None,
    }
}

/// The `tool.completed` payload that the fields hold, if they hold one.
pub open spec fn decoded_tool_completed(fields: Seq<(Seq<char>, crate::wire::WireView)>) -> Option<
    crate::event::KindView,
> {
    match (
        crate::wire::as_text(crate::wire::lookup(fields, "tool_name"@)),
        crate::wire::as_optional_text(crate::wire::lookup(fields, "provider_call_id"@)),
        crate::wire::as_text(crate::wire::lookup(fields, "call_id"@)),
        crate::wire::as_text(crate::wire::lookup(fields, "result"@)),
        crate::wire::as_flag(crate::wire::lookup(fields, "truncated"@)),
        crate::wire::as_optional_count(crate::wire::lookup(fields, "duration_ms"@)),
    ) {
        (Some(tool_name), Some(provider_call_id), Some(call_id), Some(result), Some(truncated), Some(duration_ms)) => Some(
            crate::event::KindView::ToolCompleted { tool_name, provider_call_id, call_id, result, truncated, duration_ms },
        ),
        _ => None,
    }
}

/// The `tool.failed` payload that the fields hold, if they hold one.
pub open spec fn decoded_tool_failed(fields: Seq<(Seq<char>, crate::wire::WireView)>) -> Option<
    crate::event::KindView,
> {
    match (
        crate::wire::as_text(crate::wire::lookup(fields, "tool_name"@)),
        crate::wire::as_text(crate::wire::lookup(fields, "call_id"@)),
        crate::wire::as_error_class(crate::wire::lookup(fields, "error_class"@)),
        crate::wire::as_text(crate::wire::lookup(fields, "message"@)),
    ) {
        (Some(tool_name), Some(call_id), Some(error_class), Some(message)) => Some(
            crate::event::KindView::ToolFailed { tool_name, call_id, error_class, message },
        ),
        _ => None,
    }
}

/// The `tool.skipped` payload that the fields hold, if they hold one.
pub open spec fn decoded_tool_skipped(fields: Seq<(Seq<char>, crate::wire::WireView)>) -> Option<
    crate::event::KindView,
> {
    match (
        crate::wire::as_text(crate::wire::lookup(fields, "tool_name"@)),
        crate::wire::as_text(crate::wire::lookup(fields, "call_id"@)),
        crate::wire::as_text(crate::wire::lookup(fields, "reason"@)),
    ) {
        (Some(tool_name), Some(call_id), Some(reason)) => Some(
            crate::event::KindView::ToolSkipped { tool_name, call_id, reason },
        ),
        _ => None,
    }
}

/// The `tool.terminated` payload that the fields hold, if they hold one.
pub open spec fn decoded_tool_terminated(fields: Seq<(Seq<char>, crate::wire::WireView)>) -> Option<
    crate::event::KindView,
> {
    match (
        crate::wire::as_text(crate::wire::lookup(fields, "tool_name"@)),
        crate::wire::as_text(crate::wire::lookup(fields, "call_id"@)),
        crate::wire::as_text(crate::wire::lookup(fields, "reason"@)),
    ) {
        (Some(tool_name), Some(call_id), Some(reason)) => Some(
            crate::event::KindView::ToolTerminated { tool_name, call_id, reason },
        ),
        _ => None,
    }
}

/// The `tool.hosted_invoked` payload that the fields hold, if they hold one.
pub open spec fn decoded_tool_hosted_invoked(fields: Seq<(Seq<char>, crate::wire::WireView)>) -> Option<
    crate::event::KindView,
> {
    match (
        crate::wire::as_text(crate::wire::lookup(fields, "tool_name"@)),
        crate::wire::as_optional_text(crate::wire::lookup(fields, "provider_call_id"@)),
        crate::wire::as_text(crate::wire::lookup(fields, "call_id"@)),
        crate::wire::as_optional_text(crate::wire::lookup(fields, "response_id"@)),
        crate::wire::as_text(crate::wire::lookup(fields, "args_json"@)),
        crate::wire::as_flag(crate::wire::lookup(fields, "truncated"@)),
    ) {
        (Some(tool_name), Some(provider_call_id), Some(call_id), Some(response_id), Some(args_json), Some(truncated)) => Some(
            crate::event::KindView::ToolHostedInvoked { tool_name, provider_call_id, call_id, response_id, args_json, truncated },
        ),
        _ => None,
    }
}

/// The `tool.hosted_completed` payload that the fields hold, if they hold one.
pub open spec fn decoded_tool_hosted_completed(fields: Seq<(Seq<char>, crate::wire::WireView)>) -> Option<
    crate::event::KindView,
> {
    match (
        crate::wire::as_text(crate::wire::lookup(fields, "tool_name"@)),
        crate::wire::as_optional_text(crate::wire::lookup(fields, "provider_call_id"@)),
        crate::wire::as_text(crate::wire::lookup(fields, "call_id"@)),
        crate::wire::as_optional_text(crate::wire::lookup(fields, "response_id"@)),
        crate::wire::as_optional_text(crate::wire::lookup(fields, "status"@)),
        crate::wire::as_text(crate::wire::lookup(fields, "result"@)),
        crate::wire::as_flag(crate::wire::lookup(fields, "truncated"@)),
        crate::wire::as_optional_count(crate::wire::lookup(fields, "duration_ms"@)),
    ) {
        (Some(tool_name), Some(provider_call_id), Some(call_id), Some(response_id), Some(status), Some(result), Some(truncated), Some(duration_ms)) => Some(
            crate::event::KindView::ToolHostedCompleted { tool_name, provider_call_id, call_id, response_id, status, result, truncated, duration_ms },
        ),
        _ => None,
    }
}

/// The `context.sampled` payload that the fields hold, if they hold one.
pub open spec fn decoded_context_sampled(fields: Seq<(Seq<char>, crate::wire::WireView)>) -> Option<
    crate::event::KindView,
> {
    match (
        crate::wire::as_size(crate::wire::lookup(fields, "message_count"@)),
        crate::wire::as_size(crate::wire::lookup(fields, "byte_size"@)),
        crate::wire::as_optional_count(crate::wire::lookup(fields, "token_estimate"@)),
    ) {
        (Some(message_count), Some(byte_size), Some(token_estimate)) => Some(
            crate::event::KindView::ContextSampled { message_count, byte_size, token_estimate },
        ),
        _ => None,
    }
}

/// The `context.persisted` payload that the fields hold, if they hold one.
pub open spec fn decoded_context_persisted(fields: Seq<(Seq<char>, crate::wire::WireView)>) -> Option<
    crate::event::KindView,
> {
    match (
        crate::wire::as_size(crate::wire::lookup(fields, "message_count"@)),
        crate::wire::as_size(crate::wire::lookup(fields, "byte_size"@)),
    ) {
        (Some(message_count), Some(byte_size)) => Some(
            crate::event::KindView::ContextPersisted { message_count, byte_size },
        ),
        _ => None,
    }
}

/// The `context.compacted` payload that the fields hold, if they hold one.
pub open spec fn decoded_context_compacted(fields: Seq<(Seq<char>, crate::wire::WireView)>) -> Option<
    crate::event::KindView,
> {
    match (
        crate::wire::as_size(crate::wire::lookup(fields, "evicted_count"@)),
        crate::wire::as_size(crate::wire::lookup(fields, "evicted_bytes"@)),
        crate::wire::as_flag(crate::wire::lookup(fields, "carry_over"@)),
        crate::wire::as_size(crate::wire::lookup(fields, "summary_bytes"@)),
    ) {
        (Some(evicted_count), Some(evicted_bytes), Some(carry_over), Some(summary_bytes)) => Some(
            crate::event::KindView::ContextCompacted { evicted_count, evicted_bytes, carry_over, summary_bytes },
        ),
        _ => None,
    }
}

/// The `memory.demoted` payload that the fields hold, if they hold one.
pub open spec fn decoded_memory_demoted(fields: Seq<(Seq<char>, crate::wire::WireView)>) -> Option<
    crate::event::KindView,
> {
    match (
        crate::wire::as_size(crate::wire::lookup(fields, "demoted_count"@)),
        crate::wire::as_texts(crate::wire::lookup(fields, "tags"@)),
    ) {
        (Some(demoted_count), Some(tags)) => Some(
            crate::event::KindView::MemoryDemoted { demoted_count, tags },
        ),
        _ => None,
    }
}

/// The `memory.frame_written` payload that the fields hold, if they hold one.
pub open spec fn decoded_memory_frame_written(fields: Seq<(Seq<char>, crate::wire::WireView)>) -> Option<
    crate::event::KindView,
> {
    match (
        crate::wire::as_text(crate::wire::lookup(fields, "frame_kind"@)),
        crate::wire::as_optional_count(crate::wire::lookup(fields, "frame_count_after"@)),
        crate::wire::as_size(crate::wire::lookup(fields, "bytes_written"@)),
    ) {
        (Some(frame_kind), Some(frame_count_after), Some(bytes_written)) => Some(
            crate::event::KindView::MemoryFrameWritten { frame_kind, frame_count_after, bytes_written },
        ),
        _ => None,
    }
}

/// The `compose.kernel_start` payload that the fields hold, if they hold one.
pub open spec fn decoded_compose_kernel_start(fields: Seq<(Seq<char>, crate::wire::WireView)>) -> Option<
    crate::event::KindView,
> {
    match (
        crate::wire::as_text(crate::wire::lookup(fields, "kernel_id"@)),
        crate::wire::as_optional_size(crate::wire::lookup(fields, "skills_registered"@)),
        crate::wire::as_optional_size(crate::wire::lookup(fields, "tools_registered"@)),
    ) {
        (Some(kernel_id), Some(skills_registered), Some(tools_registered)) => Some(
            crate::event::KindView::ComposeKernelStart { kernel_id, skills_registered, tools_registered },
        ),
        _ => None,
    }
}

/// The `compose.kernel_shutdown` payload that the fields hold, if they hold one.
pub open spec fn decoded_compose_kernel_shutdown(fields: Seq<(Seq<char>, crate::wire::WireView)>) -> Option<
    crate::event::KindView,
> {
    match (
        crate::wire::as_text(crate::wire::lookup(fields, "kernel_id"@)),
        crate::wire::as_text(crate::wire::lookup(fields, "reason"@)),
    ) {
        (Some(kernel_id), Some(reason)) => Some(
            crate::event::KindView::ComposeKernelShutdown { kernel_id, reason },
        ),
        _ => None,
    }
}

/// The `compose.loop_iteration` payload that the fields hold, if they hold one.
pub open spec fn decoded_compose_loop_iteration(fields: Seq<(Seq<char>, crate::wire::WireView)>) -> Option<
    crate::event::KindView,
> {
    match (
        crate::wire::as_text(crate::wire::lookup(fields, "kernel_id"@)),
        crate::wire::as_count(crate::wire::lookup(fields, "iteration"@)),
        crate::wire::as_optional_text(crate::wire::lookup(fields, "skill_id"@)),
        crate::wire::as_optional_double(crate::wire::lookup(fields, "confidence"@)),
    ) {
        (Some(kernel_id), Some(iteration), Some(skill_id), Some(confidence)) => Some(
            crate::event::KindView::ComposeLoopIteration { kernel_id, iteration, skill_id, confidence },
        ),
        _ => None,
    }
}

/// The `compose.skill_resolved` payload that the fields hold, if they hold one.
pub open spec fn decoded_compose_skill_resolved(fields: Seq<(Seq<char>, crate::wire::WireView)>) -> Option<
    crate::event::KindView,
> {
    match (
        crate::wire::as_text(crate::wire::lookup(fields, "kernel_id"@)),
        crate::wire::as_text(crate::wire::lookup(fields, "skill_id"@)),
        crate::wire::as_flag(crate::wire::lookup(fields, "applies"@)),
        crate::wire::as_optional_double(crate::wire::lookup(fields, "delta"@)),
        crate::wire::as_optional_double(crate::wire::lookup(fields, "confidence"@)),
    ) {
        (Some(kernel_id), Some(skill_id), Some(applies), Some(delta), Some(confidence)) => Some(
            crate::event::KindView::ComposeSkillResolved { kernel_id, skill_id, applies, delta, confidence },
        ),
        _ => None,
    }
}

/// The `compose.retry_attempt` payload that the fields hold, if they hold one.
pub open spec fn decoded_compose_retry_attempt(fields: Seq<(Seq<char>, crate::wire::WireView)>) -> Option<
    crate::event::KindView,
> {
    match (
        crate::wire::as_text(crate::wire::lookup(fields, "kernel_id"@)),
        crate::wire::as_text(crate::wire::lookup(fields, "target"@)),
        crate::wire::as_count(crate::wire::lookup(fields, "attempt"@)),
        crate::wire::as_text(crate::wire::lookup(fields, "classification"@)),
    ) {
        (Some(kernel_id), Some(target), Some(attempt), Some(classification)) => Some(
            crate::event::KindView::ComposeRetryAttempt { kernel_id, target, attempt, classification },
        ),
        _ => None,
    }
}

/// The `compose.recovery` payload that the fields hold, if they hold one.
pub open spec fn decoded_compose_recovery(fields: Seq<(Seq<char>, crate::wire::WireView)>) -> Option<
    crate::event::KindView,
> {
    match (
        crate::wire::as_text(crate::wire::lookup(fields, "kernel_id"@)),
        crate::wire::as_text(crate::wire::lookup(fields, "reason"@)),
        crate::wire::as_flag(crate::wire::lookup(fields, "recovered"@)),
    ) {
        (Some(kernel_id), Some(reason), Some(recovered)) => Some(
            crate::event::KindView::ComposeRecovery { kernel_id, reason, recovered },
        ),
        _ => None,
    }
}

/// The `response.session_started` payload that the fields hold, if they hold one.
pub open spec fn decoded_response_session_started(fields: Seq<(Seq<char>, crate::wire::WireView)>) -> Option<
    crate::event::KindView,
> {
    match (
        crate::wire::as_text(crate::wire::lookup(fields, "model"@)),
        crate::wire::as_text(crate::wire::lookup(fields, "session_id"@)),
    ) {
        (Some(model), Some(session_id)) => Some(
            crate::event::KindView::ResponseSessionStarted { model, session_id },
        ),
        _ => None,
    }
}

/// The `response.turn_started` payload that the fields hold, if they hold one.
pub open spec fn decoded_response_turn_started(fields: Seq<(Seq<char>, crate::wire::WireView)>) -> Option<
    crate::event::KindView,
> {
    match (
        crate::wire::as_text(crate::wire::lookup(fields, "session_id"@)),
        crate::wire::as_optional_text(crate::wire::lookup(fields, "previous_response_id"@)),
    ) {
        (Some(session_id), Some(previous_response_id)) => Some(
            crate::event::KindView::ResponseTurnStarted { session_id, previous_response_id },
        ),
        _ => None,
    }
}

/// The `response.turn_completed` payload that the fields hold, if they hold one.
pub open spec fn decoded_response_turn_completed(fields: Seq<(Seq<char>, crate::wire::WireView)>) -> Option<
    crate::event::KindView,
> {
    match (
        crate::wire::as_text(crate::wire::lookup(fields, "session_id"@)),
        crate::wire::as_text(crate::wire::lookup(fields, "response_id"@)),
        crate::wire::as_optional_text(crate::wire::lookup(fields, "previous_response_id"@)),
        crate::wire::as_text(crate::wire::lookup(fields, "status"@)),
        crate::wire::as_optional_count(crate::wire::lookup(fields, "tokens_in"@)),
        crate::wire::as_optional_count(crate::wire::lookup(fields, "tokens_out"@)),
        crate::wire::as_size_or_zero(crate::wire::lookup(fields, "hosted_tool_calls"@)),
        crate::wire::as_optional_count(crate::wire::lookup(fields, "duration_ms"@)),
    ) {
        (Some(session_id), Some(response_id), Some(previous_response_id), Some(status), Some(tokens_in), Some(tokens_out), Some(hosted_tool_calls), Some(duration_ms)) => Some(
            crate::event::KindView::ResponseTurnCompleted { session_id, response_id, previous_response_id, status, tokens_in, tokens_out, hosted_tool_calls, duration_ms },
        ),
        _ => None,
    }
}

/// The `response.session_ended` payload that the fields hold, if they hold one.
pub open spec fn decoded_response_session_ended(fields: Seq<(Seq<char>, crate::wire::WireView)>) -> Option<
    crate::event::KindView,
> {
    match (
        crate::wire::as_text(crate::wire::lookup(fields, "session_id"@)),
        crate::wire::as_text(crate::wire::lookup(fields, "reason"@)),
    ) {
        (Some(session_id), Some(reason)) => Some(
            crate::event::KindView::ResponseSessionEnded { session_id, reason },
        ),
        _ => None,
    }
}

/// The `eval.report` payload that the fields hold, if they hold one.
pub open spec fn decoded_eval_report(fields: Seq<(Seq<char>, crate::wire::WireView)>) -> Option<
    crate::event::KindView,
> {
    match (
        crate::wire::as_text(crate::wire::lookup(fields, "report_id"@)),
        crate::wire::as_text(crate::wire::lookup(fields, "dataset"@)),
        crate::wire::as_text(crate::wire::lookup(fields, "metric"@)),
        crate::wire::as_double_number(crate::wire::lookup(fields, "value"@)),
        crate::wire::as_optional_double(crate::wire::lookup(fields, "ci_low"@)),
        crate::wire::as_optional_double(crate::wire::lookup(fields, "ci_high"@)),
        crate::wire::as_optional_double(crate::wire::lookup(fields, "baseline_value"@)),
        crate::wire::as_optional_double(crate::wire::lookup(fields, "delta"@)),
        crate::wire::as_optional_text(crate::wire::lookup(fields, "verdict"@)),
        crate::wire::as_optional_count(crate::wire::lookup(fields, "sample_size"@)),
    ) {
        (Some(report_id), Some(dataset), Some(metric), Some(value), Some(ci_low), Some(ci_high), Some(baseline_value), Some(delta), Some(verdict), Some(sample_size)) => Some(
            crate::event::KindView::EvalReport { report_id, dataset, metric, value, ci_low, ci_high, baseline_value, delta, verdict, sample_size },
        ),
        _ => None,
    }
}

/// The `embedding.completed` payload that the fields hold, if they hold one.
pub open spec fn decoded_embedding_completed(fields: Seq<(Seq<char>, crate::wire::WireView)>) -> Option<
    crate::event::KindView,
> {
    match (
        crate::wire::as_text(crate::wire::lookup(fields, "model"@)),
        crate::wire::as_size(crate::wire::lookup(fields, "documents"@)),
        crate::wire::as_optional_count(crate::wire::lookup(fields, "tokens_in"@)),
        crate::wire::as_optional_count(crate::wire::lookup(fields, "duration_ms"@)),
    ) {
        (Some(model), Some(documents), Some(tokens_in), Some(duration_ms)) => Some(
            crate::event::KindView::EmbeddingCompleted { model, documents, tokens_in, duration_ms },
        ),
        _ => None,
    }
}

/// The `retrieval.queried` payload that the fields hold, if they hold one.
pub open spec fn decoded_retrieval_queried(fields: Seq<(Seq<char>, crate::wire::WireView)>) -> Option<
    crate::event::KindView,
> {
    match (
        crate::wire::as_texts_or_empty(crate::wire::lookup(fields, "queries"@)),
        crate::wire::as_optional_size(crate::wire::lookup(fields, "top_k"@)),
        crate::wire::as_size(crate::wire::lookup(fields, "results"@)),
        crate::wire::as_optional_count(crate::wire::lookup(fields, "duration_ms"@)),
    ) {
        (Some(queries), Some(top_k), Some(results), Some(duration_ms)) => Some(
            crate::event::KindView::RetrievalQueried { queries, top_k, results, duration_ms },
        ),
        _ => None,
    }
}

/// The `rerank.completed` payload that the fields hold, if they hold one.
pub open spec fn decoded_rerank_completed(fields: Seq<(Seq<char>, crate::wire::WireView)>) -> Option<
    crate::event::KindView,
> {
    match (
        crate::wire::as_text(crate::wire::lookup(fields, "model"@)),
        crate::wire::as_size(crate::wire::lookup(fields, "documents_in"@)),
        crate::wire::as_size(crate::wire::lookup(fields, "documents_out"@)),
        crate::wire::as_optional_count(crate::wire::lookup(fields, "duration_ms"@)),
    ) {
        (Some(model), Some(documents_in), Some(documents_out), Some(duration_ms)) => Some(
            crate::event::KindView::RerankCompleted { model, documents_in, documents_out, duration_ms },
        ),
        _ => None,
    }
}

/// The wire name of the kind with the given number: kinds are numbered in the
/// order of [`EventKind`](crate::EventKind), from zero.
pub open spec fn numbered_kind(number: u64) -> Option<Seq<char>> {
    if number == 0 {
        Some("prompt.started"@)
    } else if number == 1 {
        Some("prompt.completed"@)
    } else if number == 2 {
        Some("prompt.failed"@)
    } else if number == 3 {
        Some("tool.invoked"@)
    } else if number == 4 {
        Some("tool.completed"@)
    } else if number == 5 {
        Some("tool.failed"@)
    } else if number == 6 {
        Some("tool.skipped"@)
    } else if number == 7 {
        Some("tool.terminated"@)
    } else if number == 8 {
        Some("tool.hosted_invoked"@)
    } else if number == 9 {
        Some("tool.hosted_completed"@)
    } else if number == 10 {
        Some("context.sampled"@)
    } else if number == 11 {
        Some("context.persisted"@)
    } else if number == 12 {
        Some("context.compacted"@)
    } else if number == 13 {
        Some("memory.demoted"@)
    } else if number == 14 {
        Some("memory.frame_written"@)
    } else if number == 15 {
        Some("compose.kernel_start"@)
    } else if number == 16 {
        Some("compose.kernel_shutdown"@)
    } else if number == 17 {
        Some("compose.loop_iteration"@)
    } else if number == 18 {
        Some("compose.skill_resolved"@)
    } else if number == 19 {
        Some("compose.retry_attempt"@)
    } else if number == 20 {
        Some("compose.recovery"@)
    } else if number == 21 {
        Some("response.session_started"@)
    } else if number == 22 {
        Some("response.turn_started"@)
    } else if number == 23 {
        Some("response.turn_completed"@)
    } else if number == 24 {
        Some("response.session_ended"@)
    } else if number == 25 {
        Some("eval.report"@)
    } else if number == 26 {
        Some("embedding.completed"@)
    } else if number == 27 {
        Some("retrieval.queried"@)
    } else if number == 28 {
        Some("rerank.completed"@)
    } else {
        None
    }
}

/// The payload that the fields hold under the wire name `name`, if they hold
/// one.
pub open spec fn decoded_kind(
    name: Seq<char>,
    fields: Seq<(Seq<char>, crate::wire::WireView)>,
) -> Option<crate::event::KindView> {
    if name == "prompt.started"@ {
        decoded_prompt_started(fields)
    } else if name == "prompt.completed"@ {
        decoded_prompt_completed(fields)
    } else if name == "prompt.failed"@ {
        decoded_prompt_failed(fields)
    } else if name == "tool.invoked"@ {
        decoded_tool_invoked(fields)
    } else if name == "tool.completed"@ {
        decoded_tool_completed(fields)
    } else if name == "tool.failed"@ {
        decoded_tool_failed(fields)
    } else if name == "tool.skipped"@ {
        decoded_tool_skipped(fields)
    } else if name == "tool.terminated"@ {
        decoded_tool_terminated(fields)
    } else if name == "tool.hosted_invoked"@ {
        decoded_tool_hosted_invoked(fields)
    } else if name == "tool.hosted_completed"@ {
        decoded_tool_hosted_completed(fields)
    } else if name == "context.sampled"@ {
        decoded_context_sampled(fields)
    } else if name == "context.persisted"@ {
        decoded_context_persisted(fields)
    } else if name == "context.compacted"@ {
        decoded_context_compacted(fields)
    } else if name == "memory.demoted"@ {
        decoded_memory_demoted(fields)
    } else if name == "memory.frame_written"@ {
        decoded_memory_frame_written(fields)
    } else if name == "compose.kernel_start"@ {
        decoded_compose_kernel_start(fields)
    } else if name == "compose.kernel_shutdown"@ {
        decoded_compose_kernel_shutdown(fields)
    } else if name == "compose.loop_iteration"@ {
        decoded_compose_loop_iteration(fields)
    } else if name == "compose.skill_resolved"@ {
        decoded_compose_skill_resolved(fields)
    } else if name == "compose.retry_attempt"@ {
        decoded_compose_retry_attempt(fields)
    } else if name == "compose.recovery"@ {
        decoded_compose_recovery(fields)
    } else if name == "response.session_started"@ {
        decoded_response_session_started(fields)
    } else if name == "response.turn_started"@ {
        decoded_response_turn_started(fields)
    } else if name == "response.turn_completed"@ {
        decoded_response_turn_completed(fields)
    } else if name == "response.session_ended"@ {
        decoded_response_session_ended(fields)
    } else if name == "eval.report"@ {
        decoded_eval_report(fields)
    } else if name == "embedding.completed"@ {
        decoded_embedding_completed(fields)
    } else if name == "retrieval.queried"@ {
        decoded_retrieval_queried(fields)
    } else if name == "rerank.completed"@ {
        decoded_rerank_completed(fields)
    } else {
        None
    }
}

fn encode_prompt_started(
    model: &String,
    messages_in: &usize,
    temperature: &Option<crate::float::Float64>,
    top_p: &Option<crate::float::Float64>,
    max_tokens: &Option<u64>,
) -> (fields: Vec<(String, WireValue)>)
    ensures
        crate::wire::field_views(fields@) == prompt_started_fields(
            model@,
            *messages_in,
            *temperature,
            *top_p,
            *max_tokens,
        ),
{
    let mut fields: Vec<(String, WireValue)> = Vec::new();
    push_field(&mut fields, "model", Some(WireValue::Text(model.clone())));
    assert(crate::wire::field_views(fields@) =~= crate::wire::field(
        "model"@,
        Some(crate::wire::WireView::Text(model@)),
    ));
    push_field(&mut fields, "messages_in", Some(wire_number(*messages_in as u64)));
    push_field(&mut fields, "temperature", wire_opt_double(*temperature));
    push_field(&mut fields, "top_p", wire_opt_double(*top_p));
    push_field(&mut fields, "max_tokens", wire_opt_number(*max_tokens));
    fields
}

fn encode_prompt_completed(
    model: &String,
    tokens_in: &Option<u64>,
    tokens_out: &Option<u64>,
    cached_tokens_in: &Option<u64>,
    reasoning_tokens: &Option<u64>,
    cost_usd: &Option<crate::float::Float64>,
    finish_reason: &Option<String>,
    response_id: &Option<String>,
    previous_response_id: &Option<String>,
    time_to_first_token_ms: &Option<u64>,
    duration_ms: &Option<u64>,
) -> (fields: Vec<(String, WireValue)>)
    ensures
        crate::wire::field_views(fields@) == prompt_completed_fields(
            model@,
            *tokens_in,
            *tokens_out,
            *cached_tokens_in,
            *reasoning_tokens,
            *cost_usd,
            finish_reason.deep_view(),
            response_id.deep_view(),
            previous_response_id.deep_view(),
            *time_to_first_token_ms,
            *duration_ms,
        ),
{
    let mut fields: Vec<(String, WireValue)> = Vec::new();
    push_field(&mut fields, "model", Some(WireValue::Text(model.clone())));
    assert(crate::wire::field_views(fields@) =~= crate::wire::field(
        "model"@,
        Some(crate::wire::WireView::Text(model@)),
    ));
    push_field(&mut fields, "tokens_in", wire_opt_number(*tokens_in));
    push_field(&mut fields, "tokens_out", wire_opt_number(*tokens_out));
    push_field(&mut fields, "cached_tokens_in", wire_opt_number(*cached_tokens_in));
    push_field(&mut fields, "reasoning_tokens", wire_opt_number(*reasoning_tokens));
    push_field(&mut fields, "cost_usd", wire_opt_double(*cost_usd));
    push_field(&mut fields, "finish_reason", wire_opt_text(finish_reason));
    push_field(&mut fields, "response_id", wire_opt_text(response_id));
    push_field(&mut fields, "previous_response_id", wire_opt_text(previous_response_id));
    push_field(&mut fields, "time_to_first_token_ms", wire_opt_number(*time_to_first_token_ms));
    push_field(&mut fields, "duration_ms", wire_opt_number(*duration_ms));
    fields
}

fn encode_prompt_failed(
    model: &String,
    error_class: &crate::event::ErrorClass,
    message: &String,
    retriable: &bool,
    provider_error_code: &Option<String>,
    http_status: &Option<u16>,
) -> (fields: Vec<(String, WireValue)>)
    ensures
        crate::wire::field_views(fields@) == prompt_failed_fields(
            model@,
            *error_class,
            message@,
            *retriable,
            provider_error_code.deep_view(),
            *http_status,
        ),
{
    let mut fields: Vec<(String, WireValue)> = Vec::new();
    push_field(&mut fields, "model", Some(WireValue::Text(model.clone())));
    assert(crate::wire::field_views(fields@) =~= crate::wire::field(
        "model"@,
        Some(crate::wire::WireView::Text(model@)),
    ));
    push_field(&mut fields, "error_class", Some(WireValue::Text(error_class.as_str().to_owned())));
    push_field(&mut fields, "message", Some(WireValue::Text(message.clone())));
    push_field(&mut fields, "retriable", Some(WireValue::Flag(*retriable)));
    push_field(&mut fields, "provider_error_code", wire_opt_text(provider_error_code));
    push_field(&mut fields, "http_status", wire_opt_status(*http_status));
    fields
}

fn encode_tool_invoked(
    tool_name: &String,
    provider_call_id: &Option<String>,
    call_id: &String,
    args_json: &String,
    truncated: &bool,
) -> (fields: Vec<(String, WireValue)>)
    ensures
        crate::wire::field_views(fields@) == tool_invoked_fields(
            tool_name@,
            provider_call_id.deep_view(),
            call_id@,
            args_json@,
            *truncated,
        ),
{
    let mut fields: Vec<(String, WireValue)> = Vec::new();
    push_field(&mut fields, "tool_name", Some(WireValue::Text(tool_name.clone())));
    assert(crate::wire::field_views(fields@) =~= crate::wire::field(
        "tool_name"@,
        Some(crate::wire::WireView::Text(tool_name@)),
    ));
    push_field(&mut fields, "provider_call_id", wire_opt_text(provider_call_id));
    push_field(&mut fields, "call_id", Some(WireValue::Text(call_id.clone())));
    push_field(&mut fields, "args_json", Some(WireValue::Text(args_json.clone())));
    push_field(&mut fields, "truncated", Some(WireValue::Flag(*truncated)));
    fields
}

fn encode_tool_completed(
    tool_name: &String,
    provider_call_id: &Option<String>,
    call_id: &String,
    result: &String,
    truncated: &bool,
    duration_ms: &Option<u64>,
) -> (fields: Vec<(String, WireValue)>)
    ensures
        crate::wire::field_views(fields@) == tool_completed_fields(
            tool_name@,
            provider_call_id.deep_view(),
            call_id@,
            result@,
            *truncated,
            *duration_ms,
        ),
{
    let mut fields: Vec<(String, WireValue)> = Vec::new();
    push_field(&mut fields, "tool_name", Some(WireValue::Text(tool_name.clone())));
    assert(crate::wire::field_views(fields@) =~= crate::wire::field(
        "tool_name"@,
        Some(crate::wire::WireView::Text(tool_name@)),
    ));
    push_field(&mut fields, "provider_call_id", wire_opt_text(provider_call_id));
    push_field(&mut fields, "call_id", Some(WireValue::Text(call_id.clone())));
    push_field(&mut fields, "result", Some(WireValue::Text(result.clone())));
    push_field(&mut fields, "truncated", Some(WireValue::Flag(*truncated)));
    push_field(&mut fields, "duration_ms", wire_opt_number(*duration_ms));
    fields
}

fn encode_tool_failed(
    tool_name: &String,
    call_id: &String,
    error_class: &crate::event::ErrorClass,
    message: &String,
) -> (fields: Vec<(String, WireValue)>)
    ensures
        crate::wire::field_views(fields@) == tool_failed_fields(
            tool_name@,
            call_id@,
            *error_class,
            message@,
        ),
{
    let mut fields: Vec<(String, WireValue)> = Vec::new();
    push_field(&mut fields, "tool_name", Some(WireValue::Text(tool_name.clone())));
    assert(crate::wire::field_views(fields@) =~= crate::wire::field(
        "tool_name"@,
        Some(crate::wire::WireView::Text(tool_name@)),
    ));
    push_field(&mut fields, "call_id", Some(WireValue::Text(call_id.clone())));
    push_field(&mut fields, "error_class", Some(WireValue::Text(error_class.as_str().to_owned())));
    push_field(&mut fields, "message", Some(WireValue::Text(message.clone())));
    fields
}

fn encode_tool_skipped(
    tool_name: &String,
    call_id: &String,
    reason: &String,
) -> (fields: Vec<(String, WireValue)>)
    ensures
        crate::wire::field_views(fields@) == tool_skipped_fields(
            tool_name@,
            call_id@,
            reason@,
        ),
{
    let mut fields: Vec<(String, WireValue)> = Vec::new();
    push_field(&mut fields, "tool_name", Some(WireValue::Text(tool_name.clone())));
    assert(crate::wire::field_views(fields@) =~= crate::wire::field(
        "tool_name"@,
        Some(crate::wire::WireView::Text(tool_name@)),
    ));
    push_field(&mut fields, "call_id", Some(WireValue::Text(call_id.clone())));
    push_field(&mut fields, "reason", Some(WireValue::Text(reason.clone())));
    fields
}

fn encode_tool_terminated(
    tool_name: &String,
    call_id: &String,
    reason: &String,
) -> (fields: Vec<(String, WireValue)>)
    ensures
        crate::wire::field_views(fields@) == tool_terminated_fields(
            tool_name@,
            call_id@,
            reason@,
        ),
{
    let mut fields: Vec<(String, WireValue)> = Vec::new();
    push_field(&mut fields, "tool_name", Some(WireValue::Text(tool_name.clone())));
    assert(crate::wire::field_views(fields@) =~= crate::wire::field(
        "tool_name"@,
        Some(crate::wire::WireView::Text(tool_name@)),
    ));
    push_field(&mut fields, "call_id", Some(WireValue::Text(call_id.clone())));
    push_field(&mut fields, "reason", Some(WireValue::Text(reason.clone())));
    fields
}

fn encode_tool_hosted_invoked(
    tool_name: &String,
    provider_call_id: &Option<String>,
    call_id: &String,
    response_id: &Option<String>,
    args_json: &String,
    truncated: &bool,
) -> (fields: Vec<(String, WireValue)>)
    ensures
        crate::wire::field_views(fields@) == tool_hosted_invoked_fields(
            tool_name@,
            provider_call_id.deep_view(),
            call_id@,
            response_id.deep_view(),
            args_json@,
            *truncated,
        ),
{
    let mut fields: Vec<(String, WireValue)> = Vec::new();
    push_field(&mut fields, "tool_name", Some(WireValue::Text(tool_name.clone())));
    assert(crate::wire::field_views(fields@) =~= crate::wire::field(
        "tool_name"@,
        Some(crate::wire::WireView::Text(tool_name@)),
    ));
    push_field(&mut fields, "provider_call_id", wire_opt_text(provider_call_id));
    push_field(&mut fields, "call_id", Some(WireValue::Text(call_id.clone())));
    push_field(&mut fields, "response_id", wire_opt_text(response_id));
    push_field(&mut fields, "args_json", Some(WireValue::Text(args_json.clone())));
    push_field(&mut fields, "truncated", Some(WireValue::Flag(*truncated)));
    fields
}

fn encode_tool_hosted_completed(
    tool_name: &String,
    provider_call_id: &Option<String>,
    call_id: &String,
    response_id: &Option<String>,
    status: &Option<String>,
    result: &String,
    truncated: &bool,
    duration_ms: &Option<u64>,
) -> (fields: Vec<(String, WireValue)>)
    ensures
        crate::wire::field_views(fields@) == tool_hosted_completed_fields(
            tool_name@,
            provider_call_id.deep_view(),
            call_id@,
            response_id.deep_view(),
            status.deep_view(),
            result@,
            *truncated,
            *duration_ms,
        ),
{
    let mut fields: Vec<(String, WireValue)> = Vec::new();
    push_field(&mut fields, "tool_name", Some(WireValue::Text(tool_name.clone())));
    assert(crate::wire::field_views(fields@) =~= crate::wire::field(
        "tool_name"@,
        Some(crate::wire::WireView::Text(tool_name@)),
    ));
    push_field(&mut fields, "provider_call_id", wire_opt_text(provider_call_id));
    push_field(&mut fields, "call_id", Some(WireValue::Text(call_id.clone())));
    push_field(&mut fields, "response_id", wire_opt_text(response_id));
    push_field(&mut fields, "status", wire_opt_text(status));
    push_field(&mut fields, "result", Some(WireValue::Text(result.clone())));
    push_field(&mut fields, "truncated", Some(WireValue::Flag(*truncated)));
    push_field(&mut fields, "duration_ms", wire_opt_number(*duration_ms));
    fields
}

fn encode_context_sampled(
    message_count: &usize,
    byte_size: &usize,
    token_estimate: &Option<u64>,
) -> (fields: Vec<(String, WireValue)>)
    ensures
        crate::wire::field_views(fields@) == context_sampled_fields(
            *message_count,
            *byte_size,
            *token_estimate,
        ),
{
    let mut fields: Vec<(String, WireValue)> = Vec::new();
    push_field(&mut fields, "message_count", Some(wire_number(*message_count as u64)));
    assert(crate::wire::field_views(fields@) =~= crate::wire::field(
        "message_count"@,
        Some(crate::wire::number(*message_count as u64)),
    ));
    push_field(&mut fields, "byte_size", Some(wire_number(*byte_size as u64)));
    push_field(&mut fields, "token_estimate", wire_opt_number(*token_estimate));
    fields
}

fn encode_context_persisted(
    message_count: &usize,
    byte_size: &usize,
) -> (fields: Vec<(String, WireValue)>)
    ensures
        crate::wire::field_views(fields@) == context_persisted_fields(
            *message_count,
            *byte_size,
        ),
{
    let mut fields: Vec<(String, WireValue)> = Vec::new();
    push_field(&mut fields, "message_count", Some(wire_number(*message_count as u64)));
    assert(crate::wire::field_views(fields@) =~= crate::wire::field(
        "message_count"@,
        Some(crate::wire::number(*message_count as u64)),
    ));
    push_field(&mut fields, "byte_size", Some(wire_number(*byte_size as u64)));
    fields
}

fn encode_context_compacted(
    evicted_count: &usize,
    evicted_bytes: &usize,
    carry_over: &bool,
    summary_bytes: &usize,
) -> (fields: Vec<(String, WireValue)>)
    ensures
        crate::wire::field_views(fields@) == context_compacted_fields(
            *evicted_count,
            *evicted_bytes,
            *carry_over,
            *summary_bytes,
        ),
{
    let mut fields: Vec<(String, WireValue)> = Vec::new();
    push_field(&mut fields, "evicted_count", Some(wire_number(*evicted_count as u64)));
    assert(crate::wire::field_views(fields@) =~= crate::wire::field(
        "evicted_count"@,
        Some(crate::wire::number(*evicted_count as u64)),
    ));
    push_field(&mut fields, "evicted_bytes", Some(wire_number(*evicted_bytes as u64)));
    push_field(&mut fields, "carry_over", Some(WireValue::Flag(*carry_over)));
    push_field(&mut fields, "summary_bytes", Some(wire_number(*summary_bytes as u64)));
    fields
}

fn encode_memory_demoted(
    demoted_count: &usize,
    tags: &Vec<String>,
) -> (fields: Vec<(String, WireValue)>)
    ensures
        crate::wire::field_views(fields@) == memory_demoted_fields(
            *demoted_count,
            tags.deep_view(),
        ),
{
    let mut fields: Vec<(String, WireValue)> = Vec::new();
    push_field(&mut fields, "demoted_count", Some(wire_number(*demoted_count as u64)));
    assert(crate::wire::field_views(fields@) =~= crate::wire::field(
        "demoted_count"@,
        Some(crate::wire::number(*demoted_count as u64)),
    ));
    push_field(&mut fields, "tags", Some(WireValue::Texts(copy_texts(tags))));
    fields
}

fn encode_memory_frame_written(
    frame_kind: &String,
    frame_count_after: &Option<u64>,
    bytes_written: &usize,
) -> (fields: Vec<(String, WireValue)>)
    ensures
        crate::wire::field_views(fields@) == memory_frame_written_fields(
            frame_kind@,
            *frame_count_after,
            *bytes_written,
        ),
{
    let mut fields: Vec<(String, WireValue)> = Vec::new();
    push_field(&mut fields, "frame_kind", Some(WireValue::Text(frame_kind.clone())));
    assert(crate::wire::field_views(fields@) =~= crate::wire::field(
        "frame_kind"@,
        Some(crate::wire::WireView::Text(frame_kind@)),
    ));
    push_field(&mut fields, "frame_count_after", wire_opt_number(*frame_count_after));
    push_field(&mut fields, "bytes_written", Some(wire_number(*bytes_written as u64)));
    fields
}

fn encode_compose_kernel_start(
    kernel_id: &String,
    skills_registered: &Option<usize>,
    tools_registered: &Option<usize>,
) -> (fields: Vec<(String, WireValue)>)
    ensures
        crate::wire::field_views(fields@) == compose_kernel_start_fields(
            kernel_id@,
            *skills_registered,
            *tools_registered,
        ),
{
    let mut fields: Vec<(String, WireValue)> = Vec::new();
    push_field(&mut fields, "kernel_id", Some(WireValue::Text(kernel_id.clone())));
    assert(crate::wire::field_views(fields@) =~= crate::wire::field(
        "kernel_id"@,
        Some(crate::wire::WireView::Text(kernel_id@)),
    ));
    push_field(&mut fields, "skills_registered", wire_opt_size(*skills_registered));
    push_field(&mut fields, "tools_registered", wire_opt_size(*tools_registered));
    fields
}

fn encode_compose_kernel_shutdown(
    kernel_id: &String,
    reason: &String,
) -> (fields: Vec<(String, WireValue)>)
    ensures
        crate::wire::field_views(fields@) == compose_kernel_shutdown_fields(
            kernel_id@,
            reason@,
        ),
{
    let mut fields: Vec<(String, WireValue)> = Vec::new();
    push_field(&mut fields, "kernel_id", Some(WireValue::Text(kernel_id.clone())));
    assert(crate::wire::field_views(fields@) =~= crate::wire::field(
        "kernel_id"@,
        Some(crate::wire::WireView::Text(kernel_id@)),
    ));
    push_field(&mut fields, "reason", Some(WireValue::Text(reason.clone())));
    fields
}

fn encode_compose_loop_iteration(
    kernel_id: &String,
    iteration: &u64,
    skill_id: &Option<String>,
    confidence: &Option<crate::float::Float64>,
) -> (fields: Vec<(String, WireValue)>)
    ensures
        crate::wire::field_views(fields@) == compose_loop_iteration_fields(
            kernel_id@,
            *iteration,
            skill_id.deep_view(),
            *confidence,
        ),
{
    let mut fields: Vec<(String, WireValue)> = Vec::new();
    push_field(&mut fields, "kernel_id", Some(WireValue::Text(kernel_id.clone())));
    assert(crate::wire::field_views(fields@) =~= crate::wire::field(
        "kernel_id"@,
        Some(crate::wire::WireView::Text(kernel_id@)),
    ));
    push_field(&mut fields, "iteration", Some(wire_number(*iteration)));
    push_field(&mut fields, "skill_id", wire_opt_text(skill_id));
    push_field(&mut fields, "confidence", wire_opt_double(*confidence));
    fields
}

fn encode_compose_skill_resolved(
    kernel_id: &String,
    skill_id: &String,
    applies: &bool,
    delta: &Option<crate::float::Float64>,
    confidence: &Option<crate::float::Float64>,
) -> (fields: Vec<(String, WireValue)>)
    ensures
        crate::wire::field_views(fields@) == compose_skill_resolved_fields(
            kernel_id@,
            skill_id@,
            *applies,
            *delta,
            *confidence,
        ),
{
    let mut fields: Vec<(String, WireValue)> = Vec::new();
    push_field(&mut fields, "kernel_id", Some(WireValue::Text(kernel_id.clone())));
    assert(crate::wire::field_views(fields@) =~= crate::wire::field(
        "kernel_id"@,
        Some(crate::wire::WireView::Text(kernel_id@)),
    ));
    push_field(&mut fields, "skill_id", Some(WireValue::Text(skill_id.clone())));
    push_field(&mut fields, "applies", Some(WireValue::Flag(*applies)));
    push_field(&mut fields, "delta", wire_opt_double(*delta));
    push_field(&mut fields, "confidence", wire_opt_double(*confidence));
    fields
}

fn encode_compose_retry_attempt(
    kernel_id: &String,
    target: &String,
    attempt: &u64,
    classification: &String,
) -> (fields: Vec<(String, WireValue)>)
    ensures
        crate::wire::field_views(fields@) == compose_retry_attempt_fields(
            kernel_id@,
            target@,
            *attempt,
            classification@,
        ),
{
    let mut fields: Vec<(String, WireValue)> = Vec::new();
    push_field(&mut fields, "kernel_id", Some(WireValue::Text(kernel_id.clone())));
    assert(crate::wire::field_views(fields@) =~= crate::wire::field(
        "kernel_id"@,
        Some(crate::wire::WireView::Text(kernel_id@)),
    ));
    push_field(&mut fields, "target", Some(WireValue::Text(target.clone())));
    push_field(&mut fields, "attempt", Some(wire_number(*attempt)));
    push_field(&mut fields, "classification", Some(WireValue::Text(classification.clone())));
    fields
}

fn encode_compose_recovery(
    kernel_id: &String,
    reason: &String,
    recovered: &bool,
) -> (fields: Vec<(String, WireValue)>)
    ensures
        crate::wire::field_views(fields@) == compose_recovery_fields(
            kernel_id@,
            reason@,
            *recovered,
        ),
{
    let mut fields: Vec<(String, WireValue)> = Vec::new();
    push_field(&mut fields, "kernel_id", Some(WireValue::Text(kernel_id.clone())));
    assert(crate::wire::field_views(fields@) =~= crate::wire::field(
        "kernel_id"@,
        Some(crate::wire::WireView::Text(kernel_id@)),
    ));
    push_field(&mut fields, "reason", Some(WireValue::Text(reason.clone())));
    push_field(&mut fields, "recovered", Some(WireValue::Flag(*recovered)));
    fields
}

fn encode_response_session_started(
    model: &String,
    session_id: &String,
) -> (fields: Vec<(String, WireValue)>)
    ensures
        crate::wire::field_views(fields@) == response_session_started_fields(
            model@,
            session_id@,
        ),
{
    let mut fields: Vec<(String, WireValue)> = Vec::new();
    push_field(&mut fields, "model", Some(WireValue::Text(model.clone())));
    assert(crate::wire::field_views(fields@) =~= crate::wire::field(
        "model"@,
        Some(crate::wire::WireView::Text(model@)),
    ));
    push_field(&mut fields, "session_id", Some(WireValue::Text(session_id.clone())));
    fields
}

fn encode_response_turn_started(
    session_id: &String,
    previous_response_id: &Option<String>,
) -> (fields: Vec<(String, WireValue)>)
    ensures
        crate::wire::field_views(fields@) == response_turn_started_fields(
            session_id@,
            previous_response_id.deep_view(),
        ),
{
    let mut fields: Vec<(String, WireValue)> = Vec::new();
    push_field(&mut fields, "session_id", Some(WireValue::Text(session_id.clone())));
    assert(crate::wire::field_views(fields@) =~= crate::wire::field(
        "session_id"@,
        Some(crate::wire::WireView::Text(session_id@)),
    ));
    push_field(&mut fields, "previous_response_id", wire_opt_text(previous_response_id));
    fields
}

fn encode_response_turn_completed(
    session_id: &String,
    response_id: &String,
    previous_response_id: &Option<String>,
    status: &String,
    tokens_in: &Option<u64>,
    tokens_out: &Option<u64>,
    hosted_tool_calls: &usize,
    duration_ms: &Option<u64>,
) -> (fields: Vec<(String, WireValue)>)
    ensures
        crate::wire::field_views(fields@) == response_turn_completed_fields(
            session_id@,
            response_id@,
            previous_response_id.deep_view(),
            status@,
            *tokens_in,
            *tokens_out,
            *hosted_tool_calls,
            *duration_ms,
        ),
{
    let mut fields: Vec<(String, WireValue)> = Vec::new();
    push_field(&mut fields, "session_id", Some(WireValue::Text(session_id.clone())));
    assert(crate::wire::field_views(fields@) =~= crate::wire::field(
        "session_id"@,
        Some(crate::wire::WireView::Text(session_id@)),
    ));
    push_field(&mut fields, "response_id", Some(WireValue::Text(response_id.clone())));
    push_field(&mut fields, "previous_response_id", wire_opt_text(previous_response_id));
    push_field(&mut fields, "status", Some(WireValue::Text(status.clone())));
    push_field(&mut fields, "tokens_in", wire_opt_number(*tokens_in));
    push_field(&mut fields, "tokens_out", wire_opt_number(*tokens_out));
    push_field(&mut fields, "hosted_tool_calls", wire_nonzero(*hosted_tool_calls));
    push_field(&mut fields, "duration_ms", wire_opt_number(*duration_ms));
    fields
}

fn encode_response_session_ended(
    session_id: &String,
    reason: &String,
) -> (fields: Vec<(String, WireValue)>)
    ensures
        crate::wire::field_views(fields@) == response_session_ended_fields(
            session_id@,
            reason@,
        ),
{
    let mut fields: Vec<(String, WireValue)> = Vec::new();
    push_field(&mut fields, "session_id", Some(WireValue::Text(session_id.clone())));
    assert(crate::wire::field_views(fields@) =~= crate::wire::field(
        "session_id"@,
        Some(crate::wire::WireView::Text(session_id@)),
    ));
    push_field(&mut fields, "reason", Some(WireValue::Text(reason.clone())));
    fields
}

fn encode_eval_report(
    report_id: &String,
    dataset: &String,
    metric: &String,
    value: &crate::float::Float64,
    ci_low: &Option<crate::float::Float64>,
    ci_high: &Option<crate::float::Float64>,
    baseline_value: &Option<crate::float::Float64>,
    delta: &Option<crate::float::Float64>,
    verdict: &Option<String>,
    sample_size: &Option<u64>,
) -> (fields: Vec<(String, WireValue)>)
    ensures
        crate::wire::field_views(fields@) == eval_report_fields(
            report_id@,
            dataset@,
            metric@,
            *value,
            *ci_low,
            *ci_high,
            *baseline_value,
            *delta,
            verdict.deep_view(),
            *sample_size,
        ),
{
    let mut fields: Vec<(String, WireValue)> = Vec::new();
    push_field(&mut fields, "report_id", Some(WireValue::Text(report_id.clone())));
    assert(crate::wire::field_views(fields@) =~= crate::wire::field(
        "report_id"@,
        Some(crate::wire::WireView::Text(report_id@)),
    ));
    push_field(&mut fields, "dataset", Some(WireValue::Text(dataset.clone())));
    push_field(&mut fields, "metric", Some(WireValue::Text(metric.clone())));
    push_field(&mut fields, "value", Some(wire_double(*value)));
    push_field(&mut fields, "ci_low", wire_opt_double(*ci_low));
    push_field(&mut fields, "ci_high", wire_opt_double(*ci_high));
    push_field(&mut fields, "baseline_value", wire_opt_double(*baseline_value));
    push_field(&mut fields, "delta", wire_opt_double(*delta));
    push_field(&mut fields, "verdict", wire_opt_text(verdict));
    push_field(&mut fields, "sample_size", wire_opt_number(*sample_size));
    fields
}

fn encode_embedding_completed(
    model: &String,
    documents: &usize,
    tokens_in: &Option<u64>,
    duration_ms: &Option<u64>,
) -> (fields: Vec<(String, WireValue)>)
    ensures
        crate::wire::field_views(fields@) == embedding_completed_fields(
            model@,
            *documents,
            *tokens_in,
            *duration_ms,
        ),
{
    let mut fields: Vec<(String, WireValue)> = Vec::new();
    push_field(&mut fields, "model", Some(WireValue::Text(model.clone())));
    assert(crate::wire::field_views(fields@) =~= crate::wire::field(
        "model"@,
        Some(crate::wire::WireView::Text(model@)),
    ));
    push_field(&mut fields, "documents", Some(wire_number(*documents as u64)));
    push_field(&mut fields, "tokens_in", wire_opt_number(*tokens_in));
    push_field(&mut fields, "duration_ms", wire_opt_number(*duration_ms));
    fields
}

fn encode_retrieval_queried(
    queries: &Vec<String>,
    top_k: &Option<usize>,
    results: &usize,
    duration_ms: &Option<u64>,
) -> (fields: Vec<(String, WireValue)>)
    ensures
        crate::wire::field_views(fields@) == retrieval_queried_fields(
            queries.deep_view(),
            *top_k,
            *results,
            *duration_ms,
        ),
{
    let mut fields: Vec<(String, WireValue)> = Vec::new();
    push_field(&mut fields, "queries", wire_nonempty(queries));
    assert(crate::wire::field_views(fields@) =~= crate::wire::field(
        "queries"@,
        crate::wire::nonempty(queries.deep_view()),
    ));
    push_field(&mut fields, "top_k", wire_opt_size(*top_k));
    push_field(&mut fields, "results", Some(wire_number(*results as u64)));
    push_field(&mut fields, "duration_ms", wire_opt_number(*duration_ms));
    fields
}

fn encode_rerank_completed(
    model: &String,
    documents_in: &usize,
    documents_out: &usize,
    duration_ms: &Option<u64>,
) -> (fields: Vec<(String, WireValue)>)
    ensures
        crate::wire::field_views(fields@) == rerank_completed_fields(
            model@,
            *documents_in,
            *documents_out,
            *duration_ms,
        ),
{
    let mut fields: Vec<(String, WireValue)> = Vec::new();
    push_field(&mut fields, "model", Some(WireValue::Text(model.clone())));
    assert(crate::wire::field_views(fields@) =~= crate::wire::field(
        "model"@,
        Some(crate::wire::WireView::Text(model@)),
    ));
    push_field(&mut fields, "documents_in", Some(wire_number(*documents_in as u64)));
    push_field(&mut fields, "documents_out", Some(wire_number(*documents_out as u64)));
    push_field(&mut fields, "duration_ms", wire_opt_number(*duration_ms));
    fields
}

/// Writes the fields of a payload.
pub fn encode_kind(kind: &EventKind) -> (fields: Vec<(String, WireValue)>)
    ensures
        crate::wire::field_views(fields@) == kind_fields(kind@),
{
    match kind {
        EventKind::PromptStarted { model, messages_in, temperature, top_p, max_tokens } => encode_prompt_started(
            model,
            messages_in,
            temperature,
            top_p,
            max_tokens,
        ),
        EventKind::PromptCompleted { model, tokens_in, tokens_out, cached_tokens_in, reasoning_tokens, cost_usd, finish_reason, response_id, previous_response_id, time_to_first_token_ms, duration_ms } => encode_prompt_completed(
            model,
            tokens_in,
            tokens_out,
            cached_tokens_in,
            reasoning_tokens,
            cost_usd,
            finish_reason,
            response_id,
            previous_response_id,
            time_to_first_token_ms,
            duration_ms,
        ),
        EventKind::PromptFailed { model, error_class, message, retriable, provider_error_code, http_status } => encode_prompt_failed(
            model,
            error_class,
            message,
            retriable,
            provider_error_code,
            http_status,
        ),
        EventKind::ToolInvoked { tool_name, provider_call_id, call_id, args_json, truncated } => encode_tool_invoked(
            tool_name,
            provider_call_id,
            call_id,
            args_json,
            truncated,
        ),
        EventKind::ToolCompleted { tool_name, provider_call_id, call_id, result, truncated, duration_ms } => encode_tool_completed(
            tool_name,
            provider_call_id,
            call_id,
            result,
            truncated,
            duration_ms,
        ),
        EventKind::ToolFailed { tool_name, call_id, error_class, message } => encode_tool_failed(
            tool_name,
            call_id,
            error_class,
            message,
        ),
        EventKind::ToolSkipped { tool_name, call_id, reason } => encode_tool_skipped(
            tool_name,
            call_id,
            reason,
        ),
        EventKind::ToolTerminated { tool_name, call_id, reason } => encode_tool_terminated(
            tool_name,
            call_id,
            reason,
        ),
        EventKind::ToolHostedInvoked { tool_name, provider_call_id, call_id, response_id, args_json, truncated } => encode_tool_hosted_invoked(
            tool_name,
            provider_call_id,
            call_id,
            response_id,
            args_json,
            truncated,
        ),
        EventKind::ToolHostedCompleted { tool_name, provider_call_id, call_id, response_id, status, result, truncated, duration_ms } => encode_tool_hosted_completed(
            tool_name,
            provider_call_id,
            call_id,
            response_id,
            status,
            result,
            truncated,
            duration_ms,
        ),
        EventKind::ContextSampled { message_count, byte_size, token_estimate } => encode_context_sampled(
            message_count,
            byte_size,
            token_estimate,
        ),
        EventKind::ContextPersisted { message_count, byte_size } => encode_context_persisted(
            message_count,
            byte_size,
        ),
        EventKind::ContextCompacted { evicted_count, evicted_bytes, carry_over, summary_bytes } => encode_context_compacted(
            evicted_count,
            evicted_bytes,
            carry_over,
            summary_bytes,
        ),
        EventKind::MemoryDemoted { demoted_count, tags } => encode_memory_demoted(
            demoted_count,
            tags,
        ),
        EventKind::MemoryFrameWritten { frame_kind, frame_count_after, bytes_written } => encode_memory_frame_written(
            frame_kind,
            frame_count_after,
            bytes_written,
        ),
        EventKind::ComposeKernelStart { kernel_id, skills_registered, tools_registered } => encode_compose_kernel_start(
            kernel_id,
            skills_registered,
            tools_registered,
        ),
        EventKind::ComposeKernelShutdown { kernel_id, reason } => encode_compose_kernel_shutdown(
            kernel_id,
            reason,
        ),
        EventKind::ComposeLoopIteration { kernel_id, iteration, skill_id, confidence } => encode_compose_loop_iteration(
            kernel_id,
            iteration,
            skill_id,
            confidence,
        ),
        EventKind::ComposeSkillResolved { kernel_id, skill_id, applies, delta, confidence } => encode_compose_skill_resolved(
            kernel_id,
            skill_id,
            applies,
            delta,
            confidence,
        ),
        EventKind::ComposeRetryAttempt { kernel_id, target, attempt, classification } => encode_compose_retry_attempt(
            kernel_id,
            target,
            attempt,
            classification,
        ),
        EventKind::ComposeRecovery { kernel_id, reason, recovered } => encode_compose_recovery(
            kernel_id,
            reason,
            recovered,
        ),
        EventKind::ResponseSessionStarted { model, session_id } => encode_response_session_started(
            model,
            session_id,
        ),
        EventKind::ResponseTurnStarted { session_id, previous_response_id } => encode_response_turn_started(
            session_id,
            previous_response_id,
        ),
        EventKind::ResponseTurnCompleted { session_id, response_id, previous_response_id, status, tokens_in, tokens_out, hosted_tool_calls, duration_ms } => encode_response_turn_completed(
            session_id,
            response_id,
            previous_response_id,
            status,
            tokens_in,
            tokens_out,
            hosted_tool_calls,
            duration_ms,
        ),
        EventKind::ResponseSessionEnded { session_id, reason } => encode_response_session_ended(
            session_id,
            reason,
        ),
        EventKind::EvalReport { report_id, dataset, metric, value, ci_low, ci_high, baseline_value, delta, verdict, sample_size } => encode_eval_report(
            report_id,
            dataset,
            metric,
            value,
            ci_low,
            ci_high,
            baseline_value,
            delta,
            verdict,
            sample_size,
        ),
        EventKind::EmbeddingCompleted { model, documents, tokens_in, duration_ms } => encode_embedding_completed(
            model,
            documents,
            tokens_in,
            duration_ms,
        ),
        EventKind::RetrievalQueried { queries, top_k, results, duration_ms } => encode_retrieval_queried(
            queries,
            top_k,
            results,
            duration_ms,
        ),
        EventKind::RerankCompleted { model, documents_in, documents_out, duration_ms } => encode_rerank_completed(
            model,
            documents_in,
            documents_out,
            duration_ms,
        ),
    }
}

fn decode_prompt_started(fields: &Vec<(String, WireValue)>) -> (kind: Option<EventKind>)
    ensures
        kind.deep_view() == decoded_prompt_started(crate::wire::field_views(fields@)),
{
    match (
        read_text(fields, "model"),
        read_size(fields, "messages_in"),
        read_optional_double(fields, "temperature"),
        read_optional_double(fields, "top_p"),
        read_optional_count(fields, "max_tokens"),
    ) {
        (Some(model), Some(messages_in), Some(temperature), Some(top_p), Some(max_tokens)) => Some(
            EventKind::PromptStarted { model, messages_in, temperature, top_p, max_tokens },
        ),
        _ => None,
    }
}

fn decode_prompt_completed(fields: &Vec<(String, WireValue)>) -> (kind: Option<EventKind>)
    ensures
        kind.deep_view() == decoded_prompt_completed(crate::wire::field_views(fields@)),
{
    match (
        read_text(fields, "model"),
        read_optional_count(fields, "tokens_in"),
        read_optional_count(fields, "tokens_out"),
        read_optional_count(fields, "cached_tokens_in"),
        read_optional_count(fields, "reasoning_tokens"),
        read_optional_double(fields, "cost_usd"),
        read_optional_text(fields, "finish_reason"),
        read_optional_text(fields, "response_id"),
        read_optional_text(fields, "previous_response_id"),
        read_optional_count(fields, "time_to_first_token_ms"),
        read_optional_count(fields, "duration_ms"),
    ) {
        (Some(model), Some(tokens_in), Some(tokens_out), Some(cached_tokens_in), Some(reasoning_tokens), Some(cost_usd), Some(finish_reason), Some(response_id), Some(previous_response_id), Some(time_to_first_token_ms), Some(duration_ms)) => Some(
            EventKind::PromptCompleted { model, tokens_in, tokens_out, cached_tokens_in, reasoning_tokens, cost_usd, finish_reason, response_id, previous_response_id, time_to_first_token_ms, duration_ms },
        ),
        _ => None,
    }
}

fn decode_prompt_failed(fields: &Vec<(String, WireValue)>) -> (kind: Option<EventKind>)
    ensures
        kind.deep_view() == decoded_prompt_failed(crate::wire::field_views(fields@)),
{
    match (
        read_text(fields, "model"),
        read_error_class(fields, "error_class"),
        read_text(fields, "message"),
        read_flag(fields, "retriable"),
        read_optional_text(fields, "provider_error_code"),
        read_optional_status(fields, "http_status"),
    ) {
        (Some(model), Some(error_class), Some(message), Some(retriable), Some(provider_error_code), Some(http_status)) => Some(
            EventKind::PromptFailed { model, error_class, message, retriable, provider_error_code, http_status },
        ),
        _ => None,
    }
}

fn decode_tool_invoked(fields: &Vec<(String, WireValue)>) -> (kind: Option<EventKind>)
    ensures
        kind.deep_view() == decoded_tool_invoked(crate::wire::field_views(fields@)),
{
    match (
        read_text(fields, "tool_name"),
        read_optional_text(fields, "provider_call_id"),
        read_text(fields, "call_id"),
        read_text(fields, "args_json"),
        read_flag(fields, "truncated"),
    ) {
        (Some(tool_name), Some(provider_call_id), Some(call_id), Some(args_json), Some(truncated)) => Some(
            EventKind::ToolInvoked { tool_name, provider_call_id, call_id, args_json, truncated },
        ),
        _ => None,
    }
}

fn decode_tool_completed(fields: &Vec<(String, WireValue)>) -> (kind: Option<EventKind>)
    ensures
        kind.deep_view() == decoded_tool_completed(crate::wire::field_views(fields@)),
{
    match (
        read_text(fields, "tool_name"),
        read_optional_text(fields, "provider_call_id"),
        read_text(fields, "call_id"),
        read_text(fields, "result"),
        read_flag(fields, "truncated"),
        read_optional_count(fields, "duration_ms"),
    ) {
        (Some(tool_name), Some(provider_call_id), Some(call_id), Some(result), Some(truncated), Some(duration_ms)) => Some(
            EventKind::ToolCompleted { tool_name, provider_call_id, call_id, result, truncated, duration_ms },
        ),
        _ => None,
    }
}

fn decode_tool_failed(fields: &Vec<(String, WireValue)>) -> (kind: Option<EventKind>)
    ensures
        kind.deep_view() == decoded_tool_failed(crate::wire::field_views(fields@)),
{
    match (
        read_text(fields, "tool_name"),
        read_text(fields, "call_id"),
        read_error_class(fields, "error_class"),
        read_text(fields, "message"),
    ) {
        (Some(tool_name), Some(call_id), Some(error_class), Some(message)) => Some(
            EventKind::ToolFailed { tool_name, call_id, error_class, message },
        ),
        _ => None,
    }
}

fn decode_tool_skipped(fields: &Vec<(String, WireValue)>) -> (kind: Option<EventKind>)
    ensures
        kind.deep_view() == decoded_tool_skipped(crate::wire::field_views(fields@)),
{
    match (
        read_text(fields, "tool_name"),
        read_text(fields, "call_id"),
        read_text(fields, "reason"),
    ) {
        (Some(tool_name), Some(call_id), Some(reason)) => Some(
            EventKind::ToolSkipped { tool_name, call_id, reason },
        ),
        _ => None,
    }
}

fn decode_tool_terminated(fields: &Vec<(String, WireValue)>) -> (kind: Option<EventKind>)
    ensures
        kind.deep_view() == decoded_tool_terminated(crate::wire::field_views(fields@)),
{
    match (
        read_text(fields, "tool_name"),
        read_text(fields, "call_id"),
        read_text(fields, "reason"),
    ) {
        (Some(tool_name), Some(call_id), Some(reason)) => Some(
            EventKind::ToolTerminated { tool_name, call_id, reason },
        ),
        _ => None,
    }
}

fn decode_tool_hosted_invoked(fields: &Vec<(String, WireValue)>) -> (kind: Option<EventKind>)
    ensures
        kind.deep_view() == decoded_tool_hosted_invoked(crate::wire::field_views(fields@)),
{
    match (
        read_text(fields, "tool_name"),
        read_optional_text(fields, "provider_call_id"),
        read_text(fields, "call_id"),
        read_optional_text(fields, "response_id"),
        read_text(fields, "args_json"),
        read_flag(fields, "truncated"),
    ) {
        (Some(tool_name), Some(provider_call_id), Some(call_id), Some(response_id), Some(args_json), Some(truncated)) => Some(
            EventKind::ToolHostedInvoked { tool_name, provider_call_id, call_id, response_id, args_json, truncated },
        ),
        _ => None,
    }
}

fn decode_tool_hosted_completed(fields: &Vec<(String, WireValue)>) -> (kind: Option<EventKind>)
    ensures
        kind.deep_view() == decoded_tool_hosted_completed(crate::wire::field_views(fields@)),
{
    match (
        read_text(fields, "tool_name"),
        read_optional_text(fields, "provider_call_id"),
        read_text(fields, "call_id"),
        read_optional_text(fields, "response_id"),
        read_optional_text(fields, "status"),
        read_text(fields, "result"),
        read_flag(fields, "truncated"),
        read_optional_count(fields, "duration_ms"),
    ) {
        (Some(tool_name), Some(provider_call_id), Some(call_id), Some(response_id), Some(status), Some(result), Some(truncated), Some(duration_ms)) => Some(
            EventKind::ToolHostedCompleted { tool_name, provider_call_id, call_id, response_id, status, result, truncated, duration_ms },
        ),
        _ => None,
    }
}

fn decode_context_sampled(fields: &Vec<(String, WireValue)>) -> (kind: Option<EventKind>)
    ensures
        kind.deep_view() == decoded_context_sampled(crate::wire::field_views(fields@)),
{
    match (
        read_size(fields, "message_count"),
        read_size(fields, "byte_size"),
        read_optional_count(fields, "token_estimate"),
    ) {
        (Some(message_count), Some(byte_size), Some(token_estimate)) => Some(
            EventKind::ContextSampled { message_count, byte_size, token_estimate },
        ),
        _ => None,
    }
}

fn decode_context_persisted(fields: &Vec<(String, WireValue)>) -> (kind: Option<EventKind>)
    ensures
        kind.deep_view() == decoded_context_persisted(crate::wire::field_views(fields@)),
{
    match (
        read_size(fields, "message_count"),
        read_size(fields, "byte_size"),
    ) {
        (Some(message_count), Some(byte_size)) => Some(
            EventKind::ContextPersisted { message_count, byte_size },
        ),
        _ => None,
    }
}

fn decode_context_compacted(fields: &Vec<(String, WireValue)>) -> (kind: Option<EventKind>)
    ensures
        kind.deep_view() == decoded_context_compacted(crate::wire::field_views(fields@)),
{
    match (
        read_size(fields, "evicted_count"),
        read_size(fields, "evicted_bytes"),
        read_flag(fields, "carry_over"),
        read_size(fields, "summary_bytes"),
    ) {
        (Some(evicted_count), Some(evicted_bytes), Some(carry_over), Some(summary_bytes)) => Some(
            EventKind::ContextCompacted { evicted_count, evicted_bytes, carry_over, summary_bytes },
        ),
        _ => None,
    }
}

fn decode_memory_demoted(fields: &Vec<(String, WireValue)>) -> (kind: Option<EventKind>)
    ensures
        kind.deep_view() == decoded_memory_demoted(crate::wire::field_views(fields@)),
{
    match (
        read_size(fields, "demoted_count"),
        read_texts(fields, "tags"),
    ) {
        (Some(demoted_count), Some(tags)) => Some(
            EventKind::MemoryDemoted { demoted_count, tags },
        ),
        _ => None,
    }
}

fn decode_memory_frame_written(fields: &Vec<(String, WireValue)>) -> (kind: Option<EventKind>)
    ensures
        kind.deep_view() == decoded_memory_frame_written(crate::wire::field_views(fields@)),
{
    match (
        read_text(fields, "frame_kind"),
        read_optional_count(fields, "frame_count_after"),
        read_size(fields, "bytes_written"),
    ) {
        (Some(frame_kind), Some(frame_count_after), Some(bytes_written)) => Some(
            EventKind::MemoryFrameWritten { frame_kind, frame_count_after, bytes_written },
        ),
        _ => None,
    }
}

fn decode_compose_kernel_start(fields: &Vec<(String, WireValue)>) -> (kind: Option<EventKind>)
    ensures
        kind.deep_view() == decoded_compose_kernel_start(crate::wire::field_views(fields@)),
{
    match (
        read_text(fields, "kernel_id"),
        read_optional_size(fields, "skills_registered"),
        read_optional_size(fields, "tools_registered"),
    ) {
        (Some(kernel_id), Some(skills_registered), Some(tools_registered)) => Some(
            EventKind::ComposeKernelStart { kernel_id, skills_registered, tools_registered },
        ),
        _ => None,
    }
}

fn decode_compose_kernel_shutdown(fields: &Vec<(String, WireValue)>) -> (kind: Option<EventKind>)
    ensures
        kind.deep_view() == decoded_compose_kernel_shutdown(crate::wire::field_views(fields@)),
{
    match (
        read_text(fields, "kernel_id"),
        read_text(fields, "reason"),
    ) {
        (Some(kernel_id), Some(reason)) => Some(
            EventKind::ComposeKernelShutdown { kernel_id, reason },
        ),
        _ => None,
    }
}

fn decode_compose_loop_iteration(fields: &Vec<(String, WireValue)>) -> (kind: Option<EventKind>)
    ensures
        kind.deep_view() == decoded_compose_loop_iteration(crate::wire::field_views(fields@)),
{
    match (
        read_text(fields, "kernel_id"),
        read_count(fields, "iteration"),
        read_optional_text(fields, "skill_id"),
        read_optional_double(fields, "confidence"),
    ) {
        (Some(kernel_id), Some(iteration), Some(skill_id), Some(confidence)) => Some(
            EventKind::ComposeLoopIteration { kernel_id, iteration, skill_id, confidence },
        ),
        _ => None,
    }
}

fn decode_compose_skill_resolved(fields: &Vec<(String, WireValue)>) -> (kind: Option<EventKind>)
    ensures
        kind.deep_view() == decoded_compose_skill_resolved(crate::wire::field_views(fields@)),
{
    match (
        read_text(fields, "kernel_id"),
        read_text(fields, "skill_id"),
        read_flag(fields, "applies"),
        read_optional_double(fields, "delta"),
        read_optional_double(fields, "confidence"),
    ) {
        (Some(kernel_id), Some(skill_id), Some(applies), Some(delta), Some(confidence)) => Some(
            EventKind::ComposeSkillResolved { kernel_id, skill_id, applies, delta, confidence },
        ),
        _ => None,
    }
}

fn decode_compose_retry_attempt(fields: &Vec<(String, WireValue)>) -> (kind: Option<EventKind>)
    ensures
        kind.deep_view() == decoded_compose_retry_attempt(crate::wire::field_views(fields@)),
{
    match (
        read_text(fields, "kernel_id"),
        read_text(fields, "target"),
        read_count(fields, "attempt"),
        read_text(fields, "classification"),
    ) {
        (Some(kernel_id), Some(target), Some(attempt), Some(classification)) => Some(
            EventKind::ComposeRetryAttempt { kernel_id, target, attempt, classification },
        ),
        _ => None,
    }
}

fn decode_compose_recovery(fields: &Vec<(String, WireValue)>) -> (kind: Option<EventKind>)
    ensures
        kind.deep_view() == decoded_compose_recovery(crate::wire::field_views(fields@)),
{
    match (
        read_text(fields, "kernel_id"),
        read_text(fields, "reason"),
        read_flag(fields, "recovered"),
    ) {
        (Some(kernel_id), Some(reason), Some(recovered)) => Some(
            EventKind::ComposeRecovery { kernel_id, reason, recovered },
        ),
        _ => None,
    }
}

fn decode_response_session_started(fields: &Vec<(String, WireValue)>) -> (kind: Option<EventKind>)
    ensures
        kind.deep_view() == decoded_response_session_started(crate::wire::field_views(fields@)),
{
    match (
        read_text(fields, "model"),
        read_text(fields, "session_id"),
    ) {
        (Some(model), Some(session_id)) => Some(
            EventKind::ResponseSessionStarted { model, session_id },
        ),
        _ => None,
    }
}

fn decode_response_turn_started(fields: &Vec<(String, WireValue)>) -> (kind: Option<EventKind>)
    ensures
        kind.deep_view() == decoded_response_turn_started(crate::wire::field_views(fields@)),
{
    match (
        read_text(fields, "session_id"),
        read_optional_text(fields, "previous_response_id"),
    ) {
        (Some(session_id), Some(previous_response_id)) => Some(
            EventKind::ResponseTurnStarted { session_id, previous_response_id },
        ),
        _ => None,
    }
}

fn decode_response_turn_completed(fields: &Vec<(String, WireValue)>) -> (kind: Option<EventKind>)
    ensures
        kind.deep_view() == decoded_response_turn_completed(crate::wire::field_views(fields@)),
{
    match (
        read_text(fields, "session_id"),
        read_text(fields, "response_id"),
        read_optional_text(fields, "previous_response_id"),
        read_text(fields, "status"),
        read_optional_count(fields, "tokens_in"),
        read_optional_count(fields, "tokens_out"),
        read_size_or_zero(fields, "hosted_tool_calls"),
        read_optional_count(fields, "duration_ms"),
    ) {
        (Some(session_id), Some(response_id), Some(previous_response_id), Some(status), Some(tokens_in), Some(tokens_out), Some(hosted_tool_calls), Some(duration_ms)) => Some(
            EventKind::ResponseTurnCompleted { session_id, response_id, previous_response_id, status, tokens_in, tokens_out, hosted_tool_calls, duration_ms },
        ),
        _ => None,
    }
}

fn decode_response_session_ended(fields: &Vec<(String, WireValue)>) -> (kind: Option<EventKind>)
    ensures
        kind.deep_view() == decoded_response_session_ended(crate::wire::field_views(fields@)),
{
    match (
        read_text(fields, "session_id"),
        read_text(fields, "reason"),
    ) {
        (Some(session_id), Some(reason)) => Some(
            EventKind::ResponseSessionEnded { session_id, reason },
        ),
        _ => None,
    }
}

fn decode_eval_report(fields: &Vec<(String, WireValue)>) -> (kind: Option<EventKind>)
    ensures
        kind.deep_view() == decoded_eval_report(crate::wire::field_views(fields@)),
{
    match (
        read_text(fields, "report_id"),
        read_text(fields, "dataset"),
        read_text(fields, "metric"),
        read_double_number(fields, "value"),
        read_optional_double(fields, "ci_low"),
        read_optional_double(fields, "ci_high"),
        read_optional_double(fields, "baseline_value"),
        read_optional_double(fields, "delta"),
        read_optional_text(fields, "verdict"),
        read_optional_count(fields, "sample_size"),
    ) {
        (Some(report_id), Some(dataset), Some(metric), Some(value), Some(ci_low), Some(ci_high), Some(baseline_value), Some(delta), Some(verdict), Some(sample_size)) => Some(
            EventKind::EvalReport { report_id, dataset, metric, value, ci_low, ci_high, baseline_value, delta, verdict, sample_size },
        ),
        _ => None,
    }
}

fn decode_embedding_completed(fields: &Vec<(String, WireValue)>) -> (kind: Option<EventKind>)
    ensures
        kind.deep_view() == decoded_embedding_completed(crate::wire::field_views(fields@)),
{
    match (
        read_text(fields, "model"),
        read_size(fields, "documents"),
        read_optional_count(fields, "tokens_in"),
        read_optional_count(fields, "duration_ms"),
    ) {
        (Some(model), Some(documents), Some(tokens_in), Some(duration_ms)) => Some(
            EventKind::EmbeddingCompleted { model, documents, tokens_in, duration_ms },
        ),
        _ => None,
    }
}

fn decode_retrieval_queried(fields: &Vec<(String, WireValue)>) -> (kind: Option<EventKind>)
    ensures
        kind.deep_view() == decoded_retrieval_queried(crate::wire::field_views(fields@)),
{
    match (
        read_texts_or_empty(fields, "queries"),
        read_optional_size(fields, "top_k"),
        read_size(fields, "results"),
        read_optional_count(fields, "duration_ms"),
    ) {
        (Some(queries), Some(top_k), Some(results), Some(duration_ms)) => Some(
            EventKind::RetrievalQueried { queries, top_k, results, duration_ms },
        ),
        _ => None,
    }
}

fn decode_rerank_completed(fields: &Vec<(String, WireValue)>) -> (kind: Option<EventKind>)
    ensures
        kind.deep_view() == decoded_rerank_completed(crate::wire::field_views(fields@)),
{
    match (
        read_text(fields, "model"),
        read_size(fields, "documents_in"),
        read_size(fields, "documents_out"),
        read_optional_count(fields, "duration_ms"),
    ) {
        (Some(model), Some(documents_in), Some(documents_out), Some(duration_ms)) => Some(
            EventKind::RerankCompleted { model, documents_in, documents_out, duration_ms },
        ),
        _ => None,
    }
}

/// Finds the wire name of the kind with the given number.
pub fn kind_with_number(number: u64) -> (name: Option<&'static str>)
    ensures
        name.deep_view() == numbered_kind(number),
{
    match number {
        0 => Some("prompt.started"),
        1 => Some("prompt.completed"),
        2 => Some("prompt.failed"),
        3 => Some("tool.invoked"),
        4 => Some("tool.completed"),
        5 => Some("tool.failed"),
        6 => Some("tool.skipped"),
        7 => Some("tool.terminated"),
        8 => Some("tool.hosted_invoked"),
        9 => Some("tool.hosted_completed"),
        10 => Some("context.sampled"),
        11 => Some("context.persisted"),
        12 => Some("context.compacted"),
        13 => Some("memory.demoted"),
        14 => Some("memory.frame_written"),
        15 => Some("compose.kernel_start"),
        16 => Some("compose.kernel_shutdown"),
        17 => Some("compose.loop_iteration"),
        18 => Some("compose.skill_resolved"),
        19 => Some("compose.retry_attempt"),
        20 => Some("compose.recovery"),
        21 => Some("response.session_started"),
        22 => Some("response.turn_started"),
        23 => Some("response.turn_completed"),
        24 => Some("response.session_ended"),
        25 => Some("eval.report"),
        26 => Some("embedding.completed"),
        27 => Some("retrieval.queried"),
        28 => Some("rerank.completed"),
        _ => None,
    }
}

/// Reads the payload with the wire name `name`.
pub fn decode_kind(name: &str, fields: &Vec<(String, WireValue)>) -> (kind: Option<EventKind>)
    ensures
        kind.deep_view() == decoded_kind(name@, crate::wire::field_views(fields@)),
{
    if same_text(name, "prompt.started") {
        decode_prompt_started(fields)
    } else if same_text(name, "prompt.completed") {
        decode_prompt_completed(fields)
    } else if same_text(name, "prompt.failed") {
        decode_prompt_failed(fields)
    } else if same_text(name, "tool.invoked") {
        decode_tool_invoked(fields)
    } else if same_text(name, "tool.completed") {
        decode_tool_completed(fields)
    } else if same_text(name, "tool.failed") {
        decode_tool_failed(fields)
    } else if same_text(name, "tool.skipped") {
        decode_tool_skipped(fields)
    } else if same_text(name, "tool.terminated") {
        decode_tool_terminated(fields)
    } else if same_text(name, "tool.hosted_invoked") {
        decode_tool_hosted_invoked(fields)
    } else if same_text(name, "tool.hosted_completed") {
        decode_tool_hosted_completed(fields)
    } else if same_text(name, "context.sampled") {
        decode_context_sampled(fields)
    } else if same_text(name, "context.persisted") {
        decode_context_persisted(fields)
    } else if same_text(name, "context.compacted") {
        decode_context_compacted(fields)
    } else if same_text(name, "memory.demoted") {
        decode_memory_demoted(fields)
    } else if same_text(name, "memory.frame_written") {
        decode_memory_frame_written(fields)
    } else if same_text(name, "compose.kernel_start") {
        decode_compose_kernel_start(fields)
    } else if same_text(name, "compose.kernel_shutdown") {
        decode_compose_kernel_shutdown(fields)
    } else if same_text(name, "compose.loop_iteration") {
        decode_compose_loop_iteration(fields)
    } else if same_text(name, "compose.skill_resolved") {
        decode_compose_skill_resolved(fields)
    } else if same_text(name, "compose.retry_attempt") {
        decode_compose_retry_attempt(fields)
    } else if same_text(name, "compose.recovery") {
        decode_compose_recovery(fields)
    } else if same_text(name, "response.session_started") {
        decode_response_session_started(fields)
    } else if same_text(name, "response.turn_started") {
        decode_response_turn_started(fields)
    } else if same_text(name, "response.turn_completed") {
        decode_response_turn_completed(fields)
    } else if same_text(name, "response.session_ended") {
        decode_response_session_ended(fields)
    } else if same_text(name, "eval.report") {
        decode_eval_report(fields)
    } else if same_text(name, "embedding.completed") {
        decode_embedding_completed(fields)
    } else if same_text(name, "retrieval.queried") {
        decode_retrieval_queried(fields)
    } else if same_text(name, "rerank.completed") {
        decode_rerank_completed(fields)
    } else {
        None
    }
}

} // verus!
