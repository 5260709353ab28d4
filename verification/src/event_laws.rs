//! What an event surfaces beside its wire form: its name, its family, its
//! scalar correlators, and what a filter sees of it.

use vstd::prelude::*;

use crate::emit::Emission;
use crate::event::{EventKind, ObservabilityEvent, ScalarFields};
use crate::query::EventFilter;
use crate::wire::WireValue;

verus! {

/// The characters of an optional text, none where it is absent.
pub open spec fn chars_of(text: Option<String>) -> Seq<char> {
    match text {
        Some(text) => text@,
        None => Seq::empty(),
    }
}

/// The constants of the schema.
pub proof fn lemma_schema_constants()
    ensures
        crate::event::SCHEMA_VERSION == 1,
        crate::event::PAYLOAD_TRUNCATE_BYTES == 4096,
        crate::emit::EVENT_TARGET@ == "rig_tap"@,
{
}

/// Every kind has the wire name of the schema.
pub proof fn lemma_wire_names(kind: EventKind)
    ensures
        kind@.discriminant() == (match kind {
            EventKind::PromptStarted { .. } => "prompt.started"@,
            EventKind::PromptCompleted { .. } => "prompt.completed"@,
            EventKind::PromptFailed { .. } => "prompt.failed"@,
            EventKind::ToolInvoked { .. } => "tool.invoked"@,
            EventKind::ToolCompleted { .. } => "tool.completed"@,
            EventKind::ToolFailed { .. } => "tool.failed"@,
            EventKind::ToolSkipped { .. } => "tool.skipped"@,
            EventKind::ToolTerminated { .. } => "tool.terminated"@,
            EventKind::ToolHostedInvoked { .. } => "tool.hosted_invoked"@,
            EventKind::ToolHostedCompleted { .. } => "tool.hosted_completed"@,
            EventKind::ContextSampled { .. } => "context.sampled"@,
            EventKind::ContextPersisted { .. } => "context.persisted"@,
            EventKind::ContextCompacted { .. } => "context.compacted"@,
            EventKind::MemoryDemoted { .. } => "memory.demoted"@,
            EventKind::MemoryFrameWritten { .. } => "memory.frame_written"@,
            EventKind::ComposeKernelStart { .. } => "compose.kernel_start"@,
            EventKind::ComposeKernelShutdown { .. } => "compose.kernel_shutdown"@,
            EventKind::ComposeLoopIteration { .. } => "compose.loop_iteration"@,
            EventKind::ComposeSkillResolved { .. } => "compose.skill_resolved"@,
            EventKind::ComposeRetryAttempt { .. } => "compose.retry_attempt"@,
            EventKind::ComposeRecovery { .. } => "compose.recovery"@,
            EventKind::ResponseSessionStarted { .. } => "response.session_started"@,
            EventKind::ResponseTurnStarted { .. } => "response.turn_started"@,
            EventKind::ResponseTurnCompleted { .. } => "response.turn_completed"@,
            EventKind::ResponseSessionEnded { .. } => "response.session_ended"@,
            EventKind::EvalReport { .. } => "eval.report"@,
            EventKind::EmbeddingCompleted { .. } => "embedding.completed"@,
            EventKind::RetrievalQueried { .. } => "retrieval.queried"@,
            EventKind::RerankCompleted { .. } => "rerank.completed"@,
        }),
{
}

/// Every event surfaces its own members as its scalars, each under its own
/// name, and the empty text for what it does not have; a retry surfaces its
/// target as the name of the tool.
pub proof fn lemma_scalars(kind: EventKind, fields: ScalarFields<'_>)
    requires
        fields@ == kind@.scalars(),
    ensures
        fields.kernel_id@ == (match kind {
            EventKind::ComposeKernelStart { kernel_id, .. } => kernel_id@,
            EventKind::ComposeKernelShutdown { kernel_id, .. } => kernel_id@,
            EventKind::ComposeLoopIteration { kernel_id, .. } => kernel_id@,
            EventKind::ComposeSkillResolved { kernel_id, .. } => kernel_id@,
            EventKind::ComposeRetryAttempt { kernel_id, .. } => kernel_id@,
            EventKind::ComposeRecovery { kernel_id, .. } => kernel_id@,
            _ => Seq::empty(),
        }),
        fields.tool_name@ == (match kind {
            EventKind::ToolInvoked { tool_name, .. } => tool_name@,
            EventKind::ToolCompleted { tool_name, .. } => tool_name@,
            EventKind::ToolFailed { tool_name, .. } => tool_name@,
            EventKind::ToolSkipped { tool_name, .. } => tool_name@,
            EventKind::ToolTerminated { tool_name, .. } => tool_name@,
            EventKind::ToolHostedInvoked { tool_name, .. } => tool_name@,
            EventKind::ToolHostedCompleted { tool_name, .. } => tool_name@,
            EventKind::ComposeRetryAttempt { target, .. } => target@,
            _ => Seq::empty(),
        }),
        fields.call_id@ == (match kind {
            EventKind::ToolInvoked { call_id, .. } => call_id@,
            EventKind::ToolCompleted { call_id, .. } => call_id@,
            EventKind::ToolFailed { call_id, .. } => call_id@,
            EventKind::ToolSkipped { call_id, .. } => call_id@,
            EventKind::ToolTerminated { call_id, .. } => call_id@,
            EventKind::ToolHostedInvoked { call_id, .. } => call_id@,
            EventKind::ToolHostedCompleted { call_id, .. } => call_id@,
            _ => Seq::empty(),
        }),
        fields.skill_id@ == (match kind {
            EventKind::ComposeLoopIteration { skill_id, .. } => chars_of(skill_id),
            EventKind::ComposeSkillResolved { skill_id, .. } => skill_id@,
            _ => Seq::empty(),
        }),
        fields.model@ == (match kind {
            EventKind::PromptStarted { model, .. } => model@,
            EventKind::PromptCompleted { model, .. } => model@,
            EventKind::PromptFailed { model, .. } => model@,
            EventKind::ResponseSessionStarted { model, .. } => model@,
            EventKind::EmbeddingCompleted { model, .. } => model@,
            EventKind::RerankCompleted { model, .. } => model@,
            _ => Seq::empty(),
        }),
        fields.response_id@ == (match kind {
            EventKind::PromptCompleted { response_id, .. } => chars_of(response_id),
            EventKind::ToolHostedInvoked { response_id, .. } => chars_of(response_id),
            EventKind::ToolHostedCompleted { response_id, .. } => chars_of(response_id),
            EventKind::ResponseTurnCompleted { response_id, .. } => response_id@,
            _ => Seq::empty(),
        }),
        fields.previous_response_id@ == (match kind {
            EventKind::PromptCompleted { previous_response_id, .. } => chars_of(previous_response_id),
            EventKind::ResponseTurnStarted { previous_response_id, .. } => chars_of(previous_response_id),
            EventKind::ResponseTurnCompleted { previous_response_id, .. } => chars_of(previous_response_id),
            _ => Seq::empty(),
        }),
        fields.dataset@ == (match kind {
            EventKind::EvalReport { dataset, .. } => dataset@,
            _ => Seq::empty(),
        }),
        fields.metric@ == (match kind {
            EventKind::EvalReport { metric, .. } => metric@,
            _ => Seq::empty(),
        }),
        fields.verdict@ == (match kind {
            EventKind::EvalReport { verdict, .. } => chars_of(verdict),
            _ => Seq::empty(),
        }),
        fields.error_class@ == (match kind {
            EventKind::PromptFailed { error_class, .. } => crate::schema_laws::class_name(error_class),
            EventKind::ToolFailed { error_class, .. } => crate::schema_laws::class_name(error_class),
            _ => Seq::empty(),
        }),
{
}

/// Whether a scalar is the text that stands under `key` on the wire, or empty
/// where none does.
pub open spec fn mirrors(
    fields: Seq<(String, WireValue)>,
    key: Seq<char>,
    scalar: Seq<char>,
) -> bool {
    ||| crate::schema_laws::text_at(fields, key, scalar)
    ||| crate::schema_laws::absent(fields, key) && scalar.len() == 0
}

/// An event has no field on the wire but those of the envelope and of its own
/// payload.
pub proof fn lemma_no_other_fields(
    event: ObservabilityEvent,
    fields: Seq<(String, WireValue)>,
    key: Seq<char>,
)
    requires
        crate::wire::field_views(fields) == crate::wire::event_fields(event@),
        !crate::wire_laws::envelope_key(key),
        !crate::wire_laws::payload_key(event.kind@, key),
    ensures
        crate::schema_laws::absent(fields, key),
{
    broadcast use {crate::wire::lemma_lookup_join, crate::wire::lemma_lookup_field};

    crate::wire_laws::lemma_envelope_alone(event@);
    crate::schema_laws::lemma_lookup_is_the_one_field(fields, key);
}

/// The scalar `kernel_id` can be read from the wire form without parsing the
/// rest: it is the text under that name.
pub proof fn lemma_kernel_id_mirrors_the_wire(
    event: ObservabilityEvent,
    fields: Seq<(String, WireValue)>,
)
    requires
        crate::wire::field_views(fields) == crate::wire::event_fields(event@),
    ensures
        mirrors(fields, "kernel_id"@, event.kind@.scalars().kernel_id),
{
    match event.kind {
        EventKind::ComposeKernelStart { .. } => {
            crate::schema_laws::lemma_compose_kernel_start_is_written(event, fields);
        },
        EventKind::ComposeKernelShutdown { .. } => {
            crate::schema_laws::lemma_compose_kernel_shutdown_is_written(event, fields);
        },
        EventKind::ComposeLoopIteration { .. } => {
            crate::schema_laws::lemma_compose_loop_iteration_is_written(event, fields);
        },
        EventKind::ComposeSkillResolved { .. } => {
            crate::schema_laws::lemma_compose_skill_resolved_is_written(event, fields);
        },
        EventKind::ComposeRetryAttempt { .. } => {
            crate::schema_laws::lemma_compose_retry_attempt_is_written(event, fields);
        },
        EventKind::ComposeRecovery { .. } => {
            crate::schema_laws::lemma_compose_recovery_is_written(event, fields);
        },
        _ => {
            crate::wire_laws::lemma_key_codes();
            lemma_no_other_fields(event, fields, "kernel_id"@);
        },
    }
}

/// The scalar `tool_name` can be read from the wire form without parsing the
/// rest: it is the text under that name, or for a retry the text under `target`.
pub proof fn lemma_tool_name_mirrors_the_wire(
    event: ObservabilityEvent,
    fields: Seq<(String, WireValue)>,
)
    requires
        crate::wire::field_views(fields) == crate::wire::event_fields(event@),
    ensures
        if event.kind is ComposeRetryAttempt {
            crate::schema_laws::text_at(fields, "target"@, event.kind@.scalars().tool_name)
        } else {
            mirrors(fields, "tool_name"@, event.kind@.scalars().tool_name)
        },
{
    match event.kind {
        EventKind::ToolInvoked { .. } => {
            crate::schema_laws::lemma_tool_invoked_is_written(event, fields);
        },
        EventKind::ToolCompleted { .. } => {
            crate::schema_laws::lemma_tool_completed_is_written(event, fields);
        },
        EventKind::ToolFailed { .. } => {
            crate::schema_laws::lemma_tool_failed_is_written(event, fields);
        },
        EventKind::ToolSkipped { .. } => {
            crate::schema_laws::lemma_tool_skipped_is_written(event, fields);
        },
        EventKind::ToolTerminated { .. } => {
            crate::schema_laws::lemma_tool_terminated_is_written(event, fields);
        },
        EventKind::ToolHostedInvoked { .. } => {
            crate::schema_laws::lemma_tool_hosted_invoked_is_written(event, fields);
        },
        EventKind::ToolHostedCompleted { .. } => {
            crate::schema_laws::lemma_tool_hosted_completed_is_written(event, fields);
        },
        EventKind::ComposeRetryAttempt { .. } => {
            crate::schema_laws::lemma_compose_retry_attempt_is_written(event, fields);
        },
        _ => {
            crate::wire_laws::lemma_key_codes();
            lemma_no_other_fields(event, fields, "tool_name"@);
        },
    }
}

/// The scalar `call_id` can be read from the wire form without parsing the
/// rest: it is the text under that name.
pub proof fn lemma_call_id_mirrors_the_wire(
    event: ObservabilityEvent,
    fields: Seq<(String, WireValue)>,
)
    requires
        crate::wire::field_views(fields) == crate::wire::event_fields(event@),
    ensures
        mirrors(fields, "call_id"@, event.kind@.scalars().call_id),
{
    match event.kind {
        EventKind::ToolInvoked { .. } => {
            crate::schema_laws::lemma_tool_invoked_is_written(event, fields);
        },
        EventKind::ToolCompleted { .. } => {
            crate::schema_laws::lemma_tool_completed_is_written(event, fields);
        },
        EventKind::ToolFailed { .. } => {
            crate::schema_laws::lemma_tool_failed_is_written(event, fields);
        },
        EventKind::ToolSkipped { .. } => {
            crate::schema_laws::lemma_tool_skipped_is_written(event, fields);
        },
        EventKind::ToolTerminated { .. } => {
            crate::schema_laws::lemma_tool_terminated_is_written(event, fields);
        },
        EventKind::ToolHostedInvoked { .. } => {
            crate::schema_laws::lemma_tool_hosted_invoked_is_written(event, fields);
        },
        EventKind::ToolHostedCompleted { .. } => {
            crate::schema_laws::lemma_tool_hosted_completed_is_written(event, fields);
        },
        _ => {
            crate::wire_laws::lemma_key_codes();
            lemma_no_other_fields(event, fields, "call_id"@);
        },
    }
}

/// The scalar `skill_id` can be read from the wire form without parsing the
/// rest: it is the text under that name.
pub proof fn lemma_skill_id_mirrors_the_wire(
    event: ObservabilityEvent,
    fields: Seq<(String, WireValue)>,
)
    requires
        crate::wire::field_views(fields) == crate::wire::event_fields(event@),
    ensures
        mirrors(fields, "skill_id"@, event.kind@.scalars().skill_id),
{
    match event.kind {
        EventKind::ComposeLoopIteration { .. } => {
            crate::schema_laws::lemma_compose_loop_iteration_is_written(event, fields);
        },
        EventKind::ComposeSkillResolved { .. } => {
            crate::schema_laws::lemma_compose_skill_resolved_is_written(event, fields);
        },
        _ => {
            crate::wire_laws::lemma_key_codes();
            lemma_no_other_fields(event, fields, "skill_id"@);
        },
    }
}

/// The scalar `model` can be read from the wire form without parsing the
/// rest: it is the text under that name.
pub proof fn lemma_model_mirrors_the_wire(
    event: ObservabilityEvent,
    fields: Seq<(String, WireValue)>,
)
    requires
        crate::wire::field_views(fields) == crate::wire::event_fields(event@),
    ensures
        mirrors(fields, "model"@, event.kind@.scalars().model),
{
    match event.kind {
        EventKind::PromptStarted { .. } => {
            crate::schema_laws::lemma_prompt_started_is_written(event, fields);
        },
        EventKind::PromptCompleted { .. } => {
            crate::schema_laws::lemma_prompt_completed_is_written(event, fields);
        },
        EventKind::PromptFailed { .. } => {
            crate::schema_laws::lemma_prompt_failed_is_written(event, fields);
        },
        EventKind::ResponseSessionStarted { .. } => {
            crate::schema_laws::lemma_response_session_started_is_written(event, fields);
        },
        EventKind::EmbeddingCompleted { .. } => {
            crate::schema_laws::lemma_embedding_completed_is_written(event, fields);
        },
        EventKind::RerankCompleted { .. } => {
            crate::schema_laws::lemma_rerank_completed_is_written(event, fields);
        },
        _ => {
            crate::wire_laws::lemma_key_codes();
            lemma_no_other_fields(event, fields, "model"@);
        },
    }
}

/// The scalar `response_id` can be read from the wire form without parsing the
/// rest: it is the text under that name.
pub proof fn lemma_response_id_mirrors_the_wire(
    event: ObservabilityEvent,
    fields: Seq<(String, WireValue)>,
)
    requires
        crate::wire::field_views(fields) == crate::wire::event_fields(event@),
    ensures
        mirrors(fields, "response_id"@, event.kind@.scalars().response_id),
{
    match event.kind {
        EventKind::PromptCompleted { .. } => {
            crate::schema_laws::lemma_prompt_completed_is_written(event, fields);
        },
        EventKind::ToolHostedInvoked { .. } => {
            crate::schema_laws::lemma_tool_hosted_invoked_is_written(event, fields);
        },
        EventKind::ToolHostedCompleted { .. } => {
            crate::schema_laws::lemma_tool_hosted_completed_is_written(event, fields);
        },
        EventKind::ResponseTurnCompleted { .. } => {
            crate::schema_laws::lemma_response_turn_completed_is_written(event, fields);
        },
        _ => {
            crate::wire_laws::lemma_key_codes();
            lemma_no_other_fields(event, fields, "response_id"@);
        },
    }
}

/// The scalar `previous_response_id` can be read from the wire form without parsing the
/// rest: it is the text under that name.
pub proof fn lemma_previous_response_id_mirrors_the_wire(
    event: ObservabilityEvent,
    fields: Seq<(String, WireValue)>,
)
    requires
        crate::wire::field_views(fields) == crate::wire::event_fields(event@),
    ensures
        mirrors(fields, "previous_response_id"@, event.kind@.scalars().previous_response_id),
{
    match event.kind {
        EventKind::PromptCompleted { .. } => {
            crate::schema_laws::lemma_prompt_completed_is_written(event, fields);
        },
        EventKind::ResponseTurnStarted { .. } => {
            crate::schema_laws::lemma_response_turn_started_is_written(event, fields);
        },
        EventKind::ResponseTurnCompleted { .. } => {
            crate::schema_laws::lemma_response_turn_completed_is_written(event, fields);
        },
        _ => {
            crate::wire_laws::lemma_key_codes();
            lemma_no_other_fields(event, fields, "previous_response_id"@);
        },
    }
}

/// The scalar `dataset` can be read from the wire form without parsing the
/// rest: it is the text under that name.
pub proof fn lemma_dataset_mirrors_the_wire(
    event: ObservabilityEvent,
    fields: Seq<(String, WireValue)>,
)
    requires
        crate::wire::field_views(fields) == crate::wire::event_fields(event@),
    ensures
        mirrors(fields, "dataset"@, event.kind@.scalars().dataset),
{
    match event.kind {
        EventKind::EvalReport { .. } => {
            crate::schema_laws::lemma_eval_report_is_written(event, fields);
        },
        _ => {
            crate::wire_laws::lemma_key_codes();
            lemma_no_other_fields(event, fields, "dataset"@);
        },
    }
}

/// The scalar `metric` can be read from the wire form without parsing the
/// rest: it is the text under that name.
pub proof fn lemma_metric_mirrors_the_wire(
    event: ObservabilityEvent,
    fields: Seq<(String, WireValue)>,
)
    requires
        crate::wire::field_views(fields) == crate::wire::event_fields(event@),
    ensures
        mirrors(fields, "metric"@, event.kind@.scalars().metric),
{
    match event.kind {
        EventKind::EvalReport { .. } => {
            crate::schema_laws::lemma_eval_report_is_written(event, fields);
        },
        _ => {
            crate::wire_laws::lemma_key_codes();
            lemma_no_other_fields(event, fields, "metric"@);
        },
    }
}

/// The scalar `verdict` can be read from the wire form without parsing the
/// rest: it is the text under that name.
pub proof fn lemma_verdict_mirrors_the_wire(
    event: ObservabilityEvent,
    fields: Seq<(String, WireValue)>,
)
    requires
        crate::wire::field_views(fields) == crate::wire::event_fields(event@),
    ensures
        mirrors(fields, "verdict"@, event.kind@.scalars().verdict),
{
    match event.kind {
        EventKind::EvalReport { .. } => {
            crate::schema_laws::lemma_eval_report_is_written(event, fields);
        },
        _ => {
            crate::wire_laws::lemma_key_codes();
            lemma_no_other_fields(event, fields, "verdict"@);
        },
    }
}

/// The scalar `error_class` can be read from the wire form without parsing the
/// rest: it is the text under that name.
pub proof fn lemma_error_class_mirrors_the_wire(
    event: ObservabilityEvent,
    fields: Seq<(String, WireValue)>,
)
    requires
        crate::wire::field_views(fields) == crate::wire::event_fields(event@),
    ensures
        mirrors(fields, "error_class"@, event.kind@.scalars().error_class),
{
    match event.kind {
        EventKind::PromptFailed { .. } => {
            crate::schema_laws::lemma_prompt_failed_is_written(event, fields);
        },
        EventKind::ToolFailed { .. } => {
            crate::schema_laws::lemma_tool_failed_is_written(event, fields);
        },
        _ => {
            crate::wire_laws::lemma_key_codes();
            lemma_no_other_fields(event, fields, "error_class"@);
        },
    }
}

/// Whether a text begins with `prefix`.
pub open spec fn begins(text: Seq<char>, prefix: Seq<char>) -> bool {
    prefix.len() <= text.len() && text.take(prefix.len() as int) == prefix
}

/// Whether a text ends in `suffix`.
pub open spec fn finishes(text: Seq<char>, suffix: Seq<char>) -> bool {
    suffix.len() <= text.len() && text.skip(text.len() - suffix.len()) == suffix
}

/// The wire name tells the family: an event belongs to it if and only if its
/// name begins with `prompt.`.
pub proof fn lemma_prompt_related(kind: crate::event::KindView)
    ensures
        kind.prompt_related() <==> (begins(kind.discriminant(), "prompt."@)),
{
    reveal_strlit("prompt.");
    match kind {
        crate::event::KindView::PromptStarted { .. } => {
            reveal_strlit("prompt.started");
            assert("prompt.started"@.take(7) =~= "prompt."@);
        },
        crate::event::KindView::PromptCompleted { .. } => {
            reveal_strlit("prompt.completed");
            assert("prompt.completed"@.take(7) =~= "prompt."@);
        },
        crate::event::KindView::PromptFailed { .. } => {
            reveal_strlit("prompt.failed");
            assert("prompt.failed"@.take(7) =~= "prompt."@);
        },
        crate::event::KindView::ToolInvoked { .. } => {
            reveal_strlit("tool.invoked");
            assert("tool.invoked"@.take(7)[0] != "prompt."@[0]);
        },
        crate::event::KindView::ToolCompleted { .. } => {
            reveal_strlit("tool.completed");
            assert("tool.completed"@.take(7)[0] != "prompt."@[0]);
        },
        crate::event::KindView::ToolFailed { .. } => {
            reveal_strlit("tool.failed");
            assert("tool.failed"@.take(7)[0] != "prompt."@[0]);
        },
        crate::event::KindView::ToolSkipped { .. } => {
            reveal_strlit("tool.skipped");
            assert("tool.skipped"@.take(7)[0] != "prompt."@[0]);
        },
        crate::event::KindView::ToolTerminated { .. } => {
            reveal_strlit("tool.terminated");
            assert("tool.terminated"@.take(7)[0] != "prompt."@[0]);
        },
        crate::event::KindView::ToolHostedInvoked { .. } => {
            reveal_strlit("tool.hosted_invoked");
            assert("tool.hosted_invoked"@.take(7)[0] != "prompt."@[0]);
        },
        crate::event::KindView::ToolHostedCompleted { .. } => {
            reveal_strlit("tool.hosted_completed");
            assert("tool.hosted_completed"@.take(7)[0] != "prompt."@[0]);
        },
        crate::event::KindView::ContextSampled { .. } => {
            reveal_strlit("context.sampled");
            assert("context.sampled"@.take(7)[0] != "prompt."@[0]);
        },
        crate::event::KindView::ContextPersisted { .. } => {
            reveal_strlit("context.persisted");
            assert("context.persisted"@.take(7)[0] != "prompt."@[0]);
        },
        crate::event::KindView::ContextCompacted { .. } => {
            reveal_strlit("context.compacted");
            assert("context.compacted"@.take(7)[0] != "prompt."@[0]);
        },
        crate::event::KindView::MemoryDemoted { .. } => {
            reveal_strlit("memory.demoted");
            assert("memory.demoted"@.take(7)[0] != "prompt."@[0]);
        },
        crate::event::KindView::MemoryFrameWritten { .. } => {
            reveal_strlit("memory.frame_written");
            assert("memory.frame_written"@.take(7)[0] != "prompt."@[0]);
        },
        crate::event::KindView::ComposeKernelStart { .. } => {
            reveal_strlit("compose.kernel_start");
            assert("compose.kernel_start"@.take(7)[0] != "prompt."@[0]);
        },
        crate::event::KindView::ComposeKernelShutdown { .. } => {
            reveal_strlit("compose.kernel_shutdown");
            assert("compose.kernel_shutdown"@.take(7)[0] != "prompt."@[0]);
        },
        crate::event::KindView::ComposeLoopIteration { .. } => {
            reveal_strlit("compose.loop_iteration");
            assert("compose.loop_iteration"@.take(7)[0] != "prompt."@[0]);
        },
        crate::event::KindView::ComposeSkillResolved { .. } => {
            reveal_strlit("compose.skill_resolved");
            assert("compose.skill_resolved"@.take(7)[0] != "prompt."@[0]);
        },
        crate::event::KindView::ComposeRetryAttempt { .. } => {
            reveal_strlit("compose.retry_attempt");
            assert("compose.retry_attempt"@.take(7)[0] != "prompt."@[0]);
        },
        crate::event::KindView::ComposeRecovery { .. } => {
            reveal_strlit("compose.recovery");
            assert("compose.recovery"@.take(7)[0] != "prompt."@[0]);
        },
        crate::event::KindView::ResponseSessionStarted { .. } => {
            reveal_strlit("response.session_started");
            assert("response.session_started"@.take(7)[0] != "prompt."@[0]);
        },
        crate::event::KindView::ResponseTurnStarted { .. } => {
            reveal_strlit("response.turn_started");
            assert("response.turn_started"@.take(7)[0] != "prompt."@[0]);
        },
        crate::event::KindView::ResponseTurnCompleted { .. } => {
            reveal_strlit("response.turn_completed");
            assert("response.turn_completed"@.take(7)[0] != "prompt."@[0]);
        },
        crate::event::KindView::ResponseSessionEnded { .. } => {
            reveal_strlit("response.session_ended");
            assert("response.session_ended"@.take(7)[0] != "prompt."@[0]);
        },
        crate::event::KindView::EvalReport { .. } => {
            reveal_strlit("eval.report");
            assert("eval.report"@.take(7)[0] != "prompt."@[0]);
        },
        crate::event::KindView::EmbeddingCompleted { .. } => {
            reveal_strlit("embedding.completed");
            assert("embedding.completed"@.take(7)[0] != "prompt."@[0]);
        },
        crate::event::KindView::RetrievalQueried { .. } => {
            reveal_strlit("retrieval.queried");
            assert("retrieval.queried"@.take(7)[0] != "prompt."@[0]);
        },
        crate::event::KindView::RerankCompleted { .. } => {
            reveal_strlit("rerank.completed");
            assert("rerank.completed"@.take(7)[0] != "prompt."@[0]);
        },
    }
}

/// The wire name tells the family: an event belongs to it if and only if its
/// name begins with `tool.`.
pub proof fn lemma_tool_related(kind: crate::event::KindView)
    ensures
        kind.tool_related() <==> (begins(kind.discriminant(), "tool."@)),
{
    reveal_strlit("tool.");
    match kind {
        crate::event::KindView::PromptStarted { .. } => {
            reveal_strlit("prompt.started");
            assert("prompt.started"@.take(5)[0] != "tool."@[0]);
        },
        crate::event::KindView::PromptCompleted { .. } => {
            reveal_strlit("prompt.completed");
            assert("prompt.completed"@.take(5)[0] != "tool."@[0]);
        },
        crate::event::KindView::PromptFailed { .. } => {
            reveal_strlit("prompt.failed");
            assert("prompt.failed"@.take(5)[0] != "tool."@[0]);
        },
        crate::event::KindView::ToolInvoked { .. } => {
            reveal_strlit("tool.invoked");
            assert("tool.invoked"@.take(5) =~= "tool."@);
        },
        crate::event::KindView::ToolCompleted { .. } => {
            reveal_strlit("tool.completed");
            assert("tool.completed"@.take(5) =~= "tool."@);
        },
        crate::event::KindView::ToolFailed { .. } => {
            reveal_strlit("tool.failed");
            assert("tool.failed"@.take(5) =~= "tool."@);
        },
        crate::event::KindView::ToolSkipped { .. } => {
            reveal_strlit("tool.skipped");
            assert("tool.skipped"@.take(5) =~= "tool."@);
        },
        crate::event::KindView::ToolTerminated { .. } => {
            reveal_strlit("tool.terminated");
            assert("tool.terminated"@.take(5) =~= "tool."@);
        },
        crate::event::KindView::ToolHostedInvoked { .. } => {
            reveal_strlit("tool.hosted_invoked");
            assert("tool.hosted_invoked"@.take(5) =~= "tool."@);
        },
        crate::event::KindView::ToolHostedCompleted { .. } => {
            reveal_strlit("tool.hosted_completed");
            assert("tool.hosted_completed"@.take(5) =~= "tool."@);
        },
        crate::event::KindView::ContextSampled { .. } => {
            reveal_strlit("context.sampled");
            assert("context.sampled"@.take(5)[0] != "tool."@[0]);
        },
        crate::event::KindView::ContextPersisted { .. } => {
            reveal_strlit("context.persisted");
            assert("context.persisted"@.take(5)[0] != "tool."@[0]);
        },
        crate::event::KindView::ContextCompacted { .. } => {
            reveal_strlit("context.compacted");
            assert("context.compacted"@.take(5)[0] != "tool."@[0]);
        },
        crate::event::KindView::MemoryDemoted { .. } => {
            reveal_strlit("memory.demoted");
            assert("memory.demoted"@.take(5)[0] != "tool."@[0]);
        },
        crate::event::KindView::MemoryFrameWritten { .. } => {
            reveal_strlit("memory.frame_written");
            assert("memory.frame_written"@.take(5)[0] != "tool."@[0]);
        },
        crate::event::KindView::ComposeKernelStart { .. } => {
            reveal_strlit("compose.kernel_start");
            assert("compose.kernel_start"@.take(5)[0] != "tool."@[0]);
        },
        crate::event::KindView::ComposeKernelShutdown { .. } => {
            reveal_strlit("compose.kernel_shutdown");
            assert("compose.kernel_shutdown"@.take(5)[0] != "tool."@[0]);
        },
        crate::event::KindView::ComposeLoopIteration { .. } => {
            reveal_strlit("compose.loop_iteration");
            assert("compose.loop_iteration"@.take(5)[0] != "tool."@[0]);
        },
        crate::event::KindView::ComposeSkillResolved { .. } => {
            reveal_strlit("compose.skill_resolved");
            assert("compose.skill_resolved"@.take(5)[0] != "tool."@[0]);
        },
        crate::event::KindView::ComposeRetryAttempt { .. } => {
            reveal_strlit("compose.retry_attempt");
            assert("compose.retry_attempt"@.take(5)[0] != "tool."@[0]);
        },
        crate::event::KindView::ComposeRecovery { .. } => {
            reveal_strlit("compose.recovery");
            assert("compose.recovery"@.take(5)[0] != "tool."@[0]);
        },
        crate::event::KindView::ResponseSessionStarted { .. } => {
            reveal_strlit("response.session_started");
            assert("response.session_started"@.take(5)[0] != "tool."@[0]);
        },
        crate::event::KindView::ResponseTurnStarted { .. } => {
            reveal_strlit("response.turn_started");
            assert("response.turn_started"@.take(5)[0] != "tool."@[0]);
        },
        crate::event::KindView::ResponseTurnCompleted { .. } => {
            reveal_strlit("response.turn_completed");
            assert("response.turn_completed"@.take(5)[0] != "tool."@[0]);
        },
        crate::event::KindView::ResponseSessionEnded { .. } => {
            reveal_strlit("response.session_ended");
            assert("response.session_ended"@.take(5)[0] != "tool."@[0]);
        },
        crate::event::KindView::EvalReport { .. } => {
            reveal_strlit("eval.report");
            assert("eval.report"@.take(5)[0] != "tool."@[0]);
        },
        crate::event::KindView::EmbeddingCompleted { .. } => {
            reveal_strlit("embedding.completed");
            assert("embedding.completed"@.take(5)[0] != "tool."@[0]);
        },
        crate::event::KindView::RetrievalQueried { .. } => {
            reveal_strlit("retrieval.queried");
            assert("retrieval.queried"@.take(5)[0] != "tool."@[0]);
        },
        crate::event::KindView::RerankCompleted { .. } => {
            reveal_strlit("rerank.completed");
            assert("rerank.completed"@.take(5)[0] != "tool."@[0]);
        },
    }
}

/// The wire name tells the family: an event belongs to it if and only if its
/// name begins with `response.`.
pub proof fn lemma_response_lifecycle_related(kind: crate::event::KindView)
    ensures
        kind.response_lifecycle_related() <==> (begins(kind.discriminant(), "response."@)),
{
    reveal_strlit("response.");
    match kind {
        crate::event::KindView::PromptStarted { .. } => {
            reveal_strlit("prompt.started");
            assert("prompt.started"@.take(9)[0] != "response."@[0]);
        },
        crate::event::KindView::PromptCompleted { .. } => {
            reveal_strlit("prompt.completed");
            assert("prompt.completed"@.take(9)[0] != "response."@[0]);
        },
        crate::event::KindView::PromptFailed { .. } => {
            reveal_strlit("prompt.failed");
            assert("prompt.failed"@.take(9)[0] != "response."@[0]);
        },
        crate::event::KindView::ToolInvoked { .. } => {
            reveal_strlit("tool.invoked");
            assert("tool.invoked"@.take(9)[0] != "response."@[0]);
        },
        crate::event::KindView::ToolCompleted { .. } => {
            reveal_strlit("tool.completed");
            assert("tool.completed"@.take(9)[0] != "response."@[0]);
        },
        crate::event::KindView::ToolFailed { .. } => {
            reveal_strlit("tool.failed");
            assert("tool.failed"@.take(9)[0] != "response."@[0]);
        },
        crate::event::KindView::ToolSkipped { .. } => {
            reveal_strlit("tool.skipped");
            assert("tool.skipped"@.take(9)[0] != "response."@[0]);
        },
        crate::event::KindView::ToolTerminated { .. } => {
            reveal_strlit("tool.terminated");
            assert("tool.terminated"@.take(9)[0] != "response."@[0]);
        },
        crate::event::KindView::ToolHostedInvoked { .. } => {
            reveal_strlit("tool.hosted_invoked");
            assert("tool.hosted_invoked"@.take(9)[0] != "response."@[0]);
        },
        crate::event::KindView::ToolHostedCompleted { .. } => {
            reveal_strlit("tool.hosted_completed");
            assert("tool.hosted_completed"@.take(9)[0] != "response."@[0]);
        },
        crate::event::KindView::ContextSampled { .. } => {
            reveal_strlit("context.sampled");
            assert("context.sampled"@.take(9)[0] != "response."@[0]);
        },
        crate::event::KindView::ContextPersisted { .. } => {
            reveal_strlit("context.persisted");
            assert("context.persisted"@.take(9)[0] != "response."@[0]);
        },
        crate::event::KindView::ContextCompacted { .. } => {
            reveal_strlit("context.compacted");
            assert("context.compacted"@.take(9)[0] != "response."@[0]);
        },
        crate::event::KindView::MemoryDemoted { .. } => {
            reveal_strlit("memory.demoted");
            assert("memory.demoted"@.take(9)[0] != "response."@[0]);
        },
        crate::event::KindView::MemoryFrameWritten { .. } => {
            reveal_strlit("memory.frame_written");
            assert("memory.frame_written"@.take(9)[0] != "response."@[0]);
        },
        crate::event::KindView::ComposeKernelStart { .. } => {
            reveal_strlit("compose.kernel_start");
            assert("compose.kernel_start"@.take(9)[0] != "response."@[0]);
        },
        crate::event::KindView::ComposeKernelShutdown { .. } => {
            reveal_strlit("compose.kernel_shutdown");
            assert("compose.kernel_shutdown"@.take(9)[0] != "response."@[0]);
        },
        crate::event::KindView::ComposeLoopIteration { .. } => {
            reveal_strlit("compose.loop_iteration");
            assert("compose.loop_iteration"@.take(9)[0] != "response."@[0]);
        },
        crate::event::KindView::ComposeSkillResolved { .. } => {
            reveal_strlit("compose.skill_resolved");
            assert("compose.skill_resolved"@.take(9)[0] != "response."@[0]);
        },
        crate::event::KindView::ComposeRetryAttempt { .. } => {
            reveal_strlit("compose.retry_attempt");
            assert("compose.retry_attempt"@.take(9)[0] != "response."@[0]);
        },
        crate::event::KindView::ComposeRecovery { .. } => {
            reveal_strlit("compose.recovery");
            assert("compose.recovery"@.take(9)[0] != "response."@[0]);
        },
        crate::event::KindView::ResponseSessionStarted { .. } => {
            reveal_strlit("response.session_started");
            assert("response.session_started"@.take(9) =~= "response."@);
        },
        crate::event::KindView::ResponseTurnStarted { .. } => {
            reveal_strlit("response.turn_started");
            assert("response.turn_started"@.take(9) =~= "response."@);
        },
        crate::event::KindView::ResponseTurnCompleted { .. } => {
            reveal_strlit("response.turn_completed");
            assert("response.turn_completed"@.take(9) =~= "response."@);
        },
        crate::event::KindView::ResponseSessionEnded { .. } => {
            reveal_strlit("response.session_ended");
            assert("response.session_ended"@.take(9) =~= "response."@);
        },
        crate::event::KindView::EvalReport { .. } => {
            reveal_strlit("eval.report");
            assert("eval.report"@.take(9)[0] != "response."@[0]);
        },
        crate::event::KindView::EmbeddingCompleted { .. } => {
            reveal_strlit("embedding.completed");
            assert("embedding.completed"@.take(9)[0] != "response."@[0]);
        },
        crate::event::KindView::RetrievalQueried { .. } => {
            reveal_strlit("retrieval.queried");
            assert("retrieval.queried"@.take(9)[2] != "response."@[2]);
        },
        crate::event::KindView::RerankCompleted { .. } => {
            reveal_strlit("rerank.completed");
            assert("rerank.completed"@.take(9)[2] != "response."@[2]);
        },
    }
}

/// The wire name tells the family: an event belongs to it if and only if its
/// name begins with `context.` or `memory.`.
pub proof fn lemma_memory_related(kind: crate::event::KindView)
    ensures
        kind.memory_related() <==> (begins(kind.discriminant(), "context."@) || begins(kind.discriminant(), "memory."@)),
{
    reveal_strlit("context.");
    reveal_strlit("memory.");
    match kind {
        crate::event::KindView::PromptStarted { .. } => {
            reveal_strlit("prompt.started");
            assert("prompt.started"@.take(8)[0] != "context."@[0]);
            assert("prompt.started"@.take(7)[0] != "memory."@[0]);
        },
        crate::event::KindView::PromptCompleted { .. } => {
            reveal_strlit("prompt.completed");
            assert("prompt.completed"@.take(8)[0] != "context."@[0]);
            assert("prompt.completed"@.take(7)[0] != "memory."@[0]);
        },
        crate::event::KindView::PromptFailed { .. } => {
            reveal_strlit("prompt.failed");
            assert("prompt.failed"@.take(8)[0] != "context."@[0]);
            assert("prompt.failed"@.take(7)[0] != "memory."@[0]);
        },
        crate::event::KindView::ToolInvoked { .. } => {
            reveal_strlit("tool.invoked");
            assert("tool.invoked"@.take(8)[0] != "context."@[0]);
            assert("tool.invoked"@.take(7)[0] != "memory."@[0]);
        },
        crate::event::KindView::ToolCompleted { .. } => {
            reveal_strlit("tool.completed");
            assert("tool.completed"@.take(8)[0] != "context."@[0]);
            assert("tool.completed"@.take(7)[0] != "memory."@[0]);
        },
        crate::event::KindView::ToolFailed { .. } => {
            reveal_strlit("tool.failed");
            assert("tool.failed"@.take(8)[0] != "context."@[0]);
            assert("tool.failed"@.take(7)[0] != "memory."@[0]);
        },
        crate::event::KindView::ToolSkipped { .. } => {
            reveal_strlit("tool.skipped");
            assert("tool.skipped"@.take(8)[0] != "context."@[0]);
            assert("tool.skipped"@.take(7)[0] != "memory."@[0]);
        },
        crate::event::KindView::ToolTerminated { .. } => {
            reveal_strlit("tool.terminated");
            assert("tool.terminated"@.take(8)[0] != "context."@[0]);
            assert("tool.terminated"@.take(7)[0] != "memory."@[0]);
        },
        crate::event::KindView::ToolHostedInvoked { .. } => {
            reveal_strlit("tool.hosted_invoked");
            assert("tool.hosted_invoked"@.take(8)[0] != "context."@[0]);
            assert("tool.hosted_invoked"@.take(7)[0] != "memory."@[0]);
        },
        crate::event::KindView::ToolHostedCompleted { .. } => {
            reveal_strlit("tool.hosted_completed");
            assert("tool.hosted_completed"@.take(8)[0] != "context."@[0]);
            assert("tool.hosted_completed"@.take(7)[0] != "memory."@[0]);
        },
        crate::event::KindView::ContextSampled { .. } => {
            reveal_strlit("context.sampled");
            assert("context.sampled"@.take(8) =~= "context."@);
            assert("context.sampled"@.take(7)[0] != "memory."@[0]);
        },
        crate::event::KindView::ContextPersisted { .. } => {
            reveal_strlit("context.persisted");
            assert("context.persisted"@.take(8) =~= "context."@);
            assert("context.persisted"@.take(7)[0] != "memory."@[0]);
        },
        crate::event::KindView::ContextCompacted { .. } => {
            reveal_strlit("context.compacted");
            assert("context.compacted"@.take(8) =~= "context."@);
            assert("context.compacted"@.take(7)[0] != "memory."@[0]);
        },
        crate::event::KindView::MemoryDemoted { .. } => {
            reveal_strlit("memory.demoted");
            assert("memory.demoted"@.take(8)[0] != "context."@[0]);
            assert("memory.demoted"@.take(7) =~= "memory."@);
        },
        crate::event::KindView::MemoryFrameWritten { .. } => {
            reveal_strlit("memory.frame_written");
            assert("memory.frame_written"@.take(8)[0] != "context."@[0]);
            assert("memory.frame_written"@.take(7) =~= "memory."@);
        },
        crate::event::KindView::ComposeKernelStart { .. } => {
            reveal_strlit("compose.kernel_start");
            assert("compose.kernel_start"@.take(8)[2] != "context."@[2]);
            assert("compose.kernel_start"@.take(7)[0] != "memory."@[0]);
        },
        crate::event::KindView::ComposeKernelShutdown { .. } => {
            reveal_strlit("compose.kernel_shutdown");
            assert("compose.kernel_shutdown"@.take(8)[2] != "context."@[2]);
            assert("compose.kernel_shutdown"@.take(7)[0] != "memory."@[0]);
        },
        crate::event::KindView::ComposeLoopIteration { .. } => {
            reveal_strlit("compose.loop_iteration");
            assert("compose.loop_iteration"@.take(8)[2] != "context."@[2]);
            assert("compose.loop_iteration"@.take(7)[0] != "memory."@[0]);
        },
        crate::event::KindView::ComposeSkillResolved { .. } => {
            reveal_strlit("compose.skill_resolved");
            assert("compose.skill_resolved"@.take(8)[2] != "context."@[2]);
            assert("compose.skill_resolved"@.take(7)[0] != "memory."@[0]);
        },
        crate::event::KindView::ComposeRetryAttempt { .. } => {
            reveal_strlit("compose.retry_attempt");
            assert("compose.retry_attempt"@.take(8)[2] != "context."@[2]);
            assert("compose.retry_attempt"@.take(7)[0] != "memory."@[0]);
        },
        crate::event::KindView::ComposeRecovery { .. } => {
            reveal_strlit("compose.recovery");
            assert("compose.recovery"@.take(8)[2] != "context."@[2]);
            assert("compose.recovery"@.take(7)[0] != "memory."@[0]);
        },
        crate::event::KindView::ResponseSessionStarted { .. } => {
            reveal_strlit("response.session_started");
            assert("response.session_started"@.take(8)[0] != "context."@[0]);
            assert("response.session_started"@.take(7)[0] != "memory."@[0]);
        },
        crate::event::KindView::ResponseTurnStarted { .. } => {
            reveal_strlit("response.turn_started");
            assert("response.turn_started"@.take(8)[0] != "context."@[0]);
            assert("response.turn_started"@.take(7)[0] != "memory."@[0]);
        },
        crate::event::KindView::ResponseTurnCompleted { .. } => {
            reveal_strlit("response.turn_completed");
            assert("response.turn_completed"@.take(8)[0] != "context."@[0]);
            assert("response.turn_completed"@.take(7)[0] != "memory."@[0]);
        },
        crate::event::KindView::ResponseSessionEnded { .. } => {
            reveal_strlit("response.session_ended");
            assert("response.session_ended"@.take(8)[0] != "context."@[0]);
            assert("response.session_ended"@.take(7)[0] != "memory."@[0]);
        },
        crate::event::KindView::EvalReport { .. } => {
            reveal_strlit("eval.report");
            assert("eval.report"@.take(8)[0] != "context."@[0]);
            assert("eval.report"@.take(7)[0] != "memory."@[0]);
        },
        crate::event::KindView::EmbeddingCompleted { .. } => {
            reveal_strlit("embedding.completed");
            assert("embedding.completed"@.take(8)[0] != "context."@[0]);
            assert("embedding.completed"@.take(7)[0] != "memory."@[0]);
        },
        crate::event::KindView::RetrievalQueried { .. } => {
            reveal_strlit("retrieval.queried");
            assert("retrieval.queried"@.take(8)[0] != "context."@[0]);
            assert("retrieval.queried"@.take(7)[0] != "memory."@[0]);
        },
        crate::event::KindView::RerankCompleted { .. } => {
            reveal_strlit("rerank.completed");
            assert("rerank.completed"@.take(8)[0] != "context."@[0]);
            assert("rerank.completed"@.take(7)[0] != "memory."@[0]);
        },
    }
}

/// The wire name tells the family: an event belongs to it if and only if its
/// name begins with `compose.`.
pub proof fn lemma_compose_related(kind: crate::event::KindView)
    ensures
        kind.compose_related() <==> (begins(kind.discriminant(), "compose."@)),
{
    reveal_strlit("compose.");
    match kind {
        crate::event::KindView::PromptStarted { .. } => {
            reveal_strlit("prompt.started");
            assert("prompt.started"@.take(8)[0] != "compose."@[0]);
        },
        crate::event::KindView::PromptCompleted { .. } => {
            reveal_strlit("prompt.completed");
            assert("prompt.completed"@.take(8)[0] != "compose."@[0]);
        },
        crate::event::KindView::PromptFailed { .. } => {
            reveal_strlit("prompt.failed");
            assert("prompt.failed"@.take(8)[0] != "compose."@[0]);
        },
        crate::event::KindView::ToolInvoked { .. } => {
            reveal_strlit("tool.invoked");
            assert("tool.invoked"@.take(8)[0] != "compose."@[0]);
        },
        crate::event::KindView::ToolCompleted { .. } => {
            reveal_strlit("tool.completed");
            assert("tool.completed"@.take(8)[0] != "compose."@[0]);
        },
        crate::event::KindView::ToolFailed { .. } => {
            reveal_strlit("tool.failed");
            assert("tool.failed"@.take(8)[0] != "compose."@[0]);
        },
        crate::event::KindView::ToolSkipped { .. } => {
            reveal_strlit("tool.skipped");
            assert("tool.skipped"@.take(8)[0] != "compose."@[0]);
        },
        crate::event::KindView::ToolTerminated { .. } => {
            reveal_strlit("tool.terminated");
            assert("tool.terminated"@.take(8)[0] != "compose."@[0]);
        },
        crate::event::KindView::ToolHostedInvoked { .. } => {
            reveal_strlit("tool.hosted_invoked");
            assert("tool.hosted_invoked"@.take(8)[0] != "compose."@[0]);
        },
        crate::event::KindView::ToolHostedCompleted { .. } => {
            reveal_strlit("tool.hosted_completed");
            assert("tool.hosted_completed"@.take(8)[0] != "compose."@[0]);
        },
        crate::event::KindView::ContextSampled { .. } => {
            reveal_strlit("context.sampled");
            assert("context.sampled"@.take(8)[2] != "compose."@[2]);
        },
        crate::event::KindView::ContextPersisted { .. } => {
            reveal_strlit("context.persisted");
            assert("context.persisted"@.take(8)[2] != "compose."@[2]);
        },
        crate::event::KindView::ContextCompacted { .. } => {
            reveal_strlit("context.compacted");
            assert("context.compacted"@.take(8)[2] != "compose."@[2]);
        },
        crate::event::KindView::MemoryDemoted { .. } => {
            reveal_strlit("memory.demoted");
            assert("memory.demoted"@.take(8)[0] != "compose."@[0]);
        },
        crate::event::KindView::MemoryFrameWritten { .. } => {
            reveal_strlit("memory.frame_written");
            assert("memory.frame_written"@.take(8)[0] != "compose."@[0]);
        },
        crate::event::KindView::ComposeKernelStart { .. } => {
            reveal_strlit("compose.kernel_start");
            assert("compose.kernel_start"@.take(8) =~= "compose."@);
        },
        crate::event::KindView::ComposeKernelShutdown { .. } => {
            reveal_strlit("compose.kernel_shutdown");
            assert("compose.kernel_shutdown"@.take(8) =~= "compose."@);
        },
        crate::event::KindView::ComposeLoopIteration { .. } => {
            reveal_strlit("compose.loop_iteration");
            assert("compose.loop_iteration"@.take(8) =~= "compose."@);
        },
        crate::event::KindView::ComposeSkillResolved { .. } => {
            reveal_strlit("compose.skill_resolved");
            assert("compose.skill_resolved"@.take(8) =~= "compose."@);
        },
        crate::event::KindView::ComposeRetryAttempt { .. } => {
            reveal_strlit("compose.retry_attempt");
            assert("compose.retry_attempt"@.take(8) =~= "compose."@);
        },
        crate::event::KindView::ComposeRecovery { .. } => {
            reveal_strlit("compose.recovery");
            assert("compose.recovery"@.take(8) =~= "compose."@);
        },
        crate::event::KindView::ResponseSessionStarted { .. } => {
            reveal_strlit("response.session_started");
            assert("response.session_started"@.take(8)[0] != "compose."@[0]);
        },
        crate::event::KindView::ResponseTurnStarted { .. } => {
            reveal_strlit("response.turn_started");
            assert("response.turn_started"@.take(8)[0] != "compose."@[0]);
        },
        crate::event::KindView::ResponseTurnCompleted { .. } => {
            reveal_strlit("response.turn_completed");
            assert("response.turn_completed"@.take(8)[0] != "compose."@[0]);
        },
        crate::event::KindView::ResponseSessionEnded { .. } => {
            reveal_strlit("response.session_ended");
            assert("response.session_ended"@.take(8)[0] != "compose."@[0]);
        },
        crate::event::KindView::EvalReport { .. } => {
            reveal_strlit("eval.report");
            assert("eval.report"@.take(8)[0] != "compose."@[0]);
        },
        crate::event::KindView::EmbeddingCompleted { .. } => {
            reveal_strlit("embedding.completed");
            assert("embedding.completed"@.take(8)[0] != "compose."@[0]);
        },
        crate::event::KindView::RetrievalQueried { .. } => {
            reveal_strlit("retrieval.queried");
            assert("retrieval.queried"@.take(8)[0] != "compose."@[0]);
        },
        crate::event::KindView::RerankCompleted { .. } => {
            reveal_strlit("rerank.completed");
            assert("rerank.completed"@.take(8)[0] != "compose."@[0]);
        },
    }
}

/// The wire name tells the family: an event belongs to it if and only if its
/// name begins with `eval.`.
pub proof fn lemma_eval_related(kind: crate::event::KindView)
    ensures
        kind.eval_related() <==> (begins(kind.discriminant(), "eval."@)),
{
    reveal_strlit("eval.");
    match kind {
        crate::event::KindView::PromptStarted { .. } => {
            reveal_strlit("prompt.started");
            assert("prompt.started"@.take(5)[0] != "eval."@[0]);
        },
        crate::event::KindView::PromptCompleted { .. } => {
            reveal_strlit("prompt.completed");
            assert("prompt.completed"@.take(5)[0] != "eval."@[0]);
        },
        crate::event::KindView::PromptFailed { .. } => {
            reveal_strlit("prompt.failed");
            assert("prompt.failed"@.take(5)[0] != "eval."@[0]);
        },
        crate::event::KindView::ToolInvoked { .. } => {
            reveal_strlit("tool.invoked");
            assert("tool.invoked"@.take(5)[0] != "eval."@[0]);
        },
        crate::event::KindView::ToolCompleted { .. } => {
            reveal_strlit("tool.completed");
            assert("tool.completed"@.take(5)[0] != "eval."@[0]);
        },
        crate::event::KindView::ToolFailed { .. } => {
            reveal_strlit("tool.failed");
            assert("tool.failed"@.take(5)[0] != "eval."@[0]);
        },
        crate::event::KindView::ToolSkipped { .. } => {
            reveal_strlit("tool.skipped");
            assert("tool.skipped"@.take(5)[0] != "eval."@[0]);
        },
        crate::event::KindView::ToolTerminated { .. } => {
            reveal_strlit("tool.terminated");
            assert("tool.terminated"@.take(5)[0] != "eval."@[0]);
        },
        crate::event::KindView::ToolHostedInvoked { .. } => {
            reveal_strlit("tool.hosted_invoked");
            assert("tool.hosted_invoked"@.take(5)[0] != "eval."@[0]);
        },
        crate::event::KindView::ToolHostedCompleted { .. } => {
            reveal_strlit("tool.hosted_completed");
            assert("tool.hosted_completed"@.take(5)[0] != "eval."@[0]);
        },
        crate::event::KindView::ContextSampled { .. } => {
            reveal_strlit("context.sampled");
            assert("context.sampled"@.take(5)[0] != "eval."@[0]);
        },
        crate::event::KindView::ContextPersisted { .. } => {
            reveal_strlit("context.persisted");
            assert("context.persisted"@.take(5)[0] != "eval."@[0]);
        },
        crate::event::KindView::ContextCompacted { .. } => {
            reveal_strlit("context.compacted");
            assert("context.compacted"@.take(5)[0] != "eval."@[0]);
        },
        crate::event::KindView::MemoryDemoted { .. } => {
            reveal_strlit("memory.demoted");
            assert("memory.demoted"@.take(5)[0] != "eval."@[0]);
        },
        crate::event::KindView::MemoryFrameWritten { .. } => {
            reveal_strlit("memory.frame_written");
            assert("memory.frame_written"@.take(5)[0] != "eval."@[0]);
        },
        crate::event::KindView::ComposeKernelStart { .. } => {
            reveal_strlit("compose.kernel_start");
            assert("compose.kernel_start"@.take(5)[0] != "eval."@[0]);
        },
        crate::event::KindView::ComposeKernelShutdown { .. } => {
            reveal_strlit("compose.kernel_shutdown");
            assert("compose.kernel_shutdown"@.take(5)[0] != "eval."@[0]);
        },
        crate::event::KindView::ComposeLoopIteration { .. } => {
            reveal_strlit("compose.loop_iteration");
            assert("compose.loop_iteration"@.take(5)[0] != "eval."@[0]);
        },
        crate::event::KindView::ComposeSkillResolved { .. } => {
            reveal_strlit("compose.skill_resolved");
            assert("compose.skill_resolved"@.take(5)[0] != "eval."@[0]);
        },
        crate::event::KindView::ComposeRetryAttempt { .. } => {
            reveal_strlit("compose.retry_attempt");
            assert("compose.retry_attempt"@.take(5)[0] != "eval."@[0]);
        },
        crate::event::KindView::ComposeRecovery { .. } => {
            reveal_strlit("compose.recovery");
            assert("compose.recovery"@.take(5)[0] != "eval."@[0]);
        },
        crate::event::KindView::ResponseSessionStarted { .. } => {
            reveal_strlit("response.session_started");
            assert("response.session_started"@.take(5)[0] != "eval."@[0]);
        },
        crate::event::KindView::ResponseTurnStarted { .. } => {
            reveal_strlit("response.turn_started");
            assert("response.turn_started"@.take(5)[0] != "eval."@[0]);
        },
        crate::event::KindView::ResponseTurnCompleted { .. } => {
            reveal_strlit("response.turn_completed");
            assert("response.turn_completed"@.take(5)[0] != "eval."@[0]);
        },
        crate::event::KindView::ResponseSessionEnded { .. } => {
            reveal_strlit("response.session_ended");
            assert("response.session_ended"@.take(5)[0] != "eval."@[0]);
        },
        crate::event::KindView::EvalReport { .. } => {
            reveal_strlit("eval.report");
            assert("eval.report"@.take(5) =~= "eval."@);
        },
        crate::event::KindView::EmbeddingCompleted { .. } => {
            reveal_strlit("embedding.completed");
            assert("embedding.completed"@.take(5)[1] != "eval."@[1]);
        },
        crate::event::KindView::RetrievalQueried { .. } => {
            reveal_strlit("retrieval.queried");
            assert("retrieval.queried"@.take(5)[0] != "eval."@[0]);
        },
        crate::event::KindView::RerankCompleted { .. } => {
            reveal_strlit("rerank.completed");
            assert("rerank.completed"@.take(5)[0] != "eval."@[0]);
        },
    }
}

/// The wire name tells the family: an event belongs to it if and only if its
/// name begins with `embedding.` or `retrieval.` or `rerank.`.
pub proof fn lemma_retrieval_related(kind: crate::event::KindView)
    ensures
        kind.retrieval_related() <==> (begins(kind.discriminant(), "embedding."@) || begins(kind.discriminant(), "retrieval."@) || begins(kind.discriminant(), "rerank."@)),
{
    reveal_strlit("embedding.");
    reveal_strlit("retrieval.");
    reveal_strlit("rerank.");
    match kind {
        crate::event::KindView::PromptStarted { .. } => {
            reveal_strlit("prompt.started");
            assert("prompt.started"@.take(10)[0] != "embedding."@[0]);
            assert("prompt.started"@.take(10)[0] != "retrieval."@[0]);
            assert("prompt.started"@.take(7)[0] != "rerank."@[0]);
        },
        crate::event::KindView::PromptCompleted { .. } => {
            reveal_strlit("prompt.completed");
            assert("prompt.completed"@.take(10)[0] != "embedding."@[0]);
            assert("prompt.completed"@.take(10)[0] != "retrieval."@[0]);
            assert("prompt.completed"@.take(7)[0] != "rerank."@[0]);
        },
        crate::event::KindView::PromptFailed { .. } => {
            reveal_strlit("prompt.failed");
            assert("prompt.failed"@.take(10)[0] != "embedding."@[0]);
            assert("prompt.failed"@.take(10)[0] != "retrieval."@[0]);
            assert("prompt.failed"@.take(7)[0] != "rerank."@[0]);
        },
        crate::event::KindView::ToolInvoked { .. } => {
            reveal_strlit("tool.invoked");
            assert("tool.invoked"@.take(10)[0] != "embedding."@[0]);
            assert("tool.invoked"@.take(10)[0] != "retrieval."@[0]);
            assert("tool.invoked"@.take(7)[0] != "rerank."@[0]);
        },
        crate::event::KindView::ToolCompleted { .. } => {
            reveal_strlit("tool.completed");
            assert("tool.completed"@.take(10)[0] != "embedding."@[0]);
            assert("tool.completed"@.take(10)[0] != "retrieval."@[0]);
            assert("tool.completed"@.take(7)[0] != "rerank."@[0]);
        },
        crate::event::KindView::ToolFailed { .. } => {
            reveal_strlit("tool.failed");
            assert("tool.failed"@.take(10)[0] != "embedding."@[0]);
            assert("tool.failed"@.take(10)[0] != "retrieval."@[0]);
            assert("tool.failed"@.take(7)[0] != "rerank."@[0]);
        },
        crate::event::KindView::ToolSkipped { .. } => {
            reveal_strlit("tool.skipped");
            assert("tool.skipped"@.take(10)[0] != "embedding."@[0]);
            assert("tool.skipped"@.take(10)[0] != "retrieval."@[0]);
            assert("tool.skipped"@.take(7)[0] != "rerank."@[0]);
        },
        crate::event::KindView::ToolTerminated { .. } => {
            reveal_strlit("tool.terminated");
            assert("tool.terminated"@.take(10)[0] != "embedding."@[0]);
            assert("tool.terminated"@.take(10)[0] != "retrieval."@[0]);
            assert("tool.terminated"@.take(7)[0] != "rerank."@[0]);
        },
        crate::event::KindView::ToolHostedInvoked { .. } => {
            reveal_strlit("tool.hosted_invoked");
            assert("tool.hosted_invoked"@.take(10)[0] != "embedding."@[0]);
            assert("tool.hosted_invoked"@.take(10)[0] != "retrieval."@[0]);
            assert("tool.hosted_invoked"@.take(7)[0] != "rerank."@[0]);
        },
        crate::event::KindView::ToolHostedCompleted { .. } => {
            reveal_strlit("tool.hosted_completed");
            assert("tool.hosted_completed"@.take(10)[0] != "embedding."@[0]);
            assert("tool.hosted_completed"@.take(10)[0] != "retrieval."@[0]);
            assert("tool.hosted_completed"@.take(7)[0] != "rerank."@[0]);
        },
        crate::event::KindView::ContextSampled { .. } => {
            reveal_strlit("context.sampled");
            assert("context.sampled"@.take(10)[0] != "embedding."@[0]);
            assert("context.sampled"@.take(10)[0] != "retrieval."@[0]);
            assert("context.sampled"@.take(7)[0] != "rerank."@[0]);
        },
        crate::event::KindView::ContextPersisted { .. } => {
            reveal_strlit("context.persisted");
            assert("context.persisted"@.take(10)[0] != "embedding."@[0]);
            assert("context.persisted"@.take(10)[0] != "retrieval."@[0]);
            assert("context.persisted"@.take(7)[0] != "rerank."@[0]);
        },
        crate::event::KindView::ContextCompacted { .. } => {
            reveal_strlit("context.compacted");
            assert("context.compacted"@.take(10)[0] != "embedding."@[0]);
            assert("context.compacted"@.take(10)[0] != "retrieval."@[0]);
            assert("context.compacted"@.take(7)[0] != "rerank."@[0]);
        },
        crate::event::KindView::MemoryDemoted { .. } => {
            reveal_strlit("memory.demoted");
            assert("memory.demoted"@.take(10)[0] != "embedding."@[0]);
            assert("memory.demoted"@.take(10)[0] != "retrieval."@[0]);
            assert("memory.demoted"@.take(7)[0] != "rerank."@[0]);
        },
        crate::event::KindView::MemoryFrameWritten { .. } => {
            reveal_strlit("memory.frame_written");
            assert("memory.frame_written"@.take(10)[0] != "embedding."@[0]);
            assert("memory.frame_written"@.take(10)[0] != "retrieval."@[0]);
            assert("memory.frame_written"@.take(7)[0] != "rerank."@[0]);
        },
        crate::event::KindView::ComposeKernelStart { .. } => {
            reveal_strlit("compose.kernel_start");
            assert("compose.kernel_start"@.take(10)[0] != "embedding."@[0]);
            assert("compose.kernel_start"@.take(10)[0] != "retrieval."@[0]);
            assert("compose.kernel_start"@.take(7)[0] != "rerank."@[0]);
        },
        crate::event::KindView::ComposeKernelShutdown { .. } => {
            reveal_strlit("compose.kernel_shutdown");
            assert("compose.kernel_shutdown"@.take(10)[0] != "embedding."@[0]);
            assert("compose.kernel_shutdown"@.take(10)[0] != "retrieval."@[0]);
            assert("compose.kernel_shutdown"@.take(7)[0] != "rerank."@[0]);
        },
        crate::event::KindView::ComposeLoopIteration { .. } => {
            reveal_strlit("compose.loop_iteration");
            assert("compose.loop_iteration"@.take(10)[0] != "embedding."@[0]);
            assert("compose.loop_iteration"@.take(10)[0] != "retrieval."@[0]);
            assert("compose.loop_iteration"@.take(7)[0] != "rerank."@[0]);
        },
        crate::event::KindView::ComposeSkillResolved { .. } => {
            reveal_strlit("compose.skill_resolved");
            assert("compose.skill_resolved"@.take(10)[0] != "embedding."@[0]);
            assert("compose.skill_resolved"@.take(10)[0] != "retrieval."@[0]);
            assert("compose.skill_resolved"@.take(7)[0] != "rerank."@[0]);
        },
        crate::event::KindView::ComposeRetryAttempt { .. } => {
            reveal_strlit("compose.retry_attempt");
            assert("compose.retry_attempt"@.take(10)[0] != "embedding."@[0]);
            assert("compose.retry_attempt"@.take(10)[0] != "retrieval."@[0]);
            assert("compose.retry_attempt"@.take(7)[0] != "rerank."@[0]);
        },
        crate::event::KindView::ComposeRecovery { .. } => {
            reveal_strlit("compose.recovery");
            assert("compose.recovery"@.take(10)[0] != "embedding."@[0]);
            assert("compose.recovery"@.take(10)[0] != "retrieval."@[0]);
            assert("compose.recovery"@.take(7)[0] != "rerank."@[0]);
        },
        crate::event::KindView::ResponseSessionStarted { .. } => {
            reveal_strlit("response.session_started");
            assert("response.session_started"@.take(10)[0] != "embedding."@[0]);
            assert("response.session_started"@.take(10)[2] != "retrieval."@[2]);
            assert("response.session_started"@.take(7)[2] != "rerank."@[2]);
        },
        crate::event::KindView::ResponseTurnStarted { .. } => {
            reveal_strlit("response.turn_started");
            assert("response.turn_started"@.take(10)[0] != "embedding."@[0]);
            assert("response.turn_started"@.take(10)[2] != "retrieval."@[2]);
            assert("response.turn_started"@.take(7)[2] != "rerank."@[2]);
        },
        crate::event::KindView::ResponseTurnCompleted { .. } => {
            reveal_strlit("response.turn_completed");
            assert("response.turn_completed"@.take(10)[0] != "embedding."@[0]);
            assert("response.turn_completed"@.take(10)[2] != "retrieval."@[2]);
            assert("response.turn_completed"@.take(7)[2] != "rerank."@[2]);
        },
        crate::event::KindView::ResponseSessionEnded { .. } => {
            reveal_strlit("response.session_ended");
            assert("response.session_ended"@.take(10)[0] != "embedding."@[0]);
            assert("response.session_ended"@.take(10)[2] != "retrieval."@[2]);
            assert("response.session_ended"@.take(7)[2] != "rerank."@[2]);
        },
        crate::event::KindView::EvalReport { .. } => {
            reveal_strlit("eval.report");
            assert("eval.report"@.take(10)[1] != "embedding."@[1]);
            assert("eval.report"@.take(10)[0] != "retrieval."@[0]);
            assert("eval.report"@.take(7)[0] != "rerank."@[0]);
        },
        crate::event::KindView::EmbeddingCompleted { .. } => {
            reveal_strlit("embedding.completed");
            assert("embedding.completed"@.take(10) =~= "embedding."@);
            assert("embedding.completed"@.take(10)[0] != "retrieval."@[0]);
            assert("embedding.completed"@.take(7)[0] != "rerank."@[0]);
        },
        crate::event::KindView::RetrievalQueried { .. } => {
            reveal_strlit("retrieval.queried");
            assert("retrieval.queried"@.take(10)[0] != "embedding."@[0]);
            assert("retrieval.queried"@.take(10) =~= "retrieval."@);
            assert("retrieval.queried"@.take(7)[2] != "rerank."@[2]);
        },
        crate::event::KindView::RerankCompleted { .. } => {
            reveal_strlit("rerank.completed");
            assert("rerank.completed"@.take(10)[0] != "embedding."@[0]);
            assert("rerank.completed"@.take(10)[2] != "retrieval."@[2]);
            assert("rerank.completed"@.take(7) =~= "rerank."@);
        },
    }
}

/// The wire name tells failures: an event is one if and only if its name ends
/// in `.failed`.
pub proof fn lemma_failure_related(kind: crate::event::KindView)
    ensures
        kind.failure_related() <==> (finishes(kind.discriminant(), ".failed"@)),
{
    reveal_strlit(".failed");
    match kind {
        crate::event::KindView::PromptStarted { .. } => {
            reveal_strlit("prompt.started");
            assert("prompt.started"@.skip(7)[0] != ".failed"@[0]);
        },
        crate::event::KindView::PromptCompleted { .. } => {
            reveal_strlit("prompt.completed");
            assert("prompt.completed"@.skip(9)[0] != ".failed"@[0]);
        },
        crate::event::KindView::PromptFailed { .. } => {
            reveal_strlit("prompt.failed");
            assert("prompt.failed"@.skip(6) =~= ".failed"@);
        },
        crate::event::KindView::ToolInvoked { .. } => {
            reveal_strlit("tool.invoked");
            assert("tool.invoked"@.skip(5)[0] != ".failed"@[0]);
        },
        crate::event::KindView::ToolCompleted { .. } => {
            reveal_strlit("tool.completed");
            assert("tool.completed"@.skip(7)[0] != ".failed"@[0]);
        },
        crate::event::KindView::ToolFailed { .. } => {
            reveal_strlit("tool.failed");
            assert("tool.failed"@.skip(4) =~= ".failed"@);
        },
        crate::event::KindView::ToolSkipped { .. } => {
            reveal_strlit("tool.skipped");
            assert("tool.skipped"@.skip(5)[0] != ".failed"@[0]);
        },
        crate::event::KindView::ToolTerminated { .. } => {
            reveal_strlit("tool.terminated");
            assert("tool.terminated"@.skip(8)[0] != ".failed"@[0]);
        },
        crate::event::KindView::ToolHostedInvoked { .. } => {
            reveal_strlit("tool.hosted_invoked");
            assert("tool.hosted_invoked"@.skip(12)[0] != ".failed"@[0]);
        },
        crate::event::KindView::ToolHostedCompleted { .. } => {
            reveal_strlit("tool.hosted_completed");
            assert("tool.hosted_completed"@.skip(14)[0] != ".failed"@[0]);
        },
        crate::event::KindView::ContextSampled { .. } => {
            reveal_strlit("context.sampled");
            assert("context.sampled"@.skip(8)[0] != ".failed"@[0]);
        },
        crate::event::KindView::ContextPersisted { .. } => {
            reveal_strlit("context.persisted");
            assert("context.persisted"@.skip(10)[0] != ".failed"@[0]);
        },
        crate::event::KindView::ContextCompacted { .. } => {
            reveal_strlit("context.compacted");
            assert("context.compacted"@.skip(10)[0] != ".failed"@[0]);
        },
        crate::event::KindView::MemoryDemoted { .. } => {
            reveal_strlit("memory.demoted");
            assert("memory.demoted"@.skip(7)[0] != ".failed"@[0]);
        },
        crate::event::KindView::MemoryFrameWritten { .. } => {
            reveal_strlit("memory.frame_written");
            assert("memory.frame_written"@.skip(13)[0] != ".failed"@[0]);
        },
        crate::event::KindView::ComposeKernelStart { .. } => {
            reveal_strlit("compose.kernel_start");
            assert("compose.kernel_start"@.skip(13)[0] != ".failed"@[0]);
        },
        crate::event::KindView::ComposeKernelShutdown { .. } => {
            reveal_strlit("compose.kernel_shutdown");
            assert("compose.kernel_shutdown"@.skip(16)[0] != ".failed"@[0]);
        },
        crate::event::KindView::ComposeLoopIteration { .. } => {
            reveal_strlit("compose.loop_iteration");
            assert("compose.loop_iteration"@.skip(15)[0] != ".failed"@[0]);
        },
        crate::event::KindView::ComposeSkillResolved { .. } => {
            reveal_strlit("compose.skill_resolved");
            assert("compose.skill_resolved"@.skip(15)[0] != ".failed"@[0]);
        },
        crate::event::KindView::ComposeRetryAttempt { .. } => {
            reveal_strlit("compose.retry_attempt");
            assert("compose.retry_attempt"@.skip(14)[0] != ".failed"@[0]);
        },
        crate::event::KindView::ComposeRecovery { .. } => {
            reveal_strlit("compose.recovery");
            assert("compose.recovery"@.skip(9)[0] != ".failed"@[0]);
        },
        crate::event::KindView::ResponseSessionStarted { .. } => {
            reveal_strlit("response.session_started");
            assert("response.session_started"@.skip(17)[0] != ".failed"@[0]);
        },
        crate::event::KindView::ResponseTurnStarted { .. } => {
            reveal_strlit("response.turn_started");
            assert("response.turn_started"@.skip(14)[0] != ".failed"@[0]);
        },
        crate::event::KindView::ResponseTurnCompleted { .. } => {
            reveal_strlit("response.turn_completed");
            assert("response.turn_completed"@.skip(16)[0] != ".failed"@[0]);
        },
        crate::event::KindView::ResponseSessionEnded { .. } => {
            reveal_strlit("response.session_ended");
            assert("response.session_ended"@.skip(15)[0] != ".failed"@[0]);
        },
        crate::event::KindView::EvalReport { .. } => {
            reveal_strlit("eval.report");
            assert("eval.report"@.skip(4)[1] != ".failed"@[1]);
        },
        crate::event::KindView::EmbeddingCompleted { .. } => {
            reveal_strlit("embedding.completed");
            assert("embedding.completed"@.skip(12)[0] != ".failed"@[0]);
        },
        crate::event::KindView::RetrievalQueried { .. } => {
            reveal_strlit("retrieval.queried");
            assert("retrieval.queried"@.skip(10)[0] != ".failed"@[0]);
        },
        crate::event::KindView::RerankCompleted { .. } => {
            reveal_strlit("rerank.completed");
            assert("rerank.completed"@.skip(9)[0] != ".failed"@[0]);
        },
    }
}

/// A tool event is found by its own `call_id`, and no other event has one.
pub proof fn lemma_call_ids(kind: EventKind)
    ensures
        kind@.call_id() == (match kind {
            EventKind::ToolInvoked { call_id, .. } => Some(call_id@),
            EventKind::ToolCompleted { call_id, .. } => Some(call_id@),
            EventKind::ToolFailed { call_id, .. } => Some(call_id@),
            EventKind::ToolSkipped { call_id, .. } => Some(call_id@),
            EventKind::ToolTerminated { call_id, .. } => Some(call_id@),
            EventKind::ToolHostedInvoked { call_id, .. } => Some(call_id@),
            EventKind::ToolHostedCompleted { call_id, .. } => Some(call_id@),
            _ => None,
        }),
{
}

/// The content of an event, of an emission and of a filter is that of their
/// fields.
pub proof fn lemma_contents(
    event: ObservabilityEvent,
    emission: Emission,
    filter: EventFilter,
)
    ensures
        event@.version == event.version,
        event@.occurred_at_millis == event.occurred_at_millis,
        event@.tick == event.tick,
        event@.conversation_id == event.conversation_id@,
        event@.span_id == event.span_id,
        event@.agent_id == event.agent_id.deep_view(),
        event@.trace_id == event.trace_id,
        event@.severity == event.severity,
        event@.kind == event.kind@,
        event.deep_view() == event@,
        emission@.conversation_id == emission.conversation_id@,
        emission@.kind == emission.kind@,
        emission.deep_view() == emission@,
        filter@.conversation_id == filter.conversation_id.deep_view(),
        filter@.kind == filter.kind.deep_view(),
        filter@.min_tick == filter.min_tick,
        filter@.max_tick == filter.max_tick,
        filter@.kernel_id == filter.kernel_id.deep_view(),
        filter@.tool_name == filter.tool_name.deep_view(),
        filter@.call_id == filter.call_id.deep_view(),
        filter@.skill_id == filter.skill_id.deep_view(),
        filter@.model == filter.model.deep_view(),
{
}

/// Whether an expectation is met: there is none, or it is the text itself.
pub open spec fn met(expected: Option<String>, actual: Seq<char>) -> bool {
    match expected {
        Some(text) => text@ == actual,
        None => true,
    }
}

/// A filter accepts exactly the events that meet every expectation: of the
/// conversation, of the wire name, of the tick, both bounds included, and of
/// the scalars that it names.
pub proof fn lemma_filter_accepts(
    filter: EventFilter,
    event: ObservabilityEvent,
    scalars: ScalarFields<'_>,
)
    requires
        scalars@ == event.kind@.scalars(),
    ensures
        filter@.accepts(event@) <==> {
            &&& met(filter.conversation_id, event.conversation_id@)
            &&& met(filter.kind, event.kind@.discriminant())
            &&& filter.min_tick matches Some(min) ==> min <= event.tick
            &&& filter.max_tick matches Some(max) ==> event.tick <= max
            &&& met(filter.kernel_id, scalars.kernel_id@)
            &&& met(filter.tool_name, scalars.tool_name@)
            &&& met(filter.call_id, scalars.call_id@)
            &&& met(filter.skill_id, scalars.skill_id@)
            &&& met(filter.model, scalars.model@)
        },
{
}

/// One more event is selected behind the others where the filter accepts it,
/// and changes nothing where it does not; of no events none is selected.
pub proof fn lemma_selection_grows(
    events: Seq<crate::event::EventView>,
    event: crate::event::EventView,
    filter: crate::query::FilterView,
)
    ensures
        crate::query::selected(Seq::empty(), filter).len() == 0,
        crate::query::selected(events.push(event), filter) == (if filter.accepts(event) {
            crate::query::selected(events, filter).push(event)
        } else {
            crate::query::selected(events, filter)
        }),
{
    assert(events.push(event).drop_last() =~= events);
}

/// Kinds and conversations are listed event by event.
pub proof fn lemma_listings(events: Seq<crate::event::EventView>, i: int)
    requires
        0 <= i < events.len(),
    ensures
        crate::query::kinds_of(events).len() == events.len(),
        crate::query::conversations_of(events).len() == events.len(),
        crate::query::kinds_of(events)[i] == events[i].kind.discriminant(),
        crate::query::conversations_of(events)[i] == events[i].conversation_id,
{
}

/// A filter without any expectation is the one that accepts every event.
pub proof fn lemma_no_filter_accepts_all(event: crate::event::EventView)
    ensures
        crate::query::no_filter().accepts(event),
{
}

/// Ticks are consecutive: the `n`-th tick of a counter is `n` above its first,
/// up to the largest number, after which the counter begins at zero again.
pub proof fn lemma_ticks_are_consecutive(start: u64, n: nat)
    ensures
        start + n <= u64::MAX ==> crate::emit::nth_tick(start, n) == start + n,
        crate::emit::following(u64::MAX) == 0,
    decreases n,
{
    if n > 0 {
        lemma_ticks_are_consecutive(start, (n - 1) as nat);
    }
}

/// A record carries the actor as a text and the span as a number: empty and
/// zero where they are absent.
pub proof fn lemma_recorded_absence(text: Option<String>, span_id: Option<u64>)
    ensures
        crate::event::or_empty(text.deep_view()) == chars_of(text),
        crate::emit::recorded_span(span_id) == (match span_id {
            Some(id) => id,
            None => 0,
        }),
{
}

} // verus!
