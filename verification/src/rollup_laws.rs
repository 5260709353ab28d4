//! How the rollups of a log change with one more event.

use vstd::prelude::*;

use crate::event::{EventKind, ObservabilityEvent};
use crate::float::Float64;
use crate::insights::{Insights, PromptStats, ToolStats};
use crate::latency::LatencySummary;
use crate::table::SortedTable;

verus! {

/// One where the condition holds, else zero.
pub open spec fn one_if(condition: bool) -> int {
    if condition {
        1
    } else {
        0
    }
}

/// Prompt statistics change with one more event as its kind says: a started, a
/// completed and a failed prompt are counted as such; a completed one adds its
/// tokens, its cost and its finish reason, where it reports them.
pub proof fn lemma_prompt_stats_grow(
    log: Insights<'_>,
    longer: Insights<'_>,
    event: ObservabilityEvent,
    before: PromptStats,
    after: PromptStats,
)
    requires
        longer@ == log@.push(event@),
        call_ensures(Insights::prompt_stats, (&log,), before),
        call_ensures(Insights::prompt_stats, (&longer,), after),
    ensures
        after.started == before.started + one_if(event.kind is PromptStarted),
        after.completed == before.completed + one_if(event.kind is PromptCompleted),
        after.failed == before.failed + one_if(event.kind is PromptFailed),
        match event.kind {
            EventKind::PromptCompleted {
                tokens_in,
                tokens_out,
                cached_tokens_in,
                reasoning_tokens,
                cost_usd,
                ..
            } => {
                &&& after.tokens.tokens_in == before.tokens.tokens_in
                    + crate::insight_laws::or_zero(tokens_in)
                &&& after.tokens.tokens_out == before.tokens.tokens_out
                    + crate::insight_laws::or_zero(tokens_out)
                &&& after.tokens.cached_tokens_in == before.tokens.cached_tokens_in
                    + crate::insight_laws::or_zero(cached_tokens_in)
                &&& after.tokens.reasoning_tokens == before.tokens.reasoning_tokens
                    + crate::insight_laws::or_zero(reasoning_tokens)
                &&& match cost_usd {
                    Some(cost) => after.costs_usd@ == before.costs_usd@.push(cost),
                    None => after.costs_usd@ == before.costs_usd@,
                }
            },
            _ => after.tokens == before.tokens && after.costs_usd@ == before.costs_usd@,
        },
{
    crate::insight_laws::lemma_counted_kinds(event);
    crate::insight_laws::lemma_prompt_reports(event, Seq::empty());
    crate::insight_laws::lemma_counting_grows(log@, event@, crate::insights::starts_prompt());
    crate::insight_laws::lemma_counting_grows(log@, event@, crate::insights::completes_prompt());
    crate::insight_laws::lemma_counting_grows(log@, event@, crate::insights::fails_prompt());
    crate::insight_laws::lemma_gathering_grows(log@, event@, crate::insights::by_cost());
    crate::insight_laws::lemma_totals_grow(log@, event, before.tokens, after.tokens);
}

/// How often a tally counts a label.
pub open spec fn counted(counts: SortedTable<usize>, label: Seq<char>) -> int {
    if counts@.contains_key(label) {
        counts@[label] as int
    } else {
        0
    }
}

proof fn lemma_tallied(
    counts: SortedTable<usize>,
    labels: Seq<Seq<char>>,
    label: Seq<char>,
)
    requires
        crate::table::tallies(counts@, labels),
    ensures
        counted(counts, label) == crate::table::occurrences(labels, label),
{
    crate::insight_laws::lemma_tally_counts(counts@, labels, label, label);
    crate::table::lemma_occurrences(labels, label);
    assert(crate::table::count_at(counts@, label) == crate::table::occurrences(labels, label));
}

/// A label that is tallied once more is counted once more.
pub proof fn lemma_tally_with_one_more(
    before: SortedTable<usize>,
    after: SortedTable<usize>,
    labels: Seq<Seq<char>>,
    added: Seq<char>,
    label: Seq<char>,
)
    requires
        crate::table::tallies(before@, labels),
        crate::table::tallies(after@, labels.push(added)),
    ensures
        counted(after, label) == counted(before, label) + one_if(label == added),
{
    lemma_tallied(before, labels, label);
    lemma_tallied(after, labels.push(added), label);
    crate::insight_laws::lemma_tally_counts(before@, labels, added, label);
}

/// The finish reason of one more completed prompt is counted once more, and no
/// other count changes.
pub proof fn lemma_finish_reasons_grow(
    log: Insights<'_>,
    longer: Insights<'_>,
    event: ObservabilityEvent,
    before: PromptStats,
    after: PromptStats,
    label: Seq<char>,
)
    requires
        longer@ == log@.push(event@),
        call_ensures(Insights::prompt_stats, (&log,), before),
        call_ensures(Insights::prompt_stats, (&longer,), after),
    ensures
        counted(after.finish_reasons, label) == counted(before.finish_reasons, label) + one_if(
            event.kind matches EventKind::PromptCompleted { finish_reason: Some(reason), .. }
                && reason@ == label,
        ),
{
    crate::insight_laws::lemma_prompt_reports(event, Seq::empty());
    let pick = crate::insights::by_finish_reason();
    crate::insight_laws::lemma_gathering_grows(log@, event@, pick);
    let labels = crate::insights::gather(log@, pick);
    match pick(event@) {
        Some(added) => {
            lemma_tally_with_one_more(
                before.finish_reasons,
                after.finish_reasons,
                labels,
                added,
                label,
            );
        },
        None => {
            lemma_tallied(before.finish_reasons, labels, label);
            lemma_tallied(after.finish_reasons, labels, label);
        },
    }
}

/// The class of one more failure, of a prompt or of a tool, is counted once
/// more, and no other count changes.
pub proof fn lemma_errors_by_class_grow(
    log: Insights<'_>,
    longer: Insights<'_>,
    event: ObservabilityEvent,
    before: SortedTable<usize>,
    after: SortedTable<usize>,
    label: Seq<char>,
)
    requires
        longer@ == log@.push(event@),
        call_ensures(Insights::errors_by_class, (&log,), before),
        call_ensures(Insights::errors_by_class, (&longer,), after),
    ensures
        counted(after, label) == counted(before, label) + one_if(
            match event.kind {
                EventKind::PromptFailed { error_class, .. } => label
                    == crate::schema_laws::class_name(error_class),
                EventKind::ToolFailed { error_class, .. } => label
                    == crate::schema_laws::class_name(error_class),
                _ => false,
            },
        ),
{
    crate::insight_laws::lemma_failure_reports(event);
    let pick = crate::insights::by_error_class();
    crate::insight_laws::lemma_gathering_grows(log@, event@, pick);
    let labels = crate::insights::gather(log@, pick);
    match pick(event@) {
        Some(added) => {
            lemma_tally_with_one_more(before, after, labels, added, label);
        },
        None => {
            lemma_tallied(before, labels, label);
            lemma_tallied(after, labels, label);
        },
    }
}

/// Tool statistics change with one more event as its kind says, hosted tools
/// with the others; what is pending is what the spans leave open.
pub proof fn lemma_tool_stats_grow(
    log: Insights<'_>,
    longer: Insights<'_>,
    event: ObservabilityEvent,
    before: ToolStats,
    after: ToolStats,
)
    requires
        longer@ == log@.push(event@),
        call_ensures(Insights::tool_stats, (&log,), before),
        call_ensures(Insights::tool_stats, (&longer,), after),
    ensures
        after.invoked == before.invoked + one_if(
            event.kind is ToolInvoked || event.kind is ToolHostedInvoked,
        ),
        after.completed == before.completed + one_if(
            event.kind is ToolCompleted || event.kind is ToolHostedCompleted,
        ),
        after.failed == before.failed + one_if(event.kind is ToolFailed),
        after.skipped == before.skipped + one_if(event.kind is ToolSkipped),
        after.terminated == before.terminated + one_if(event.kind is ToolTerminated),
        before.pending == crate::spans::pending_count(crate::spans::spans_of(log@)),
{
    crate::insight_laws::lemma_counted_kinds(event);
    crate::insight_laws::lemma_counting_grows(log@, event@, crate::insights::invokes_tool());
    crate::insight_laws::lemma_counting_grows(log@, event@, crate::insights::completes_tool());
    crate::insight_laws::lemma_counting_grows(log@, event@, crate::insights::fails_tool());
    crate::insight_laws::lemma_counting_grows(log@, event@, crate::insights::skips_tool());
    crate::insight_laws::lemma_counting_grows(log@, event@, crate::insights::terminates_tool());
}

/// Without events there is nothing to count.
pub proof fn lemma_stats_of_nothing(log: Insights<'_>, prompts: PromptStats, tools: ToolStats)
    requires
        log@.len() == 0,
        call_ensures(Insights::prompt_stats, (&log,), prompts),
        call_ensures(Insights::tool_stats, (&log,), tools),
    ensures
        prompts.started == 0,
        prompts.completed == 0,
        prompts.failed == 0,
        prompts.tokens.tokens_in == 0,
        prompts.tokens.tokens_out == 0,
        prompts.tokens.cached_tokens_in == 0,
        prompts.tokens.reasoning_tokens == 0,
        prompts.costs_usd@.len() == 0,
        tools.invoked == 0,
        tools.completed == 0,
        tools.failed == 0,
        tools.skipped == 0,
        tools.terminated == 0,
        tools.pending == 0,
{
    assert(log@ =~= Seq::empty());
    assert(crate::spans::spans_of(log@) =~= Seq::empty());
}

/// The durations that events of one wire kind carry, in their order.
pub open spec fn durations_under(events: Seq<ObservabilityEvent>, kind: Seq<char>) -> Seq<u64>
    decreases events.len(),
{
    if events.len() == 0 {
        seq![]
    } else {
        let earlier = durations_under(events.drop_last(), kind);
        let last = events.last().kind;
        match crate::insight_laws::carried_duration(last) {
            Some(duration) => if last@.discriminant() == kind {
                earlier.push(duration)
            } else {
                earlier
            },
            None => earlier,
        }
    }
}

proof fn lemma_durations_under(events: Seq<ObservabilityEvent>, kind: Seq<char>)
    ensures
        crate::insights::gather(
            crate::event::event_views(events),
            crate::insights::by_duration(kind),
        ) == durations_under(events, kind),
    decreases events.len(),
{
    let views = crate::event::event_views(events);
    if events.len() > 0 {
        lemma_durations_under(events.drop_last(), kind);
        assert(views.drop_last() =~= crate::event::event_views(events.drop_last()));
        crate::insight_laws::lemma_durations(events.last().kind);
    }
}

/// The latency of a kind is the summary of the durations that the events of
/// that kind carry, and of nothing else.
pub proof fn lemma_latency_of_kind(
    log: Insights<'_>,
    events: Seq<ObservabilityEvent>,
    kind: &str,
    summary: LatencySummary,
)
    requires
        log@ == crate::event::event_views(events),
        call_ensures(Insights::latency, (&log, kind), summary),
    ensures
        crate::latency::summarizes(durations_under(events, kind@), summary),
{
    lemma_durations_under(events, kind@);
}

/// The times to the first token that completed prompts report, in their order.
pub open spec fn first_token_times(events: Seq<ObservabilityEvent>) -> Seq<u64>
    decreases events.len(),
{
    if events.len() == 0 {
        seq![]
    } else {
        let earlier = first_token_times(events.drop_last());
        match events.last().kind {
            EventKind::PromptCompleted { time_to_first_token_ms: Some(millis), .. } => earlier.push(
                millis,
            ),
            _ => earlier,
        }
    }
}

proof fn lemma_first_token_times(events: Seq<ObservabilityEvent>)
    ensures
        crate::insights::gather(
            crate::event::event_views(events),
            crate::insights::by_first_token(),
        ) == first_token_times(events),
    decreases events.len(),
{
    let views = crate::event::event_views(events);
    if events.len() > 0 {
        lemma_first_token_times(events.drop_last());
        assert(views.drop_last() =~= crate::event::event_views(events.drop_last()));
        crate::insight_laws::lemma_prompt_reports(events.last(), Seq::empty());
    }
}

/// The time to the first token is the summary of what completed prompts report.
pub proof fn lemma_time_to_first_token(
    log: Insights<'_>,
    events: Seq<ObservabilityEvent>,
    summary: LatencySummary,
)
    requires
        log@ == crate::event::event_views(events),
        call_ensures(Insights::time_to_first_token, (&log,), summary),
    ensures
        crate::latency::summarizes(first_token_times(events), summary),
{
    lemma_first_token_times(events);
}

/// The costs of completed prompts in one conversation, in their order.
pub open spec fn costs_in(events: Seq<ObservabilityEvent>, conversation_id: Seq<char>) -> Seq<Float64>
    decreases events.len(),
{
    if events.len() == 0 {
        seq![]
    } else {
        let earlier = costs_in(events.drop_last(), conversation_id);
        match events.last().kind {
            EventKind::PromptCompleted { cost_usd: Some(cost), .. } => if events.last().conversation_id@
                == conversation_id {
                earlier.push(cost)
            } else {
                earlier
            },
            _ => earlier,
        }
    }
}

proof fn lemma_costs_in(events: Seq<ObservabilityEvent>, conversation_id: Seq<char>)
    ensures
        crate::insights::gather(
            crate::event::event_views(events),
            crate::insights::by_cost_in(conversation_id),
        ) == costs_in(events, conversation_id),
    decreases events.len(),
{
    let views = crate::event::event_views(events);
    if events.len() > 0 {
        lemma_costs_in(events.drop_last(), conversation_id);
        assert(views.drop_last() =~= crate::event::event_views(events.drop_last()));
        crate::insight_laws::lemma_prompt_reports(events.last(), conversation_id);
    }
}

/// Costs are grouped by conversation: a conversation is there exactly where a
/// completed prompt of it reports a cost, with all the costs of its prompts.
pub proof fn lemma_costs_by_conversation(
    log: Insights<'_>,
    events: Seq<ObservabilityEvent>,
    costs: SortedTable<Vec<Float64>>,
    conversation_id: Seq<char>,
)
    requires
        log@ == crate::event::event_views(events),
        call_ensures(Insights::cost_by_conversation, (&log,), costs),
    ensures
        costs@.contains_key(conversation_id) <==> costs_in(events, conversation_id).len() > 0,
        costs@.contains_key(conversation_id) ==> costs@[conversation_id]@ == costs_in(
            events,
            conversation_id,
        ),
{
    lemma_costs_in(events, conversation_id);
}

/// A log holds the views of its events, in their order.
pub proof fn lemma_log_contents(events: Seq<ObservabilityEvent>)
    ensures
        crate::event::event_views(events).len() == events.len(),
        forall|i: int|
            0 <= i < events.len() ==> #[trigger] crate::event::event_views(events)[i] == events[i]@,
{
}

} // verus!
