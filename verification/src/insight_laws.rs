//! What rollups, latency summaries and metrics take from the events that they
//! are made of.

use vstd::prelude::*;

use crate::event::{EventKind, ObservabilityEvent};
use crate::float::Float64;
use crate::insights::TokenTotals;
use crate::latency::LatencySummary;
use crate::metrics_ext::{EventMetrics, MetricUpdate};
use crate::wire::WireValue;

verus! {

/// The duration that an event carries: its member `duration_ms`, where its
/// kind has one.
pub open spec fn carried_duration(kind: EventKind) -> Option<u64> {
    match kind {
        EventKind::PromptCompleted { duration_ms, .. } => duration_ms,
        EventKind::ToolCompleted { duration_ms, .. } => duration_ms,
        EventKind::ToolHostedCompleted { duration_ms, .. } => duration_ms,
        EventKind::ResponseTurnCompleted { duration_ms, .. } => duration_ms,
        EventKind::EmbeddingCompleted { duration_ms, .. } => duration_ms,
        EventKind::RetrievalQueried { duration_ms, .. } => duration_ms,
        EventKind::RerankCompleted { duration_ms, .. } => duration_ms,
        _ => None,
    }
}

/// Every kind that has a duration is found to have that one, and no other
/// kind is found to have any.
pub proof fn lemma_durations(kind: EventKind)
    ensures
        crate::insights::duration_of(kind@) == carried_duration(kind),
{
}

/// The duration of an event is what its wire form holds under `duration_ms`,
/// whatever its kind.
pub proof fn lemma_duration_mirrors_the_wire(
    event: ObservabilityEvent,
    fields: Seq<(String, WireValue)>,
)
    requires
        crate::wire::field_views(fields) == crate::wire::event_fields(event@),
    ensures
        crate::schema_laws::opt_count_written(
            fields,
            "duration_ms"@,
            crate::insights::duration_of(event.kind@),
        ),
{
    match event.kind {
        EventKind::PromptCompleted { .. } => {
            crate::schema_laws::lemma_prompt_completed_is_written(event, fields);
        },
        EventKind::ToolCompleted { .. } => {
            crate::schema_laws::lemma_tool_completed_is_written(event, fields);
        },
        EventKind::ToolHostedCompleted { .. } => {
            crate::schema_laws::lemma_tool_hosted_completed_is_written(event, fields);
        },
        EventKind::ResponseTurnCompleted { .. } => {
            crate::schema_laws::lemma_response_turn_completed_is_written(event, fields);
        },
        EventKind::EmbeddingCompleted { .. } => {
            crate::schema_laws::lemma_embedding_completed_is_written(event, fields);
        },
        EventKind::RetrievalQueried { .. } => {
            crate::schema_laws::lemma_retrieval_queried_is_written(event, fields);
        },
        EventKind::RerankCompleted { .. } => {
            crate::schema_laws::lemma_rerank_completed_is_written(event, fields);
        },
        _ => {
            crate::wire_laws::lemma_key_codes();
            crate::event_laws::lemma_no_other_fields(event, fields, "duration_ms"@);
        },
    }
}

/// One more event adds its duration to the latencies of its own kind, and
/// nothing to those of another.
pub proof fn lemma_latencies_grow(
    events: Seq<crate::event::EventView>,
    event: ObservabilityEvent,
    kind: Seq<char>,
)
    ensures
        ({
            let before = crate::insights::gather(events, crate::insights::by_duration(kind));
            let after = crate::insights::gather(
                events.push(event@),
                crate::insights::by_duration(kind),
            );
            match carried_duration(event.kind) {
                Some(duration) => after == (if event.kind@.discriminant() == kind {
                    before.push(duration)
                } else {
                    before
                }),
                None => after == before,
            }
        }),
        crate::insights::gather(Seq::empty(), crate::insights::by_duration(kind)).len() == 0,
{
    assert(events.push(event@).drop_last() =~= events);
}

/// What a completed prompt reports is what the rollups take of it, each number
/// for its own, and no other event is taken for one.
pub proof fn lemma_prompt_reports(event: ObservabilityEvent, conversation_id: Seq<char>)
    ensures
        match event.kind {
            EventKind::PromptCompleted {
                tokens_in,
                tokens_out,
                cached_tokens_in,
                reasoning_tokens,
                cost_usd,
                finish_reason,
                time_to_first_token_ms,
                ..
            } => {
                &&& crate::insights::by_tokens_in()(event@) == tokens_in
                &&& crate::insights::by_tokens_out()(event@) == tokens_out
                &&& crate::insights::by_cached_tokens_in()(event@) == cached_tokens_in
                &&& crate::insights::by_reasoning_tokens()(event@) == reasoning_tokens
                &&& crate::insights::by_cost()(event@) == cost_usd
                &&& crate::insights::by_cost_in(conversation_id)(event@) == (
                if event.conversation_id@ == conversation_id {
                    cost_usd
                } else {
                    None
                })
                &&& crate::insights::by_finish_reason()(event@) == finish_reason.deep_view()
                &&& crate::insights::by_first_token()(event@) == time_to_first_token_ms
            },
            _ => {
                &&& crate::insights::by_tokens_in()(event@) is None
                &&& crate::insights::by_tokens_out()(event@) is None
                &&& crate::insights::by_cached_tokens_in()(event@) is None
                &&& crate::insights::by_reasoning_tokens()(event@) is None
                &&& crate::insights::by_cost()(event@) is None
                &&& crate::insights::by_cost_in(conversation_id)(event@) is None
                &&& crate::insights::by_finish_reason()(event@) is None
                &&& crate::insights::by_first_token()(event@) is None
            },
        },
{
}

/// Failures are counted by the label of their class.
pub proof fn lemma_failure_reports(event: ObservabilityEvent)
    ensures
        crate::insights::by_error_class()(event@) == (match event.kind {
            EventKind::PromptFailed { error_class, .. } => Some(
                crate::schema_laws::class_name(error_class),
            ),
            EventKind::ToolFailed { error_class, .. } => Some(
                crate::schema_laws::class_name(error_class),
            ),
            _ => None,
        }),
{
}

/// Events are counted by their kind, and those of hosted tools with those of
/// the tools of the agent loop.
pub proof fn lemma_counted_kinds(event: ObservabilityEvent)
    ensures
        crate::insights::starts_prompt()(event@) <==> event.kind is PromptStarted,
        crate::insights::completes_prompt()(event@) <==> event.kind is PromptCompleted,
        crate::insights::fails_prompt()(event@) <==> event.kind is PromptFailed,
        crate::insights::invokes_tool()(event@) <==> event.kind is ToolInvoked
            || event.kind is ToolHostedInvoked,
        crate::insights::completes_tool()(event@) <==> event.kind is ToolCompleted
            || event.kind is ToolHostedCompleted,
        crate::insights::fails_tool()(event@) <==> event.kind is ToolFailed,
        crate::insights::skips_tool()(event@) <==> event.kind is ToolSkipped,
        crate::insights::terminates_tool()(event@) <==> event.kind is ToolTerminated,
{
}

/// What is gathered grows by what one more event gives, at its end, and
/// nothing is gathered of no events.
pub proof fn lemma_gathering_grows<T>(
    events: Seq<crate::event::EventView>,
    event: crate::event::EventView,
    pick: spec_fn(crate::event::EventView) -> Option<T>,
)
    ensures
        crate::insights::gather(Seq::empty(), pick) == Seq::<T>::empty(),
        crate::insights::gather(events.push(event), pick) == (match pick(event) {
            Some(found) => crate::insights::gather(events, pick).push(found),
            None => crate::insights::gather(events, pick),
        }),
{
    assert(events.push(event).drop_last() =~= events);
}

/// A count grows by one with one more event that is wanted, and by nothing
/// with any other; of no events none is counted.
pub proof fn lemma_counting_grows(
    events: Seq<crate::event::EventView>,
    event: crate::event::EventView,
    wanted: spec_fn(crate::event::EventView) -> bool,
)
    ensures
        crate::insights::count_of(Seq::empty(), wanted) == 0,
        crate::insights::count_of(events.push(event), wanted) == crate::insights::count_of(
            events,
            wanted,
        ) + (if wanted(event) {
            1int
        } else {
            0int
        }),
{
    assert(events.push(event).drop_last() =~= events);
}

/// An optional number, with absence as zero.
pub open spec fn or_zero(value: Option<u64>) -> int {
    match value {
        Some(value) => value as int,
        None => 0,
    }
}

/// Token totals grow by what one more completed prompt reports, each total by
/// its own number, and by nothing with any other event.
pub proof fn lemma_totals_grow(
    events: Seq<crate::event::EventView>,
    event: ObservabilityEvent,
    before: TokenTotals,
    after: TokenTotals,
)
    requires
        crate::insights::totals_tokens(events, before),
        crate::insights::totals_tokens(events.push(event@), after),
    ensures
        match event.kind {
            EventKind::PromptCompleted {
                tokens_in,
                tokens_out,
                cached_tokens_in,
                reasoning_tokens,
                ..
            } => {
                &&& after.tokens_in == before.tokens_in + or_zero(tokens_in)
                &&& after.tokens_out == before.tokens_out + or_zero(tokens_out)
                &&& after.cached_tokens_in == before.cached_tokens_in + or_zero(cached_tokens_in)
                &&& after.reasoning_tokens == before.reasoning_tokens + or_zero(reasoning_tokens)
            },
            _ => after == before,
        },
{
    lemma_total_of_gathered_grows(events, event@, crate::insights::by_tokens_in());
    lemma_total_of_gathered_grows(events, event@, crate::insights::by_tokens_out());
    lemma_total_of_gathered_grows(events, event@, crate::insights::by_cached_tokens_in());
    lemma_total_of_gathered_grows(events, event@, crate::insights::by_reasoning_tokens());
}

proof fn lemma_total_of_gathered_grows(
    events: Seq<crate::event::EventView>,
    event: crate::event::EventView,
    pick: spec_fn(crate::event::EventView) -> Option<u64>,
)
    ensures
        crate::latency::total(crate::insights::gather(events.push(event), pick))
            == crate::latency::total(crate::insights::gather(events, pick)) + or_zero(pick(event)),
{
    lemma_gathering_grows(events, event, pick);
    if let Some(found) = pick(event) {
        lemma_sum_grows(crate::insights::gather(events, pick), found);
    }
}

/// The totals of no events are zero.
pub proof fn lemma_totals_of_nothing(totals: TokenTotals)
    requires
        crate::insights::totals_tokens(Seq::empty(), totals),
    ensures
        totals.tokens_in == 0,
        totals.tokens_out == 0,
        totals.cached_tokens_in == 0,
        totals.reasoning_tokens == 0,
{
}

/// Totals fit if and only if there are totals.
pub proof fn lemma_totals_exist(events: Seq<crate::event::EventView>)
    ensures
        crate::insights::tokens_fit(events) <==> exists|totals: TokenTotals| #[trigger]
            crate::insights::totals_tokens(events, totals),
{
    let totals = TokenTotals {
        tokens_in: crate::latency::total(
            crate::insights::gather(events, crate::insights::by_tokens_in()),
        ) as u64,
        tokens_out: crate::latency::total(
            crate::insights::gather(events, crate::insights::by_tokens_out()),
        ) as u64,
        cached_tokens_in: crate::latency::total(
            crate::insights::gather(events, crate::insights::by_cached_tokens_in()),
        ) as u64,
        reasoning_tokens: crate::latency::total(
            crate::insights::gather(events, crate::insights::by_reasoning_tokens()),
        ) as u64,
    };
    if crate::insights::tokens_fit(events) {
        assert(crate::insights::totals_tokens(events, totals));
    }
}

/// A sum grows by the number that is added, and is zero of no numbers.
pub proof fn lemma_sum_grows(numbers: Seq<u64>, number: u64)
    ensures
        crate::latency::total(Seq::empty()) == 0,
        crate::latency::total(numbers.push(number)) == crate::latency::total(numbers) + number,
{
    assert(numbers.push(number).drop_last() =~= numbers);
}

/// A tally counts occurrences: a label that is added once more is counted once
/// more, no other count changes, and the tally holds no label that does not
/// occur.
pub proof fn lemma_tally_counts(
    counts: Map<Seq<char>, usize>,
    labels: Seq<Seq<char>>,
    added: Seq<char>,
    label: Seq<char>,
)
    requires
        crate::table::tallies(counts, labels),
    ensures
        counts.contains_key(label) <==> labels.contains(label),
        counts.contains_key(label) ==> counts[label] == crate::table::occurrences(labels, label),
        crate::table::occurrences(labels.push(added), label) == crate::table::occurrences(
            labels,
            label,
        ) + (if added == label {
            1int
        } else {
            0int
        }),
        crate::table::occurrences(Seq::empty(), label) == 0,
{
    assert(labels.push(added).drop_last() =~= labels);
    assert(crate::table::count_at(counts, label) == crate::table::occurrences(labels, label));
}

/// Whether `value` stands at the nearest rank of the `p`-th percentile: at
/// least `p` percent of the samples stand at or below that rank, and fewer at
/// the rank before.
pub open spec fn stands_at_percentile(sorted: Seq<u64>, p: int, value: Option<u64>) -> bool {
    exists|rank: int|
        {
            &&& 1 <= rank <= sorted.len()
            &&& 100 * rank >= p * sorted.len()
            &&& 100 * (rank - 1) < p * sorted.len()
            &&& value == Some(#[trigger] sorted[rank - 1])
        }
}

/// A summary of samples, told from their ascending order: how many there are,
/// the smallest and the largest of them, their mean without its fraction, and
/// the percentiles by the nearest rank.
pub proof fn lemma_summary(samples: Seq<u64>, sorted: Seq<u64>, summary: LatencySummary)
    requires
        crate::latency::summarizes(samples, summary),
        forall|i: int, j: int| 0 <= i <= j < sorted.len() ==> sorted[i] <= sorted[j],
        sorted.to_multiset() == samples.to_multiset(),
        0 < sorted.len() <= usize::MAX,
    ensures
        summary.count == samples.len(),
        summary.min_ms == Some(sorted[0]),
        summary.max_ms == Some(sorted[sorted.len() - 1]),
        summary.mean_ms matches Some(mean) && mean * sorted.len() <= crate::latency::total(sorted)
            < (mean + 1) * sorted.len(),
        stands_at_percentile(sorted, 50, summary.p50_ms),
        stands_at_percentile(sorted, 90, summary.p90_ms),
        stands_at_percentile(sorted, 95, summary.p95_ms),
        stands_at_percentile(sorted, 99, summary.p99_ms),
{
    assert(crate::latency::sorted_form(samples, sorted));
    samples.to_multiset_ensures();
    sorted.to_multiset_ensures();
    let n = sorted.len();
    crate::latency::lemma_nearest_rank(50, n);
    crate::latency::lemma_nearest_rank(90, n);
    crate::latency::lemma_nearest_rank(95, n);
    crate::latency::lemma_nearest_rank(99, n);
    crate::latency::lemma_summary_is_ordered(sorted);
    let sum = crate::latency::total(sorted) as int;
    let mean = sum / n as int;
    crate::latency::lemma_mean_in_range(sorted);
    assert(mean * n <= sum < (mean + 1) * n) by (nonlinear_arith)
        requires
            mean == sum / n as int,
            n > 0,
            sum >= 0,
    ;
    assert(sorted[crate::latency::nearest_rank(50, n) - 1] == summary.p50_ms->0);
    assert(sorted[crate::latency::nearest_rank(90, n) - 1] == summary.p90_ms->0);
    assert(sorted[crate::latency::nearest_rank(95, n) - 1] == summary.p95_ms->0);
    assert(sorted[crate::latency::nearest_rank(99, n) - 1] == summary.p99_ms->0);
}

/// The summary of no samples has nothing in it.
pub proof fn lemma_summary_of_nothing(summary: LatencySummary)
    requires
        crate::latency::summarizes(Seq::empty(), summary),
    ensures
        summary.count == 0,
        summary.min_ms is None,
        summary.max_ms is None,
        summary.mean_ms is None,
        summary.p50_ms is None,
        summary.p90_ms is None,
        summary.p95_ms is None,
        summary.p99_ms is None,
{
    assert(crate::latency::sorted_form(Seq::empty(), Seq::empty()));
}

/// The updates of the metric `name`, in their order.
pub open spec fn updates_under(
    updates: Seq<(Seq<char>, MetricUpdate)>,
    name: Seq<char>,
) -> Seq<MetricUpdate>
    decreases updates.len(),
{
    if updates.len() == 0 {
        seq![]
    } else if updates.last().0 == name {
        updates_under(updates.drop_last(), name).push(updates.last().1)
    } else {
        updates_under(updates.drop_last(), name)
    }
}

broadcast proof fn lemma_updates_join(
    first: Seq<(Seq<char>, MetricUpdate)>,
    second: Seq<(Seq<char>, MetricUpdate)>,
    name: Seq<char>,
)
    ensures
        #[trigger] updates_under(first + second, name) == updates_under(first, name)
            + updates_under(second, name),
    decreases second.len(),
{
    if second.len() == 0 {
        assert(first + second =~= first);
        assert(updates_under(first, name) + updates_under(second, name) =~= updates_under(
            first,
            name,
        ));
    } else {
        lemma_updates_join(first, second.drop_last(), name);
        assert((first + second).drop_last() =~= first + second.drop_last());
        assert(updates_under(first + second, name) =~= updates_under(first, name) + updates_under(
            second,
            name,
        ));
    }
}

broadcast proof fn lemma_update_alone(
    key: Seq<char>,
    update: MetricUpdate,
    name: Seq<char>,
)
    ensures
        #[trigger] updates_under(seq![(key, update)], name) == (if key == name {
            seq![update]
        } else {
            seq![]
        }),
{
    assert(seq![(key, update)].drop_last() =~= seq![]);
    assert(updates_under(seq![(key, update)].drop_last(), name) =~= seq![]);
}

/// The increment of a counter by an optional number.
pub open spec fn increments(value: Option<u64>) -> Seq<MetricUpdate> {
    match value {
        Some(value) => seq![MetricUpdate::Increment(value)],
        None => seq![],
    }
}

/// The record of an optional number.
pub open spec fn records(value: Option<u64>) -> Seq<MetricUpdate> {
    match value {
        Some(value) => seq![MetricUpdate::Record(value)],
        None => seq![],
    }
}

broadcast proof fn lemma_counted_alone(key: Seq<char>, value: Option<u64>, name: Seq<char>)
    ensures
        #[trigger] updates_under(crate::metrics_ext::count_if(key, value), name) == (if key == name {
            increments(value)
        } else {
            seq![]
        }),
{
    if let Some(inner) = value {
        lemma_update_alone(key, MetricUpdate::Increment(inner), name);
    }
}

broadcast proof fn lemma_recorded_alone(key: Seq<char>, value: Option<u64>, name: Seq<char>)
    ensures
        #[trigger] updates_under(crate::metrics_ext::record_if(key, value), name) == (
        if key == name {
            records(value)
        } else {
            seq![]
        }),
{
    if let Some(inner) = value {
        lemma_update_alone(key, MetricUpdate::Record(inner), name);
    }
}

proof fn lemma_metric_names()
    ensures
        "rig_tap.events.count"@.len() == 20,
        "rig_tap.tokens.in"@.len() == 17,
        "rig_tap.tokens.out"@.len() == 18,
        "rig_tap.tokens.cached_in"@.len() == 24,
        "rig_tap.tokens.cached_in"@[15] == 'c',
        "rig_tap.tokens.reasoning"@.len() == 24,
        "rig_tap.tokens.reasoning"@[15] == 'r',
        "rig_tap.ttft_ms"@.len() == 15,
        "rig_tap.duration_ms"@.len() == 19,
        "rig_tap.memory.message_count"@.len() == 28,
        "rig_tap.memory.byte_size"@.len() == 24,
        "rig_tap.memory.byte_size"@[15] == 'b',
{
    reveal_strlit("rig_tap.events.count");
    reveal_strlit("rig_tap.tokens.in");
    reveal_strlit("rig_tap.tokens.out");
    reveal_strlit("rig_tap.tokens.cached_in");
    reveal_strlit("rig_tap.tokens.reasoning");
    reveal_strlit("rig_tap.ttft_ms");
    reveal_strlit("rig_tap.duration_ms");
    reveal_strlit("rig_tap.memory.message_count");
    reveal_strlit("rig_tap.memory.byte_size");
}

/// The metrics of an event, name by name: it is counted once; the tokens of a
/// completed prompt are counted, each under its own name; its time to the first
/// token, the duration of any event, and the size of a context are recorded.
pub proof fn lemma_metrics(event: ObservabilityEvent, metrics: EventMetrics)
    requires
        call_ensures(crate::metrics_ext::event_metrics, (&event,), metrics),
    ensures
        ({
            let updates = metrics.updates.deep_view();
            &&& updates_under(updates, "rig_tap.events.count"@) == seq![MetricUpdate::Increment(1)]
            &&& updates_under(updates, "rig_tap.tokens.in"@) == increments(
                match event.kind {
                    EventKind::PromptCompleted { tokens_in, .. } => tokens_in,
                    _ => None,
                },
            )
            &&& updates_under(updates, "rig_tap.tokens.out"@) == increments(
                match event.kind {
                    EventKind::PromptCompleted { tokens_out, .. } => tokens_out,
                    _ => None,
                },
            )
            &&& updates_under(updates, "rig_tap.tokens.cached_in"@) == increments(
                match event.kind {
                    EventKind::PromptCompleted { cached_tokens_in, .. } => cached_tokens_in,
                    _ => None,
                },
            )
            &&& updates_under(updates, "rig_tap.tokens.reasoning"@) == increments(
                match event.kind {
                    EventKind::PromptCompleted { reasoning_tokens, .. } => reasoning_tokens,
                    _ => None,
                },
            )
            &&& updates_under(updates, "rig_tap.ttft_ms"@) == records(
                match event.kind {
                    EventKind::PromptCompleted { time_to_first_token_ms, .. } =>
                        time_to_first_token_ms,
                    _ => None,
                },
            )
            &&& updates_under(updates, "rig_tap.duration_ms"@) == records(
                carried_duration(event.kind),
            )
            &&& updates_under(updates, "rig_tap.memory.message_count"@) == records(
                match event.kind {
                    EventKind::ContextSampled { message_count, .. } => Some(message_count as u64),
                    EventKind::ContextPersisted { message_count, .. } => Some(message_count as u64),
                    _ => None,
                },
            )
            &&& updates_under(updates, "rig_tap.memory.byte_size"@) == records(
                match event.kind {
                    EventKind::ContextSampled { byte_size, .. } => Some(byte_size as u64),
                    EventKind::ContextPersisted { byte_size, .. } => Some(byte_size as u64),
                    _ => None,
                },
            )
        }),
        forall|i: int|
            0 <= i < metrics.updates.len() ==> metrics.updates.deep_view()[i] == (
                (#[trigger] metrics.updates[i]).name@,
                metrics.updates[i].update,
            ),
{
    broadcast use {
        lemma_updates_join,
        lemma_update_alone,
        lemma_counted_alone,
        lemma_recorded_alone,
    };

    lemma_metric_names();
    lemma_durations(event.kind);
    let updates = metrics.updates.deep_view();
    let rest = crate::metrics_ext::detail_of(event.kind@);
    assert(updates == seq![("rig_tap.events.count"@, MetricUpdate::Increment(1))] + rest);
    if event.kind is ContextSampled || event.kind is ContextPersisted {
        assert(rest =~= seq![rest[0]] + seq![rest[1]]);
    }
}

/// The labels of an event: its wire name first, and then those of its model,
/// tool name and error class that it has, in that order and nothing else.
pub proof fn lemma_metric_labels(event: ObservabilityEvent, metrics: EventMetrics)
    requires
        call_ensures(crate::metrics_ext::event_metrics, (&event,), metrics),
    ensures
        ({
            let scalars = event.kind@.scalars();
            metrics.labels.deep_view() == seq![("kind"@, event.kind@.discriminant())] + (
            if scalars.model.len() > 0 {
                seq![("model"@, scalars.model)]
            } else {
                seq![]
            }) + (if scalars.tool_name.len() > 0 {
                seq![("tool_name"@, scalars.tool_name)]
            } else {
                seq![]
            }) + (if scalars.error_class.len() > 0 {
                seq![("error_class"@, scalars.error_class)]
            } else {
                seq![]
            })
        }),
        forall|i: int|
            0 <= i < metrics.labels.len() ==> metrics.labels.deep_view()[i] == (
                (#[trigger] metrics.labels[i]).key@,
                metrics.labels[i].value@,
            ),
{
}

/// An event has no metric but the nine.
pub proof fn lemma_no_other_metrics(kind: crate::event::KindView, name: Seq<char>)
    requires
        name != "rig_tap.events.count"@,
        name != "rig_tap.tokens.in"@,
        name != "rig_tap.tokens.out"@,
        name != "rig_tap.tokens.cached_in"@,
        name != "rig_tap.tokens.reasoning"@,
        name != "rig_tap.ttft_ms"@,
        name != "rig_tap.duration_ms"@,
        name != "rig_tap.memory.message_count"@,
        name != "rig_tap.memory.byte_size"@,
    ensures
        updates_under(crate::metrics_ext::updates_of(kind), name).len() == 0,
{
    broadcast use {
        lemma_updates_join,
        lemma_update_alone,
        lemma_counted_alone,
        lemma_recorded_alone,
    };

    let rest = crate::metrics_ext::detail_of(kind);
    if kind is ContextSampled || kind is ContextPersisted {
        assert(rest =~= seq![rest[0]] + seq![rest[1]]);
    }
}

/// Costs are kept as they were reported.
pub proof fn lemma_costs_grow(
    events: Seq<crate::event::EventView>,
    event: ObservabilityEvent,
    conversation_id: Seq<char>,
    cost: Float64,
)
    requires
        event.kind matches EventKind::PromptCompleted { cost_usd, .. } && cost_usd == Some(cost),
    ensures
        crate::insights::gather(events.push(event@), crate::insights::by_cost())
            == crate::insights::gather(events, crate::insights::by_cost()).push(cost),
        crate::insights::gather(
            events.push(event@),
            crate::insights::by_cost_in(conversation_id),
        ) == (if event.conversation_id@ == conversation_id {
            crate::insights::gather(
                events,
                crate::insights::by_cost_in(conversation_id),
            ).push(cost)
        } else {
            crate::insights::gather(events, crate::insights::by_cost_in(conversation_id))
        }),
{
    assert(events.push(event@).drop_last() =~= events);
}

} // verus!
