//! Native metrics derived from events.
//!
//! [`event_metrics`] turns an event into pre-aggregated updates (counters and
//! histograms), pulling fields out of the [`ObservabilityEvent`] envelope, so
//! that operators can build TSDB or Prometheus dashboards without a
//! log-extraction pipeline.

use vstd::prelude::*;

use crate::event::{EventKind, ObservabilityEvent};

verus! {

/// How a metric takes up a value.
#[derive(Debug, Clone, Copy, PartialEq, Eq, Structural)]
pub enum MetricUpdate {
    /// The counter grows by the value.
    Increment(u64),
    /// The histogram records the value.
    Record(u64),
}

/// One update of one metric.
#[derive(Debug, Clone, Copy, PartialEq, Eq)]
pub struct Metric {
    /// Name of the metric.
    pub name: &'static str,
    /// What the metric takes up.
    pub update: MetricUpdate,
}

impl View for Metric {
    type V = (Seq<char>, MetricUpdate);

    open spec fn view(&self) -> (Seq<char>, MetricUpdate) {
        (self.name@, self.update)
    }
}

impl DeepView for Metric {
    type V = (Seq<char>, MetricUpdate);

    open spec fn deep_view(&self) -> (Seq<char>, MetricUpdate) {
        self@
    }
}

/// A label of a metric: its key and its value.
#[derive(Debug, PartialEq, Eq)]
pub struct Label {
    /// Key of the label.
    pub key: &'static str,
    /// Value of the label.
    pub value: String,
}

impl View for Label {
    type V = (Seq<char>, Seq<char>);

    open spec fn view(&self) -> (Seq<char>, Seq<char>) {
        (self.key@, self.value@)
    }
}

impl DeepView for Label {
    type V = (Seq<char>, Seq<char>);

    open spec fn deep_view(&self) -> (Seq<char>, Seq<char>) {
        self@
    }
}

/// The metric updates of one event, all under the same labels.
#[derive(Debug, PartialEq, Eq)]
pub struct EventMetrics {
    /// Labels applied to every update.
    pub labels: Vec<Label>,
    /// Updates in the order in which they are to be made.
    pub updates: Vec<Metric>,
}

/// A label, where its value is not empty.
pub open spec fn label_if(key: Seq<char>, value: Seq<char>) -> Seq<(Seq<char>, Seq<char>)> {
    if value.len() == 0 {
        seq![]
    } else {
        seq![(key, value)]
    }
}

/// The labels of an event: its kind, and its model, tool name and error class
/// where it has them.
pub open spec fn labels_of(kind: crate::event::KindView) -> Seq<(Seq<char>, Seq<char>)> {
    let scalars = kind.scalars();
    seq![("kind"@, kind.discriminant())] + label_if("model"@, scalars.model) + label_if(
        "tool_name"@,
        scalars.tool_name,
    ) + label_if("error_class"@, scalars.error_class)
}

/// The increment of a counter, where there is a value.
pub open spec fn count_if(name: Seq<char>, value: Option<u64>) -> Seq<(Seq<char>, MetricUpdate)> {
    match value {
        Some(value) => seq![(name, MetricUpdate::Increment(value))],
        None => seq![],
    }
}

/// The record of a histogram, where there is a value.
pub open spec fn record_if(name: Seq<char>, value: Option<u64>) -> Seq<(Seq<char>, MetricUpdate)> {
    match value {
        Some(value) => seq![(name, MetricUpdate::Record(value))],
        None => seq![],
    }
}

/// The updates that the payload of an event calls for.
pub open spec fn detail_of(kind: crate::event::KindView) -> Seq<(Seq<char>, MetricUpdate)> {
    match kind {
        crate::event::KindView::PromptCompleted {
            tokens_in,
            tokens_out,
            cached_tokens_in,
            reasoning_tokens,
            time_to_first_token_ms,
            duration_ms,
            ..
        } => count_if("rig_tap.tokens.in"@, tokens_in) + count_if(
            "rig_tap.tokens.out"@,
            tokens_out,
        ) + count_if("rig_tap.tokens.cached_in"@, cached_tokens_in) + count_if(
            "rig_tap.tokens.reasoning"@,
            reasoning_tokens,
        ) + record_if("rig_tap.ttft_ms"@, time_to_first_token_ms) + record_if(
            "rig_tap.duration_ms"@,
            duration_ms,
        ),
        crate::event::KindView::ContextSampled { message_count, byte_size, .. } => seq![
            ("rig_tap.memory.message_count"@, MetricUpdate::Record(message_count as u64)),
            ("rig_tap.memory.byte_size"@, MetricUpdate::Record(byte_size as u64)),
        ],
        crate::event::KindView::ContextPersisted { message_count, byte_size, .. } => seq![
            ("rig_tap.memory.message_count"@, MetricUpdate::Record(message_count as u64)),
            ("rig_tap.memory.byte_size"@, MetricUpdate::Record(byte_size as u64)),
        ],
        _ => record_if("rig_tap.duration_ms"@, crate::insights::duration_of(kind)),
    }
}

/// All updates of an event: it is counted once, then come those that its
/// payload calls for.
pub open spec fn updates_of(kind: crate::event::KindView) -> Seq<(Seq<char>, MetricUpdate)> {
    seq![("rig_tap.events.count"@, MetricUpdate::Increment(1))] + detail_of(kind)
}

fn push_label(labels: &mut Vec<Label>, key: &'static str, value: &str)
    ensures
        final(labels).deep_view() == old(labels).deep_view() + label_if(key@, value@),
{
    let ghost before = labels.deep_view();
    if !value.is_empty() {
        labels.push(Label { key, value: value.to_owned() });
    }
    assert(labels.deep_view() =~= before + label_if(key@, value@));
}

fn push_count(updates: &mut Vec<Metric>, name: &'static str, value: Option<u64>)
    ensures
        final(updates).deep_view() == old(updates).deep_view() + count_if(name@, value),
{
    let ghost before = updates.deep_view();
    if let Some(value) = value {
        updates.push(Metric { name, update: MetricUpdate::Increment(value) });
    }
    assert(updates.deep_view() =~= before + count_if(name@, value));
}

fn push_record(updates: &mut Vec<Metric>, name: &'static str, value: Option<u64>)
    ensures
        final(updates).deep_view() == old(updates).deep_view() + record_if(name@, value),
{
    let ghost before = updates.deep_view();
    if let Some(value) = value {
        updates.push(Metric { name, update: MetricUpdate::Record(value) });
    }
    assert(updates.deep_view() =~= before + record_if(name@, value));
}

/// The metric updates that `event` calls for.
pub fn event_metrics(event: &ObservabilityEvent) -> (metrics: EventMetrics)
    ensures
        metrics.labels.deep_view() == labels_of(event.kind@),
        metrics.updates.deep_view() == updates_of(event.kind@),
{
    let fields = event.kind.scalar_fields();
    let mut labels: Vec<Label> = Vec::new();
    labels.push(Label { key: "kind", value: event.kind.discriminant().to_owned() });
    assert(labels.deep_view() =~= seq![("kind"@, event.kind@.discriminant())]);
    push_label(&mut labels, "model", fields.model);
    push_label(&mut labels, "tool_name", fields.tool_name);
    push_label(&mut labels, "error_class", fields.error_class);

    // Count every event
    let mut updates: Vec<Metric> = Vec::new();
    assert(updates.deep_view() =~= seq![]);
    push_count(&mut updates, "rig_tap.events.count", Some(1));
    assert(updates.deep_view() =~= seq![("rig_tap.events.count"@, MetricUpdate::Increment(1))]);

    match &event.kind {
        EventKind::PromptCompleted {
            tokens_in,
            tokens_out,
            cached_tokens_in,
            reasoning_tokens,
            time_to_first_token_ms,
            duration_ms,
            ..
        } => {
            push_count(&mut updates, "rig_tap.tokens.in", *tokens_in);
            push_count(&mut updates, "rig_tap.tokens.out", *tokens_out);
            push_count(&mut updates, "rig_tap.tokens.cached_in", *cached_tokens_in);
            push_count(&mut updates, "rig_tap.tokens.reasoning", *reasoning_tokens);
            push_record(&mut updates, "rig_tap.ttft_ms", *time_to_first_token_ms);
            push_record(&mut updates, "rig_tap.duration_ms", *duration_ms);
        },
        EventKind::ContextSampled { message_count, byte_size, .. }
        | EventKind::ContextPersisted { message_count, byte_size, .. } => {
            push_record(&mut updates, "rig_tap.memory.message_count", Some(*message_count as u64));
            push_record(&mut updates, "rig_tap.memory.byte_size", Some(*byte_size as u64));
        },
        other => {
            push_record(
                &mut updates,
                "rig_tap.duration_ms",
                crate::insights::duration_ms_of(other),
            );
        },
    }
    assert(updates.deep_view() =~= updates_of(event.kind@));
    EventMetrics { labels, updates }
}

/// Every event is counted exactly once, first, and every update carries the
/// kind of the event as its first label; a failure carries its class.
pub proof fn lemma_every_event_is_counted(kind: crate::event::KindView)
    ensures
        updates_of(kind).first() == ("rig_tap.events.count"@, MetricUpdate::Increment(1)),
        labels_of(kind).first() == ("kind"@, kind.discriminant()),
        kind.failure_related() ==> labels_of(kind).last() == (
            "error_class"@,
            kind.scalars().error_class,
        ),
{
    reveal_strlit("timeout");
    reveal_strlit("rate_limit");
    reveal_strlit("auth");
    reveal_strlit("transport");
    reveal_strlit("validation");
    reveal_strlit("provider_server");
    reveal_strlit("cancelled");
    reveal_strlit("unknown");
}

} // verus!
