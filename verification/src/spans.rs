//! Reconstruction of tool-call spans from captured events.

use vstd::prelude::*;

use crate::event::{ErrorClass, EventKind, ObservabilityEvent};
use crate::text::same_text;

verus! {

/// Terminal disposition of a reconstructed [`ToolSpan`].
#[derive(Debug, Clone, Copy, PartialEq, Eq, Structural)]
pub enum ToolOutcome {
    /// The invocation has no terminal event in the snapshot.
    Pending,
    /// Paired with `tool.completed` / `tool.hosted_completed`.
    Completed,
    /// Paired with `tool.failed`, carrying the failure classification.
    Failed {
        /// Failure classification from the paired `tool.failed`.
        error_class: ErrorClass,
    },
    /// Paired with `tool.skipped`.
    Skipped,
    /// Paired with `tool.terminated`.
    Terminated,
}

/// A reconstructed tool-call span: a `tool.invoked` (or
/// `tool.hosted_invoked`) paired with its terminal event by `call_id`.
///
/// `duration_ms` prefers a producer-stamped duration from the terminal
/// event; when absent it is derived from the wall-clock delta between the
/// invoke and terminal `occurred_at_millis` (skew-safe via checked
/// subtraction). Spans whose invoke had no terminal in the snapshot carry
/// [`ToolOutcome::Pending`] and a `None` duration.
#[derive(Debug, PartialEq)]
pub struct ToolSpan {
    /// Conversation the span belongs to.
    pub conversation_id: String,
    /// Tool name from the paired invoke.
    pub tool_name: String,
    /// Stable correlation id shared by the invoke and its terminal.
    pub call_id: String,
    /// `true` when reconstructed from `tool.hosted_*` events.
    pub hosted: bool,
    /// Monotonic `tick` of the invoke event.
    pub start_tick: u64,
    /// Monotonic `tick` of the terminal event, if observed.
    pub end_tick: Option<u64>,
    /// Terminal disposition.
    pub outcome: ToolOutcome,
    /// Span duration in milliseconds, when known.
    pub duration_ms: Option<u64>,
}

/// The content of a [`ToolSpan`].
#[verifier::ext_equal]
pub struct SpanView {
    pub conversation_id: Seq<char>,
    pub tool_name: Seq<char>,
    pub call_id: Seq<char>,
    pub hosted: bool,
    pub start_tick: u64,
    pub end_tick: Option<u64>,
    pub outcome: ToolOutcome,
    pub duration_ms: Option<u64>,
}

impl View for ToolSpan {
    type V = SpanView;

    open spec fn view(&self) -> SpanView {
        SpanView {
            conversation_id: self.conversation_id@,
            tool_name: self.tool_name@,
            call_id: self.call_id@,
            hosted: self.hosted,
            start_tick: self.start_tick,
            end_tick: self.end_tick,
            outcome: self.outcome,
            duration_ms: self.duration_ms,
        }
    }
}

impl DeepView for ToolSpan {
    type V = SpanView;

    open spec fn deep_view(&self) -> SpanView {
        self@
    }
}

impl Clone for ToolSpan {
    fn clone(&self) -> (copy: Self)
        ensures
            copy@ == self@,
    {
        ToolSpan {
            conversation_id: self.conversation_id.clone(),
            tool_name: self.tool_name.clone(),
            call_id: self.call_id.clone(),
            hosted: self.hosted,
            start_tick: self.start_tick,
            end_tick: self.end_tick,
            outcome: self.outcome,
            duration_ms: self.duration_ms,
        }
    }
}

/// Whether the event opens a span.
pub open spec fn opens(event: crate::event::EventView) -> bool {
    event.kind is ToolInvoked || event.kind is ToolHostedInvoked
}

/// The disposition that a terminal event gives a span, and the duration that
/// it carries; `None` for an event that ends no tool call.
pub open spec fn ending(event: crate::event::EventView) -> Option<(ToolOutcome, Option<u64>)> {
    match event.kind {
        crate::event::KindView::ToolCompleted { duration_ms, .. } => Some(
            (ToolOutcome::Completed, duration_ms),
        ),
        crate::event::KindView::ToolHostedCompleted { duration_ms, .. } => Some(
            (ToolOutcome::Completed, duration_ms),
        ),
        crate::event::KindView::ToolFailed { error_class, .. } => Some(
            (ToolOutcome::Failed { error_class }, None),
        ),
        crate::event::KindView::ToolSkipped { .. } => Some((ToolOutcome::Skipped, None)),
        crate::event::KindView::ToolTerminated { .. } => Some((ToolOutcome::Terminated, None)),
        _ => None,
    }
}

/// Whether two tool events belong to the same call: same conversation, same
/// `call_id`.
pub open spec fn same_call(a: crate::event::EventView, b: crate::event::EventView) -> bool {
    a.conversation_id == b.conversation_id && a.kind.call_id() == b.kind.call_id()
}

/// Whether the event at `end` ends the call that the event at `start` opened:
/// it is a terminal event of the same call, later, and the call was not opened
/// anew in between.
pub open spec fn ends(events: Seq<crate::event::EventView>, start: int, end: int) -> bool {
    &&& start < end < events.len()
    &&& ending(events[end]) is Some
    &&& same_call(events[start], events[end])
    &&& forall|k: int|
        start < k < end && opens(#[trigger] events[k]) ==> !same_call(events[start], events[k])
}

/// The last event below `limit` that ends the call opened at `start`.
pub open spec fn last_end(events: Seq<crate::event::EventView>, start: int, limit: int) -> Option<
    int,
>
    decreases limit,
{
    if limit <= start + 1 || limit <= 0 {
        None
    } else if ends(events, start, limit - 1) {
        Some(limit - 1)
    } else {
        last_end(events, start, limit - 1)
    }
}

/// The wall-clock time between two moments, where time did not run backwards.
pub open spec fn derived_duration(start_millis: u64, end_millis: u64) -> Option<u64> {
    if start_millis <= end_millis {
        Some((end_millis - start_millis) as u64)
    } else {
        None
    }
}

/// The name of the tool that an opening event names.
pub open spec fn opened_tool(event: crate::event::EventView) -> Seq<char> {
    event.kind.scalars().tool_name
}

/// The span of the call opened at `start`, as the events below `limit` leave
/// it: the last of them that ends the call settles it.
pub open spec fn span_at(
    events: Seq<crate::event::EventView>,
    start: int,
    limit: int,
) -> SpanView {
    let opened = events[start];
    let pending = SpanView {
        conversation_id: opened.conversation_id,
        tool_name: opened_tool(opened),
        call_id: opened.kind.scalars().call_id,
        hosted: opened.kind is ToolHostedInvoked,
        start_tick: opened.tick,
        end_tick: None,
        outcome: ToolOutcome::Pending,
        duration_ms: None,
    };
    match last_end(events, start, limit) {
        None => pending,
        Some(end) => {
            let (outcome, carried) = ending(events[end])->0;
            SpanView {
                end_tick: Some(events[end].tick),
                outcome,
                duration_ms: match carried {
                    Some(duration) => Some(duration),
                    None => derived_duration(
                        opened.occurred_at_millis,
                        events[end].occurred_at_millis,
                    ),
                },
                ..pending
            }
        },
    }
}

/// The positions below `limit` of the events that open a span, in order.
pub open spec fn openings(events: Seq<crate::event::EventView>, limit: int) -> Seq<int>
    decreases limit,
{
    if limit <= 0 {
        seq![]
    } else if opens(events[limit - 1]) {
        openings(events, limit - 1).push(limit - 1)
    } else {
        openings(events, limit - 1)
    }
}

/// The spans of `events`: one for each event that opens one, in their order,
/// each settled by the last event that ends its call.
pub open spec fn spans_of(events: Seq<crate::event::EventView>) -> Seq<SpanView> {
    let starts = openings(events, events.len() as int);
    Seq::new(starts.len(), |k: int| span_at(events, starts[k], events.len() as int))
}

/// The openings are the positions of the opening events, each once, in
/// ascending order.
pub proof fn lemma_openings(events: Seq<crate::event::EventView>, limit: int)
    requires
        0 <= limit <= events.len(),
    ensures
        forall|k: int|
            0 <= k < openings(events, limit).len() ==> 0 <= #[trigger] openings(events, limit)[k]
                < limit && opens(events[openings(events, limit)[k]]),
        forall|k: int, l: int|
            0 <= k < l < openings(events, limit).len() ==> #[trigger] openings(events, limit)[k]
                < #[trigger] openings(events, limit)[l],
        forall|i: int|
            0 <= i < limit && opens(#[trigger] events[i]) ==> openings(events, limit).contains(i),
        openings(events, limit).len() <= limit,
    decreases limit,
{
    if limit > 0 {
        lemma_openings(events, limit - 1);
        let before = openings(events, limit - 1);
        let now = openings(events, limit);
        assert forall|i: int| 0 <= i < limit && opens(#[trigger] events[i]) implies now.contains(
            i,
        ) by {
            if i == limit - 1 {
                assert(now[now.len() - 1] == i);
            } else {
                assert(before.contains(i));
                let k = choose|k: int| 0 <= k < before.len() && before[k] == i;
                assert(now[k] == i);
            }
        }
    }
}

/// What settles a span is a later terminal event of the same call, and the
/// last one that ends it.
pub proof fn lemma_last_end(events: Seq<crate::event::EventView>, start: int, limit: int)
    requires
        0 <= start,
        limit <= events.len(),
    ensures
        match last_end(events, start, limit) {
            Some(end) => {
                &&& ends(events, start, end)
                &&& end < limit
                &&& forall|later: int|
                    end < later < limit ==> !#[trigger] ends(events, start, later)
            },
            None => forall|end: int| end < limit ==> !#[trigger] ends(events, start, end),
        },
    decreases limit,
{
    if limit > start + 1 && limit > 0 && !ends(events, start, limit - 1) {
        lemma_last_end(events, start, limit - 1);
    }
}

/// A span is pending if and only if no event ends its call; a settled span
/// carries conversation and `call_id` of its invoke, and a duration that the
/// terminal event carries wins over the derived one.
pub proof fn lemma_span_outcomes(events: Seq<crate::event::EventView>, start: int)
    requires
        0 <= start < events.len(),
        opens(events[start]),
    ensures
        ({
            let span = span_at(events, start, events.len() as int);
            &&& span.outcome is Pending <==> forall|end: int| !#[trigger] ends(events, start, end)
            &&& span.outcome is Pending ==> span.end_tick is None && span.duration_ms is None
            &&& span.conversation_id == events[start].conversation_id
            &&& Some(span.call_id) == events[start].kind.call_id()
            &&& last_end(events, start, events.len() as int) matches Some(end) ==> {
                &&& ends(events, start, end)
                &&& span.end_tick == Some(events[end].tick)
                &&& (ending(events[end])->0).1 matches Some(duration) ==> span.duration_ms == Some(
                    duration,
                )
            }
        }),
{
    lemma_last_end(events, start, events.len() as int);
}

/// Every invoke has exactly one span, in the order of the events, and the span
/// carries what the invoke says; whatever else happens adds no span.
pub proof fn lemma_one_span_per_invoke(events: Seq<crate::event::EventView>)
    ensures
        ({
            let starts = openings(events, events.len() as int);
            &&& spans_of(events).len() == starts.len()
            &&& forall|i: int|
                starts.contains(i) <==> 0 <= i < events.len() && opens(#[trigger] events[i])
            &&& forall|k: int, l: int|
                0 <= k < l < starts.len() ==> #[trigger] starts[k] < #[trigger] starts[l]
            &&& forall|k: int|
                0 <= k < starts.len() ==> {
                    let span = #[trigger] spans_of(events)[k];
                    let invoke = events[starts[k]];
                    &&& span.conversation_id == invoke.conversation_id
                    &&& span.tool_name == opened_tool(invoke)
                    &&& Some(span.call_id) == invoke.kind.call_id()
                    &&& span.start_tick == invoke.tick
                    &&& span.hosted <==> invoke.kind is ToolHostedInvoked
                }
        }),
{
    let starts = openings(events, events.len() as int);
    lemma_openings(events, events.len() as int);
    assert forall|i: int| starts.contains(i) implies 0 <= i < events.len() && opens(
        #[trigger] events[i],
    ) by {
        let k = choose|k: int| 0 <= k < starts.len() && starts[k] == i;
        assert(0 <= starts[k] < events.len());
    }
    assert forall|k: int| 0 <= k < starts.len() implies {
        let span = #[trigger] spans_of(events)[k];
        let invoke = events[starts[k]];
        &&& span.conversation_id == invoke.conversation_id
        &&& span.tool_name == opened_tool(invoke)
        &&& Some(span.call_id) == invoke.kind.call_id()
        &&& span.start_tick == invoke.tick
        &&& span.hosted <==> invoke.kind is ToolHostedInvoked
    } by {
        assert(opens(events[starts[k]]));
    }
}

/// A settled span without a carried duration lasts from the time of its invoke
/// to the time of the event that ends it, whatever ticks these carry; it has no
/// duration where that time ran backwards.
pub proof fn lemma_derived_duration(events: Seq<crate::event::EventView>, start: int, end: int)
    requires
        0 <= start < events.len(),
        opens(events[start]),
        last_end(events, start, events.len() as int) == Some(end),
        (ending(events[end])->0).1 is None,
    ensures
        ({
            let began = events[start].occurred_at_millis;
            let ended = events[end].occurred_at_millis;
            let duration_ms = span_at(events, start, events.len() as int).duration_ms;
            &&& began <= ended ==> duration_ms == Some((ended - began) as u64)
            &&& began > ended ==> duration_ms is None
        }),
{
}

/// Where an index stands after the one at `at` is taken out.
spec fn shifted(at: int, i: int) -> int {
    if i < at {
        i
    } else {
        i - 1
    }
}

/// How many of the first `limit` events stay when the one at `at` is taken out.
spec fn reduced(at: int, limit: int) -> int {
    if limit <= at {
        limit
    } else {
        limit - 1
    }
}

proof fn lemma_ends_without(
    events: Seq<crate::event::EventView>,
    at: int,
    start: int,
    end: int,
)
    requires
        0 <= at < events.len(),
        !opens(events[at]),
        0 <= start < end < events.len(),
        start != at,
        end != at,
    ensures
        ends(events.remove(at), shifted(at, start), shifted(at, end)) == ends(events, start, end),
{
    let rest = events.remove(at);
    assert(rest[shifted(at, start)] == events[start]);
    assert(rest[shifted(at, end)] == events[end]);
    if ends(events, start, end) {
        assert forall|k: int|
            shifted(at, start) < k < shifted(at, end) && opens(#[trigger] rest[k]) implies
            !same_call(events[start], rest[k]) by {
            let original = if k < at {
                k
            } else {
                k + 1
            };
            assert(rest[k] == events[original]);
        }
    }
    if ends(rest, shifted(at, start), shifted(at, end)) {
        assert forall|k: int| start < k < end && opens(#[trigger] events[k]) implies !same_call(
            events[start],
            events[k],
        ) by {
            assert(rest[shifted(at, k)] == events[k]);
        }
    }
}

proof fn lemma_last_end_without(
    events: Seq<crate::event::EventView>,
    at: int,
    start: int,
    limit: int,
)
    requires
        0 <= at < events.len(),
        !opens(events[at]),
        !ends(events, start, at),
        0 <= start < events.len(),
        start != at,
        start < limit <= events.len(),
    ensures
        last_end(events.remove(at), shifted(at, start), reduced(at, limit)) == (match last_end(
            events,
            start,
            limit,
        ) {
            Some(end) => Some(shifted(at, end)),
            None => None,
        }),
        last_end(events, start, limit) != Some(at),
    decreases limit,
{
    if limit > start + 1 {
        lemma_last_end_without(events, at, start, limit - 1);
        if limit - 1 != at {
            lemma_ends_without(events, at, start, limit - 1);
        }
    }
}

proof fn lemma_openings_without(events: Seq<crate::event::EventView>, at: int, limit: int)
    requires
        0 <= at < events.len(),
        !opens(events[at]),
        0 <= limit <= events.len(),
    ensures
        ({
            let before = openings(events, limit);
            let after = openings(events.remove(at), reduced(at, limit));
            &&& after.len() == before.len()
            &&& forall|k: int|
                0 <= k < before.len() ==> #[trigger] after[k] == shifted(at, before[k])
        }),
    decreases limit,
{
    if limit > 0 {
        lemma_openings_without(events, at, limit - 1);
        if limit - 1 != at {
            assert(events.remove(at)[reduced(at, limit) - 1] == events[limit - 1]);
            assert(reduced(at, limit) - 1 == reduced(at, limit - 1));
        }
    }
}

/// A terminal event of a call that no earlier event opened leaves no trace:
/// with or without it, the spans are the same.
pub proof fn lemma_orphans_are_ignored(events: Seq<crate::event::EventView>, at: int)
    requires
        0 <= at < events.len(),
        ending(events[at]) is Some,
        forall|k: int|
            0 <= k < at && opens(#[trigger] events[k]) ==> !same_call(events[k], events[at]),
    ensures
        spans_of(events.remove(at)) == spans_of(events),
{
    let rest = events.remove(at);
    let count = events.len() as int;
    let starts = openings(events, count);
    lemma_openings(events, count);
    lemma_openings_without(events, at, count);
    assert forall|k: int| 0 <= k < starts.len() implies #[trigger] spans_of(rest)[k] == spans_of(
        events,
    )[k] by {
        let start = starts[k];
        assert(opens(events[start]));
        assert(!ends(events, start, at));
        lemma_last_end_without(events, at, start, count);
        lemma_last_end(events, start, count);
        assert(rest[shifted(at, start)] == events[start]);
        match last_end(events, start, count) {
            Some(end) => {
                assert(rest[shifted(at, end)] == events[end]);
            },
            None => {},
        }
    }
    assert(spans_of(rest) =~= spans_of(events));
}

/// Calls do not mix: a terminal event ends at most one span, that of the
/// latest invoke of its call before it.
pub proof fn lemma_terminal_ends_one_span(
    events: Seq<crate::event::EventView>,
    start: int,
    other: int,
    end: int,
)
    requires
        0 <= start < events.len(),
        0 <= other < events.len(),
        opens(events[start]),
        opens(events[other]),
        ends(events, start, end),
        ends(events, other, end),
    ensures
        start == other,
{
    if start < other {
        assert(!same_call(events[start], events[other]));
    } else if other < start {
        assert(!same_call(events[other], events[start]));
    }
}

/// Open a new pending span.
fn open_span(
    spans: &mut Vec<ToolSpan>,
    conversation_id: &String,
    tool_name: &String,
    call_id: &String,
    hosted: bool,
    start_tick: u64,
)
    ensures
        final(spans).deep_view() == old(spans).deep_view().push(
            SpanView {
                conversation_id: conversation_id@,
                tool_name: tool_name@,
                call_id: call_id@,
                hosted,
                start_tick,
                end_tick: None,
                outcome: ToolOutcome::Pending,
                duration_ms: None,
            },
        ),
{
    let ghost before = spans.deep_view();
    spans.push(
        ToolSpan {
            conversation_id: conversation_id.clone(),
            tool_name: tool_name.clone(),
            call_id: call_id.clone(),
            hosted,
            start_tick,
            end_tick: None,
            outcome: ToolOutcome::Pending,
            duration_ms: None,
        },
    );
    assert(spans.deep_view() =~= before.push(spans@.last()@));
}

/// The latest span of a call.
pub open spec fn latest_span(
    spans: Seq<SpanView>,
    conversation_id: Seq<char>,
    call_id: Seq<char>,
) -> Option<int>
    decreases spans.len(),
{
    if spans.len() == 0 {
        None
    } else if spans.last().conversation_id == conversation_id && spans.last().call_id == call_id {
        Some(spans.len() - 1)
    } else {
        latest_span(spans.drop_last(), conversation_id, call_id)
    }
}

fn find_span(spans: &Vec<ToolSpan>, conversation_id: &str, call_id: &str) -> (found: Option<usize>)
    ensures
        match found {
            Some(at) => {
                &&& at < spans.len()
                &&& latest_span(spans.deep_view(), conversation_id@, call_id@) == Some(at as int)
            },
            None => latest_span(spans.deep_view(), conversation_id@, call_id@) is None,
        },
{
    let ghost views = spans.deep_view();
    let mut i: usize = spans.len();
    assert(views.take(i as int) =~= views);
    while i > 0
        invariant
            i <= spans.len(),
            views == spans.deep_view(),
            latest_span(views, conversation_id@, call_id@) == latest_span(
                views.take(i as int),
                conversation_id@,
                call_id@,
            ),
        decreases i,
    {
        i -= 1;
        assert(views.take(i + 1).drop_last() =~= views.take(i as int));
        assert(views.take(i + 1).last() == spans[i as int]@);
        if same_text(spans[i].conversation_id.as_str(), conversation_id) && same_text(
            spans[i].call_id.as_str(),
            call_id,
        ) {
            return Some(i);
        }
    }
    None
}

/// The span settled by a terminal event, where its invoke came at
/// `start_millis` and the terminal event at `end_millis`.
pub open spec fn settled(
    span: SpanView,
    start_millis: u64,
    end_millis: u64,
    end_tick: u64,
    outcome: ToolOutcome,
    carried: Option<u64>,
) -> SpanView {
    SpanView {
        end_tick: Some(end_tick),
        outcome,
        duration_ms: match carried {
            Some(duration) => Some(duration),
            None => derived_duration(start_millis, end_millis),
        },
        ..span
    }
}

/// Finalize the latest span of the call, if there is one. Terminal events with
/// no matching invoke are ignored (an orphaned terminal has no start to anchor
/// a span). `started` holds the time of the invoke of each span.
fn close_span(
    spans: &mut Vec<ToolSpan>,
    started: &Vec<u64>,
    event: &ObservabilityEvent,
    call_id: &str,
    explicit_duration_ms: Option<u64>,
    outcome: ToolOutcome,
)
    requires
        started.len() == old(spans).len(),
    ensures
        ({
            let before = old(spans).deep_view();
            final(spans).deep_view() == (match latest_span(
                before,
                event@.conversation_id,
                call_id@,
            ) {
                Some(at) => before.update(
                    at,
                    settled(
                        before[at],
                        started[at],
                        event.occurred_at_millis,
                        event.tick,
                        outcome,
                        explicit_duration_ms,
                    ),
                ),
                None => before,
            })
        }),
{
    let ghost before = spans.deep_view();
    let at: usize = match find_span(spans, event.conversation_id.as_str(), call_id) {
        Some(at) => at,
        None => return ,
    };
    let duration_ms = match explicit_duration_ms {
        Some(duration) => Some(duration),
        None => event.occurred_at_millis.checked_sub(started[at]),
    };
    spans[at].end_tick = Some(event.tick);
    spans[at].outcome = outcome;
    spans[at].duration_ms = duration_ms;
    proof {
        assert(spans.deep_view() =~= before.update(
            at as int,
            settled(
                before[at as int],
                started[at as int],
                event.occurred_at_millis,
                event.tick,
                outcome,
                explicit_duration_ms,
            ),
        ));
    }
}

proof fn lemma_latest_span(spans: Seq<SpanView>, conversation_id: Seq<char>, call_id: Seq<char>)
    ensures
        match latest_span(spans, conversation_id, call_id) {
            Some(at) => {
                &&& 0 <= at < spans.len()
                &&& spans[at].conversation_id == conversation_id
                &&& spans[at].call_id == call_id
                &&& forall|k: int|
                    at < k < spans.len() ==> !((#[trigger] spans[k]).conversation_id
                        == conversation_id && spans[k].call_id == call_id)
            },
            None => forall|k: int|
                0 <= k < spans.len() ==> !((#[trigger] spans[k]).conversation_id == conversation_id
                    && spans[k].call_id == call_id),
        },
    decreases spans.len(),
{
    if spans.len() > 0 {
        let shorter = spans.drop_last();
        lemma_latest_span(shorter, conversation_id, call_id);
        if !(spans.last().conversation_id == conversation_id && spans.last().call_id == call_id) {
            match latest_span(shorter, conversation_id, call_id) {
                Some(at) => {
                    assert forall|k: int| at < k < spans.len() implies !((
                    #[trigger] spans[k]).conversation_id == conversation_id && spans[k].call_id
                        == call_id) by {
                        if k < shorter.len() {
                            assert(shorter[k] == spans[k]);
                        }
                    }
                },
                None => {
                    assert forall|k: int| 0 <= k < spans.len() implies !((
                    #[trigger] spans[k]).conversation_id == conversation_id && spans[k].call_id
                        == call_id) by {
                        if k < shorter.len() {
                            assert(shorter[k] == spans[k]);
                        }
                    }
                },
            }
        }
    }
}

/// Whether `spans` are the spans of the events below `limit`.
spec fn spans_up_to(
    events: Seq<crate::event::EventView>,
    limit: int,
    spans: Seq<SpanView>,
) -> bool {
    let starts = openings(events, limit);
    &&& spans.len() == starts.len()
    &&& forall|k: int|
        0 <= k < spans.len() ==> #[trigger] spans[k] == span_at(events, starts[k], limit)
}

/// Whether `started` holds the times of the events below `limit` that open a
/// span, in order.
spec fn starts_up_to(
    events: Seq<crate::event::EventView>,
    limit: int,
    started: Seq<u64>,
) -> bool {
    let starts = openings(events, limit);
    &&& started.len() == starts.len()
    &&& forall|k: int|
        0 <= k < started.len() ==> #[trigger] started[k] == events[starts[k]].occurred_at_millis
}

proof fn lemma_opening_step(
    events: Seq<crate::event::EventView>,
    limit: int,
    spans: Seq<SpanView>,
)
    requires
        0 <= limit < events.len(),
        spans_up_to(events, limit, spans),
        opens(events[limit]),
    ensures
        spans_up_to(
            events,
            limit + 1,
            spans.push(
                SpanView {
                    conversation_id: events[limit].conversation_id,
                    tool_name: opened_tool(events[limit]),
                    call_id: events[limit].kind.scalars().call_id,
                    hosted: events[limit].kind is ToolHostedInvoked,
                    start_tick: events[limit].tick,
                    end_tick: None,
                    outcome: ToolOutcome::Pending,
                    duration_ms: None,
                },
            ),
        ),
{
    lemma_openings(events, limit);
    let starts = openings(events, limit);
    assert forall|k: int| 0 <= k < starts.len() implies span_at(
        events,
        #[trigger] starts[k],
        limit + 1,
    ) == span_at(events, starts[k], limit) by {
        assert(!ends(events, starts[k], limit));
    }
    assert(last_end(events, limit, limit + 1) is None);
}

proof fn lemma_idle_step(events: Seq<crate::event::EventView>, limit: int, spans: Seq<SpanView>)
    requires
        0 <= limit < events.len(),
        spans_up_to(events, limit, spans),
        !opens(events[limit]),
        ending(events[limit]) is None,
    ensures
        spans_up_to(events, limit + 1, spans),
{
    let starts = openings(events, limit);
    assert forall|k: int| 0 <= k < starts.len() implies span_at(
        events,
        #[trigger] starts[k],
        limit + 1,
    ) == span_at(events, starts[k], limit) by {
        assert(!ends(events, starts[k], limit));
    }
}

proof fn lemma_closing_step(events: Seq<crate::event::EventView>, limit: int, spans: Seq<SpanView>)
    requires
        0 <= limit < events.len(),
        spans_up_to(events, limit, spans),
        ending(events[limit]) is Some,
    ensures
        ({
            let event = events[limit];
            let (outcome, carried) = ending(event)->0;
            let after = match latest_span(
                spans,
                event.conversation_id,
                event.kind.scalars().call_id,
            ) {
                Some(at) => spans.update(
                    at,
                    settled(
                        spans[at],
                        events[openings(events, limit)[at]].occurred_at_millis,
                        event.occurred_at_millis,
                        event.tick,
                        outcome,
                        carried,
                    ),
                ),
                None => spans,
            };
            spans_up_to(events, limit + 1, after)
        }),
{
    let event = events[limit];
    let conversation_id = event.conversation_id;
    let call_id = event.kind.scalars().call_id;
    let starts = openings(events, limit);
    lemma_openings(events, limit);
    lemma_latest_span(spans, conversation_id, call_id);
    assert forall|k: int| 0 <= k < starts.len() implies (same_call(
        events[#[trigger] starts[k]],
        event,
    ) <==> spans[k].conversation_id == conversation_id && spans[k].call_id == call_id) by {
        assert(spans[k] == span_at(events, starts[k], limit));
        assert(opens(events[starts[k]]));
    }
    let latest = latest_span(spans, conversation_id, call_id);
    assert forall|k: int| 0 <= k < starts.len() implies ends(events, #[trigger] starts[k], limit)
        == (latest == Some(k)) by {
        if latest == Some(k) {
            assert forall|m: int|
                starts[k] < m < limit && opens(#[trigger] events[m]) implies !same_call(
                events[starts[k]],
                events[m],
            ) by {
                assert(starts.contains(m));
                let l = choose|l: int| 0 <= l < starts.len() && starts[l] == m;
                assert(k < l) by {
                    if l < k {
                        assert(starts[l] < starts[k]);
                    }
                }
                assert(!(spans[l].conversation_id == conversation_id && spans[l].call_id
                    == call_id));
                assert(!same_call(events[starts[l]], event));
            }
        } else if same_call(events[starts[k]], event) {
            let at = latest->0;
            assert(k < at);
            assert(starts[k] < starts[at]);
            assert(opens(events[starts[at]]));
            assert(same_call(events[starts[at]], event));
        }
    }
    let (outcome, carried) = ending(event)->0;
    let after = match latest {
        Some(at) => spans.update(
            at,
            settled(
                spans[at],
                events[starts[at]].occurred_at_millis,
                event.occurred_at_millis,
                event.tick,
                outcome,
                carried,
            ),
        ),
        None => spans,
    };
    assert forall|k: int| 0 <= k < after.len() implies #[trigger] after[k] == span_at(
        events,
        openings(events, limit + 1)[k],
        limit + 1,
    ) by {
        assert(openings(events, limit + 1)[k] == starts[k]);
        assert(spans[k] == span_at(events, starts[k], limit));
        if latest == Some(k) {
            assert(ends(events, starts[k], limit));
            assert(last_end(events, starts[k], limit + 1) == Some(limit));
        } else {
            assert(!ends(events, starts[k], limit));
            assert(last_end(events, starts[k], limit + 1) == last_end(events, starts[k], limit));
        }
    }
}

/// Reconstruct tool-call spans by pairing each invoke with its terminal
/// event via `call_id`. Spans are returned in invoke order; invocations
/// without a terminal carry [`ToolOutcome::Pending`].
pub fn reconstruct_spans(events: &[ObservabilityEvent]) -> (spans: Vec<ToolSpan>)
    ensures
        spans.deep_view() == spans_of(crate::event::event_views(events@)),
{
    let ghost views = crate::event::event_views(events@);
    let mut spans: Vec<ToolSpan> = Vec::new();
    let mut started: Vec<u64> = Vec::new();
    let mut i: usize = 0;
    while i < events.len()
        invariant
            i <= events@.len(),
            views == crate::event::event_views(events@),
            spans_up_to(views, i as int, spans.deep_view()),
            starts_up_to(views, i as int, started@),
        decreases events@.len() - i,
    {
        let event = &events[i];
        let ghost before = spans.deep_view();
        let ghost at = i as int;
        assert(event@ == views[at]);
        proof {
            if opens(views[at]) {
                lemma_opening_step(views, at, before);
            } else if ending(views[at]) is Some {
                lemma_closing_step(views, at, before);
                lemma_latest_span(
                    before,
                    views[at].conversation_id,
                    views[at].kind.scalars().call_id,
                );
            } else {
                lemma_idle_step(views, at, before);
            }
        }
        match &event.kind {
            EventKind::ToolInvoked { tool_name, call_id, .. } => {
                open_span(
                    &mut spans,
                    &event.conversation_id,
                    tool_name,
                    call_id,
                    false,
                    event.tick,
                );
                started.push(event.occurred_at_millis);
            },
            EventKind::ToolHostedInvoked { tool_name, call_id, .. } => {
                open_span(
                    &mut spans,
                    &event.conversation_id,
                    tool_name,
                    call_id,
                    true,
                    event.tick,
                );
                started.push(event.occurred_at_millis);
            },
            EventKind::ToolCompleted { call_id, duration_ms, .. }
            | EventKind::ToolHostedCompleted { call_id, duration_ms, .. } => {
                close_span(
                    &mut spans,
                    &started,
                    event,
                    call_id.as_str(),
                    *duration_ms,
                    ToolOutcome::Completed,
                );
            },
            EventKind::ToolFailed { call_id, error_class, .. } => {
                close_span(
                    &mut spans,
                    &started,
                    event,
                    call_id.as_str(),
                    None,
                    ToolOutcome::Failed { error_class: *error_class },
                );
            },
            EventKind::ToolSkipped { call_id, .. } => {
                close_span(
                    &mut spans,
                    &started,
                    event,
                    call_id.as_str(),
                    None,
                    ToolOutcome::Skipped,
                );
            },
            EventKind::ToolTerminated { call_id, .. } => {
                close_span(
                    &mut spans,
                    &started,
                    event,
                    call_id.as_str(),
                    None,
                    ToolOutcome::Terminated,
                );
            },
            _ => {},
        }
        i += 1;
    }
    assert(spans.deep_view() =~= spans_of(views));
    spans
}

/// How many of the spans are pending.
pub open spec fn pending_count(spans: Seq<SpanView>) -> nat
    decreases spans.len(),
{
    if spans.len() == 0 {
        0
    } else {
        pending_count(spans.drop_last()) + (if spans.last().outcome is Pending {
            1nat
        } else {
            0nat
        })
    }
}

/// How many of the events below `limit` end a tool call.
pub open spec fn terminals(events: Seq<crate::event::EventView>, limit: int) -> nat
    decreases limit,
{
    if limit <= 0 {
        0
    } else {
        terminals(events, limit - 1) + (if ending(events[limit - 1]) is Some {
            1nat
        } else {
            0nat
        })
    }
}

/// Counts the pending spans.
pub fn count_pending(spans: &Vec<ToolSpan>) -> (count: usize)
    ensures
        count == pending_count(spans.deep_view()),
{
    let ghost views = spans.deep_view();
    let mut count: usize = 0;
    let mut i: usize = 0;
    assert(views.take(0) =~= seq![]);
    while i < spans.len()
        invariant
            i <= spans.len(),
            views == spans.deep_view(),
            count == pending_count(views.take(i as int)),
            count <= i,
        decreases spans.len() - i,
    {
        assert(views.take(i + 1).drop_last() =~= views.take(i as int));
        assert(views.take(i + 1).last() == spans[i as int]@);
        if let ToolOutcome::Pending = spans[i].outcome {
            count += 1;
        }
        i += 1;
    }
    assert(views.take(i as int) =~= views);
    count
}

proof fn lemma_update_settles_one(spans: Seq<SpanView>, at: int, span: SpanView)
    requires
        0 <= at < spans.len(),
    ensures
        pending_count(spans.update(at, span)) + 1 >= pending_count(spans),
    decreases spans.len(),
{
    let after = spans.update(at, span);
    if at == spans.len() - 1 {
        assert(after.drop_last() =~= spans.drop_last());
    } else {
        lemma_update_settles_one(spans.drop_last(), at, span);
        assert(after.drop_last() =~= spans.drop_last().update(at, span));
    }
}

/// The spans of the events below `limit`.
spec fn spans_below(events: Seq<crate::event::EventView>, limit: int) -> Seq<SpanView> {
    let starts = openings(events, limit);
    Seq::new(starts.len(), |k: int| span_at(events, starts[k], limit))
}

proof fn lemma_pending_below(events: Seq<crate::event::EventView>, limit: int)
    requires
        0 <= limit <= events.len(),
    ensures
        spans_up_to(events, limit, spans_below(events, limit)),
        openings(events, limit).len() <= pending_count(spans_below(events, limit)) + terminals(
            events,
            limit,
        ),
    decreases limit,
{
    if limit > 0 {
        let at = limit - 1;
        let before = spans_below(events, at);
        let after = spans_below(events, limit);
        lemma_pending_below(events, at);
        if opens(events[at]) {
            lemma_opening_step(events, at, before);
            assert(after.drop_last() =~= before);
            assert(after.last() == span_at(events, at, limit));
            assert(last_end(events, at, limit) is None);
        } else if ending(events[at]) is Some {
            lemma_closing_step(events, at, before);
            let call_id = events[at].kind.scalars().call_id;
            lemma_latest_span(before, events[at].conversation_id, call_id);
            let (outcome, carried) = ending(events[at])->0;
            match latest_span(before, events[at].conversation_id, call_id) {
                Some(k) => {
                    let span = settled(
                        before[k],
                        events[openings(events, at)[k]].occurred_at_millis,
                        events[at].occurred_at_millis,
                        events[at].tick,
                        outcome,
                        carried,
                    );
                    assert(after =~= before.update(k, span));
                    lemma_update_settles_one(before, k, span);
                },
                None => {
                    assert(after =~= before);
                },
            }
        } else {
            lemma_idle_step(events, at, before);
            assert(after =~= before);
        }
    }
}

proof fn lemma_pending_at_most_all(spans: Seq<SpanView>)
    ensures
        pending_count(spans) <= spans.len(),
    decreases spans.len(),
{
    if spans.len() > 0 {
        lemma_pending_at_most_all(spans.drop_last());
    }
}

/// A terminal event settles at most one invocation: what is pending and the
/// terminal events account for every invocation, and no more is pending than
/// was invoked.
pub proof fn lemma_terminals_settle_at_most_one(events: Seq<crate::event::EventView>)
    ensures
        pending_count(spans_of(events)) <= spans_of(events).len(),
        spans_of(events).len() <= pending_count(spans_of(events)) + terminals(
            events,
            events.len() as int,
        ),
{
    lemma_pending_below(events, events.len() as int);
    lemma_pending_at_most_all(spans_of(events));
    assert(spans_of(events) =~= spans_below(events, events.len() as int));
}

/// Whether two lists of spans are the same but that, in the second, the latest
/// span of the call is settled by `event`: it has ended at the event's tick with
/// `outcome`, and has lasted for as long as the event says, or else from the
/// time `began` of its own invoke until that of the event, where time did not
/// run backwards. Nothing changes where the call has no span.
pub open spec fn settles_latest(
    before: Seq<SpanView>,
    after: Seq<SpanView>,
    began: Seq<u64>,
    event: ObservabilityEvent,
    call_id: Seq<char>,
    outcome: ToolOutcome,
    carried: Option<u64>,
) -> bool {
    ||| {
        &&& after == before
        &&& forall|k: int|
            0 <= k < before.len() ==> !((#[trigger] before[k]).conversation_id
                == event.conversation_id@ && before[k].call_id == call_id)
    }
    ||| exists|at: int|
        {
            &&& 0 <= at < before.len()
            &&& before[at].conversation_id == event.conversation_id@
            &&& before[at].call_id == call_id
            &&& forall|k: int|
                at < k < before.len() ==> !((#[trigger] before[k]).conversation_id
                    == event.conversation_id@ && before[k].call_id == call_id)
            &&& after.len() == before.len()
            &&& forall|k: int|
                0 <= k < before.len() && k != at ==> #[trigger] after[k] == before[k]
            &&& (#[trigger] after[at]).conversation_id == before[at].conversation_id
            &&& after[at].tool_name == before[at].tool_name
            &&& after[at].call_id == before[at].call_id
            &&& after[at].hosted == before[at].hosted
            &&& after[at].start_tick == before[at].start_tick
            &&& after[at].end_tick == Some(event.tick)
            &&& after[at].outcome == outcome
            &&& match carried {
                Some(duration) => after[at].duration_ms == Some(duration),
                None => match after[at].duration_ms {
                    Some(duration) => began[at] + duration == event.occurred_at_millis,
                    None => began[at] > event.occurred_at_millis,
                },
            }
        }
}

/// The times of the invokes of `events`, in their order.
pub open spec fn invoke_times(events: Seq<crate::event::EventView>) -> Seq<u64>
    decreases events.len(),
{
    if events.len() == 0 {
        seq![]
    } else if events.last().kind is ToolInvoked || events.last().kind is ToolHostedInvoked {
        invoke_times(events.drop_last()).push(events.last().occurred_at_millis)
    } else {
        invoke_times(events.drop_last())
    }
}

proof fn lemma_spans_of_prefix(
    events: Seq<crate::event::EventView>,
    event: crate::event::EventView,
    limit: int,
)
    requires
        0 <= limit <= events.len(),
    ensures
        openings(events.push(event), limit) == openings(events, limit),
        forall|start: int|
            0 <= start < limit ==> #[trigger] last_end(events.push(event), start, limit)
                == last_end(events, start, limit),
    decreases limit,
{
    if limit > 0 {
        let longer = events.push(event);
        lemma_spans_of_prefix(events, event, limit - 1);
        assert forall|start: int| 0 <= start < limit implies #[trigger] last_end(
            longer,
            start,
            limit,
        ) == last_end(events, start, limit) by {
            if limit > start + 1 {
                assert(last_end(longer, start, limit - 1) == last_end(events, start, limit - 1));
                assert(ends(longer, start, limit - 1) == ends(events, start, limit - 1)) by {
                    assert forall|k: int| 0 <= k < events.len() implies longer[k]
                        == #[trigger] events[k] by {}
                    if ends(longer, start, limit - 1) {
                        assert forall|k: int|
                            start < k < limit - 1 && opens(#[trigger] events[k]) implies !same_call(
                            events[start],
                            events[k],
                        ) by {
                            assert(longer[k] == events[k]);
                        }
                    }
                    if ends(events, start, limit - 1) {
                        assert forall|k: int|
                            start < k < limit - 1 && opens(#[trigger] longer[k]) implies !same_call(
                            longer[start],
                            longer[k],
                        ) by {
                            assert(longer[k] == events[k]);
                        }
                    }
                }
            }
        }
    }
}

proof fn lemma_invoke_times(events: Seq<crate::event::EventView>)
    ensures
        invoke_times(events).len() == openings(events, events.len() as int).len(),
        forall|k: int|
            0 <= k < invoke_times(events).len() ==> #[trigger] invoke_times(events)[k]
                == events[openings(events, events.len() as int)[k]].occurred_at_millis,
    decreases events.len(),
{
    if events.len() > 0 {
        let shorter = events.drop_last();
        let count = shorter.len() as int;
        lemma_invoke_times(shorter);
        lemma_openings(shorter, count);
        assert(shorter.push(events.last()) =~= events);
        lemma_spans_of_prefix(shorter, events.last(), count);
        let starts = openings(shorter, count);
        assert forall|k: int| 0 <= k < invoke_times(events).len() implies #[trigger] invoke_times(
            events,
        )[k] == events[openings(events, events.len() as int)[k]].occurred_at_millis by {
            if k < starts.len() {
                assert(0 <= starts[k] < count);
                assert(invoke_times(shorter)[k] == shorter[starts[k]].occurred_at_millis);
            }
        }
    }
}

proof fn lemma_up_to_all(events: Seq<crate::event::EventView>, spans: Seq<SpanView>)
    requires
        spans_up_to(events, events.len() as int, spans),
    ensures
        spans_of(events) == spans,
{
    assert(spans_of(events) =~= spans);
}

spec fn stepped(
    before: Seq<SpanView>,
    after: Seq<SpanView>,
    began: Seq<u64>,
    event: crate::event::EventView,
) -> bool {
    let call_id = event.kind.scalars().call_id;
    &&& opens(event) ==> after == before.push(
        SpanView {
            conversation_id: event.conversation_id,
            tool_name: opened_tool(event),
            call_id,
            hosted: event.kind is ToolHostedInvoked,
            start_tick: event.tick,
            end_tick: None,
            outcome: ToolOutcome::Pending,
            duration_ms: None,
        },
    )
    &&& ending(event) is Some ==> after == (match latest_span(
        before,
        event.conversation_id,
        call_id,
    ) {
        Some(at) => before.update(
            at,
            settled(
                before[at],
                began[at],
                event.occurred_at_millis,
                event.tick,
                (ending(event)->0).0,
                (ending(event)->0).1,
            ),
        ),
        None => before,
    })
    &&& !opens(event) && ending(event) is None ==> after == before
}

proof fn lemma_spans_step(events: Seq<crate::event::EventView>, event: crate::event::EventView)
    ensures
        stepped(spans_of(events), spans_of(events.push(event)), invoke_times(events), event),
{
    let before = spans_of(events);
    let longer = events.push(event);
    let after = spans_of(longer);
    let count = events.len() as int;
    let starts = openings(events, count);
    lemma_openings(events, count);
    lemma_spans_of_prefix(events, event, count);
    lemma_invoke_times(events);
    assert(spans_up_to(longer, count, before)) by {
        assert forall|k: int| 0 <= k < before.len() implies #[trigger] before[k] == span_at(
            longer,
            starts[k],
            count,
        ) by {
            lemma_last_end(events, starts[k], count);
            assert(longer[starts[k]] == events[starts[k]]);
            assert(last_end(longer, starts[k], count) == last_end(events, starts[k], count));
        }
    }
    assert(longer[count] == event);
    if opens(event) {
        lemma_opening_step(longer, count, before);
        lemma_up_to_all(
            longer,
            before.push(
                SpanView {
                    conversation_id: event.conversation_id,
                    tool_name: opened_tool(event),
                    call_id: event.kind.scalars().call_id,
                    hosted: event.kind is ToolHostedInvoked,
                    start_tick: event.tick,
                    end_tick: None,
                    outcome: ToolOutcome::Pending,
                    duration_ms: None,
                },
            ),
        );
    } else if ending(event) is Some {
        let call_id = event.kind.scalars().call_id;
        lemma_closing_step(longer, count, before);
        lemma_latest_span(before, event.conversation_id, call_id);
        match latest_span(before, event.conversation_id, call_id) {
            Some(at) => {
                assert(0 <= starts[at] < count);
                assert(longer[starts[at]] == events[starts[at]]);
                assert(invoke_times(events)[at] == longer[starts[at]].occurred_at_millis);
                let (outcome, carried) = ending(event)->0;
                lemma_up_to_all(
                    longer,
                    before.update(
                        at,
                        settled(
                            before[at],
                            longer[starts[at]].occurred_at_millis,
                            event.occurred_at_millis,
                            event.tick,
                            outcome,
                            carried,
                        ),
                    ),
                );
            },
            None => {
                lemma_up_to_all(longer, before);
            },
        }
    } else {
        lemma_idle_step(longer, count, before);
        lemma_up_to_all(longer, before);
    }
}

proof fn lemma_settles_latest(
    before: Seq<SpanView>,
    after: Seq<SpanView>,
    began: Seq<u64>,
    event: ObservabilityEvent,
    call_id: Seq<char>,
    outcome: ToolOutcome,
    carried: Option<u64>,
)
    requires
        after == (match latest_span(before, event.conversation_id@, call_id) {
            Some(at) => before.update(
                at,
                settled(
                    before[at],
                    began[at],
                    event.occurred_at_millis,
                    event.tick,
                    outcome,
                    carried,
                ),
            ),
            None => before,
        }),
    ensures
        settles_latest(before, after, began, event, call_id, outcome, carried),
{
    lemma_latest_span(before, event.conversation_id@, call_id);
    if let Some(at) = latest_span(before, event.conversation_id@, call_id) {
        assert(after[at].end_tick == Some(event.tick));
    }
}

proof fn lemma_told(event: ObservabilityEvent)
    ensures
        event@.conversation_id == event.conversation_id@,
        event@.tick == event.tick,
        event@.occurred_at_millis == event.occurred_at_millis,
        match event.kind {
            EventKind::ToolInvoked { tool_name, call_id, .. } => {
                &&& opens(event@)
                &&& opened_tool(event@) == tool_name@
                &&& event@.kind.scalars().call_id == call_id@
                &&& !(event@.kind is ToolHostedInvoked)
            },
            EventKind::ToolHostedInvoked { tool_name, call_id, .. } => {
                &&& opens(event@)
                &&& opened_tool(event@) == tool_name@
                &&& event@.kind.scalars().call_id == call_id@
                &&& event@.kind is ToolHostedInvoked
            },
            EventKind::ToolCompleted { call_id, duration_ms, .. } => {
                &&& ending(event@) == Some((ToolOutcome::Completed, duration_ms))
                &&& event@.kind.scalars().call_id == call_id@
            },
            EventKind::ToolHostedCompleted { call_id, duration_ms, .. } => {
                &&& ending(event@) == Some((ToolOutcome::Completed, duration_ms))
                &&& event@.kind.scalars().call_id == call_id@
            },
            EventKind::ToolFailed { call_id, error_class, .. } => {
                &&& ending(event@) == Some((ToolOutcome::Failed { error_class }, None::<u64>))
                &&& event@.kind.scalars().call_id == call_id@
            },
            EventKind::ToolSkipped { call_id, .. } => {
                &&& ending(event@) == Some((ToolOutcome::Skipped, None::<u64>))
                &&& event@.kind.scalars().call_id == call_id@
            },
            EventKind::ToolTerminated { call_id, .. } => {
                &&& ending(event@) == Some((ToolOutcome::Terminated, None::<u64>))
                &&& event@.kind.scalars().call_id == call_id@
            },
            _ => !opens(event@) && ending(event@) is None,
        },
{
}

/// How one more event changes spans, whose invokes came at `began`. An invoke
/// adds a pending span, which carries what the invoke says; an event that ends a
/// tool call settles the latest span of that call in that conversation; no other
/// event changes anything.
pub open spec fn spans_grow(
    before: Seq<SpanView>,
    after: Seq<SpanView>,
    began: Seq<u64>,
    event: ObservabilityEvent,
) -> bool {
    match event.kind {
        EventKind::ToolInvoked { tool_name, call_id, .. } => after == before.push(
            SpanView {
                conversation_id: event.conversation_id@,
                tool_name: tool_name@,
                call_id: call_id@,
                hosted: false,
                start_tick: event.tick,
                end_tick: None,
                outcome: ToolOutcome::Pending,
                duration_ms: None,
            },
        ),
        EventKind::ToolHostedInvoked { tool_name, call_id, .. } => after == before.push(
            SpanView {
                conversation_id: event.conversation_id@,
                tool_name: tool_name@,
                call_id: call_id@,
                hosted: true,
                start_tick: event.tick,
                end_tick: None,
                outcome: ToolOutcome::Pending,
                duration_ms: None,
            },
        ),
        EventKind::ToolCompleted { call_id, duration_ms, .. } => settles_latest(
            before,
            after,
            began,
            event,
            call_id@,
            ToolOutcome::Completed,
            duration_ms,
        ),
        EventKind::ToolHostedCompleted { call_id, duration_ms, .. } => settles_latest(
            before,
            after,
            began,
            event,
            call_id@,
            ToolOutcome::Completed,
            duration_ms,
        ),
        EventKind::ToolFailed { call_id, error_class, .. } => settles_latest(
            before,
            after,
            began,
            event,
            call_id@,
            ToolOutcome::Failed { error_class },
            None,
        ),
        EventKind::ToolSkipped { call_id, .. } => settles_latest(
            before,
            after,
            began,
            event,
            call_id@,
            ToolOutcome::Skipped,
            None,
        ),
        EventKind::ToolTerminated { call_id, .. } => settles_latest(
            before,
            after,
            began,
            event,
            call_id@,
            ToolOutcome::Terminated,
            None,
        ),
        _ => after == before,
    }
}

proof fn lemma_growth(
    before: Seq<SpanView>,
    after: Seq<SpanView>,
    began: Seq<u64>,
    event: ObservabilityEvent,
)
    requires
        stepped(before, after, began, event@),
    ensures
        spans_grow(before, after, began, event),
{
    lemma_told(event);
    if ending(event@) is Some {
        let call_id = event@.kind.scalars().call_id;
        let (outcome, carried) = ending(event@)->0;
        lemma_settles_latest(before, after, began, event, call_id, outcome, carried);
    }
}

/// Every event changes the spans as its kind says, and without events there are
/// none.
pub proof fn lemma_spans_grow(events: Seq<crate::event::EventView>, event: ObservabilityEvent)
    ensures
        spans_of(Seq::empty()).len() == 0,
        spans_grow(spans_of(events), spans_of(events.push(event@)), invoke_times(events), event),
{
    lemma_spans_step(events, event@);
    lemma_growth(spans_of(events), spans_of(events.push(event@)), invoke_times(events), event);
}

/// A span reads as what its fields say.
pub proof fn lemma_span_contents(span: ToolSpan)
    ensures
        span.deep_view() == span@,
        span@.conversation_id == span.conversation_id@,
        span@.tool_name == span.tool_name@,
        span@.call_id == span.call_id@,
        span@.hosted == span.hosted,
        span@.start_tick == span.start_tick,
        span@.end_tick == span.end_tick,
        span@.outcome == span.outcome,
        span@.duration_ms == span.duration_ms,
{
}

/// One more span counts as pending if and only if nothing has ended it.
pub proof fn lemma_pending_grows(spans: Seq<SpanView>, span: SpanView)
    ensures
        pending_count(Seq::empty()) == 0,
        pending_count(spans.push(span)) == pending_count(spans) + (if span.outcome
            == ToolOutcome::Pending {
            1int
        } else {
            0int
        }),
{
    assert(spans.push(span).drop_last() =~= spans);
}

} // verus!
