//! In-process insight aggregation over captured observability events.
//!
//! Where [`crate::EventQuery`] is a flat predicate/projection layer,
//! [`Insights`] derives the rollups an analytics or debugging workflow
//! actually keys on — latency percentiles, token/cost totals, error rates
//! by [`crate::ErrorClass`], tool outcome counts — and reconstructs tool
//! lifecycle spans by pairing `tool.invoked` (and `tool.hosted_invoked`)
//! with their terminal event via the stable `call_id` correlator.

use vstd::prelude::*;

use crate::event::{EventKind, ObservabilityEvent};
use crate::float::Float64;
use crate::latency::LatencySummary;
use crate::query::EventQuery;
use crate::spans::{count_pending, reconstruct_spans, ToolSpan};
use crate::table::SortedTable;
use crate::text::same_text;

verus! {

/// What `pick` finds in `events`, in their order.
pub open spec fn gather<T>(
    events: Seq<crate::event::EventView>,
    pick: spec_fn(crate::event::EventView) -> Option<T>,
) -> Seq<T>
    decreases events.len(),
{
    if events.len() == 0 {
        seq![]
    } else {
        match pick(events.last()) {
            Some(found) => gather(events.drop_last(), pick).push(found),
            None => gather(events.drop_last(), pick),
        }
    }
}

/// How many of `events` satisfy `wanted`.
pub open spec fn count_of(
    events: Seq<crate::event::EventView>,
    wanted: spec_fn(crate::event::EventView) -> bool,
) -> nat
    decreases events.len(),
{
    if events.len() == 0 {
        0
    } else {
        count_of(events.drop_last(), wanted) + (if wanted(events.last()) {
            1nat
        } else {
            0nat
        })
    }
}

/// Picks reported input tokens of completed prompts.
pub open spec fn by_tokens_in() -> spec_fn(crate::event::EventView) -> Option<u64> {
    |event: crate::event::EventView|
        match event.kind {
            crate::event::KindView::PromptCompleted { tokens_in, .. } => tokens_in,
            _ => None,
        }
}

/// Picks reported output tokens of completed prompts.
pub open spec fn by_tokens_out() -> spec_fn(crate::event::EventView) -> Option<u64> {
    |event: crate::event::EventView|
        match event.kind {
            crate::event::KindView::PromptCompleted { tokens_out, .. } => tokens_out,
            _ => None,
        }
}

/// Picks reported cached input tokens of completed prompts.
pub open spec fn by_cached_tokens_in() -> spec_fn(crate::event::EventView) -> Option<u64> {
    |event: crate::event::EventView|
        match event.kind {
            crate::event::KindView::PromptCompleted { cached_tokens_in, .. } => cached_tokens_in,
            _ => None,
        }
}

/// Picks reported reasoning tokens of completed prompts.
pub open spec fn by_reasoning_tokens() -> spec_fn(crate::event::EventView) -> Option<u64> {
    |event: crate::event::EventView|
        match event.kind {
            crate::event::KindView::PromptCompleted { reasoning_tokens, .. } => reasoning_tokens,
            _ => None,
        }
}

/// Picks the costs of completed prompts.
pub open spec fn by_cost() -> spec_fn(crate::event::EventView) -> Option<Float64> {
    |event: crate::event::EventView|
        match event.kind {
            crate::event::KindView::PromptCompleted { cost_usd, .. } => cost_usd,
            _ => None,
        }
}

/// Picks the costs of completed prompts of one conversation.
pub open spec fn by_cost_in(conversation_id: Seq<char>) -> spec_fn(
    crate::event::EventView,
) -> Option<Float64> {
    |event: crate::event::EventView|
        match event.kind {
            crate::event::KindView::PromptCompleted { cost_usd, .. } => if event.conversation_id
                == conversation_id {
                cost_usd
            } else {
                None
            },
            _ => None,
        }
}

/// Picks the finish reasons of completed prompts.
pub open spec fn by_finish_reason() -> spec_fn(crate::event::EventView) -> Option<Seq<char>> {
    |event: crate::event::EventView|
        match event.kind {
            crate::event::KindView::PromptCompleted { finish_reason, .. } => finish_reason,
            _ => None,
        }
}

/// Picks the failure classes of failed prompts and tools.
pub open spec fn by_error_class() -> spec_fn(crate::event::EventView) -> Option<Seq<char>> {
    |event: crate::event::EventView|
        match event.kind {
            crate::event::KindView::PromptFailed { error_class, .. } => Some(error_class.label()),
            crate::event::KindView::ToolFailed { error_class, .. } => Some(error_class.label()),
            _ => None,
        }
}

/// Picks the times to the first token of completed prompts.
pub open spec fn by_first_token() -> spec_fn(crate::event::EventView) -> Option<u64> {
    |event: crate::event::EventView|
        match event.kind {
            crate::event::KindView::PromptCompleted { time_to_first_token_ms, .. } =>
                time_to_first_token_ms,
            _ => None,
        }
}

/// The duration that an event carries, if any.
pub open spec fn duration_of(kind: crate::event::KindView) -> Option<u64> {
    match kind {
        crate::event::KindView::PromptCompleted { duration_ms, .. } => duration_ms,
        crate::event::KindView::ToolCompleted { duration_ms, .. } => duration_ms,
        crate::event::KindView::ToolHostedCompleted { duration_ms, .. } => duration_ms,
        crate::event::KindView::ResponseTurnCompleted { duration_ms, .. } => duration_ms,
        crate::event::KindView::EmbeddingCompleted { duration_ms, .. } => duration_ms,
        crate::event::KindView::RetrievalQueried { duration_ms, .. } => duration_ms,
        crate::event::KindView::RerankCompleted { duration_ms, .. } => duration_ms,
        _ => None,
    }
}

/// Picks the durations of events of one wire kind.
pub open spec fn by_duration(kind: Seq<char>) -> spec_fn(crate::event::EventView) -> Option<u64> {
    |event: crate::event::EventView|
        if event.kind.discriminant() == kind {
            duration_of(event.kind)
        } else {
            None
        }
}

/// Extract the `duration_ms` carried by a terminal event kind, if any.
pub fn duration_ms_of(kind: &EventKind) -> (duration: Option<u64>)
    ensures
        duration == duration_of(kind@),
{
    match kind {
        EventKind::PromptCompleted { duration_ms, .. }
        | EventKind::ToolCompleted { duration_ms, .. }
        | EventKind::ToolHostedCompleted { duration_ms, .. }
        | EventKind::ResponseTurnCompleted { duration_ms, .. }
        | EventKind::EmbeddingCompleted { duration_ms, .. }
        | EventKind::RetrievalQueried { duration_ms, .. }
        | EventKind::RerankCompleted { duration_ms, .. } => *duration_ms,
        _ => None,
    }
}

/// Provider-reported token totals summed across `prompt.completed` events.
#[derive(Debug, Default, Clone, Copy, PartialEq, Eq, Structural)]
pub struct TokenTotals {
    /// Sum of `tokens_in` across completed prompts.
    pub tokens_in: u64,
    /// Sum of `tokens_out` across completed prompts.
    pub tokens_out: u64,
    /// Sum of `cached_tokens_in` across completed prompts.
    pub cached_tokens_in: u64,
    /// Sum of `reasoning_tokens` across completed prompts.
    pub reasoning_tokens: u64,
}

/// Whether `totals` are the token sums over `events`.
pub open spec fn totals_tokens(events: Seq<crate::event::EventView>, totals: TokenTotals) -> bool {
    &&& totals.tokens_in == crate::latency::total(gather(events, by_tokens_in()))
    &&& totals.tokens_out == crate::latency::total(gather(events, by_tokens_out()))
    &&& totals.cached_tokens_in == crate::latency::total(gather(events, by_cached_tokens_in()))
    &&& totals.reasoning_tokens == crate::latency::total(gather(events, by_reasoning_tokens()))
}

/// Whether every token sum over `events` fits a `u64`.
pub open spec fn tokens_fit(events: Seq<crate::event::EventView>) -> bool {
    &&& crate::latency::total(gather(events, by_tokens_in())) <= u64::MAX
    &&& crate::latency::total(gather(events, by_tokens_out())) <= u64::MAX
    &&& crate::latency::total(gather(events, by_cached_tokens_in())) <= u64::MAX
    &&& crate::latency::total(gather(events, by_reasoning_tokens())) <= u64::MAX
}

/// A fraction of counts: `completed` out of `resolved`.
#[derive(Debug, Clone, Copy, PartialEq, Eq, Structural)]
pub struct SuccessRate {
    /// Number of successes.
    pub completed: usize,
    /// Number of attempts that resolved, never zero.
    pub resolved: usize,
}

/// Aggregated counts and economics over the prompt lifecycle.
#[derive(Debug, PartialEq)]
pub struct PromptStats {
    /// Number of `prompt.started` events.
    pub started: usize,
    /// Number of `prompt.completed` events.
    pub completed: usize,
    /// Number of `prompt.failed` events.
    pub failed: usize,
    /// Token totals summed across `prompt.completed`.
    pub tokens: TokenTotals,
    /// Producer-computed `cost_usd` values across `prompt.completed`, in event
    /// order. Their sum is the total cost.
    pub costs_usd: Vec<Float64>,
    /// Histogram of `finish_reason` values across `prompt.completed`.
    pub finish_reasons: SortedTable<usize>,
}

impl Default for PromptStats {
    /// The statistics of no events.
    fn default() -> (stats: Self)
        ensures
            stats.started == 0,
            stats.completed == 0,
            stats.failed == 0,
            stats.tokens == (TokenTotals {
                tokens_in: 0,
                tokens_out: 0,
                cached_tokens_in: 0,
                reasoning_tokens: 0,
            }),
            stats.costs_usd@ == Seq::<Float64>::empty(),
            stats.finish_reasons@ == Map::<Seq<char>, usize>::empty(),
    {
        PromptStats {
            started: 0,
            completed: 0,
            failed: 0,
            tokens: TokenTotals {
                tokens_in: 0,
                tokens_out: 0,
                cached_tokens_in: 0,
                reasoning_tokens: 0,
            },
            costs_usd: Vec::new(),
            finish_reasons: SortedTable::new(),
        }
    }
}

impl Clone for PromptStats {
    fn clone(&self) -> (copy: Self)
        ensures
            copy.started == self.started,
            copy.completed == self.completed,
            copy.failed == self.failed,
            copy.tokens == self.tokens,
            copy.costs_usd@ == self.costs_usd@,
            copy.finish_reasons@ == self.finish_reasons@,
    {
        let copy = PromptStats {
            started: self.started,
            completed: self.completed,
            failed: self.failed,
            tokens: self.tokens,
            costs_usd: self.costs_usd.clone(),
            finish_reasons: self.finish_reasons.clone(),
        };
        assert(copy.costs_usd@ =~= self.costs_usd@);
        assert(copy.finish_reasons@ =~= self.finish_reasons@);
        copy
    }
}

impl PromptStats {
    /// Fraction of resolved prompts that completed successfully
    /// (`completed / (completed + failed)`). `None` when no prompt resolved.
    pub fn success_rate(&self) -> (rate: Option<SuccessRate>)
        requires
            self.completed + self.failed <= usize::MAX,
        ensures
            rate == (if self.completed + self.failed == 0 {
                None
            } else {
                Some(
                    SuccessRate {
                        completed: self.completed,
                        resolved: (self.completed + self.failed) as usize,
                    },
                )
            }),
    {
        let resolved: usize = self.completed + self.failed;
        if resolved == 0 {
            return None;
        }
        Some(SuccessRate { completed: self.completed, resolved })
    }
}

/// Aggregated outcome counts over the tool lifecycle (both agent-loop and
/// provider-hosted tools).
#[derive(Debug, Default, Clone, Copy, PartialEq, Eq, Structural)]
pub struct ToolStats {
    /// Number of `tool.invoked` + `tool.hosted_invoked` events.
    pub invoked: usize,
    /// Number of `tool.completed` + `tool.hosted_completed` events.
    pub completed: usize,
    /// Number of `tool.failed` events.
    pub failed: usize,
    /// Number of `tool.skipped` events.
    pub skipped: usize,
    /// Number of `tool.terminated` events.
    pub terminated: usize,
    /// Invocations with no observed terminal event in the snapshot.
    pub pending: usize,
}

impl ToolStats {
    /// Number of invocations that resolved.
    pub open spec fn resolved(self) -> int {
        self.completed + self.failed + self.skipped + self.terminated
    }

    /// Fraction of resolved invocations that completed successfully
    /// (`completed / (completed + failed + skipped + terminated)`).
    /// `None` when nothing resolved.
    pub fn success_rate(&self) -> (rate: Option<SuccessRate>)
        requires
            self.resolved() <= usize::MAX,
        ensures
            rate == (if self.resolved() == 0 {
                None
            } else {
                Some(
                    SuccessRate {
                        completed: self.completed,
                        resolved: self.resolved() as usize,
                    },
                )
            }),
    {
        let resolved: usize = self.completed + self.failed + self.skipped + self.terminated;
        if resolved == 0 {
            return None;
        }
        Some(SuccessRate { completed: self.completed, resolved })
    }
}

/// Selects `prompt.started` events.
pub open spec fn starts_prompt() -> spec_fn(crate::event::EventView) -> bool {
    |event: crate::event::EventView| event.kind is PromptStarted
}

/// Selects `prompt.completed` events.
pub open spec fn completes_prompt() -> spec_fn(crate::event::EventView) -> bool {
    |event: crate::event::EventView| event.kind is PromptCompleted
}

/// Selects `prompt.failed` events.
pub open spec fn fails_prompt() -> spec_fn(crate::event::EventView) -> bool {
    |event: crate::event::EventView| event.kind is PromptFailed
}

/// Selects `tool.invoked` and `tool.hosted_invoked` events.
pub open spec fn invokes_tool() -> spec_fn(crate::event::EventView) -> bool {
    |event: crate::event::EventView| event.kind is ToolInvoked || event.kind is ToolHostedInvoked
}

/// Selects `tool.completed` and `tool.hosted_completed` events.
pub open spec fn completes_tool() -> spec_fn(crate::event::EventView) -> bool {
    |event: crate::event::EventView|
        event.kind is ToolCompleted || event.kind is ToolHostedCompleted
}

/// Selects `tool.failed` events.
pub open spec fn fails_tool() -> spec_fn(crate::event::EventView) -> bool {
    |event: crate::event::EventView| event.kind is ToolFailed
}

/// Selects `tool.skipped` events.
pub open spec fn skips_tool() -> spec_fn(crate::event::EventView) -> bool {
    |event: crate::event::EventView| event.kind is ToolSkipped
}

/// Selects `tool.terminated` events.
pub open spec fn terminates_tool() -> spec_fn(crate::event::EventView) -> bool {
    |event: crate::event::EventView| event.kind is ToolTerminated
}

/// Derived insight view over a borrowed snapshot of observability events.
///
/// Construct via [`EventQuery::insights`]. All methods recompute from the
/// borrowed slice on each call; cache the results if you call them in a hot
/// loop.
#[derive(Debug, Clone, Copy)]
pub struct Insights<'a> {
    events: &'a [ObservabilityEvent],
}

impl<'a> View for Insights<'a> {
    type V = Seq<crate::event::EventView>;

    closed spec fn view(&self) -> Seq<crate::event::EventView> {
        crate::event::event_views(self.events@)
    }
}

proof fn lemma_gather_step<T>(
    events: Seq<crate::event::EventView>,
    at: int,
    pick: spec_fn(crate::event::EventView) -> Option<T>,
)
    requires
        0 <= at < events.len(),
    ensures
        gather(events.take(at + 1), pick) == (match pick(events[at]) {
            Some(found) => gather(events.take(at), pick).push(found),
            None => gather(events.take(at), pick),
        }),
        gather(events.take(at), pick).len() <= at,
    decreases at,
{
    assert(events.take(at + 1).drop_last() =~= events.take(at));
    if at > 0 {
        lemma_gather_step(events, at - 1, pick);
    }
}

proof fn lemma_count_step(
    events: Seq<crate::event::EventView>,
    at: int,
    wanted: spec_fn(crate::event::EventView) -> bool,
)
    requires
        0 <= at < events.len(),
    ensures
        count_of(events.take(at + 1), wanted) == count_of(events.take(at), wanted) + (if wanted(
            events[at],
        ) {
            1nat
        } else {
            0nat
        }),
{
    assert(events.take(at + 1).drop_last() =~= events.take(at));
}

/// Adds a reported count to a running sum, `None` once the sum is out of
/// range.
fn plus(sum: Option<u64>, reported: Option<u64>) -> (out: Option<u64>)
    ensures
        out == (match (sum, reported) {
            (Some(s), Some(r)) => if s + r <= u64::MAX {
                Some((s + r) as u64)
            } else {
                None
            },
            (Some(s), None) => Some(s),
            (None, _) => None,
        }),
{
    match (sum, reported) {
        (Some(s), Some(r)) => if s <= u64::MAX - r {
            Some(s + r)
        } else {
            None
        },
        (Some(s), None) => Some(s),
        (None, _) => None,
    }
}

/// Whether a running sum over the first `at` events is right: it holds the sum
/// while that is in range.
spec fn sums(
    events: Seq<crate::event::EventView>,
    at: int,
    pick: spec_fn(crate::event::EventView) -> Option<u64>,
    sum: Option<u64>,
) -> bool {
    let total = crate::latency::total(gather(events.take(at), pick));
    match sum {
        Some(s) => s == total,
        None => total > u64::MAX,
    }
}

proof fn lemma_sum_step(
    events: Seq<crate::event::EventView>,
    at: int,
    pick: spec_fn(crate::event::EventView) -> Option<u64>,
)
    requires
        0 <= at < events.len(),
    ensures
        crate::latency::total(gather(events.take(at + 1), pick)) == crate::latency::total(
            gather(events.take(at), pick),
        ) + (match pick(events[at]) {
            Some(found) => found as nat,
            None => 0,
        }),
{
    lemma_gather_step(events, at, pick);
    if let Some(found) = pick(events[at]) {
        let before = gather(events.take(at), pick);
        assert(before.push(found).drop_last() =~= before);
    }
}

impl<'a> Insights<'a> {
    /// Build an insight view over `events`.
    pub fn new(events: &'a [ObservabilityEvent]) -> (insights: Self)
        ensures
            insights@ == crate::event::event_views(events@),
    {
        Insights { events }
    }

    /// Token totals across `prompt.completed`, `None` where one of the sums
    /// does not fit a `u64`.
    pub fn token_totals(&self) -> (totals: Option<TokenTotals>)
        ensures
            totals is Some <==> tokens_fit(self@),
            totals matches Some(sums) ==> totals_tokens(self@, sums),
    {
        let mut tokens_in: Option<u64> = Some(0);
        let mut tokens_out: Option<u64> = Some(0);
        let mut cached: Option<u64> = Some(0);
        let mut reasoning: Option<u64> = Some(0);
        let mut i: usize = 0;
        assert(self@.take(0) =~= seq![]);
        while i < self.events.len()
            invariant
                i <= self.events@.len(),
                self@ == crate::event::event_views(self.events@),
                sums(self@, i as int, by_tokens_in(), tokens_in),
                sums(self@, i as int, by_tokens_out(), tokens_out),
                sums(self@, i as int, by_cached_tokens_in(), cached),
                sums(self@, i as int, by_reasoning_tokens(), reasoning),
            decreases self.events@.len() - i,
        {
            proof {
                lemma_sum_step(self@, i as int, by_tokens_in());
                lemma_sum_step(self@, i as int, by_tokens_out());
                lemma_sum_step(self@, i as int, by_cached_tokens_in());
                lemma_sum_step(self@, i as int, by_reasoning_tokens());
            }
            if let EventKind::PromptCompleted {
                tokens_in: t_in,
                tokens_out: t_out,
                cached_tokens_in,
                reasoning_tokens,
                ..
            } = &self.events[i].kind {
                tokens_in = plus(tokens_in, *t_in);
                tokens_out = plus(tokens_out, *t_out);
                cached = plus(cached, *cached_tokens_in);
                reasoning = plus(reasoning, *reasoning_tokens);
            }
            i += 1;
        }
        assert(self@.take(i as int) =~= self@);
        match (tokens_in, tokens_out, cached, reasoning) {
            (Some(tokens_in), Some(tokens_out), Some(cached_tokens_in), Some(reasoning_tokens)) =>
                Some(TokenTotals { tokens_in, tokens_out, cached_tokens_in, reasoning_tokens }),
            _ => None,
        }
    }

    /// Aggregate prompt-lifecycle counts, token totals, cost, and
    /// `finish_reason` distribution.
    pub fn prompt_stats(&self) -> (stats: PromptStats)
        requires
            tokens_fit(self@),
        ensures
            stats.started == count_of(self@, starts_prompt()),
            stats.completed == count_of(self@, completes_prompt()),
            stats.failed == count_of(self@, fails_prompt()),
            totals_tokens(self@, stats.tokens),
            stats.costs_usd@ == gather(self@, by_cost()),
            crate::table::tallies(stats.finish_reasons@, gather(self@, by_finish_reason())),
            stats.completed + stats.failed <= usize::MAX,
    {
        let tokens = match self.token_totals() {
            Some(tokens) => tokens,
            None => TokenTotals {
                tokens_in: 0,
                tokens_out: 0,
                cached_tokens_in: 0,
                reasoning_tokens: 0,
            },
        };
        let mut started: usize = 0;
        let mut completed: usize = 0;
        let mut failed: usize = 0;
        let mut costs_usd: Vec<Float64> = Vec::new();
        let mut finish_reasons: SortedTable<usize> = SortedTable::new();
        let mut i: usize = 0;
        assert(self@.take(0) =~= seq![]);
        assert(gather(self@.take(0), by_finish_reason()) =~= seq![]);
        while i < self.events.len()
            invariant
                i <= self.events@.len(),
                self@ == crate::event::event_views(self.events@),
                started == count_of(self@.take(i as int), starts_prompt()),
                completed == count_of(self@.take(i as int), completes_prompt()),
                failed == count_of(self@.take(i as int), fails_prompt()),
                started + completed + failed <= i,
                costs_usd@ == gather(self@.take(i as int), by_cost()),
                crate::table::tallies(
                    finish_reasons@,
                    gather(self@.take(i as int), by_finish_reason()),
                ),
            decreases self.events@.len() - i,
        {
            proof {
                lemma_count_step(self@, i as int, starts_prompt());
                lemma_count_step(self@, i as int, completes_prompt());
                lemma_count_step(self@, i as int, fails_prompt());
                lemma_gather_step(self@, i as int, by_cost());
                lemma_gather_step(self@, i as int, by_finish_reason());
            }
            match &self.events[i].kind {
                EventKind::PromptStarted { .. } => {
                    started += 1;
                },
                EventKind::PromptCompleted { cost_usd, finish_reason, .. } => {
                    completed += 1;
                    if let Some(cost) = cost_usd {
                        costs_usd.push(*cost);
                    }
                    if let Some(reason) = finish_reason {
                        proof {
                            let seen = gather(self@.take(i as int), by_finish_reason());
                            crate::table::lemma_occurrences(seen, reason@);
                            assert(crate::table::count_at(finish_reasons@, reason@)
                                == crate::table::occurrences(seen, reason@));
                            crate::table::lemma_tally_extends(finish_reasons@, seen, reason@);
                        }
                        finish_reasons.increment(reason.as_str());
                    }
                },
                EventKind::PromptFailed { .. } => {
                    failed += 1;
                },
                _ => {},
            }
            i += 1;
        }
        assert(self@.take(i as int) =~= self@);
        PromptStats { started, completed, failed, tokens, costs_usd, finish_reasons }
    }

    /// Aggregate tool-lifecycle outcome counts across both agent-loop and
    /// provider-hosted tools. `pending` is the count of invocations with no
    /// matching terminal event in the snapshot.
    pub fn tool_stats(&self) -> (stats: ToolStats)
        ensures
            stats.invoked == count_of(self@, invokes_tool()),
            stats.completed == count_of(self@, completes_tool()),
            stats.failed == count_of(self@, fails_tool()),
            stats.skipped == count_of(self@, skips_tool()),
            stats.terminated == count_of(self@, terminates_tool()),
            stats.pending == crate::spans::pending_count(crate::spans::spans_of(self@)),
            stats.resolved() <= usize::MAX,
    {
        let mut invoked: usize = 0;
        let mut completed: usize = 0;
        let mut failed: usize = 0;
        let mut skipped: usize = 0;
        let mut terminated: usize = 0;
        let mut i: usize = 0;
        assert(self@.take(0) =~= seq![]);
        while i < self.events.len()
            invariant
                i <= self.events@.len(),
                self@ == crate::event::event_views(self.events@),
                invoked == count_of(self@.take(i as int), invokes_tool()),
                completed == count_of(self@.take(i as int), completes_tool()),
                failed == count_of(self@.take(i as int), fails_tool()),
                skipped == count_of(self@.take(i as int), skips_tool()),
                terminated == count_of(self@.take(i as int), terminates_tool()),
                invoked + completed + failed + skipped + terminated <= i,
            decreases self.events@.len() - i,
        {
            proof {
                lemma_count_step(self@, i as int, invokes_tool());
                lemma_count_step(self@, i as int, completes_tool());
                lemma_count_step(self@, i as int, fails_tool());
                lemma_count_step(self@, i as int, skips_tool());
                lemma_count_step(self@, i as int, terminates_tool());
            }
            match &self.events[i].kind {
                EventKind::ToolInvoked { .. } | EventKind::ToolHostedInvoked { .. } => {
                    invoked += 1;
                },
                EventKind::ToolCompleted { .. } | EventKind::ToolHostedCompleted { .. } => {
                    completed += 1;
                },
                EventKind::ToolFailed { .. } => {
                    failed += 1;
                },
                EventKind::ToolSkipped { .. } => {
                    skipped += 1;
                },
                EventKind::ToolTerminated { .. } => {
                    terminated += 1;
                },
                _ => {},
            }
            i += 1;
        }
        assert(self@.take(i as int) =~= self@);
        let pending: usize = count_pending(&self.tool_spans());
        ToolStats { invoked, completed, failed, skipped, terminated, pending }
    }

    /// Reconstruct tool-call spans by pairing each invoke with its terminal
    /// event via `call_id`. Spans are returned in invoke order; invocations
    /// without a terminal carry [`ToolOutcome::Pending`](crate::ToolOutcome).
    pub fn tool_spans(&self) -> (spans: Vec<ToolSpan>)
        ensures
            spans.deep_view() == crate::spans::spans_of(self@),
    {
        reconstruct_spans(self.events)
    }

    /// Latency summary over the `duration_ms` field of every event whose
    /// wire `kind` matches `kind` (e.g. `"tool.completed"`,
    /// `"prompt.completed"`, `"response.turn_completed"`).
    pub fn latency(&self, kind: &str) -> (summary: LatencySummary)
        ensures
            crate::latency::summarizes(gather(self@, by_duration(kind@)), summary),
    {
        let mut samples: Vec<u64> = Vec::new();
        let mut i: usize = 0;
        assert(self@.take(0) =~= seq![]);
        while i < self.events.len()
            invariant
                i <= self.events@.len(),
                self@ == crate::event::event_views(self.events@),
                samples@ == gather(self@.take(i as int), by_duration(kind@)),
            decreases self.events@.len() - i,
        {
            proof {
                lemma_gather_step(self@, i as int, by_duration(kind@));
            }
            let event_kind = &self.events[i].kind;
            if same_text(event_kind.discriminant(), kind) {
                if let Some(duration) = duration_ms_of(event_kind) {
                    samples.push(duration);
                }
            }
            i += 1;
        }
        assert(self@.take(i as int) =~= self@);
        LatencySummary::from_samples(samples)
    }

    /// Latency summary over `time_to_first_token_ms` across
    /// `prompt.completed` events from streaming producers.
    pub fn time_to_first_token(&self) -> (summary: LatencySummary)
        ensures
            crate::latency::summarizes(gather(self@, by_first_token()), summary),
    {
        let mut samples: Vec<u64> = Vec::new();
        let mut i: usize = 0;
        assert(self@.take(0) =~= seq![]);
        while i < self.events.len()
            invariant
                i <= self.events@.len(),
                self@ == crate::event::event_views(self.events@),
                samples@ == gather(self@.take(i as int), by_first_token()),
            decreases self.events@.len() - i,
        {
            proof {
                lemma_gather_step(self@, i as int, by_first_token());
            }
            if let EventKind::PromptCompleted { time_to_first_token_ms: Some(millis), .. } =
                &self.events[i].kind {
                samples.push(*millis);
            }
            i += 1;
        }
        assert(self@.take(i as int) =~= self@);
        LatencySummary::from_samples(samples)
    }

    /// Count failures by [`ErrorClass`](crate::ErrorClass) across
    /// `prompt.failed` and `tool.failed` events. Keyed by the snake_case
    /// discriminant.
    pub fn errors_by_class(&self) -> (counts: SortedTable<usize>)
        ensures
            crate::table::tallies(counts@, gather(self@, by_error_class())),
    {
        let mut counts: SortedTable<usize> = SortedTable::new();
        let mut i: usize = 0;
        assert(self@.take(0) =~= seq![]);
        assert(gather(self@.take(0), by_error_class()) =~= seq![]);
        while i < self.events.len()
            invariant
                i <= self.events@.len(),
                self@ == crate::event::event_views(self.events@),
                crate::table::tallies(counts@, gather(self@.take(i as int), by_error_class())),
            decreases self.events@.len() - i,
        {
            proof {
                lemma_gather_step(self@, i as int, by_error_class());
            }
            let class = match &self.events[i].kind {
                EventKind::PromptFailed { error_class, .. }
                | EventKind::ToolFailed { error_class, .. } => Some(error_class.as_str()),
                _ => None,
            };
            if let Some(label) = class {
                proof {
                    let seen = gather(self@.take(i as int), by_error_class());
                    crate::table::lemma_occurrences(seen, label@);
                    assert(crate::table::count_at(counts@, label@) == crate::table::occurrences(
                        seen,
                        label@,
                    ));
                    crate::table::lemma_tally_extends(counts@, seen, label@);
                }
                counts.increment(label);
            }
            i += 1;
        }
        assert(self@.take(i as int) =~= self@);
        counts
    }

    /// Collect producer-computed `cost_usd` values from `prompt.completed`,
    /// grouped by `conversation_id` and in event order. The sum of a group is
    /// the cost of the conversation; conversations with no reported cost are
    /// omitted.
    pub fn cost_by_conversation(&self) -> (costs: SortedTable<Vec<Float64>>)
        ensures
            forall|id: Seq<char>| #[trigger]
                costs@.contains_key(id) <==> gather(self@, by_cost_in(id)).len() > 0,
            forall|id: Seq<char>| #[trigger]
                costs@.contains_key(id) ==> costs@[id]@ == gather(self@, by_cost_in(id)),
    {
        let mut costs: SortedTable<Vec<Float64>> = SortedTable::new();
        let mut i: usize = 0;
        assert(self@.take(0) =~= seq![]);
        while i < self.events.len()
            invariant
                i <= self.events@.len(),
                self@ == crate::event::event_views(self.events@),
                forall|id: Seq<char>| #[trigger]
                    costs@.contains_key(id) <==> gather(
                        self@.take(i as int),
                        by_cost_in(id),
                    ).len() > 0,
                forall|id: Seq<char>| #[trigger]
                    costs@.contains_key(id) ==> costs@[id]@ == gather(
                        self@.take(i as int),
                        by_cost_in(id),
                    ),
            decreases self.events@.len() - i,
        {
            let ghost before = costs@;
            let event = &self.events[i];
            assert(event@ == self@[i as int]);
            if let EventKind::PromptCompleted { cost_usd: Some(cost), .. } = &event.kind {
                proof {
                    let own = event.conversation_id@;
                    assert(!before.contains_key(own) ==> gather(
                        self@.take(i as int),
                        by_cost_in(own),
                    ) =~= seq![]);
                }
                costs.append(event.conversation_id.as_str(), *cost);
                assert forall|id: Seq<char>| #[trigger] costs@.contains_key(id) implies costs@[id]@
                    == gather(self@.take(i + 1), by_cost_in(id)) by {
                    lemma_gather_step(self@, i as int, by_cost_in(id));
                    if id != event.conversation_id@ {
                        assert(before.contains_key(id));
                        assert(costs@[id] == before[id]);
                    }
                }
            }
            assert forall|id: Seq<char>| #[trigger] costs@.contains_key(id) <==> gather(
                self@.take(i + 1),
                by_cost_in(id),
            ).len() > 0 by {
                lemma_gather_step(self@, i as int, by_cost_in(id));
                assert(before.contains_key(id) <==> gather(
                    self@.take(i as int),
                    by_cost_in(id),
                ).len() > 0);
            }
            assert forall|id: Seq<char>| #[trigger] costs@.contains_key(id) implies costs@[id]@
                == gather(self@.take(i + 1), by_cost_in(id)) by {
                lemma_gather_step(self@, i as int, by_cost_in(id));
            }
            i += 1;
        }
        assert(self@.take(i as int) =~= self@);
        costs
    }
}

/// There is one span for each invocation that the tool counts report.
pub proof fn lemma_one_span_per_invocation(events: Seq<crate::event::EventView>)
    ensures
        crate::spans::spans_of(events).len() == count_of(events, invokes_tool()),
{
    lemma_openings_count(events, events.len() as int);
    assert(events.take(events.len() as int) =~= events);
}

/// Every invocation is pending or was settled by a terminal event of its own:
/// no more is pending than was invoked, and at least as much as is left when
/// every terminal event has settled one.
pub proof fn lemma_pending_accounts_for_invocations(events: Seq<crate::event::EventView>)
    ensures
        ({
            let pending = crate::spans::pending_count(crate::spans::spans_of(events));
            let resolved = count_of(events, completes_tool()) + count_of(events, fails_tool())
                + count_of(events, skips_tool()) + count_of(events, terminates_tool());
            pending <= count_of(events, invokes_tool()) <= pending + resolved
        }),
{
    lemma_one_span_per_invocation(events);
    crate::spans::lemma_terminals_settle_at_most_one(events);
    lemma_terminals_count(events, events.len() as int);
    assert(events.take(events.len() as int) =~= events);
}

proof fn lemma_terminals_count(events: Seq<crate::event::EventView>, limit: int)
    requires
        0 <= limit <= events.len(),
    ensures
        crate::spans::terminals(events, limit) == count_of(events.take(limit), completes_tool())
            + count_of(events.take(limit), fails_tool()) + count_of(
            events.take(limit),
            skips_tool(),
        ) + count_of(events.take(limit), terminates_tool()),
    decreases limit,
{
    if limit > 0 {
        lemma_terminals_count(events, limit - 1);
        lemma_count_step(events, limit - 1, completes_tool());
        lemma_count_step(events, limit - 1, fails_tool());
        lemma_count_step(events, limit - 1, skips_tool());
        lemma_count_step(events, limit - 1, terminates_tool());
    } else {
        assert(events.take(0) =~= seq![]);
    }
}

proof fn lemma_openings_count(events: Seq<crate::event::EventView>, limit: int)
    requires
        0 <= limit <= events.len(),
    ensures
        crate::spans::openings(events, limit).len() == count_of(
            events.take(limit),
            invokes_tool(),
        ),
    decreases limit,
{
    if limit > 0 {
        lemma_openings_count(events, limit - 1);
        lemma_count_step(events, limit - 1, invokes_tool());
    } else {
        assert(events.take(0) =~= seq![]);
    }
}

/// Selects events that report a failed prompt or tool call.
pub open spec fn reports_failure() -> spec_fn(crate::event::EventView) -> bool {
    |event: crate::event::EventView| event.kind.failure_related()
}

/// Every failure has one class: as many classes are found as there are
/// failures among the events.
pub proof fn lemma_every_failure_is_classified(events: Seq<crate::event::EventView>)
    ensures
        gather(events, by_error_class()).len() == count_of(events, reports_failure()),
    decreases events.len(),
{
    if events.len() > 0 {
        lemma_every_failure_is_classified(events.drop_last());
    }
}

impl EventQuery {
    /// Derive an [`Insights`] view over this snapshot's events.
    pub fn insights(&self) -> (insights: Insights<'_>)
        ensures
            insights@ == self@,
    {
        let insights = Insights::new(self.all());
        assert(insights@ =~= self@);
        insights
    }
}

} // verus!
