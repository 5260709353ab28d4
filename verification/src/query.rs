//! In-process query helpers for captured observability events.

use vstd::prelude::*;

use crate::event::ObservabilityEvent;
use crate::table::SortedTable;
use crate::text::{copy_option, same_text};

verus! {

/// Predicate used by [`EventQuery`] to select observability events.
///
/// Every configured field must match. Tick bounds are inclusive.
#[derive(Debug, PartialEq, Eq)]
pub struct EventFilter {
    /// Conversation identifier to match.
    pub conversation_id: Option<String>,
    /// Wire event kind to match, such as `"tool.completed"`.
    pub kind: Option<String>,
    /// Inclusive lower tick bound.
    pub min_tick: Option<u64>,
    /// Inclusive upper tick bound.
    pub max_tick: Option<u64>,
    /// Compose kernel identifier to match.
    pub kernel_id: Option<String>,
    /// Tool name or retry target to match.
    pub tool_name: Option<String>,
    /// Tool call correlation identifier to match.
    pub call_id: Option<String>,
    /// Compose skill identifier to match.
    pub skill_id: Option<String>,
    /// Prompt model identifier to match.
    pub model: Option<String>,
}

/// The content of an [`EventFilter`].
#[verifier::ext_equal]
pub struct FilterView {
    pub conversation_id: Option<Seq<char>>,
    pub kind: Option<Seq<char>>,
    pub min_tick: Option<u64>,
    pub max_tick: Option<u64>,
    pub kernel_id: Option<Seq<char>>,
    pub tool_name: Option<Seq<char>>,
    pub call_id: Option<Seq<char>>,
    pub skill_id: Option<Seq<char>>,
    pub model: Option<Seq<char>>,
}

impl View for EventFilter {
    type V = FilterView;

    open spec fn view(&self) -> FilterView {
        FilterView {
            conversation_id: self.conversation_id.deep_view(),
            kind: self.kind.deep_view(),
            min_tick: self.min_tick,
            max_tick: self.max_tick,
            kernel_id: self.kernel_id.deep_view(),
            tool_name: self.tool_name.deep_view(),
            call_id: self.call_id.deep_view(),
            skill_id: self.skill_id.deep_view(),
            model: self.model.deep_view(),
        }
    }
}

/// A filter without any predicate.
pub open spec fn no_filter() -> FilterView {
    FilterView {
        conversation_id: None,
        kind: None,
        min_tick: None,
        max_tick: None,
        kernel_id: None,
        tool_name: None,
        call_id: None,
        skill_id: None,
        model: None,
    }
}

/// Whether a text meets the expectation, if there is one.
pub open spec fn admits(expected: Option<Seq<char>>, actual: Seq<char>) -> bool {
    expected matches Some(text) ==> text == actual
}

impl FilterView {
    /// Whether `event` satisfies every configured predicate.
    pub open spec fn accepts(self, event: crate::event::EventView) -> bool {
        let scalars = event.kind.scalars();
        &&& admits(self.conversation_id, event.conversation_id)
        &&& admits(self.kind, event.kind.discriminant())
        &&& self.min_tick matches Some(min) ==> min <= event.tick
        &&& self.max_tick matches Some(max) ==> event.tick <= max
        &&& admits(self.kernel_id, scalars.kernel_id)
        &&& admits(self.tool_name, scalars.tool_name)
        &&& admits(self.call_id, scalars.call_id)
        &&& admits(self.skill_id, scalars.skill_id)
        &&& admits(self.model, scalars.model)
    }
}

fn meets(expected: &Option<String>, actual: &str) -> (met: bool)
    ensures
        met == admits(expected.deep_view(), actual@),
{
    match expected {
        Some(text) => same_text(text.as_str(), actual),
        None => true,
    }
}

impl Default for EventFilter {
    fn default() -> (filter: Self)
        ensures
            filter@ == no_filter(),
    {
        EventFilter::new()
    }
}

impl Clone for EventFilter {
    fn clone(&self) -> (copy: Self)
        ensures
            copy@ == self@,
    {
        EventFilter {
            conversation_id: copy_option(&self.conversation_id),
            kind: copy_option(&self.kind),
            min_tick: self.min_tick,
            max_tick: self.max_tick,
            kernel_id: copy_option(&self.kernel_id),
            tool_name: copy_option(&self.tool_name),
            call_id: copy_option(&self.call_id),
            skill_id: copy_option(&self.skill_id),
            model: copy_option(&self.model),
        }
    }
}

impl EventFilter {
    /// Build an empty filter that matches every event.
    pub fn new() -> (filter: Self)
        ensures
            filter@ == no_filter(),
    {
        EventFilter {
            conversation_id: None,
            kind: None,
            min_tick: None,
            max_tick: None,
            kernel_id: None,
            tool_name: None,
            call_id: None,
            skill_id: None,
            model: None,
        }
    }

    /// Match a conversation identifier.
    pub fn conversation_id(self, conversation_id: &str) -> (filter: Self)
        ensures
            filter@ == (FilterView { conversation_id: Some(conversation_id@), ..self@ }),
    {
        EventFilter { conversation_id: Some(conversation_id.to_owned()), ..self }
    }

    /// Match a wire event kind, such as `"prompt.started"`.
    pub fn kind(self, kind: &str) -> (filter: Self)
        ensures
            filter@ == (FilterView { kind: Some(kind@), ..self@ }),
    {
        EventFilter { kind: Some(kind.to_owned()), ..self }
    }

    /// Match events at or after `tick`.
    pub fn min_tick(self, tick: u64) -> (filter: Self)
        ensures
            filter@ == (FilterView { min_tick: Some(tick), ..self@ }),
    {
        EventFilter { min_tick: Some(tick), ..self }
    }

    /// Match events at or before `tick`.
    pub fn max_tick(self, tick: u64) -> (filter: Self)
        ensures
            filter@ == (FilterView { max_tick: Some(tick), ..self@ }),
    {
        EventFilter { max_tick: Some(tick), ..self }
    }

    /// Match a compose kernel identifier.
    pub fn kernel_id(self, kernel_id: &str) -> (filter: Self)
        ensures
            filter@ == (FilterView { kernel_id: Some(kernel_id@), ..self@ }),
    {
        EventFilter { kernel_id: Some(kernel_id.to_owned()), ..self }
    }

    /// Match a tool name or retry target.
    pub fn tool_name(self, tool_name: &str) -> (filter: Self)
        ensures
            filter@ == (FilterView { tool_name: Some(tool_name@), ..self@ }),
    {
        EventFilter { tool_name: Some(tool_name.to_owned()), ..self }
    }

    /// Match a tool call correlation identifier.
    pub fn call_id(self, call_id: &str) -> (filter: Self)
        ensures
            filter@ == (FilterView { call_id: Some(call_id@), ..self@ }),
    {
        EventFilter { call_id: Some(call_id.to_owned()), ..self }
    }

    /// Match a compose skill identifier.
    pub fn skill_id(self, skill_id: &str) -> (filter: Self)
        ensures
            filter@ == (FilterView { skill_id: Some(skill_id@), ..self@ }),
    {
        EventFilter { skill_id: Some(skill_id.to_owned()), ..self }
    }

    /// Match a prompt model identifier.
    pub fn model(self, model: &str) -> (filter: Self)
        ensures
            filter@ == (FilterView { model: Some(model@), ..self@ }),
    {
        EventFilter { model: Some(model.to_owned()), ..self }
    }

    /// Return `true` if `event` satisfies every configured predicate.
    pub fn matches(&self, event: &ObservabilityEvent) -> (matched: bool)
        ensures
            matched == self@.accepts(event@),
    {
        if !meets(&self.conversation_id, event.conversation_id.as_str()) {
            return false;
        }
        if !meets(&self.kind, event.kind.discriminant()) {
            return false;
        }
        if let Some(min_tick) = self.min_tick {
            if event.tick < min_tick {
                return false;
            }
        }
        if let Some(max_tick) = self.max_tick {
            if event.tick > max_tick {
                return false;
            }
        }
        let fields = event.kind.scalar_fields();
        meets(&self.kernel_id, fields.kernel_id) && meets(&self.tool_name, fields.tool_name)
            && meets(&self.call_id, fields.call_id) && meets(&self.skill_id, fields.skill_id)
            && meets(&self.model, fields.model)
    }
}

/// The events that `filter` accepts, in their order.
pub open spec fn selected(events: Seq<crate::event::EventView>, filter: FilterView) -> Seq<
    crate::event::EventView,
>
    decreases events.len(),
{
    if events.len() == 0 {
        seq![]
    } else {
        let before = selected(events.drop_last(), filter);
        if filter.accepts(events.last()) {
            before.push(events.last())
        } else {
            before
        }
    }
}

/// The wire kinds of `events`, in their order.
pub open spec fn kinds_of(events: Seq<crate::event::EventView>) -> Seq<Seq<char>> {
    Seq::new(events.len(), |i: int| events[i].kind.discriminant())
}

/// The conversations of `events`, in their order.
pub open spec fn conversations_of(events: Seq<crate::event::EventView>) -> Seq<Seq<char>> {
    Seq::new(events.len(), |i: int| events[i].conversation_id)
}

/// Copies a run of events.
pub fn copy_events(events: &Vec<ObservabilityEvent>, from: usize) -> (copies: Vec<
    ObservabilityEvent,
>)
    requires
        from <= events.len(),
    ensures
        copies.deep_view() == events.deep_view().skip(from as int),
{
    let mut copies: Vec<ObservabilityEvent> = Vec::new();
    let mut i: usize = from;
    while i < events.len()
        invariant
            from <= i <= events.len(),
            copies.len() == i - from,
            forall|k: int| 0 <= k < copies.len() ==> (#[trigger] copies[k])@ == events[from + k]@,
        decreases events.len() - i,
    {
        copies.push(events[i].clone());
        i += 1;
    }
    assert(copies.deep_view() =~= events.deep_view().skip(from as int));
    copies
}

/// Immutable query view over a snapshot of [`ObservabilityEvent`] values.
///
/// `EventQuery` is intentionally in-process and host-owned. It is useful for
/// tests, demos, and small local dashboards; production exporters should keep
/// using `tracing` sinks and external stores.
#[derive(Debug, PartialEq)]
pub struct EventQuery {
    events: Vec<ObservabilityEvent>,
}

impl View for EventQuery {
    type V = Seq<crate::event::EventView>;

    closed spec fn view(&self) -> Seq<crate::event::EventView> {
        self.events.deep_view()
    }
}

impl Default for EventQuery {
    fn default() -> (query: Self)
        ensures
            query@ == Seq::<crate::event::EventView>::empty(),
    {
        let query = EventQuery { events: Vec::new() };
        assert(query@ =~= Seq::<crate::event::EventView>::empty());
        query
    }
}

impl Clone for EventQuery {
    fn clone(&self) -> (copy: Self)
        ensures
            copy@ == self@,
    {
        let copy = EventQuery { events: copy_events(&self.events, 0) };
        assert(copy@ =~= self@);
        copy
    }
}

impl EventQuery {
    /// Build a query view over `events` in their existing order.
    pub fn new(events: Vec<ObservabilityEvent>) -> (query: Self)
        ensures
            query@ == events.deep_view(),
    {
        EventQuery { events }
    }

    /// Return all events in snapshot order.
    pub fn all(&self) -> (events: &[ObservabilityEvent])
        ensures
            events@.len() == self@.len(),
            forall|i: int| 0 <= i < self@.len() ==> (#[trigger] events@[i])@ == self@[i],
    {
        self.events.as_slice()
    }

    /// Return the number of events in this snapshot.
    pub fn len(&self) -> (len: usize)
        ensures
            len == self@.len(),
    {
        self.events.len()
    }

    /// Return `true` when this snapshot has no events.
    pub fn is_empty(&self) -> (empty: bool)
        ensures
            empty == (self@.len() == 0),
    {
        self.events.is_empty()
    }

    /// Return all events matching `filter` in snapshot order.
    pub fn filter(&self, filter: &EventFilter) -> (events: Vec<ObservabilityEvent>)
        ensures
            events.deep_view() == selected(self@, filter@),
    {
        let mut out: Vec<ObservabilityEvent> = Vec::new();
        let mut i: usize = 0;
        while i < self.events.len()
            invariant
                i <= self.events.len(),
                self@ == self.events.deep_view(),
                out.deep_view() =~= selected(self@.take(i as int), filter@),
            decreases self.events.len() - i,
        {
            assert(self@.take(i + 1).drop_last() =~= self@.take(i as int));
            if filter.matches(&self.events[i]) {
                out.push(self.events[i].clone());
            }
            i += 1;
        }
        assert(self@.take(i as int) =~= self@);
        out
    }

    /// Return up to `limit` most recent events in ascending snapshot order.
    pub fn latest(&self, limit: usize) -> (events: Vec<ObservabilityEvent>)
        ensures
            events.deep_view() == self@.skip(
                if limit < self@.len() {
                    self@.len() - limit
                } else {
                    0
                },
            ),
    {
        let from: usize = if limit < self.events.len() {
            self.events.len() - limit
        } else {
            0
        };
        copy_events(&self.events, from)
    }

    /// Count events by wire event kind.
    pub fn count_by_kind(&self) -> (counts: SortedTable<usize>)
        ensures
            crate::table::tallies(counts@, kinds_of(self@)),
    {
        let mut counts: SortedTable<usize> = SortedTable::new();
        let mut i: usize = 0;
        assert(kinds_of(self@.take(0)) =~= seq![]);
        while i < self.events.len()
            invariant
                i <= self.events.len(),
                self@ == self.events.deep_view(),
                crate::table::tallies(counts@, kinds_of(self@.take(i as int))),
            decreases self.events.len() - i,
        {
            let kind = self.events[i].kind.discriminant();
            proof {
                let seen = kinds_of(self@.take(i as int));
                crate::table::lemma_occurrences(seen, kind@);
                assert(crate::table::count_at(counts@, kind@) == crate::table::occurrences(
                    seen,
                    kind@,
                ));
                assert(kinds_of(self@.take(i + 1)) =~= seen.push(kind@));
                crate::table::lemma_tally_extends(counts@, seen, kind@);
            }
            counts.increment(kind);
            i += 1;
        }
        assert(self@.take(i as int) =~= self@);
        counts
    }

    /// Return conversation identifiers present in this snapshot, sorted and
    /// without repetition.
    pub fn conversations(&self) -> (conversations: Vec<String>)
        ensures
            crate::text::strictly_sorted(conversations.deep_view()),
            forall|id: Seq<char>| #[trigger]
                conversations.deep_view().contains(id) <==> conversations_of(self@).contains(id),
    {
        let mut table: SortedTable<usize> = SortedTable::new();
        let mut i: usize = 0;
        assert(conversations_of(self@.take(0)) =~= seq![]);
        while i < self.events.len()
            invariant
                i <= self.events.len(),
                self@ == self.events.deep_view(),
                crate::table::tallies(table@, conversations_of(self@.take(i as int))),
            decreases self.events.len() - i,
        {
            let id = self.events[i].conversation_id.as_str();
            proof {
                let seen = conversations_of(self@.take(i as int));
                crate::table::lemma_occurrences(seen, id@);
                assert(crate::table::count_at(table@, id@) == crate::table::occurrences(seen, id@));
                assert(conversations_of(self@.take(i + 1)) =~= seen.push(id@));
                crate::table::lemma_tally_extends(table@, seen, id@);
            }
            table.increment(id);
            i += 1;
        }
        assert(self@.take(i as int) =~= self@);
        let keys = table.keys();
        proof {
            table.lemma_listed();
            assert forall|id: Seq<char>| #[trigger]
                keys.deep_view().contains(id) <==> conversations_of(self@).contains(id) by {
                assert(table@.contains_key(id) <==> conversations_of(self@).contains(id));
            }
        }
        keys
    }
}

impl From<Vec<ObservabilityEvent>> for EventQuery {
    fn from(events: Vec<ObservabilityEvent>) -> (query: Self) {
        EventQuery { events }
    }
}

impl vstd::std_specs::convert::FromSpecImpl<Vec<ObservabilityEvent>> for EventQuery {
    open spec fn obeys_from_spec() -> bool {
        true
    }

    closed spec fn from_spec(events: Vec<ObservabilityEvent>) -> Self {
        EventQuery { events }
    }
}

/// Converting a list of events into a query keeps them in their order.
pub proof fn lemma_query_from_events(events: Vec<ObservabilityEvent>)
    ensures
        <EventQuery as vstd::std_specs::convert::FromSpec<Vec<ObservabilityEvent>>>::from_spec(
            events,
        )@ == events.deep_view(),
{
}

/// An empty filter selects everything.
pub proof fn lemma_empty_filter_selects_all(events: Seq<crate::event::EventView>)
    ensures
        selected(events, no_filter()) == events,
    decreases events.len(),
{
    if events.len() > 0 {
        lemma_empty_filter_selects_all(events.drop_last());
    }
    assert(selected(events, no_filter()) =~= events);
}

/// Selection is sound and complete: what is selected occurs and is accepted,
/// and what occurs and is accepted is selected.
pub proof fn lemma_selection_is_exact(
    events: Seq<crate::event::EventView>,
    filter: FilterView,
    event: crate::event::EventView,
)
    ensures
        selected(events, filter).contains(event) <==> events.contains(event) && filter.accepts(
            event,
        ),
        selected(events, filter).len() <= events.len(),
    decreases events.len(),
{
    if events.len() > 0 {
        let shorter = events.drop_last();
        lemma_selection_is_exact(shorter, filter, event);
        let before = selected(shorter, filter);
        let after = selected(events, filter);
        if before.contains(event) {
            let i = choose|i: int| 0 <= i < before.len() && before[i] == event;
            assert(after[i] == event);
        }
        if after.contains(event) {
            let i = choose|i: int| 0 <= i < after.len() && after[i] == event;
            if i < before.len() {
                assert(before[i] == event);
            } else {
                assert(events[events.len() - 1] == event);
            }
        }
        if shorter.contains(event) {
            let i = choose|i: int| 0 <= i < shorter.len() && shorter[i] == event;
            assert(events[i] == event);
        }
        if events.contains(event) && filter.accepts(event) {
            let i = choose|i: int| 0 <= i < events.len() && events[i] == event;
            if i < shorter.len() {
                assert(shorter[i] == event);
            } else {
                assert(after[after.len() - 1] == event);
            }
        }
    }
}

/// Selecting twice with the same filter changes nothing the second time.
pub proof fn lemma_selection_is_idempotent(
    events: Seq<crate::event::EventView>,
    filter: FilterView,
)
    ensures
        selected(selected(events, filter), filter) == selected(events, filter),
    decreases events.len(),
{
    if events.len() > 0 {
        lemma_selection_is_idempotent(events.drop_last(), filter);
        let out = selected(events, filter);
        if filter.accepts(events.last()) {
            assert(out.drop_last() =~= selected(events.drop_last(), filter));
        }
    }
}

/// Every configured predicate must match: a filter with one predicate more
/// selects from what the filter without it selects.
pub proof fn lemma_predicates_conjoin(
    filter: FilterView,
    conversation: Seq<char>,
    kind: Seq<char>,
    min: u64,
    max: u64,
    event: crate::event::EventView,
)
    requires
        filter.conversation_id is None,
        filter.kind is None,
        filter.min_tick is None,
        filter.max_tick is None,
    ensures
        (FilterView {
            conversation_id: Some(conversation),
            kind: Some(kind),
            min_tick: Some(min),
            max_tick: Some(max),
            ..filter
        }).accepts(event) <==> {
            &&& filter.accepts(event)
            &&& event.conversation_id == conversation
            &&& event.kind.discriminant() == kind
            &&& min <= event.tick <= max
        },
{
}

} // verus!
