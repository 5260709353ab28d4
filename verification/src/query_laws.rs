//! What queries, filters and tallies give back of the events they hold.

use vstd::prelude::*;

use crate::emit::Emission;
use crate::event::{EventKind, ObservabilityEvent};
use crate::query::{EventFilter, EventQuery};
use crate::table::SortedTable;

verus! {

/// A filter with one condition admits exactly the events that meet it: those of
/// one conversation, of one wire kind, from a tick on, or up to a tick.
pub proof fn lemma_envelope_conditions(
    base: EventFilter,
    text: &str,
    tick: u64,
    event: ObservabilityEvent,
    of_conversation: EventFilter,
    of_kind: EventFilter,
    from_tick: EventFilter,
    to_tick: EventFilter,
    met: (bool, bool, bool, bool),
)
    requires
        call_ensures(EventFilter::new, (), base),
        call_ensures(EventFilter::conversation_id, (base, text), of_conversation),
        call_ensures(EventFilter::kind, (base, text), of_kind),
        call_ensures(EventFilter::min_tick, (base, tick), from_tick),
        call_ensures(EventFilter::max_tick, (base, tick), to_tick),
        call_ensures(EventFilter::matches, (&of_conversation, &event), met.0),
        call_ensures(EventFilter::matches, (&of_kind, &event), met.1),
        call_ensures(EventFilter::matches, (&from_tick, &event), met.2),
        call_ensures(EventFilter::matches, (&to_tick, &event), met.3),
    ensures
        met.0 <==> event.conversation_id@ == text@,
        met.1 <==> event.kind@.discriminant() == text@,
        met.2 <==> event.tick >= tick,
        met.3 <==> event.tick <= tick,
{
}

/// A filter with one condition on the payload admits exactly the events whose
/// scalar of that name is the one asked for.
pub proof fn lemma_payload_conditions(
    base: EventFilter,
    text: &str,
    event: ObservabilityEvent,
    of_kernel: EventFilter,
    of_tool: EventFilter,
    of_call: EventFilter,
    of_skill: EventFilter,
    of_model: EventFilter,
    met: (bool, bool, bool, bool, bool),
)
    requires
        call_ensures(EventFilter::new, (), base),
        call_ensures(EventFilter::kernel_id, (base, text), of_kernel),
        call_ensures(EventFilter::tool_name, (base, text), of_tool),
        call_ensures(EventFilter::call_id, (base, text), of_call),
        call_ensures(EventFilter::skill_id, (base, text), of_skill),
        call_ensures(EventFilter::model, (base, text), of_model),
        call_ensures(EventFilter::matches, (&of_kernel, &event), met.0),
        call_ensures(EventFilter::matches, (&of_tool, &event), met.1),
        call_ensures(EventFilter::matches, (&of_call, &event), met.2),
        call_ensures(EventFilter::matches, (&of_skill, &event), met.3),
        call_ensures(EventFilter::matches, (&of_model, &event), met.4),
    ensures
        met.0 <==> event.kind@.scalars().kernel_id == text@,
        met.1 <==> event.kind@.scalars().tool_name == text@,
        met.2 <==> event.kind@.scalars().call_id == text@,
        met.3 <==> event.kind@.scalars().skill_id == text@,
        met.4 <==> event.kind@.scalars().model == text@,
{
}

/// Conditions add up: a filter admits what it admitted before and what meets the
/// condition that was added.
pub proof fn lemma_conditions_add_up(
    base: EventFilter,
    tool: &str,
    conversation: &str,
    first: EventFilter,
    both: EventFilter,
    event: ObservabilityEvent,
    met: bool,
)
    requires
        call_ensures(EventFilter::new, (), base),
        call_ensures(EventFilter::tool_name, (base, tool), first),
        call_ensures(EventFilter::conversation_id, (first, conversation), both),
        call_ensures(EventFilter::matches, (&both, &event), met),
    ensures
        met <==> event.kind@.scalars().tool_name == tool@ && event.conversation_id@
            == conversation@,
{
}

/// One more event is counted once more under its own wire name, and under no
/// other.
pub proof fn lemma_kinds_are_counted(
    query: EventQuery,
    longer: EventQuery,
    event: ObservabilityEvent,
    before: SortedTable<usize>,
    after: SortedTable<usize>,
    label: Seq<char>,
)
    requires
        longer@ == query@.push(event@),
        call_ensures(EventQuery::count_by_kind, (&query,), before),
        call_ensures(EventQuery::count_by_kind, (&longer,), after),
    ensures
        crate::rollup_laws::counted(after, label) == crate::rollup_laws::counted(before, label)
            + crate::rollup_laws::one_if(label == event.kind@.discriminant()),
{
    let labels = crate::query::kinds_of(query@);
    assert(crate::query::kinds_of(longer@) =~= labels.push(event.kind@.discriminant()));
    crate::rollup_laws::lemma_tally_with_one_more(
        before,
        after,
        labels,
        event.kind@.discriminant(),
        label,
    );
}

/// The conversations are those of the events, each once, sorted by their bytes.
pub proof fn lemma_conversations(query: EventQuery, found: Vec<String>, id: Seq<char>, i: int, j: int)
    requires
        call_ensures(EventQuery::conversations, (&query,), found),
        0 <= i < j < found.len(),
    ensures
        found.deep_view().contains(id) <==> exists|k: int|
            0 <= k < query@.len() && (#[trigger] query@[k]).conversation_id == id,
        crate::text::sorts_before(found[i]@, found[j]@),
        found[i]@ != found[j]@,
{
    let all = crate::query::conversations_of(query@);
    assert(found.deep_view().contains(id) <==> all.contains(id));
    if all.contains(id) {
        let k = all.index_of(id);
        assert(query@[k].conversation_id == id);
    }
    if exists|k: int| 0 <= k < query@.len() && (#[trigger] query@[k]).conversation_id == id {
        let k = choose|k: int|
            0 <= k < query@.len() && (#[trigger] query@[k]).conversation_id == id;
        assert(all[k] == id);
    }
    assert(found.deep_view()[i] == found[i]@);
    assert(found.deep_view()[j] == found[j]@);
    assert(crate::text::sorts_before(found.deep_view()[i], found.deep_view()[j]));
    crate::text::lemma_order_is_total(found[i]@, found[j]@);
}

/// The keys of a table stand in the order of their bytes, none of them twice,
/// and are those under which it holds something.
pub proof fn lemma_table_keys<V>(table: SortedTable<V>, keys: Vec<String>, i: int, j: int)
    requires
        table.well_formed(),
        call_ensures(SortedTable::<V>::keys, (&table,), keys),
        0 <= i < j < keys.len(),
    ensures
        crate::text::sorts_before(keys[i]@, keys[j]@),
        table@.contains_key(keys[i]@),
        table@.contains_key(keys[j]@),
{
    assert(keys.deep_view()[i] == keys[i]@);
    assert(keys.deep_view()[j] == keys[j]@);
    assert(crate::text::sorts_before(keys.deep_view()[i], keys.deep_view()[j]));
    table.lemma_listed();
    assert(table.listed()[i].0@ == keys[i]@);
    assert(table.listed()[j].0@ == keys[j]@);
}

/// An emission reads as what it carries and where it belongs.
pub proof fn lemma_emission_contents(emission: Emission)
    ensures
        emission.deep_view() == emission@,
        emission@.conversation_id == emission.conversation_id@,
        emission@.kind == emission.kind@,
{
}

/// A new event belongs to its conversation and carries its payload, and nothing
/// else is known of it.
pub proof fn lemma_new_event(conversation: &str, kind: EventKind, event: ObservabilityEvent)
    requires
        call_ensures(ObservabilityEvent::new, (conversation, kind), event),
    ensures
        event.version == crate::event::SCHEMA_VERSION,
        event.occurred_at_millis == 0,
        event.tick == 0,
        event.conversation_id@ == conversation@,
        event.span_id is None,
        event.agent_id is None,
        event.trace_id is None,
        event.severity is None,
        event.kind@ == kind@,
{
}

} // verus!
