//! Tables from strings to values, kept in the order of their keys.

use vstd::prelude::*;

use crate::text::{same_text, text_before};

verus! {

/// A table with string keys. Its entries are sorted by key, and no key occurs
/// twice.
#[derive(Debug, PartialEq)]
pub struct SortedTable<V> {
    entries: Vec<(String, V)>,
}

/// The keys of a list of entries.
pub open spec fn entry_keys<V>(entries: Seq<(String, V)>) -> Seq<Seq<char>> {
    Seq::new(entries.len(), |i: int| entries[i].0@)
}

/// A position at which `key` stands.
pub open spec fn entry_index<V>(entries: Seq<(String, V)>, key: Seq<char>) -> int {
    choose|i: int| 0 <= i < entries.len() && #[trigger] entries[i].0@ == key
}

/// The entries as a map, where no key occurs twice.
pub open spec fn entry_map<V>(entries: Seq<(String, V)>) -> Map<Seq<char>, V> {
    Map::new(
        |key: Seq<char>| exists|i: int| 0 <= i < entries.len() && #[trigger] entries[i].0@ == key,
        |key: Seq<char>| entries[entry_index(entries, key)].1,
    )
}

proof fn lemma_keys_differ<V>(entries: Seq<(String, V)>, i: int, j: int)
    requires
        crate::text::strictly_sorted(entry_keys(entries)),
        0 <= i < entries.len(),
        0 <= j < entries.len(),
        entries[i].0@ == entries[j].0@,
    ensures
        i == j,
{
    let keys = entry_keys(entries);
    crate::text::lemma_order_is_total(keys[i], keys[j]);
    if i < j {
        assert(crate::text::sorts_before(keys[i], keys[j]));
    } else if j < i {
        assert(crate::text::sorts_before(keys[j], keys[i]));
    }
}

proof fn lemma_entry_lookup<V>(entries: Seq<(String, V)>, i: int)
    requires
        crate::text::strictly_sorted(entry_keys(entries)),
        0 <= i < entries.len(),
    ensures
        entry_map(entries).contains_key(entries[i].0@),
        entry_map(entries)[entries[i].0@] == entries[i].1,
{
    lemma_keys_differ(entries, i, entry_index(entries, entries[i].0@));
}

proof fn lemma_entry_insert<V>(
    before: Seq<(String, V)>,
    after: Seq<(String, V)>,
    at: int,
    key: Seq<char>,
    value: V,
)
    requires
        crate::text::strictly_sorted(entry_keys(before)),
        0 <= at <= before.len(),
        forall|i: int|
            0 <= i < before.len() ==> if i < at {
                crate::text::sorts_before((#[trigger] before[i]).0@, key)
            } else {
                crate::text::sorts_before(key, before[i].0@)
            },
        after.len() == before.len() + 1,
        forall|i: int| 0 <= i < at ==> after[i] == before[i],
        after[at].0@ == key,
        after[at].1 == value,
        forall|i: int| at < i < after.len() ==> after[i] == before[i - 1],
    ensures
        crate::text::strictly_sorted(entry_keys(after)),
        entry_map(after) == entry_map(before).insert(key, value),
        !entry_map(before).contains_key(key),
{
    let new_keys = entry_keys(after);
    let old_keys = entry_keys(before);
    assert forall|i: int, j: int|
        0 <= i < j < new_keys.len() implies #[trigger] crate::text::sorts_before(
        new_keys[i],
        new_keys[j],
    ) by {
        if i < at {
            if j < at {
                assert(crate::text::sorts_before(old_keys[i], old_keys[j]));
            } else if j > at {
                assert(crate::text::sorts_before(old_keys[i], old_keys[j - 1]));
            } else {
                assert(crate::text::sorts_before(before[i].0@, key));
            }
        } else if i == at {
            assert(crate::text::sorts_before(key, before[j - 1].0@));
        } else {
            assert(crate::text::sorts_before(old_keys[i - 1], old_keys[j - 1]));
        }
    }
    if entry_map(before).contains_key(key) {
        let i = choose|i: int| 0 <= i < before.len() && #[trigger] before[i].0@ == key;
        crate::text::lemma_order_is_total(key, key);
    }
    lemma_entry_lookup(after, at);
    assert forall|k: Seq<char>| entry_map(after).contains_key(k) == entry_map(
        before,
    ).insert(key, value).contains_key(k) by {
        if k != key {
            if entry_map(after).contains_key(k) {
                let i = choose|i: int|
                    0 <= i < after.len() && #[trigger] after[i].0@ == k;
                if i < at {
                    assert(before[i].0@ == k);
                } else {
                    assert(before[i - 1].0@ == k);
                }
            }
            if entry_map(before).contains_key(k) {
                let i = choose|i: int|
                    0 <= i < before.len() && #[trigger] before[i].0@ == k;
                if i < at {
                    assert(after[i].0@ == k);
                } else {
                    assert(after[i + 1].0@ == k);
                }
            }
        }
    }
    assert forall|k: Seq<char>|
        entry_map(after).contains_key(k) implies #[trigger] entry_map(after)[k]
        == entry_map(before).insert(key, value)[k] by {
        if k != key {
            let i = choose|i: int| 0 <= i < after.len() && #[trigger] after[i].0@ == k;
            lemma_entry_lookup(after, i);
            if i < at {
                lemma_entry_lookup(before, i);
                assert(before[i] == after[i]);
            } else {
                lemma_entry_lookup(before, i - 1);
                assert(before[i - 1] == after[i]);
            }
        }
    }
    assert(entry_map(after) =~= entry_map(before).insert(key, value));
}

impl<V> SortedTable<V> {
    /// The entries, in the order of their keys.
    pub closed spec fn listed(self) -> Seq<(String, V)> {
        self.entries@
    }

    /// The invariant of every table: its keys are strictly sorted.
    #[verifier::type_invariant]
    pub open spec fn well_formed(self) -> bool {
        crate::text::strictly_sorted(entry_keys(self.listed()))
    }

    /// An empty table.
    pub fn new() -> (table: Self)
        ensures
            table@ == Map::<Seq<char>, V>::empty(),
            table.listed() == Seq::<(String, V)>::empty(),
    {
        let table = SortedTable { entries: Vec::new() };
        assert(table@ =~= Map::<Seq<char>, V>::empty());
        table
    }

    /// All entries, sorted by key.
    pub fn entries(&self) -> (entries: &Vec<(String, V)>)
        ensures
            entries@ == self.listed(),
            self.well_formed(),
    {
        proof {
            use_type_invariant(self);
        }
        &self.entries
    }

    /// All keys, sorted.
    pub fn keys(&self) -> (keys: Vec<String>)
        ensures
            keys.deep_view() == entry_keys(self.listed()),
            crate::text::strictly_sorted(keys.deep_view()),
    {
        proof {
            use_type_invariant(self);
        }
        let mut keys: Vec<String> = Vec::new();
        let mut i: usize = 0;
        while i < self.entries.len()
            invariant
                i <= self.entries.len(),
                keys.len() == i,
                self.entries@ == self.listed(),
                forall|k: int| 0 <= k < i ==> (#[trigger] keys[k])@ == self.listed()[k].0@,
            decreases self.entries.len() - i,
        {
            keys.push(self.entries[i].0.clone());
            i += 1;
        }
        assert(keys.deep_view() =~= entry_keys(self.listed()));
        keys
    }

    /// The keys listed are those of the map, and every entry holds the value
    /// of its key.
    pub proof fn lemma_listed(self)
        requires
            self.well_formed(),
        ensures
            forall|key: Seq<char>| #[trigger]
                self@.contains_key(key) <==> entry_keys(self.listed()).contains(key),
            forall|i: int|
                0 <= i < self.listed().len() ==> self@.contains_key(
                    (#[trigger] self.listed()[i]).0@,
                ) && self@[self.listed()[i].0@] == self.listed()[i].1,
    {
        let keys = entry_keys(self.listed());
        assert forall|key: Seq<char>| #[trigger] self@.contains_key(key) <==> keys.contains(
            key,
        ) by {
            if self@.contains_key(key) {
                let i = entry_index(self.listed(), key);
                assert(keys[i] == key);
            }
            if keys.contains(key) {
                let i = choose|i: int| 0 <= i < keys.len() && keys[i] == key;
                assert(self.listed()[i].0@ == key);
            }
        }
        assert forall|i: int| 0 <= i < self.listed().len() implies self@.contains_key(
            (#[trigger] self.listed()[i]).0@,
        ) && self@[self.listed()[i].0@] == self.listed()[i].1 by {
            lemma_entry_lookup(self.listed(), i);
        }
    }

    /// Number of entries.
    pub fn len(&self) -> (len: usize)
        ensures
            len == self.listed().len(),
    {
        self.entries.len()
    }

    /// Whether the table holds no entry.
    pub fn is_empty(&self) -> (empty: bool)
        ensures
            empty == (self.listed().len() == 0),
    {
        self.entries.is_empty()
    }

    /// Where `key` stands, or would have to stand, and whether it is there.
    fn position(&self, key: &str) -> (place: (usize, bool))
        ensures
            place.0 <= self.listed().len(),
            place.1 ==> place.0 < self.listed().len() && self.listed()[place.0 as int].0@ == key@,
            !place.1 ==> forall|i: int|
                0 <= i < self.listed().len() ==> if i < place.0 {
                    crate::text::sorts_before((#[trigger] self.listed()[i]).0@, key@)
                } else {
                    crate::text::sorts_before(key@, self.listed()[i].0@)
                },
    {
        proof {
            use_type_invariant(self);
        }
        let ghost keys = entry_keys(self.listed());
        let mut i: usize = 0;
        while i < self.entries.len()
            invariant
                i <= self.entries.len(),
                self.entries@ == self.listed(),
                keys == entry_keys(self.listed()),
                crate::text::strictly_sorted(keys),
                forall|k: int|
                    0 <= k < i ==> crate::text::sorts_before(
                        (#[trigger] self.listed()[k]).0@,
                        key@,
                    ),
            decreases self.entries.len() - i,
        {
            let entry_key = self.entries[i].0.as_str();
            if same_text(entry_key, key) {
                return (i, true);
            }
            if text_before(key, entry_key) {
                assert forall|k: int| i <= k < self.listed().len() implies crate::text::sorts_before(
                    key@,
                    (#[trigger] self.listed()[k]).0@,
                ) by {
                    if k > i {
                        assert(crate::text::sorts_before(keys[i as int], keys[k]));
                        crate::text::lemma_order_is_transitive(key@, keys[i as int], keys[k]);
                    }
                }
                return (i, false);
            }
            proof {
                crate::text::lemma_order_is_total(entry_key@, key@);
            }
            i += 1;
        }
        (i, false)
    }

    /// The value under `key`.
    pub fn get(&self, key: &str) -> (value: Option<&V>)
        ensures
            match value {
                Some(inner) => self@.contains_key(key@) && *inner == self@[key@],
                None => !self@.contains_key(key@),
            },
    {
        proof {
            use_type_invariant(self);
        }
        let (at, found) = self.position(key);
        if found {
            proof {
                lemma_entry_lookup(self.listed(), at as int);
            }
            Some(&self.entries[at].1)
        } else {
            proof {
                if self@.contains_key(key@) {
                    let i = choose|i: int|
                        0 <= i < self.listed().len() && #[trigger] self.listed()[i].0@ == key@;
                    crate::text::lemma_order_is_total(key@, key@);
                }
            }
            None
        }
    }

    /// Puts a value where `position` says that its key, not yet there,
    /// belongs.
    fn insert_at(&mut self, at: usize, key: &str, value: V)
        requires
            at <= old(self).listed().len(),
            forall|i: int|
                0 <= i < old(self).listed().len() ==> if i < at {
                    crate::text::sorts_before((#[trigger] old(self).listed()[i]).0@, key@)
                } else {
                    crate::text::sorts_before(key@, old(self).listed()[i].0@)
                },
        ensures
            final(self)@ == old(self)@.insert(key@, value),
            !old(self)@.contains_key(key@),
    {
        proof {
            use_type_invariant(&*self);
        }
        let ghost before = self.listed();
        let mut entries: Vec<(String, V)> = Vec::new();
        std::mem::swap(&mut entries, &mut self.entries);
        entries.insert(at, (key.to_owned(), value));
        proof {
            lemma_entry_insert(before, entries@, at as int, key@, value);
        }
        self.entries = entries;
    }
}

impl<V> View for SortedTable<V> {
    type V = Map<Seq<char>, V>;

    closed spec fn view(&self) -> Map<Seq<char>, V> {
        entry_map(self.entries@)
    }
}

impl<V> Default for SortedTable<V> {
    /// An empty table.
    fn default() -> (table: Self)
        ensures
            table@ == Map::<Seq<char>, V>::empty(),
            table.listed() == Seq::<(String, V)>::empty(),
    {
        SortedTable::new()
    }
}

impl<V: Clone> Clone for SortedTable<V> {
    /// The same keys in the same order, each with a clone of its value.
    fn clone(&self) -> (copy: Self)
        ensures
            entry_keys(copy.listed()) == entry_keys(self.listed()),
            copy@.dom() == self@.dom(),
            forall|key: Seq<char>| #[trigger]
                copy@.contains_key(key) ==> cloned::<V>(self@[key], copy@[key]),
    {
        proof {
            use_type_invariant(self);
        }
        let mut entries: Vec<(String, V)> = Vec::new();
        let mut i: usize = 0;
        while i < self.entries.len()
            invariant
                i <= self.entries.len(),
                entries.len() == i,
                self.entries@ == self.listed(),
                forall|k: int|
                    0 <= k < i ==> (#[trigger] entries[k]).0@ == self.listed()[k].0@ && cloned::<V>(
                        self.listed()[k].1,
                        entries[k].1,
                    ),
            decreases self.entries.len() - i,
        {
            entries.push((self.entries[i].0.clone(), self.entries[i].1.clone()));
            i += 1;
        }
        let ghost own = self.listed();
        let ghost copied = entries@;
        assert(entry_keys(copied) =~= entry_keys(own));
        let copy = SortedTable { entries };
        proof {
            assert forall|key: Seq<char>| #[trigger]
                copy@.contains_key(key) == self@.contains_key(key) by {
                if copy@.contains_key(key) {
                    let k = choose|k: int|
                        0 <= k < copied.len() && #[trigger] copied[k].0@ == key;
                    assert(own[k].0@ == key);
                }
                if self@.contains_key(key) {
                    let k = choose|k: int| 0 <= k < own.len() && #[trigger] own[k].0@ == key;
                    assert(copied[k].0@ == key);
                }
            }
            assert(copy@.dom() =~= self@.dom());
            assert forall|key: Seq<char>| #[trigger] copy@.contains_key(key) implies cloned::<V>(
                self@[key],
                copy@[key],
            ) by {
                let k = choose|k: int| 0 <= k < copied.len() && #[trigger] copied[k].0@ == key;
                lemma_entry_lookup(copied, k);
                lemma_entry_lookup(own, k);
            }
        }
        copy
    }
}

proof fn lemma_entry_update<V>(before: Seq<(String, V)>, after: Seq<(String, V)>, at: int)
    requires
        crate::text::strictly_sorted(entry_keys(before)),
        0 <= at < before.len(),
        after.len() == before.len(),
        after[at].0@ == before[at].0@,
        forall|i: int| 0 <= i < before.len() && i != at ==> after[i] == before[i],
    ensures
        crate::text::strictly_sorted(entry_keys(after)),
        entry_map(after) == entry_map(before).insert(before[at].0@, after[at].1),
        entry_map(before).contains_key(before[at].0@),
        entry_map(before)[before[at].0@] == before[at].1,
{
    assert(entry_keys(after) =~= entry_keys(before));
    lemma_entry_lookup(before, at);
    lemma_entry_lookup(after, at);
    let key = before[at].0@;
    assert forall|k: Seq<char>| entry_map(after).contains_key(k) == entry_map(before).insert(
        key,
        after[at].1,
    ).contains_key(k) by {
        if entry_map(after).contains_key(k) {
            let i = choose|i: int| 0 <= i < after.len() && #[trigger] after[i].0@ == k;
            assert(before[i].0@ == k);
        }
        if entry_map(before).contains_key(k) {
            let i = choose|i: int| 0 <= i < before.len() && #[trigger] before[i].0@ == k;
            assert(after[i].0@ == k);
        }
    }
    assert forall|k: Seq<char>| entry_map(after).contains_key(k) implies #[trigger] entry_map(
        after,
    )[k] == entry_map(before).insert(key, after[at].1)[k] by {
        let i = choose|i: int| 0 <= i < after.len() && #[trigger] after[i].0@ == k;
        lemma_entry_lookup(after, i);
        lemma_entry_lookup(before, i);
    }
    assert(entry_map(after) =~= entry_map(before).insert(key, after[at].1));
}

/// The count under `key`, zero where there is none.
pub open spec fn count_at(counts: Map<Seq<char>, usize>, key: Seq<char>) -> nat {
    if counts.contains_key(key) {
        counts[key] as nat
    } else {
        0
    }
}

impl<V> SortedTable<V> {
    /// Puts `value` under `key`, in place of what stood there.
    pub fn insert(&mut self, key: &str, value: V)
        ensures
            final(self)@ == old(self)@.insert(key@, value),
    {
        proof {
            use_type_invariant(&*self);
        }
        let (at, found) = self.position(key);
        if found {
            let ghost before = self.listed();
            let mut entries: Vec<(String, V)> = Vec::new();
            std::mem::swap(&mut entries, &mut self.entries);
            entries[at].1 = value;
            proof {
                lemma_entry_update(before, entries@, at as int);
            }
            self.entries = entries;
        } else {
            self.insert_at(at, key, value);
        }
    }
}

impl SortedTable<usize> {
    /// Counts one more occurrence of `key`.
    pub fn increment(&mut self, key: &str)
        requires
            count_at(old(self)@, key@) < usize::MAX,
        ensures
            final(self)@ == old(self)@.insert(key@, (count_at(old(self)@, key@) + 1) as usize),
    {
        let count: usize = match self.get(key) {
            Some(count) => *count,
            None => 0,
        };
        self.insert(key, count + 1);
    }
}

impl<T> SortedTable<Vec<T>> {
    /// Appends `item` to the list under `key`.
    pub fn append(&mut self, key: &str, item: T)
        ensures
            final(self)@.dom() == old(self)@.dom().insert(key@),
            final(self)@[key@]@ == (if old(self)@.contains_key(key@) {
                old(self)@[key@]@
            } else {
                Seq::<T>::empty()
            }).push(item),
            forall|other: Seq<char>|
                other != key@ && old(self)@.contains_key(other) ==> #[trigger] final(self)@[other]
                    == old(self)@[other],
    {
        proof {
            use_type_invariant(&*self);
        }
        let (at, found) = self.position(key);
        if found {
            let ghost before = self.listed();
            let mut entries: Vec<(String, Vec<T>)> = Vec::new();
            std::mem::swap(&mut entries, &mut self.entries);
            entries[at].1.push(item);
            proof {
                lemma_entry_update(before, entries@, at as int);
            }
            self.entries = entries;
            assert(self@.dom() =~= old(self)@.dom().insert(key@));
        } else {
            let mut items: Vec<T> = Vec::new();
            items.push(item);
            self.insert_at(at, key, items);
            assert(self@.dom() =~= old(self)@.dom().insert(key@));
        }
    }
}

/// How often `label` occurs in `labels`.
pub open spec fn occurrences(labels: Seq<Seq<char>>, label: Seq<char>) -> nat
    decreases labels.len(),
{
    if labels.len() == 0 {
        0
    } else {
        occurrences(labels.drop_last(), label) + (if labels.last() == label {
            1nat
        } else {
            0nat
        })
    }
}

/// Whether `counts` holds exactly the labels that occur in `labels`, each with
/// the number of its occurrences.
pub open spec fn tallies(counts: Map<Seq<char>, usize>, labels: Seq<Seq<char>>) -> bool {
    &&& forall|label: Seq<char>| #[trigger] counts.contains_key(label) <==> labels.contains(label)
    &&& forall|label: Seq<char>|
        count_at(counts, label) == #[trigger] occurrences(labels, label)
}

/// A label occurs at most as often as there are labels, and it occurs at all
/// if and only if it is among them.
pub proof fn lemma_occurrences(labels: Seq<Seq<char>>, label: Seq<char>)
    ensures
        occurrences(labels, label) <= labels.len(),
        occurrences(labels, label) > 0 <==> labels.contains(label),
    decreases labels.len(),
{
    if labels.len() > 0 {
        let shorter = labels.drop_last();
        lemma_occurrences(shorter, label);
        if shorter.contains(label) {
            let i = choose|i: int| 0 <= i < shorter.len() && shorter[i] == label;
            assert(labels[i] == label);
        }
        if labels.contains(label) && labels.last() != label {
            let i = choose|i: int| 0 <= i < labels.len() && labels[i] == label;
            assert(shorter[i] == label);
        }
        if labels.last() == label {
            assert(labels[labels.len() - 1] == label);
        }
    }
}

/// The sum of the counts of a list of entries.
pub open spec fn total_count(entries: Seq<(String, usize)>) -> nat
    decreases entries.len(),
{
    if entries.len() == 0 {
        0
    } else {
        total_count(entries.drop_last()) + entries.last().1 as nat
    }
}

/// A tally loses nothing and counts nothing twice: its counts sum up to the
/// number of labels.
pub proof fn lemma_tally_is_total(table: SortedTable<usize>, labels: Seq<Seq<char>>)
    requires
        table.well_formed(),
        tallies(table@, labels),
    ensures
        total_count(table.listed()) == labels.len(),
{
    let entries = table.listed();
    table.lemma_listed();
    assert forall|i: int| 0 <= i < entries.len() implies (#[trigger] entries[i]).1 == occurrences(
        labels,
        entries[i].0@,
    ) by {
        assert(count_at(table@, entries[i].0@) == occurrences(labels, entries[i].0@));
    }
    lemma_total_by_key(entries, labels);
    assert forall|i: int| 0 <= i < labels.len() implies entry_keys(entries).contains(
        #[trigger] labels[i],
    ) by {
        assert(table@.contains_key(labels[i]));
    }
    lemma_weight(entry_keys(entries), labels);
}

spec fn weight(keys: Seq<Seq<char>>, labels: Seq<Seq<char>>) -> nat
    decreases keys.len(),
{
    if keys.len() == 0 {
        0
    } else {
        weight(keys.drop_last(), labels) + occurrences(labels, keys.last())
    }
}

proof fn lemma_total_by_key(entries: Seq<(String, usize)>, labels: Seq<Seq<char>>)
    requires
        forall|i: int|
            0 <= i < entries.len() ==> (#[trigger] entries[i]).1 == occurrences(
                labels,
                entries[i].0@,
            ),
    ensures
        total_count(entries) == weight(entry_keys(entries), labels),
    decreases entries.len(),
{
    if entries.len() > 0 {
        lemma_total_by_key(entries.drop_last(), labels);
        assert(entry_keys(entries).drop_last() =~= entry_keys(entries.drop_last()));
        assert(entries[entries.len() - 1].1 == occurrences(labels, entries.last().0@));
    }
}

proof fn lemma_weight(keys: Seq<Seq<char>>, labels: Seq<Seq<char>>)
    requires
        crate::text::strictly_sorted(keys),
        forall|i: int| 0 <= i < labels.len() ==> keys.contains(#[trigger] labels[i]),
    ensures
        weight(keys, labels) == labels.len(),
    decreases labels.len(),
{
    if labels.len() == 0 {
        lemma_weight_of_none(keys);
        assert(labels =~= seq![]);
    } else {
        let shorter = labels.drop_last();
        assert forall|i: int| 0 <= i < shorter.len() implies keys.contains(
            #[trigger] shorter[i],
        ) by {
            assert(labels[i] == shorter[i]);
        }
        lemma_weight(keys, shorter);
        assert(keys.contains(labels[labels.len() - 1]));
        lemma_weight_of_one_more(keys, labels);
    }
}

proof fn lemma_weight_of_none(keys: Seq<Seq<char>>)
    ensures
        weight(keys, seq![]) == 0,
    decreases keys.len(),
{
    if keys.len() > 0 {
        lemma_weight_of_none(keys.drop_last());
    }
}

proof fn lemma_weight_of_one_more(keys: Seq<Seq<char>>, labels: Seq<Seq<char>>)
    requires
        crate::text::strictly_sorted(keys),
        labels.len() > 0,
    ensures
        weight(keys, labels) == weight(keys, labels.drop_last()) + (if keys.contains(
            labels.last(),
        ) {
            1nat
        } else {
            0nat
        }),
    decreases keys.len(),
{
    if keys.len() > 0 {
        let shorter = keys.drop_last();
        assert forall|i: int, j: int|
            0 <= i < j < shorter.len() implies #[trigger] crate::text::sorts_before(
            shorter[i],
            shorter[j],
        ) by {
            assert(crate::text::sorts_before(keys[i], keys[j]));
        }
        lemma_weight_of_one_more(shorter, labels);
        let label = labels.last();
        if keys.last() == label {
            assert(keys[keys.len() - 1] == label);
            if shorter.contains(label) {
                let i = choose|i: int| 0 <= i < shorter.len() && shorter[i] == label;
                assert(crate::text::sorts_before(keys[i], keys[keys.len() - 1]));
                crate::text::lemma_order_is_total(label, label);
            }
        } else {
            if shorter.contains(label) {
                let i = choose|i: int| 0 <= i < shorter.len() && shorter[i] == label;
                assert(keys[i] == label);
            }
            if keys.contains(label) {
                let i = choose|i: int| 0 <= i < keys.len() && keys[i] == label;
                assert(shorter[i] == label);
            }
        }
    }
}

/// Counting one more label extends the tally by it.
pub proof fn lemma_tally_extends(
    counts: Map<Seq<char>, usize>,
    labels: Seq<Seq<char>>,
    label: Seq<char>,
)
    requires
        tallies(counts, labels),
        count_at(counts, label) < usize::MAX,
    ensures
        tallies(
            counts.insert(label, (count_at(counts, label) + 1) as usize),
            labels.push(label),
        ),
{
    let more = labels.push(label);
    let after = counts.insert(label, (count_at(counts, label) + 1) as usize);
    assert(more.drop_last() =~= labels);
    assert forall|l: Seq<char>| #[trigger] after.contains_key(l) <==> more.contains(l) by {
        lemma_occurrences(labels, l);
        lemma_occurrences(more, l);
    }
    assert forall|l: Seq<char>| count_at(after, l) == #[trigger] occurrences(more, l) by {
        assert(count_at(counts, l) == occurrences(labels, l));
    }
}

} // verus!
