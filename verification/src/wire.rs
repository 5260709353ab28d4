//! The wire form of events: one flat list of named fields.
//!
//! The payload is flattened into the envelope, so that an event reads as a
//! single flat object:
//!
//! ```json
//! {
//!   "version": 1,
//!   "occurred_at_millis": 1715000000000,
//!   "tick": 42,
//!   "conversation_id": "thread-1",
//!   "kind": "prompt.started",
//!   "model": "gpt-4o",
//!   "messages_in": 3
//! }
//! ```
//!
//! Optional fields that are absent are left out. Unknown fields are ignored on
//! reading, and optional fields may be missing or `null`, so that additive
//! changes of the schema break neither older nor newer readers. A field of the
//! event that stands there twice is refused.

use vstd::prelude::*;

use crate::event::{ErrorClass, ObservabilityEvent, Severity};
use crate::float::Float64;
use crate::text::{copy_texts, same_text};
use crate::wire_kinds::{decode_kind, encode_kind, kind_with_number};

verus! {

/// A JSON number, by the readings that it has: as an unsigned integer and as a
/// double.
#[derive(Debug, Clone, Copy, PartialEq)]
pub struct WireNumber {
    /// The number, where it is an integer in the range of `u64`.
    pub unsigned: Option<u64>,
    /// The number as a double, where that reading is known.
    pub double: Option<Float64>,
}

/// The value of a field.
#[derive(Debug, PartialEq)]
pub enum WireValue {
    /// `null`
    Null,
    /// `true` or `false`
    Flag(bool),
    /// A number.
    Number(WireNumber),
    /// A string.
    Text(String),
    /// An array of strings.
    Texts(Vec<String>),
    /// An object with one member, which is `null`; held by the name of the
    /// member.
    NullMember(String),
    /// An object with one member, which is an object without members; held by
    /// the name of the member.
    EmptyMember(String),
    /// Any other value. No field of the schema takes one.
    Other,
}

/// The content of a [`WireValue`].
#[verifier::ext_equal]
pub enum WireView {
    Null,
    Flag(bool),
    Number(WireNumber),
    Text(Seq<char>),
    Texts(Seq<Seq<char>>),
    NullMember(Seq<char>),
    EmptyMember(Seq<char>),
    Other,
}

impl View for WireValue {
    type V = WireView;

    open spec fn view(&self) -> WireView {
        match self {
            WireValue::Null => WireView::Null,
            WireValue::Flag(flag) => WireView::Flag(*flag),
            WireValue::Number(number) => WireView::Number(*number),
            WireValue::Text(text) => WireView::Text(text@),
            WireValue::Texts(texts) => WireView::Texts(texts.deep_view()),
            WireValue::NullMember(name) => WireView::NullMember(name@),
            WireValue::EmptyMember(name) => WireView::EmptyMember(name@),
            WireValue::Other => WireView::Other,
        }
    }
}

impl DeepView for WireValue {
    type V = WireView;

    open spec fn deep_view(&self) -> WireView {
        self@
    }
}

/// The contents of a list of fields.
pub open spec fn field_views(fields: Seq<(String, WireValue)>) -> Seq<(Seq<char>, WireView)> {
    Seq::new(fields.len(), |i: int| (fields[i].0@, fields[i].1@))
}

/// The value of the field with the name `key`. Where several fields have that
/// name none of them counts, and the name stands for a value that no field of
/// the schema takes.
#[verifier::opaque]
pub open spec fn lookup(fields: Seq<(Seq<char>, WireView)>, key: Seq<char>) -> Option<WireView>
    decreases fields.len(),
{
    if fields.len() == 0 {
        None
    } else if fields.last().0 != key {
        lookup(fields.drop_last(), key)
    } else if lookup(fields.drop_last(), key) is None {
        Some(fields.last().1)
    } else {
        Some(WireView::Other)
    }
}

/// Whether several fields have the name `key`.
pub open spec fn repeats(fields: Seq<(Seq<char>, WireView)>, key: Seq<char>) -> bool {
    exists|i: int, j: int|
        0 <= i < j < fields.len() && (#[trigger] fields[i]).0 == key && (#[trigger] fields[j]).0
            == key
}

/// A name that several fields have stands for a value that no field takes.
pub proof fn lemma_repeated_name(fields: Seq<(Seq<char>, WireView)>, key: Seq<char>)
    requires
        repeats(fields, key),
    ensures
        lookup(fields, key) == Some(WireView::Other),
{
    let (i, j) = choose|i: int, j: int|
        0 <= i < j < fields.len() && (#[trigger] fields[i]).0 == key && (#[trigger] fields[j]).0
            == key;
    lemma_name_found(fields.take(j), i);
    lemma_name_found(fields.skip(j), 0);
    assert(fields =~= fields.take(j) + fields.skip(j));
    lemma_lookup_join(fields.take(j), fields.skip(j), key);
}

/// A name that a field has is found.
pub proof fn lemma_name_found(fields: Seq<(Seq<char>, WireView)>, at: int)
    requires
        0 <= at < fields.len(),
    ensures
        lookup(fields, fields[at].0) is Some,
    decreases fields.len(),
{
    reveal(lookup);
    if fields.last().0 != fields[at].0 {
        lemma_name_found(fields.drop_last(), at);
    }
}

/// A field, where it has a value.
#[verifier::opaque]
pub open spec fn field(key: Seq<char>, value: Option<WireView>) -> Seq<(Seq<char>, WireView)> {
    match value {
        Some(value) => seq![(key, value)],
        None => seq![],
    }
}

/// In two lists put together, a name has the value that it has in one of them,
/// and counts as repeated where both have it.
pub broadcast proof fn lemma_lookup_join(
    first: Seq<(Seq<char>, WireView)>,
    second: Seq<(Seq<char>, WireView)>,
    key: Seq<char>,
)
    ensures
        #[trigger] lookup(first + second, key) == (match (lookup(first, key), lookup(second, key)) {
            (value, None) => value,
            (None, value) => value,
            _ => Some(WireView::Other),
        }),
    decreases second.len(),
{
    reveal(lookup);
    if second.len() == 0 {
        assert(first + second =~= first);
    } else {
        assert((first + second).drop_last() =~= first + second.drop_last());
        lemma_lookup_join(first, second.drop_last(), key);
    }
}

/// A single field is found under its own name only.
pub broadcast proof fn lemma_lookup_field(key: Seq<char>, value: Option<WireView>, wanted: Seq<char>)
    ensures
        #[trigger] lookup(field(key, value), wanted) == (if key == wanted {
            value
        } else {
            None
        }),
{
    reveal(lookup);
    reveal(field);
    if let Some(inner) = value {
        assert(seq![(key, inner)].drop_last() =~= seq![]);
        assert(lookup(seq![(key, inner)].drop_last(), wanted) is None);
    }
}

/// An unsigned integer.
pub open spec fn number(value: u64) -> WireView {
    WireView::Number(WireNumber { unsigned: Some(value), double: None })
}

/// A double.
pub open spec fn double(value: Float64) -> WireView {
    WireView::Number(WireNumber { unsigned: None, double: Some(value) })
}

/// An optional text, where it is there.
pub open spec fn opt_text(value: Option<Seq<char>>) -> Option<WireView> {
    match value {
        Some(inner) => Some(WireView::Text(inner)),
        None => None,
    }
}

/// An optional integer, where it is there.
pub open spec fn opt_number(value: Option<u64>) -> Option<WireView> {
    match value {
        Some(inner) => Some(number(inner)),
        None => None,
    }
}

/// An optional size, where it is there.
pub open spec fn opt_size(value: Option<usize>) -> Option<WireView> {
    match value {
        Some(inner) => Some(number(inner as u64)),
        None => None,
    }
}

/// An optional status code, where it is there.
pub open spec fn opt_status(value: Option<u16>) -> Option<WireView> {
    match value {
        Some(inner) => Some(number(inner as u64)),
        None => None,
    }
}

/// An optional double, where it is there.
pub open spec fn opt_double(value: Option<Float64>) -> Option<WireView> {
    match value {
        Some(inner) => Some(double(inner)),
        None => None,
    }
}

/// A count that is left out where it is zero.
pub open spec fn nonzero(value: usize) -> Option<WireView> {
    if value == 0 {
        None
    } else {
        Some(number(value as u64))
    }
}

/// A list that is left out where it is empty.
pub open spec fn nonempty(value: Seq<Seq<char>>) -> Option<WireView> {
    if value.len() == 0 {
        None
    } else {
        Some(WireView::Texts(value))
    }
}

/// Writes an unsigned integer.
pub fn wire_number(value: u64) -> (out: WireValue)
    ensures
        out@ == number(value),
{
    WireValue::Number(WireNumber { unsigned: Some(value), double: None })
}

/// Writes a double.
pub fn wire_double(value: Float64) -> (out: WireValue)
    ensures
        out@ == double(value),
{
    WireValue::Number(WireNumber { unsigned: None, double: Some(value) })
}

/// Writes an optional text.
pub fn wire_opt_text(value: &Option<String>) -> (out: Option<WireValue>)
    ensures
        out.deep_view() == opt_text(value.deep_view()),
{
    match value {
        Some(inner) => Some(WireValue::Text(inner.clone())),
        None => None,
    }
}

/// Writes an optional integer.
pub fn wire_opt_number(value: Option<u64>) -> (out: Option<WireValue>)
    ensures
        out.deep_view() == opt_number(value),
{
    match value {
        Some(inner) => Some(wire_number(inner)),
        None => None,
    }
}

/// Writes an optional size.
pub fn wire_opt_size(value: Option<usize>) -> (out: Option<WireValue>)
    ensures
        out.deep_view() == opt_size(value),
{
    match value {
        Some(inner) => Some(wire_number(inner as u64)),
        None => None,
    }
}

/// Writes an optional status code.
pub fn wire_opt_status(value: Option<u16>) -> (out: Option<WireValue>)
    ensures
        out.deep_view() == opt_status(value),
{
    match value {
        Some(inner) => Some(wire_number(inner as u64)),
        None => None,
    }
}

/// Writes an optional double.
pub fn wire_opt_double(value: Option<Float64>) -> (out: Option<WireValue>)
    ensures
        out.deep_view() == opt_double(value),
{
    match value {
        Some(inner) => Some(wire_double(inner)),
        None => None,
    }
}

/// Whether a count is left out of the wire form.
pub fn is_zero_usize(value: &usize) -> (zero: bool)
    ensures
        zero == (*value == 0),
{
    *value == 0
}

/// Writes a count that is left out where it is zero.
pub fn wire_nonzero(value: usize) -> (out: Option<WireValue>)
    ensures
        out.deep_view() == nonzero(value),
{
    if is_zero_usize(&value) {
        None
    } else {
        Some(wire_number(value as u64))
    }
}

/// Writes a list that is left out where it is empty.
pub fn wire_nonempty(value: &Vec<String>) -> (out: Option<WireValue>)
    ensures
        out.deep_view() == nonempty(value.deep_view()),
{
    if value.is_empty() {
        None
    } else {
        Some(WireValue::Texts(copy_texts(value)))
    }
}

/// Appends a field, where it has a value.
pub fn push_field(fields: &mut Vec<(String, WireValue)>, key: &str, value: Option<WireValue>)
    ensures
        field_views(final(fields)@) == field_views(old(fields)@) + field(
            key@,
            value.deep_view(),
        ),
{
    reveal(field);
    let ghost before = field_views(fields@);
    if let Some(inner) = value {
        fields.push((key.to_owned(), inner));
    }
    assert(field_views(fields@) =~= before + field(key@, value.deep_view()));
}

/// What stands under a name.
#[derive(Debug)]
pub enum Found<'a> {
    /// No field has the name.
    Missing,
    /// One field has the name.
    Once(&'a WireValue),
    /// Several fields have the name.
    Repeated,
}

impl<'a> Found<'a> {
    /// The value that the name stands for.
    pub open spec fn reading(self) -> Option<WireView> {
        match self {
            Found::Missing => None,
            Found::Once(value) => Some(value@),
            Found::Repeated => Some(WireView::Other),
        }
    }
}

/// Finds what stands under the name `key`.
pub fn find_field<'a>(fields: &'a Vec<(String, WireValue)>, key: &str) -> (found: Found<'a>)
    ensures
        found.reading() == lookup(field_views(fields@), key@),
        found is Repeated ==> repeats(field_views(fields@), key@),
        found is Once ==> !repeats(field_views(fields@), key@),
{
    let ghost views = field_views(fields@);
    let mut found: Option<usize> = None;
    let mut i: usize = 0;
    proof {
        reveal(lookup);
    }
    while i < fields.len()
        invariant
            i <= fields.len(),
            views == field_views(fields@),
            match found {
                Some(at) => {
                    &&& at < i
                    &&& views[at as int].0 == key@
                    &&& lookup(views.take(i as int), key@) == Some(views[at as int].1)
                    &&& forall|k: int| 0 <= k < i && k != at ==> (#[trigger] views[k]).0 != key@
                },
                None => {
                    &&& lookup(views.take(i as int), key@) is None
                    &&& forall|k: int| 0 <= k < i ==> (#[trigger] views[k]).0 != key@
                },
            },
        decreases fields.len() - i,
    {
        proof {
            reveal(lookup);
        }
        assert(views.take(i + 1).drop_last() =~= views.take(i as int));
        assert(views.take(i + 1).last() == (fields[i as int].0@, fields[i as int].1@));
        if same_text(fields[i].0.as_str(), key) {
            if found.is_some() {
                proof {
                    assert(views[i as int].0 == key@);
                    lemma_lookup_join(views.take(i + 1), views.skip(i + 1), key@);
                    assert(views =~= views.take(i + 1) + views.skip(i + 1));
                }
                return Found::Repeated;
            }
            found = Some(i);
        }
        i += 1;
    }
    assert(views.take(i as int) =~= views);
    match found {
        Some(at) => Found::Once(&fields[at].1),
        None => Found::Missing,
    }
}

/// A text.
pub open spec fn as_text(value: Option<WireView>) -> Option<Seq<char>> {
    match value {
        Some(WireView::Text(text)) => Some(text),
        _ => None,
    }
}

/// An optional text: missing and `null` stand for absence.
pub open spec fn as_optional_text(value: Option<WireView>) -> Option<Option<Seq<char>>> {
    match value {
        None => Some(None),
        Some(WireView::Null) => Some(None),
        Some(WireView::Text(text)) => Some(Some(text)),
        _ => None,
    }
}

/// A flag.
pub open spec fn as_flag(value: Option<WireView>) -> Option<bool> {
    match value {
        Some(WireView::Flag(flag)) => Some(flag),
        _ => None,
    }
}

/// A list of texts.
pub open spec fn as_texts(value: Option<WireView>) -> Option<Seq<Seq<char>>> {
    match value {
        Some(WireView::Texts(texts)) => Some(texts),
        _ => None,
    }
}

/// A list of texts that is empty where it is missing.
pub open spec fn as_texts_or_empty(value: Option<WireView>) -> Option<Seq<Seq<char>>> {
    match value {
        None => Some(seq![]),
        Some(WireView::Texts(texts)) => Some(texts),
        _ => None,
    }
}

/// An unsigned integer.
pub open spec fn as_count(value: Option<WireView>) -> Option<u64> {
    match value {
        Some(WireView::Number(number)) => number.unsigned,
        _ => None,
    }
}

/// An optional unsigned integer.
pub open spec fn as_optional_count(value: Option<WireView>) -> Option<Option<u64>> {
    match value {
        None => Some(None),
        Some(WireView::Null) => Some(None),
        _ => match as_count(value) {
            Some(count) => Some(Some(count)),
            None => None,
        },
    }
}

/// An integer in the range of `usize`.
pub open spec fn as_size(value: Option<WireView>) -> Option<usize> {
    match as_count(value) {
        Some(count) => if count <= usize::MAX {
            Some(count as usize)
        } else {
            None
        },
        None => None,
    }
}

/// An optional integer in the range of `usize`.
pub open spec fn as_optional_size(value: Option<WireView>) -> Option<Option<usize>> {
    match value {
        None => Some(None),
        Some(WireView::Null) => Some(None),
        _ => match as_size(value) {
            Some(size) => Some(Some(size)),
            None => None,
        },
    }
}

/// An integer in the range of `usize` that is zero where it is missing.
pub open spec fn as_size_or_zero(value: Option<WireView>) -> Option<usize> {
    match value {
        None => Some(0),
        _ => as_size(value),
    }
}

/// An integer in the range of `u32`.
pub open spec fn as_version(value: Option<WireView>) -> Option<u32> {
    match as_count(value) {
        Some(count) => if count <= u32::MAX {
            Some(count as u32)
        } else {
            None
        },
        None => None,
    }
}

/// An optional integer in the range of `u16`.
pub open spec fn as_optional_status(value: Option<WireView>) -> Option<Option<u16>> {
    match value {
        None => Some(None),
        Some(WireView::Null) => Some(None),
        _ => match as_count(value) {
            Some(count) => if count <= u16::MAX {
                Some(Some(count as u16))
            } else {
                None
            },
            None => None,
        },
    }
}

/// A double.
pub open spec fn as_double_number(value: Option<WireView>) -> Option<Float64> {
    match value {
        Some(WireView::Number(number)) => number.double,
        _ => None,
    }
}

/// An optional double.
pub open spec fn as_optional_double(value: Option<WireView>) -> Option<Option<Float64>> {
    match value {
        None => Some(None),
        Some(WireView::Null) => Some(None),
        _ => match as_double_number(value) {
            Some(double) => Some(Some(double)),
            None => None,
        },
    }
}

/// The failure class with a label.
pub open spec fn class_of(label: Seq<char>) -> Option<ErrorClass> {
    if label == ErrorClass::Timeout.label() {
        Some(ErrorClass::Timeout)
    } else if label == ErrorClass::RateLimit.label() {
        Some(ErrorClass::RateLimit)
    } else if label == ErrorClass::Auth.label() {
        Some(ErrorClass::Auth)
    } else if label == ErrorClass::Transport.label() {
        Some(ErrorClass::Transport)
    } else if label == ErrorClass::Validation.label() {
        Some(ErrorClass::Validation)
    } else if label == ErrorClass::ProviderServer.label() {
        Some(ErrorClass::ProviderServer)
    } else if label == ErrorClass::Cancelled.label() {
        Some(ErrorClass::Cancelled)
    } else if label == ErrorClass::Unknown.label() {
        Some(ErrorClass::Unknown)
    } else {
        None
    }
}

/// A failure class, by its label: as a text, or as the name of the one member
/// of an object, where that member holds nothing.
pub open spec fn as_error_class(value: Option<WireView>) -> Option<ErrorClass> {
    match value {
        Some(WireView::Text(label)) => class_of(label),
        Some(WireView::NullMember(label)) => class_of(label),
        Some(WireView::EmptyMember(label)) => class_of(label),
        _ => None,
    }
}

/// The severity with a label.
pub open spec fn severity_of(label: Seq<char>) -> Option<Severity> {
    if label == Severity::Trace.label() {
        Some(Severity::Trace)
    } else if label == Severity::Debug.label() {
        Some(Severity::Debug)
    } else if label == Severity::Info.label() {
        Some(Severity::Info)
    } else if label == Severity::Warn.label() {
        Some(Severity::Warn)
    } else if label == Severity::Error.label() {
        Some(Severity::Error)
    } else if label == Severity::Fatal.label() {
        Some(Severity::Fatal)
    } else {
        None
    }
}

/// An optional severity, by its label: as a text, or as the name of the one
/// member of an object, where that member is `null`.
pub open spec fn as_optional_severity(value: Option<WireView>) -> Option<Option<Severity>> {
    match value {
        None => Some(None),
        Some(WireView::Null) => Some(None),
        Some(WireView::Text(label)) => known_severity(label),
        Some(WireView::NullMember(label)) => known_severity(label),
        _ => None,
    }
}

/// The severity with a label, as one that is there.
pub open spec fn known_severity(label: Seq<char>) -> Option<Option<Severity>> {
    match severity_of(label) {
        Some(severity) => Some(Some(severity)),
        None => None,
    }
}

/// The label of a failure class identifies it.
pub proof fn lemma_error_class_round_trip(class: ErrorClass)
    ensures
        class_of(class.label()) == Some(class),
{
    reveal_strlit("timeout");
    reveal_strlit("rate_limit");
    reveal_strlit("auth");
    reveal_strlit("transport");
    reveal_strlit("validation");
    reveal_strlit("provider_server");
    reveal_strlit("cancelled");
    reveal_strlit("unknown");
    assert("timeout"@.len() == 7 && "timeout"@[0] == 't');
    assert("unknown"@.len() == 7 && "unknown"@[0] == 'u');
    assert("transport"@.len() == 9 && "transport"@[0] == 't');
    assert("cancelled"@.len() == 9 && "cancelled"@[0] == 'c');
    assert("rate_limit"@.len() == 10 && "rate_limit"@[0] == 'r');
    assert("validation"@.len() == 10 && "validation"@[0] == 'v');
    assert("auth"@.len() == 4);
    assert("provider_server"@.len() == 15);
}

/// The label of a severity identifies it.
pub proof fn lemma_severity_round_trip(severity: Severity)
    ensures
        severity_of(severity.label()) == Some(severity),
{
    reveal_strlit("trace");
    reveal_strlit("debug");
    reveal_strlit("info");
    reveal_strlit("warn");
    reveal_strlit("error");
    reveal_strlit("fatal");
    assert("trace"@[0] == 't');
    assert("debug"@[0] == 'd');
    assert("error"@[0] == 'e');
    assert("fatal"@[0] == 'f');
    assert("info"@[0] == 'i');
    assert("warn"@[0] == 'w');
}

/// Reads a text.
pub fn read_text(fields: &Vec<(String, WireValue)>, key: &str) -> (value: Option<String>)
    ensures
        value.deep_view() == as_text(lookup(field_views(fields@), key@)),
{
    match find_field(fields, key) {
        Found::Once(WireValue::Text(text)) => Some(text.clone()),
        _ => None,
    }
}

/// Reads an optional text.
pub fn read_optional_text(fields: &Vec<(String, WireValue)>, key: &str) -> (value: Option<Option<String>>)
    ensures
        value.deep_view() == as_optional_text(lookup(field_views(fields@), key@)),
{
    match find_field(fields, key) {
        Found::Missing => Some(None),
        Found::Once(WireValue::Null) => Some(None),
        Found::Once(WireValue::Text(text)) => Some(Some(text.clone())),
        _ => None,
    }
}

/// Reads a flag.
pub fn read_flag(fields: &Vec<(String, WireValue)>, key: &str) -> (value: Option<bool>)
    ensures
        value == as_flag(lookup(field_views(fields@), key@)),
{
    match find_field(fields, key) {
        Found::Once(WireValue::Flag(flag)) => Some(*flag),
        _ => None,
    }
}

/// Reads a list of texts.
pub fn read_texts(fields: &Vec<(String, WireValue)>, key: &str) -> (value: Option<Vec<String>>)
    ensures
        value.deep_view() == as_texts(lookup(field_views(fields@), key@)),
{
    match find_field(fields, key) {
        Found::Once(WireValue::Texts(texts)) => Some(copy_texts(texts)),
        _ => None,
    }
}

/// Reads a list of texts that is empty where it is missing.
pub fn read_texts_or_empty(fields: &Vec<(String, WireValue)>, key: &str) -> (value: Option<Vec<String>>)
    ensures
        value.deep_view() == as_texts_or_empty(lookup(field_views(fields@), key@)),
{
    match find_field(fields, key) {
        Found::Missing => {
            let none: Vec<String> = Vec::new();
            assert(none.deep_view() =~= seq![]);
            Some(none)
        },
        Found::Once(WireValue::Texts(texts)) => Some(copy_texts(texts)),
        _ => None,
    }
}

/// Reads an unsigned integer.
pub fn read_count(fields: &Vec<(String, WireValue)>, key: &str) -> (value: Option<u64>)
    ensures
        value == as_count(lookup(field_views(fields@), key@)),
{
    match find_field(fields, key) {
        Found::Once(WireValue::Number(number)) => number.unsigned,
        _ => None,
    }
}

/// Reads an optional unsigned integer.
pub fn read_optional_count(fields: &Vec<(String, WireValue)>, key: &str) -> (value: Option<Option<u64>>)
    ensures
        value == as_optional_count(lookup(field_views(fields@), key@)),
{
    match find_field(fields, key) {
        Found::Missing => Some(None),
        Found::Once(WireValue::Null) => Some(None),
        Found::Once(WireValue::Number(number)) => match number.unsigned {
            Some(count) => Some(Some(count)),
            None => None,
        },
        _ => None,
    }
}

/// Reads an integer in the range of `usize`.
pub fn read_size(fields: &Vec<(String, WireValue)>, key: &str) -> (value: Option<usize>)
    ensures
        value == as_size(lookup(field_views(fields@), key@)),
{
    match read_count(fields, key) {
        Some(count) => if count <= usize::MAX as u64 {
            Some(count as usize)
        } else {
            None
        },
        None => None,
    }
}

/// Reads an optional integer in the range of `usize`.
pub fn read_optional_size(fields: &Vec<(String, WireValue)>, key: &str) -> (value: Option<Option<usize>>)
    ensures
        value == as_optional_size(lookup(field_views(fields@), key@)),
{
    match read_optional_count(fields, key) {
        Some(Some(count)) => if count <= usize::MAX as u64 {
            Some(Some(count as usize))
        } else {
            None
        },
        Some(None) => Some(None),
        None => None,
    }
}

/// Reads an integer in the range of `usize` that is zero where it is missing.
pub fn read_size_or_zero(fields: &Vec<(String, WireValue)>, key: &str) -> (value: Option<usize>)
    ensures
        value == as_size_or_zero(lookup(field_views(fields@), key@)),
{
    match find_field(fields, key) {
        Found::Missing => Some(0),
        _ => read_size(fields, key),
    }
}

/// Reads an integer in the range of `u32`.
pub fn read_version(fields: &Vec<(String, WireValue)>, key: &str) -> (value: Option<u32>)
    ensures
        value == as_version(lookup(field_views(fields@), key@)),
{
    match read_count(fields, key) {
        Some(count) => if count <= u32::MAX as u64 {
            Some(count as u32)
        } else {
            None
        },
        None => None,
    }
}

/// Reads an optional integer in the range of `u16`.
pub fn read_optional_status(fields: &Vec<(String, WireValue)>, key: &str) -> (value: Option<Option<u16>>)
    ensures
        value == as_optional_status(lookup(field_views(fields@), key@)),
{
    match read_optional_count(fields, key) {
        Some(Some(count)) => if count <= u16::MAX as u64 {
            Some(Some(count as u16))
        } else {
            None
        },
        Some(None) => Some(None),
        None => None,
    }
}

/// Reads a double.
pub fn read_double_number(fields: &Vec<(String, WireValue)>, key: &str) -> (value: Option<Float64>)
    ensures
        value == as_double_number(lookup(field_views(fields@), key@)),
{
    match find_field(fields, key) {
        Found::Once(WireValue::Number(number)) => number.double,
        _ => None,
    }
}

/// Reads an optional double.
pub fn read_optional_double(fields: &Vec<(String, WireValue)>, key: &str) -> (value: Option<Option<Float64>>)
    ensures
        value == as_optional_double(lookup(field_views(fields@), key@)),
{
    match find_field(fields, key) {
        Found::Missing => Some(None),
        Found::Once(WireValue::Null) => Some(None),
        Found::Once(WireValue::Number(number)) => match number.double {
            Some(double) => Some(Some(double)),
            None => None,
        },
        _ => None,
    }
}

/// Reads a failure class.
pub fn read_error_class(fields: &Vec<(String, WireValue)>, key: &str) -> (value: Option<ErrorClass>)
    ensures
        value == as_error_class(lookup(field_views(fields@), key@)),
{
    match find_field(fields, key) {
        Found::Once(WireValue::Text(label))
        | Found::Once(WireValue::NullMember(label))
        | Found::Once(WireValue::EmptyMember(label)) => class_with_label(label.as_str()),
        _ => None,
    }
}

/// Reads an optional severity.
pub fn read_optional_severity(fields: &Vec<(String, WireValue)>, key: &str) -> (value: Option<Option<Severity>>)
    ensures
        value == as_optional_severity(lookup(field_views(fields@), key@)),
{
    match find_field(fields, key) {
        Found::Missing => Some(None),
        Found::Once(WireValue::Null) => Some(None),
        Found::Once(WireValue::Text(label))
        | Found::Once(WireValue::NullMember(label)) => match severity_with_label(label.as_str()) {
            Some(severity) => Some(Some(severity)),
            None => None,
        },
        _ => None,
    }
}

fn class_with_label(label: &str) -> (found: Option<ErrorClass>)
    ensures
        found == class_of(label@),
{
    if same_text(label, ErrorClass::Timeout.as_str()) {
        Some(ErrorClass::Timeout)
    } else if same_text(label, ErrorClass::RateLimit.as_str()) {
        Some(ErrorClass::RateLimit)
    } else if same_text(label, ErrorClass::Auth.as_str()) {
        Some(ErrorClass::Auth)
    } else if same_text(label, ErrorClass::Transport.as_str()) {
        Some(ErrorClass::Transport)
    } else if same_text(label, ErrorClass::Validation.as_str()) {
        Some(ErrorClass::Validation)
    } else if same_text(label, ErrorClass::ProviderServer.as_str()) {
        Some(ErrorClass::ProviderServer)
    } else if same_text(label, ErrorClass::Cancelled.as_str()) {
        Some(ErrorClass::Cancelled)
    } else if same_text(label, ErrorClass::Unknown.as_str()) {
        Some(ErrorClass::Unknown)
    } else {
        None
    }
}

fn severity_with_label(label: &str) -> (found: Option<Severity>)
    ensures
        found == severity_of(label@),
{
    if same_text(label, Severity::Trace.as_str()) {
        Some(Severity::Trace)
    } else if same_text(label, Severity::Debug.as_str()) {
        Some(Severity::Debug)
    } else if same_text(label, Severity::Info.as_str()) {
        Some(Severity::Info)
    } else if same_text(label, Severity::Warn.as_str()) {
        Some(Severity::Warn)
    } else if same_text(label, Severity::Error.as_str()) {
        Some(Severity::Error)
    } else if same_text(label, Severity::Fatal.as_str()) {
        Some(Severity::Fatal)
    } else {
        None
    }
}

/// The label of an optional severity, where it is there.
pub open spec fn opt_severity(value: Option<Severity>) -> Option<WireView> {
    match value {
        Some(severity) => Some(WireView::Text(severity.label())),
        None => None,
    }
}

/// The fields of the envelope of an event, up to its kind.
pub open spec fn envelope_fields(event: crate::event::EventView) -> Seq<(Seq<char>, WireView)> {
    field("version"@, Some(number(event.version as u64)))
        + field("occurred_at_millis"@, Some(number(event.occurred_at_millis)))
        + field("tick"@, Some(number(event.tick)))
        + field("conversation_id"@, Some(WireView::Text(event.conversation_id)))
        + field("span_id"@, opt_number(event.span_id))
        + field("agent_id"@, opt_text(event.agent_id))
        + field("trace_id"@, opt_number(event.trace_id))
        + field("severity"@, opt_severity(event.severity))
        + field("kind"@, Some(WireView::Text(event.kind.discriminant())))
}

/// The fields of an event: its envelope, and its payload flattened into it.
pub open spec fn event_fields(event: crate::event::EventView) -> Seq<(Seq<char>, WireView)> {
    envelope_fields(event) + crate::wire_kinds::kind_fields(event.kind)
}

/// The event that the fields hold, if they hold one.
pub open spec fn decoded_event(fields: Seq<(Seq<char>, WireView)>) -> Option<
    crate::event::EventView,
> {
    match (
        as_version(lookup(fields, "version"@)),
        as_count(lookup(fields, "occurred_at_millis"@)),
        as_count(lookup(fields, "tick"@)),
        as_text(lookup(fields, "conversation_id"@)),
        as_optional_count(lookup(fields, "span_id"@)),
        as_optional_text(lookup(fields, "agent_id"@)),
        as_optional_count(lookup(fields, "trace_id"@)),
        as_optional_severity(lookup(fields, "severity"@)),
        decoded_payload(fields),
    ) {
        (
            Some(version),
            Some(occurred_at_millis),
            Some(tick),
            Some(conversation_id),
            Some(span_id),
            Some(agent_id),
            Some(trace_id),
            Some(severity),
            Some(kind),
        ) => Some(
            crate::event::EventView {
                version,
                occurred_at_millis,
                tick,
                conversation_id,
                span_id,
                agent_id,
                trace_id,
                severity,
                kind,
            },
        ),
        _ => None,
    }
}

/// The wire name of a kind: as a text, or by its number in the schema.
pub open spec fn as_kind_name(value: Option<WireView>) -> Option<Seq<char>> {
    match value {
        Some(WireView::Text(name)) => Some(name),
        _ => match as_count(value) {
            Some(number) => crate::wire_kinds::numbered_kind(number),
            None => None,
        },
    }
}

/// The payload that the fields hold, if they name one and hold it.
pub open spec fn decoded_payload(fields: Seq<(Seq<char>, WireView)>) -> Option<
    crate::event::KindView,
> {
    match as_kind_name(lookup(fields, "kind"@)) {
        Some(name) => crate::wire_kinds::decoded_kind(name, fields),
        None => None,
    }
}

/// Writes an event as a flat list of fields.
pub fn encode_event(event: &ObservabilityEvent) -> (fields: Vec<(String, WireValue)>)
    ensures
        field_views(fields@) == event_fields(event@),
{
    let mut fields: Vec<(String, WireValue)> = Vec::new();
    push_field(&mut fields, "version", Some(wire_number(event.version as u64)));
    assert(field_views(fields@) =~= field("version"@, Some(number(event.version as u64))));
    push_field(&mut fields, "occurred_at_millis", Some(wire_number(event.occurred_at_millis)));
    push_field(&mut fields, "tick", Some(wire_number(event.tick)));
    push_field(
        &mut fields,
        "conversation_id",
        Some(WireValue::Text(event.conversation_id.clone())),
    );
    push_field(&mut fields, "span_id", wire_opt_number(event.span_id));
    push_field(&mut fields, "agent_id", wire_opt_text(&event.agent_id));
    push_field(&mut fields, "trace_id", wire_opt_number(event.trace_id));
    let severity = match event.severity {
        Some(severity) => Some(WireValue::Text(severity.as_str().to_owned())),
        None => None,
    };
    push_field(&mut fields, "severity", severity);
    push_field(
        &mut fields,
        "kind",
        Some(WireValue::Text(event.kind.discriminant().to_owned())),
    );
    let mut payload = encode_kind(&event.kind);
    let ghost written = payload@;
    let ghost before = fields@;
    fields.append(&mut payload);
    assert(field_views(fields@) =~= field_views(before) + field_views(written));
    fields
}

/// Reads an event from a list of fields, in any order. Fields that the schema
/// does not know are ignored; a field of the envelope or of the payload that
/// stands there more than once is refused.
pub fn decode_event(fields: &Vec<(String, WireValue)>) -> (event: Option<ObservabilityEvent>)
    ensures
        event.deep_view() == decoded_event(field_views(fields@)),
{
    let kind = match find_field(fields, "kind") {
        Found::Once(WireValue::Text(name)) => decode_kind(name.as_str(), fields),
        Found::Once(WireValue::Number(WireNumber { unsigned: Some(number), .. })) =>
            match kind_with_number(*number) {
                Some(name) => decode_kind(name, fields),
                None => None,
            },
        _ => None,
    };
    match (
        read_version(fields, "version"),
        read_count(fields, "occurred_at_millis"),
        read_count(fields, "tick"),
        read_text(fields, "conversation_id"),
        read_optional_count(fields, "span_id"),
        read_optional_text(fields, "agent_id"),
        read_optional_count(fields, "trace_id"),
        read_optional_severity(fields, "severity"),
        kind,
    ) {
        (
            Some(version),
            Some(occurred_at_millis),
            Some(tick),
            Some(conversation_id),
            Some(span_id),
            Some(agent_id),
            Some(trace_id),
            Some(severity),
            Some(kind),
        ) => Some(
            ObservabilityEvent {
                version,
                occurred_at_millis,
                tick,
                conversation_id,
                span_id,
                agent_id,
                trace_id,
                severity,
                kind,
            },
        ),
        _ => None,
    }
}

} // verus!
