//! What every field of the schema holds, name by name: how an event is
//! written, and which lists of fields are read as which event.

use vstd::prelude::*;

use crate::event::{ErrorClass, EventKind, ObservabilityEvent, Severity};
use crate::float::Float64;
use crate::wire::WireValue;

verus! {

/// Whether the field at `at` is the one field with the name `key`.
pub open spec fn sole(fields: Seq<(String, WireValue)>, key: Seq<char>, at: int) -> bool {
    &&& 0 <= at < fields.len()
    &&& fields[at].0@ == key
    &&& forall|i: int| 0 <= i < fields.len() && i != at ==> (#[trigger] fields[i]).0@ != key
}

/// Whether no field has the name `key`.
pub open spec fn absent(fields: Seq<(String, WireValue)>, key: Seq<char>) -> bool {
    forall|i: int| 0 <= i < fields.len() ==> (#[trigger] fields[i]).0@ != key
}

/// Whether the one field with the name `key` is `null`.
pub open spec fn null_at(fields: Seq<(String, WireValue)>, key: Seq<char>) -> bool {
    exists|at: int| #[trigger] sole(fields, key, at) && fields[at].1 is Null
}

/// Whether the one field with the name `key` is the text `text`.
pub open spec fn text_at(
    fields: Seq<(String, WireValue)>,
    key: Seq<char>,
    text: Seq<char>,
) -> bool {
    exists|at: int| #[trigger]
        sole(fields, key, at) && (fields[at].1 matches WireValue::Text(found) && found@ == text)
}

/// Whether the one field with the name `key` is the integer `count`.
pub open spec fn count_at(fields: Seq<(String, WireValue)>, key: Seq<char>, count: u64) -> bool {
    exists|at: int| #[trigger]
        sole(fields, key, at) && (fields[at].1 matches WireValue::Number(found) && found.unsigned
            == Some(count))
}

/// Whether the one field with the name `key` reads as the double `double`.
pub open spec fn double_at(
    fields: Seq<(String, WireValue)>,
    key: Seq<char>,
    double: Float64,
) -> bool {
    exists|at: int| #[trigger]
        sole(fields, key, at) && (fields[at].1 matches WireValue::Number(found) && found.double
            == Some(double))
}

/// Whether the one field with the name `key` is the double `double`, and not
/// an integer.
pub open spec fn double_written(
    fields: Seq<(String, WireValue)>,
    key: Seq<char>,
    double: Float64,
) -> bool {
    exists|at: int| #[trigger]
        sole(fields, key, at) && (fields[at].1 matches WireValue::Number(found) && found.double
            == Some(double) && found.unsigned is None)
}

/// Whether the one field with the name `key` is the flag `flag`.
pub open spec fn flag_at(fields: Seq<(String, WireValue)>, key: Seq<char>, flag: bool) -> bool {
    exists|at: int| #[trigger]
        sole(fields, key, at) && (fields[at].1 matches WireValue::Flag(found) && found == flag)
}

/// Whether the one field with the name `key` is the list `texts`.
pub open spec fn texts_at(
    fields: Seq<(String, WireValue)>,
    key: Seq<char>,
    texts: Seq<Seq<char>>,
) -> bool {
    exists|at: int| #[trigger]
        sole(fields, key, at) && (fields[at].1 matches WireValue::Texts(found) && found.deep_view()
            == texts)
}

/// Whether the one field with the name `key` names the failure class: as a
/// text, or as the one member of an object, which holds nothing.
pub open spec fn class_at(
    fields: Seq<(String, WireValue)>,
    key: Seq<char>,
    class: ErrorClass,
) -> bool {
    exists|at: int| #[trigger]
        sole(fields, key, at) && (match fields[at].1 {
            WireValue::Text(label) => label@ == class_name(class),
            WireValue::NullMember(label) => label@ == class_name(class),
            WireValue::EmptyMember(label) => label@ == class_name(class),
            _ => false,
        })
}

/// Whether the one field with the name `key` names the severity: as a text, or
/// as the one member of an object, which is `null`.
pub open spec fn severity_at(
    fields: Seq<(String, WireValue)>,
    key: Seq<char>,
    severity: Severity,
) -> bool {
    exists|at: int| #[trigger]
        sole(fields, key, at) && (match fields[at].1 {
            WireValue::Text(label) => label@ == severity_name(severity),
            WireValue::NullMember(label) => label@ == severity_name(severity),
            _ => false,
        })
}

/// The label of a failure class in the schema.
pub open spec fn class_name(class: ErrorClass) -> Seq<char> {
    match class {
        ErrorClass::Timeout => "timeout"@,
        ErrorClass::RateLimit => "rate_limit"@,
        ErrorClass::Auth => "auth"@,
        ErrorClass::Transport => "transport"@,
        ErrorClass::Validation => "validation"@,
        ErrorClass::ProviderServer => "provider_server"@,
        ErrorClass::Cancelled => "cancelled"@,
        ErrorClass::Unknown => "unknown"@,
    }
}

/// The label of a severity in the schema.
pub open spec fn severity_name(severity: Severity) -> Seq<char> {
    match severity {
        Severity::Trace => "trace"@,
        Severity::Debug => "debug"@,
        Severity::Info => "info"@,
        Severity::Warn => "warn"@,
        Severity::Error => "error"@,
        Severity::Fatal => "fatal"@,
    }
}

/// Whether an optional text is written under `key`: as it is, or not at all.
pub open spec fn opt_text_written(
    fields: Seq<(String, WireValue)>,
    key: Seq<char>,
    text: Option<String>,
) -> bool {
    match text {
        Some(text) => text_at(fields, key, text@),
        None => absent(fields, key),
    }
}

/// Whether an optional integer is written under `key`: as it is, or not at
/// all.
pub open spec fn opt_count_written(
    fields: Seq<(String, WireValue)>,
    key: Seq<char>,
    count: Option<u64>,
) -> bool {
    match count {
        Some(count) => count_at(fields, key, count),
        None => absent(fields, key),
    }
}

/// Whether an optional double is written under `key`: as it is, or not at all.
pub open spec fn opt_double_written(
    fields: Seq<(String, WireValue)>,
    key: Seq<char>,
    double: Option<Float64>,
) -> bool {
    match double {
        Some(double) => double_written(fields, key, double),
        None => absent(fields, key),
    }
}

/// Whether an optional text stands under `key`; missing and `null` stand for
/// absence.
pub open spec fn opt_text_given(
    fields: Seq<(String, WireValue)>,
    key: Seq<char>,
    text: Option<String>,
) -> bool {
    match text {
        Some(text) => text_at(fields, key, text@),
        None => absent(fields, key) || null_at(fields, key),
    }
}

/// Whether an optional integer stands under `key`; missing and `null` stand
/// for absence.
pub open spec fn opt_count_given(
    fields: Seq<(String, WireValue)>,
    key: Seq<char>,
    count: Option<u64>,
) -> bool {
    match count {
        Some(count) => count_at(fields, key, count),
        None => absent(fields, key) || null_at(fields, key),
    }
}

/// Whether an optional double stands under `key`; missing and `null` stand for
/// absence.
pub open spec fn opt_double_given(
    fields: Seq<(String, WireValue)>,
    key: Seq<char>,
    double: Option<Float64>,
) -> bool {
    match double {
        Some(double) => double_at(fields, key, double),
        None => absent(fields, key) || null_at(fields, key),
    }
}

/// An optional size as an integer of the wire.
pub open spec fn size_count(size: Option<usize>) -> Option<u64> {
    match size {
        Some(size) => Some(size as u64),
        None => None,
    }
}

/// An optional status code as an integer of the wire.
pub open spec fn status_count(status: Option<u16>) -> Option<u64> {
    match status {
        Some(status) => Some(status as u64),
        None => None,
    }
}

/// The labels of failure classes and severities are those of the schema.
pub proof fn lemma_labels(class: ErrorClass, severity: Severity)
    ensures
        class.label() == class_name(class),
        severity.label() == severity_name(severity),
{
}

/// A name that stands for a value stands there once and for that value; one
/// that stands for none stands nowhere.
pub proof fn lemma_lookup_is_the_one_field(fields: Seq<(String, WireValue)>, key: Seq<char>)
    ensures
        ({
            let views = crate::wire::field_views(fields);
            match crate::wire::lookup(views, key) {
                None => absent(fields, key),
                Some(value) => {
                    ||| exists|at: int| #[trigger] sole(fields, key, at) && fields[at].1@ == value
                    ||| value == crate::wire::WireView::Other && crate::wire::repeats(views, key)
                },
            }
        }),
        absent(fields, key) ==> crate::wire::lookup(crate::wire::field_views(fields), key) is None,
        forall|at: int| #[trigger]
            sole(fields, key, at) ==> crate::wire::lookup(crate::wire::field_views(fields), key)
                == Some(fields[at].1@),
    decreases fields.len(),
{
    reveal(crate::wire::lookup);
    let views = crate::wire::field_views(fields);
    if fields.len() > 0 {
        let n = fields.len() - 1;
        let shorter = fields.drop_last();
        lemma_lookup_is_the_one_field(shorter, key);
        assert(crate::wire::field_views(shorter) =~= views.drop_last());
        assert(views.last() == (fields[n].0@, fields[n].1@));
        let before = crate::wire::lookup(views.drop_last(), key);
        assert(forall|i: int| 0 <= i < n ==> (#[trigger] fields[i]) == shorter[i]);
        assert(forall|i: int| 0 <= i < n ==> (#[trigger] views[i]) == views.drop_last()[i]);
        if fields[n].0@ == key {
            if before is None {
                assert forall|i: int| 0 <= i < fields.len() && i != n implies (
                #[trigger] fields[i]).0@ != key by {
                    assert(shorter[i].0@ != key);
                }
                assert(sole(fields, key, n));
            } else {
                let at = if exists|at: int| #[trigger] sole(shorter, key, at) {
                    choose|at: int| #[trigger] sole(shorter, key, at)
                } else {
                    let (i, j) = choose|i: int, j: int|
                        0 <= i < j < views.drop_last().len() && (#[trigger] views.drop_last()[i]).0
                            == key && (#[trigger] views.drop_last()[j]).0 == key;
                    i
                };
                assert(views[at].0 == key);
                assert(views[n].0 == key);
                assert(crate::wire::repeats(views, key));
            }
            assert forall|at: int| #[trigger] sole(fields, key, at) implies
                crate::wire::lookup(views, key) == Some(fields[at].1@) by {
                assert(at == n);
                assert(absent(shorter, key)) by {
                    assert forall|i: int| 0 <= i < shorter.len() implies (
                    #[trigger] shorter[i]).0@ != key by {
                        assert(fields[i].0@ != key);
                    }
                }
            }
        } else {
            if before is None {
                assert forall|i: int| 0 <= i < fields.len() implies (#[trigger] fields[i]).0@
                    != key by {
                    if i < n {
                        assert(shorter[i].0@ != key);
                    }
                }
            } else if exists|at: int| #[trigger]
                sole(shorter, key, at) && shorter[at].1@ == before->0 {
                let at = choose|at: int| #[trigger]
                    sole(shorter, key, at) && shorter[at].1@ == before->0;
                assert forall|i: int| 0 <= i < fields.len() && i != at implies (
                #[trigger] fields[i]).0@ != key by {
                    if i < n {
                        assert(shorter[i].0@ != key);
                    }
                }
                assert(sole(fields, key, at));
            } else {
                let (i, j) = choose|i: int, j: int|
                    0 <= i < j < views.drop_last().len() && (#[trigger] views.drop_last()[i]).0
                        == key && (#[trigger] views.drop_last()[j]).0 == key;
                assert(views[i].0 == key && views[j].0 == key);
            }
            assert forall|at: int| #[trigger] sole(fields, key, at) implies
                crate::wire::lookup(views, key) == Some(fields[at].1@) by {
                assert(at < n);
                assert(sole(shorter, key, at)) by {
                    assert forall|i: int| 0 <= i < shorter.len() && i != at implies (
                    #[trigger] shorter[i]).0@ != key by {
                        assert(fields[i].0@ != key);
                    }
                }
            }
        }
        if absent(fields, key) {
            assert(absent(shorter, key)) by {
                assert forall|i: int| 0 <= i < shorter.len() implies (#[trigger] shorter[i]).0@
                    != key by {
                    assert(fields[i].0@ != key);
                }
            }
        }
    }
}

proof fn lemma_reads_text(
    fields: Seq<(String, WireValue)>,
    key: Seq<char>,
    text: Seq<char>,
)
    ensures
        (text_at(fields, key, text)) <==> crate::wire::as_text(crate::wire::lookup(crate::wire::field_views(fields), key)) == Some(text),
{
    lemma_lookup_is_the_one_field(fields, key);
}

proof fn lemma_reads_count(
    fields: Seq<(String, WireValue)>,
    key: Seq<char>,
    count: u64,
)
    ensures
        (count_at(fields, key, count)) <==> crate::wire::as_count(crate::wire::lookup(crate::wire::field_views(fields), key)) == Some(count),
{
    lemma_lookup_is_the_one_field(fields, key);
}

proof fn lemma_reads_double(
    fields: Seq<(String, WireValue)>,
    key: Seq<char>,
    double: Float64,
)
    ensures
        (double_at(fields, key, double)) <==> crate::wire::as_double_number(crate::wire::lookup(crate::wire::field_views(fields), key)) == Some(double),
{
    lemma_lookup_is_the_one_field(fields, key);
}

proof fn lemma_reads_flag(
    fields: Seq<(String, WireValue)>,
    key: Seq<char>,
    flag: bool,
)
    ensures
        (flag_at(fields, key, flag)) <==> crate::wire::as_flag(crate::wire::lookup(crate::wire::field_views(fields), key)) == Some(flag),
{
    lemma_lookup_is_the_one_field(fields, key);
}

proof fn lemma_reads_texts(
    fields: Seq<(String, WireValue)>,
    key: Seq<char>,
    texts: Seq<Seq<char>>,
)
    ensures
        (texts_at(fields, key, texts)) <==> crate::wire::as_texts(crate::wire::lookup(crate::wire::field_views(fields), key)) == Some(texts),
{
    lemma_lookup_is_the_one_field(fields, key);
}

proof fn lemma_reads_opt_text(
    fields: Seq<(String, WireValue)>,
    key: Seq<char>,
    text: Option<String>,
)
    ensures
        (opt_text_given(fields, key, text)) <==> crate::wire::as_optional_text(crate::wire::lookup(crate::wire::field_views(fields), key)) == Some(text.deep_view()),
{
    lemma_lookup_is_the_one_field(fields, key);
}

proof fn lemma_reads_opt_count(
    fields: Seq<(String, WireValue)>,
    key: Seq<char>,
    count: Option<u64>,
)
    ensures
        (opt_count_given(fields, key, count)) <==> crate::wire::as_optional_count(crate::wire::lookup(crate::wire::field_views(fields), key)) == Some(count),
{
    lemma_lookup_is_the_one_field(fields, key);
}

proof fn lemma_reads_opt_double(
    fields: Seq<(String, WireValue)>,
    key: Seq<char>,
    double: Option<Float64>,
)
    ensures
        (opt_double_given(fields, key, double)) <==> crate::wire::as_optional_double(crate::wire::lookup(crate::wire::field_views(fields), key)) == Some(double),
{
    lemma_lookup_is_the_one_field(fields, key);
}

proof fn lemma_reads_class(
    fields: Seq<(String, WireValue)>,
    key: Seq<char>,
    class: ErrorClass,
)
    ensures
        (class_at(fields, key, class)) <==> crate::wire::as_error_class(crate::wire::lookup(crate::wire::field_views(fields), key)) == Some(class),
{
    lemma_lookup_is_the_one_field(fields, key);
    lemma_class_names(class);
}

proof fn lemma_reads_severity(
    fields: Seq<(String, WireValue)>,
    key: Seq<char>,
    severity: Severity,
)
    ensures
        (severity_at(fields, key, severity)) <==> crate::wire::as_optional_severity(crate::wire::lookup(crate::wire::field_views(fields), key)) == Some(Some(severity)),
{
    lemma_lookup_is_the_one_field(fields, key);
    lemma_severity_names(severity);
}

proof fn lemma_reads_no_severity(
    fields: Seq<(String, WireValue)>,
    key: Seq<char>,
)
    ensures
        (absent(fields, key) || null_at(fields, key)) <==> crate::wire::as_optional_severity(crate::wire::lookup(crate::wire::field_views(fields), key)) == Some(None::<Severity>),
{
    lemma_lookup_is_the_one_field(fields, key);
}

proof fn lemma_reads_size(
    fields: Seq<(String, WireValue)>,
    key: Seq<char>,
    size: usize,
)
    ensures
        (count_at(fields, key, size as u64)) <==> crate::wire::as_size(crate::wire::lookup(crate::wire::field_views(fields), key)) == Some(size),
{
    lemma_lookup_is_the_one_field(fields, key);
}

proof fn lemma_reads_opt_size(
    fields: Seq<(String, WireValue)>,
    key: Seq<char>,
    size: Option<usize>,
)
    ensures
        (opt_count_given(fields, key, size_count(size))) <==> crate::wire::as_optional_size(crate::wire::lookup(crate::wire::field_views(fields), key)) == Some(size),
{
    lemma_lookup_is_the_one_field(fields, key);
}

proof fn lemma_reads_opt_status(
    fields: Seq<(String, WireValue)>,
    key: Seq<char>,
    status: Option<u16>,
)
    ensures
        (opt_count_given(fields, key, status_count(status))) <==> crate::wire::as_optional_status(crate::wire::lookup(crate::wire::field_views(fields), key)) == Some(status),
{
    lemma_lookup_is_the_one_field(fields, key);
}

proof fn lemma_reads_version(
    fields: Seq<(String, WireValue)>,
    key: Seq<char>,
    version: u32,
)
    ensures
        (count_at(fields, key, version as u64)) <==> crate::wire::as_version(crate::wire::lookup(crate::wire::field_views(fields), key)) == Some(version),
{
    lemma_lookup_is_the_one_field(fields, key);
}

proof fn lemma_reads_zero_size(
    fields: Seq<(String, WireValue)>,
    key: Seq<char>,
    size: usize,
)
    ensures
        (count_at(fields, key, size as u64) || (absent(fields, key) && size == 0)) <==> crate::wire::as_size_or_zero(crate::wire::lookup(crate::wire::field_views(fields), key)) == Some(size),
{
    lemma_lookup_is_the_one_field(fields, key);
}

proof fn lemma_reads_empty_texts(
    fields: Seq<(String, WireValue)>,
    key: Seq<char>,
    texts: Seq<Seq<char>>,
)
    ensures
        (texts_at(fields, key, texts) || (absent(fields, key) && texts.len() == 0)) <==> crate::wire::as_texts_or_empty(crate::wire::lookup(crate::wire::field_views(fields), key)) == Some(texts),
{
    lemma_lookup_is_the_one_field(fields, key);
    if texts.len() == 0 {
        assert(texts =~= seq![]);
    }
}

proof fn lemma_class_names(class: ErrorClass)
    ensures
        forall|label: Seq<char>| #[trigger]
            crate::wire::class_of(label) == Some(class) <==> label == class_name(class),
{
    crate::wire::lemma_error_class_round_trip(class);
}

proof fn lemma_severity_names(severity: Severity)
    ensures
        forall|label: Seq<char>| #[trigger]
            crate::wire::severity_of(label) == Some(severity) <==> label == severity_name(severity),
{
    crate::wire::lemma_severity_round_trip(severity);
}

proof fn lemma_writes(
    fields: Seq<(String, WireValue)>,
    key: Seq<char>,
    value: Option<crate::wire::WireView>,
)
    requires
        crate::wire::lookup(crate::wire::field_views(fields), key) == value,
        value != Some(crate::wire::WireView::Other),
    ensures
        match value {
            None => absent(fields, key),
            Some(value) => exists|at: int| #[trigger]
                sole(fields, key, at) && fields[at].1@ == value,
        },
{
    lemma_lookup_is_the_one_field(fields, key);
}

/// The envelope of an event on the wire: under each of its names stands the
/// member of that name, and nothing where it is absent.
pub proof fn lemma_envelope_is_written(
    event: ObservabilityEvent,
    fields: Seq<(String, WireValue)>,
)
    requires
        crate::wire::field_views(fields) == crate::wire::event_fields(event@),
    ensures
        count_at(fields, "version"@, event.version as u64),
        count_at(fields, "occurred_at_millis"@, event.occurred_at_millis),
        count_at(fields, "tick"@, event.tick),
        text_at(fields, "conversation_id"@, event.conversation_id@),
        opt_count_written(fields, "span_id"@, event.span_id),
        opt_text_written(fields, "agent_id"@, event.agent_id),
        opt_count_written(fields, "trace_id"@, event.trace_id),
        match event.severity {
            Some(severity) => text_at(fields, "severity"@, severity_name(severity)),
            None => absent(fields, "severity"@),
        },
        text_at(fields, "kind"@, event.kind@.discriminant()),
{
    broadcast use {crate::wire::lemma_lookup_join, crate::wire::lemma_lookup_field};

    let views = crate::wire::field_views(fields);
    crate::wire_laws::lemma_envelope_lookups(event@);
    lemma_writes(fields, "version"@, crate::wire::lookup(views, "version"@));
    lemma_writes(fields, "occurred_at_millis"@, crate::wire::lookup(views, "occurred_at_millis"@));
    lemma_writes(fields, "tick"@, crate::wire::lookup(views, "tick"@));
    lemma_writes(fields, "conversation_id"@, crate::wire::lookup(views, "conversation_id"@));
    lemma_writes(fields, "span_id"@, crate::wire::lookup(views, "span_id"@));
    lemma_writes(fields, "agent_id"@, crate::wire::lookup(views, "agent_id"@));
    lemma_writes(fields, "trace_id"@, crate::wire::lookup(views, "trace_id"@));
    lemma_writes(fields, "severity"@, crate::wire::lookup(views, "severity"@));
    lemma_writes(fields, "kind"@, crate::wire::lookup(views, "kind"@));
}

/// Whether the fields hold the envelope of an event, but for its kind.
pub open spec fn envelope_given(
    event: ObservabilityEvent,
    fields: Seq<(String, WireValue)>,
) -> bool {
    &&& count_at(fields, "version"@, event.version as u64)
    &&& count_at(fields, "occurred_at_millis"@, event.occurred_at_millis)
    &&& count_at(fields, "tick"@, event.tick)
    &&& text_at(fields, "conversation_id"@, event.conversation_id@)
    &&& opt_count_given(fields, "span_id"@, event.span_id)
    &&& opt_text_given(fields, "agent_id"@, event.agent_id)
    &&& opt_count_given(fields, "trace_id"@, event.trace_id)
    &&& match event.severity {
        Some(severity) => severity_at(fields, "severity"@, severity),
        None => absent(fields, "severity"@) || null_at(fields, "severity"@),
    }
}

proof fn lemma_envelope_is_read(event: ObservabilityEvent, fields: Seq<(String, WireValue)>)
    ensures
        crate::wire::decoded_event(crate::wire::field_views(fields)) == Some(event@)
            <==> envelope_given(event, fields) && crate::wire::decoded_payload(
            crate::wire::field_views(fields),
        ) == Some(event.kind@),
{
    lemma_reads_version(fields, "version"@, event.version);
    lemma_reads_count(fields, "occurred_at_millis"@, event.occurred_at_millis);
    lemma_reads_count(fields, "tick"@, event.tick);
    lemma_reads_text(fields, "conversation_id"@, event.conversation_id@);
    lemma_reads_opt_count(fields, "span_id"@, event.span_id);
    lemma_reads_opt_text(fields, "agent_id"@, event.agent_id);
    lemma_reads_opt_count(fields, "trace_id"@, event.trace_id);
    match event.severity {
        Some(severity) => {
            lemma_reads_severity(fields, "severity"@, severity);
        },
        None => {
            lemma_reads_no_severity(fields, "severity"@);
        },
    }
}

/// Reading a payload names its kind by its wire name or by its number.
proof fn lemma_kind_is_read(
    name: Seq<char>,
    number: u64,
    kind: crate::event::KindView,
    fields: Seq<(String, WireValue)>,
)
    requires
        kind.discriminant() == name,
        forall|n: u64| #[trigger] crate::wire_kinds::numbered_kind(n) == Some(name) <==> n == number,
    ensures
        crate::wire::decoded_payload(crate::wire::field_views(fields)) == Some(kind) <==> (text_at(
            fields,
            "kind"@,
            name,
        ) || count_at(fields, "kind"@, number)) && crate::wire_kinds::decoded_kind(
            name,
            crate::wire::field_views(fields),
        ) == Some(kind),
{
    let views = crate::wire::field_views(fields);
    lemma_reads_text(fields, "kind"@, name);
    lemma_reads_count(fields, "kind"@, number);
    if let Some(found) = crate::wire::as_kind_name(crate::wire::lookup(views, "kind"@)) {
        if crate::wire_kinds::decoded_kind(found, views) == Some(kind) {
            lemma_decoded_kind_has_its_name(found, views);
        }
    }
}

#[verifier::rlimit(60)]
proof fn lemma_decoded_kind_has_its_name(
    name: Seq<char>,
    views: Seq<(Seq<char>, crate::wire::WireView)>,
)
    ensures
        crate::wire_kinds::decoded_kind(name, views) matches Some(kind) ==> kind.discriminant()
            == name,
{
}

/// A `prompt.started` event on the wire: under each name of the schema stands the
/// member of that name, and nothing where it is left out.
pub proof fn lemma_prompt_started_is_written(
    event: ObservabilityEvent,
    fields: Seq<(String, WireValue)>,
)
    requires
        crate::wire::field_views(fields) == crate::wire::event_fields(event@),
    ensures
        event.kind matches EventKind::PromptStarted { model, messages_in, temperature, top_p, max_tokens } ==> {
            &&& text_at(fields, "kind"@, "prompt.started"@)
            &&& text_at(fields, "model"@, model@)
            &&& count_at(fields, "messages_in"@, messages_in as u64)
            &&& opt_double_written(fields, "temperature"@, temperature)
            &&& opt_double_written(fields, "top_p"@, top_p)
            &&& opt_count_written(fields, "max_tokens"@, max_tokens)
        },
{
    broadcast use {crate::wire::lemma_lookup_join, crate::wire::lemma_lookup_field};

    if let EventKind::PromptStarted { model, messages_in, temperature, top_p, max_tokens } = event.kind {
        lemma_envelope_is_written(event, fields);
        crate::wire_laws::lemma_envelope_alone(event@);
        crate::wire_laws::lemma_key_codes();
        let views = crate::wire::field_views(fields);
        assert(crate::wire::lookup(views, "model"@) == Some(crate::wire::WireView::Text(model@)));
        lemma_writes(fields, "model"@, Some(crate::wire::WireView::Text(model@)));
        assert(crate::wire::lookup(views, "messages_in"@) == Some(crate::wire::number(messages_in as u64)));
        lemma_writes(fields, "messages_in"@, Some(crate::wire::number(messages_in as u64)));
        assert(crate::wire::lookup(views, "temperature"@) == crate::wire::opt_double(temperature));
        lemma_writes(fields, "temperature"@, crate::wire::opt_double(temperature));
        assert(crate::wire::lookup(views, "top_p"@) == crate::wire::opt_double(top_p));
        lemma_writes(fields, "top_p"@, crate::wire::opt_double(top_p));
        assert(crate::wire::lookup(views, "max_tokens"@) == crate::wire::opt_number(max_tokens));
        lemma_writes(fields, "max_tokens"@, crate::wire::opt_number(max_tokens));
    }
}

/// A list of fields is read as a `prompt.started` event if and only if it holds
/// the envelope of that event, names the kind by its name or its number, and
/// holds each member under its own name.
pub proof fn lemma_prompt_started_is_read(
    event: ObservabilityEvent,
    fields: Seq<(String, WireValue)>,
)
    ensures
        event.kind matches EventKind::PromptStarted { model, messages_in, temperature, top_p, max_tokens } ==> (crate::wire::decoded_event(
            crate::wire::field_views(fields),
        ) == Some(event@) <==> {
            &&& envelope_given(event, fields)
            &&& text_at(fields, "kind"@, "prompt.started"@) || count_at(fields, "kind"@, 0)
            &&& text_at(fields, "model"@, model@)
            &&& count_at(fields, "messages_in"@, messages_in as u64)
            &&& opt_double_given(fields, "temperature"@, temperature)
            &&& opt_double_given(fields, "top_p"@, top_p)
            &&& opt_count_given(fields, "max_tokens"@, max_tokens)
        }),
{
    if let EventKind::PromptStarted { model, messages_in, temperature, top_p, max_tokens } = event.kind {
        lemma_envelope_is_read(event, fields);
        crate::wire_laws::lemma_kind_codes();
        lemma_kind_is_read("prompt.started"@, 0, event.kind@, fields);
        lemma_reads_text(fields, "model"@, model@);
        lemma_reads_size(fields, "messages_in"@, messages_in);
        lemma_reads_opt_double(fields, "temperature"@, temperature);
        lemma_reads_opt_double(fields, "top_p"@, top_p);
        lemma_reads_opt_count(fields, "max_tokens"@, max_tokens);
    }
}

/// A `prompt.completed` event on the wire: under each name of the schema stands the
/// member of that name, and nothing where it is left out.
pub proof fn lemma_prompt_completed_is_written(
    event: ObservabilityEvent,
    fields: Seq<(String, WireValue)>,
)
    requires
        crate::wire::field_views(fields) == crate::wire::event_fields(event@),
    ensures
        event.kind matches EventKind::PromptCompleted { model, tokens_in, tokens_out, cached_tokens_in, reasoning_tokens, cost_usd, finish_reason, response_id, previous_response_id, time_to_first_token_ms, duration_ms } ==> {
            &&& text_at(fields, "kind"@, "prompt.completed"@)
            &&& text_at(fields, "model"@, model@)
            &&& opt_count_written(fields, "tokens_in"@, tokens_in)
            &&& opt_count_written(fields, "tokens_out"@, tokens_out)
            &&& opt_count_written(fields, "cached_tokens_in"@, cached_tokens_in)
            &&& opt_count_written(fields, "reasoning_tokens"@, reasoning_tokens)
            &&& opt_double_written(fields, "cost_usd"@, cost_usd)
            &&& opt_text_written(fields, "finish_reason"@, finish_reason)
            &&& opt_text_written(fields, "response_id"@, response_id)
            &&& opt_text_written(fields, "previous_response_id"@, previous_response_id)
            &&& opt_count_written(fields, "time_to_first_token_ms"@, time_to_first_token_ms)
            &&& opt_count_written(fields, "duration_ms"@, duration_ms)
        },
{
    broadcast use {crate::wire::lemma_lookup_join, crate::wire::lemma_lookup_field};

    if let EventKind::PromptCompleted { model, tokens_in, tokens_out, cached_tokens_in, reasoning_tokens, cost_usd, finish_reason, response_id, previous_response_id, time_to_first_token_ms, duration_ms } = event.kind {
        lemma_envelope_is_written(event, fields);
        crate::wire_laws::lemma_envelope_alone(event@);
        crate::wire_laws::lemma_key_codes();
        let views = crate::wire::field_views(fields);
        assert(crate::wire::lookup(views, "model"@) == Some(crate::wire::WireView::Text(model@)));
        lemma_writes(fields, "model"@, Some(crate::wire::WireView::Text(model@)));
        assert(crate::wire::lookup(views, "tokens_in"@) == crate::wire::opt_number(tokens_in));
        lemma_writes(fields, "tokens_in"@, crate::wire::opt_number(tokens_in));
        assert(crate::wire::lookup(views, "tokens_out"@) == crate::wire::opt_number(tokens_out));
        lemma_writes(fields, "tokens_out"@, crate::wire::opt_number(tokens_out));
        assert(crate::wire::lookup(views, "cached_tokens_in"@) == crate::wire::opt_number(cached_tokens_in));
        lemma_writes(fields, "cached_tokens_in"@, crate::wire::opt_number(cached_tokens_in));
        assert(crate::wire::lookup(views, "reasoning_tokens"@) == crate::wire::opt_number(reasoning_tokens));
        lemma_writes(fields, "reasoning_tokens"@, crate::wire::opt_number(reasoning_tokens));
        assert(crate::wire::lookup(views, "cost_usd"@) == crate::wire::opt_double(cost_usd));
        lemma_writes(fields, "cost_usd"@, crate::wire::opt_double(cost_usd));
        assert(crate::wire::lookup(views, "finish_reason"@) == crate::wire::opt_text(finish_reason.deep_view()));
        lemma_writes(fields, "finish_reason"@, crate::wire::opt_text(finish_reason.deep_view()));
        assert(crate::wire::lookup(views, "response_id"@) == crate::wire::opt_text(response_id.deep_view()));
        lemma_writes(fields, "response_id"@, crate::wire::opt_text(response_id.deep_view()));
        assert(crate::wire::lookup(views, "previous_response_id"@) == crate::wire::opt_text(previous_response_id.deep_view()));
        lemma_writes(fields, "previous_response_id"@, crate::wire::opt_text(previous_response_id.deep_view()));
        assert(crate::wire::lookup(views, "time_to_first_token_ms"@) == crate::wire::opt_number(time_to_first_token_ms));
        lemma_writes(fields, "time_to_first_token_ms"@, crate::wire::opt_number(time_to_first_token_ms));
        assert(crate::wire::lookup(views, "duration_ms"@) == crate::wire::opt_number(duration_ms));
        lemma_writes(fields, "duration_ms"@, crate::wire::opt_number(duration_ms));
    }
}

/// A list of fields is read as a `prompt.completed` event if and only if it holds
/// the envelope of that event, names the kind by its name or its number, and
/// holds each member under its own name.
pub proof fn lemma_prompt_completed_is_read(
    event: ObservabilityEvent,
    fields: Seq<(String, WireValue)>,
)
    ensures
        event.kind matches EventKind::PromptCompleted { model, tokens_in, tokens_out, cached_tokens_in, reasoning_tokens, cost_usd, finish_reason, response_id, previous_response_id, time_to_first_token_ms, duration_ms } ==> (crate::wire::decoded_event(
            crate::wire::field_views(fields),
        ) == Some(event@) <==> {
            &&& envelope_given(event, fields)
            &&& text_at(fields, "kind"@, "prompt.completed"@) || count_at(fields, "kind"@, 1)
            &&& text_at(fields, "model"@, model@)
            &&& opt_count_given(fields, "tokens_in"@, tokens_in)
            &&& opt_count_given(fields, "tokens_out"@, tokens_out)
            &&& opt_count_given(fields, "cached_tokens_in"@, cached_tokens_in)
            &&& opt_count_given(fields, "reasoning_tokens"@, reasoning_tokens)
            &&& opt_double_given(fields, "cost_usd"@, cost_usd)
            &&& opt_text_given(fields, "finish_reason"@, finish_reason)
            &&& opt_text_given(fields, "response_id"@, response_id)
            &&& opt_text_given(fields, "previous_response_id"@, previous_response_id)
            &&& opt_count_given(fields, "time_to_first_token_ms"@, time_to_first_token_ms)
            &&& opt_count_given(fields, "duration_ms"@, duration_ms)
        }),
{
    if let EventKind::PromptCompleted { model, tokens_in, tokens_out, cached_tokens_in, reasoning_tokens, cost_usd, finish_reason, response_id, previous_response_id, time_to_first_token_ms, duration_ms } = event.kind {
        lemma_envelope_is_read(event, fields);
        crate::wire_laws::lemma_kind_codes();
        lemma_kind_is_read("prompt.completed"@, 1, event.kind@, fields);
        lemma_reads_text(fields, "model"@, model@);
        lemma_reads_opt_count(fields, "tokens_in"@, tokens_in);
        lemma_reads_opt_count(fields, "tokens_out"@, tokens_out);
        lemma_reads_opt_count(fields, "cached_tokens_in"@, cached_tokens_in);
        lemma_reads_opt_count(fields, "reasoning_tokens"@, reasoning_tokens);
        lemma_reads_opt_double(fields, "cost_usd"@, cost_usd);
        lemma_reads_opt_text(fields, "finish_reason"@, finish_reason);
        lemma_reads_opt_text(fields, "response_id"@, response_id);
        lemma_reads_opt_text(fields, "previous_response_id"@, previous_response_id);
        lemma_reads_opt_count(fields, "time_to_first_token_ms"@, time_to_first_token_ms);
        lemma_reads_opt_count(fields, "duration_ms"@, duration_ms);
    }
}

/// A `prompt.failed` event on the wire: under each name of the schema stands the
/// member of that name, and nothing where it is left out.
pub proof fn lemma_prompt_failed_is_written(
    event: ObservabilityEvent,
    fields: Seq<(String, WireValue)>,
)
    requires
        crate::wire::field_views(fields) == crate::wire::event_fields(event@),
    ensures
        event.kind matches EventKind::PromptFailed { model, error_class, message, retriable, provider_error_code, http_status } ==> {
            &&& text_at(fields, "kind"@, "prompt.failed"@)
            &&& text_at(fields, "model"@, model@)
            &&& text_at(fields, "error_class"@, class_name(error_class))
            &&& text_at(fields, "message"@, message@)
            &&& flag_at(fields, "retriable"@, retriable)
            &&& opt_text_written(fields, "provider_error_code"@, provider_error_code)
            &&& opt_count_written(fields, "http_status"@, status_count(http_status))
        },
{
    broadcast use {crate::wire::lemma_lookup_join, crate::wire::lemma_lookup_field};

    if let EventKind::PromptFailed { model, error_class, message, retriable, provider_error_code, http_status } = event.kind {
        lemma_envelope_is_written(event, fields);
        crate::wire_laws::lemma_envelope_alone(event@);
        crate::wire_laws::lemma_key_codes();
        let views = crate::wire::field_views(fields);
        assert(crate::wire::lookup(views, "model"@) == Some(crate::wire::WireView::Text(model@)));
        lemma_writes(fields, "model"@, Some(crate::wire::WireView::Text(model@)));
        assert(crate::wire::lookup(views, "error_class"@) == Some(crate::wire::WireView::Text(error_class.label())));
        lemma_writes(fields, "error_class"@, Some(crate::wire::WireView::Text(error_class.label())));
        assert(crate::wire::lookup(views, "message"@) == Some(crate::wire::WireView::Text(message@)));
        lemma_writes(fields, "message"@, Some(crate::wire::WireView::Text(message@)));
        assert(crate::wire::lookup(views, "retriable"@) == Some(crate::wire::WireView::Flag(retriable)));
        lemma_writes(fields, "retriable"@, Some(crate::wire::WireView::Flag(retriable)));
        assert(crate::wire::lookup(views, "provider_error_code"@) == crate::wire::opt_text(provider_error_code.deep_view()));
        lemma_writes(fields, "provider_error_code"@, crate::wire::opt_text(provider_error_code.deep_view()));
        assert(crate::wire::lookup(views, "http_status"@) == crate::wire::opt_status(http_status));
        lemma_writes(fields, "http_status"@, crate::wire::opt_status(http_status));
    }
}

/// A list of fields is read as a `prompt.failed` event if and only if it holds
/// the envelope of that event, names the kind by its name or its number, and
/// holds each member under its own name.
pub proof fn lemma_prompt_failed_is_read(
    event: ObservabilityEvent,
    fields: Seq<(String, WireValue)>,
)
    ensures
        event.kind matches EventKind::PromptFailed { model, error_class, message, retriable, provider_error_code, http_status } ==> (crate::wire::decoded_event(
            crate::wire::field_views(fields),
        ) == Some(event@) <==> {
            &&& envelope_given(event, fields)
            &&& text_at(fields, "kind"@, "prompt.failed"@) || count_at(fields, "kind"@, 2)
            &&& text_at(fields, "model"@, model@)
            &&& class_at(fields, "error_class"@, error_class)
            &&& text_at(fields, "message"@, message@)
            &&& flag_at(fields, "retriable"@, retriable)
            &&& opt_text_given(fields, "provider_error_code"@, provider_error_code)
            &&& opt_count_given(fields, "http_status"@, status_count(http_status))
        }),
{
    if let EventKind::PromptFailed { model, error_class, message, retriable, provider_error_code, http_status } = event.kind {
        lemma_envelope_is_read(event, fields);
        crate::wire_laws::lemma_kind_codes();
        lemma_kind_is_read("prompt.failed"@, 2, event.kind@, fields);
        lemma_reads_text(fields, "model"@, model@);
        lemma_reads_class(fields, "error_class"@, error_class);
        lemma_reads_text(fields, "message"@, message@);
        lemma_reads_flag(fields, "retriable"@, retriable);
        lemma_reads_opt_text(fields, "provider_error_code"@, provider_error_code);
        lemma_reads_opt_status(fields, "http_status"@, http_status);
    }
}

/// A `tool.invoked` event on the wire: under each name of the schema stands the
/// member of that name, and nothing where it is left out.
pub proof fn lemma_tool_invoked_is_written(
    event: ObservabilityEvent,
    fields: Seq<(String, WireValue)>,
)
    requires
        crate::wire::field_views(fields) == crate::wire::event_fields(event@),
    ensures
        event.kind matches EventKind::ToolInvoked { tool_name, provider_call_id, call_id, args_json, truncated } ==> {
            &&& text_at(fields, "kind"@, "tool.invoked"@)
            &&& text_at(fields, "tool_name"@, tool_name@)
            &&& opt_text_written(fields, "provider_call_id"@, provider_call_id)
            &&& text_at(fields, "call_id"@, call_id@)
            &&& text_at(fields, "args_json"@, args_json@)
            &&& flag_at(fields, "truncated"@, truncated)
        },
{
    broadcast use {crate::wire::lemma_lookup_join, crate::wire::lemma_lookup_field};

    if let EventKind::ToolInvoked { tool_name, provider_call_id, call_id, args_json, truncated } = event.kind {
        lemma_envelope_is_written(event, fields);
        crate::wire_laws::lemma_envelope_alone(event@);
        crate::wire_laws::lemma_key_codes();
        let views = crate::wire::field_views(fields);
        assert(crate::wire::lookup(views, "tool_name"@) == Some(crate::wire::WireView::Text(tool_name@)));
        lemma_writes(fields, "tool_name"@, Some(crate::wire::WireView::Text(tool_name@)));
        assert(crate::wire::lookup(views, "provider_call_id"@) == crate::wire::opt_text(provider_call_id.deep_view()));
        lemma_writes(fields, "provider_call_id"@, crate::wire::opt_text(provider_call_id.deep_view()));
        assert(crate::wire::lookup(views, "call_id"@) == Some(crate::wire::WireView::Text(call_id@)));
        lemma_writes(fields, "call_id"@, Some(crate::wire::WireView::Text(call_id@)));
        assert(crate::wire::lookup(views, "args_json"@) == Some(crate::wire::WireView::Text(args_json@)));
        lemma_writes(fields, "args_json"@, Some(crate::wire::WireView::Text(args_json@)));
        assert(crate::wire::lookup(views, "truncated"@) == Some(crate::wire::WireView::Flag(truncated)));
        lemma_writes(fields, "truncated"@, Some(crate::wire::WireView::Flag(truncated)));
    }
}

/// A list of fields is read as a `tool.invoked` event if and only if it holds
/// the envelope of that event, names the kind by its name or its number, and
/// holds each member under its own name.
pub proof fn lemma_tool_invoked_is_read(
    event: ObservabilityEvent,
    fields: Seq<(String, WireValue)>,
)
    ensures
        event.kind matches EventKind::ToolInvoked { tool_name, provider_call_id, call_id, args_json, truncated } ==> (crate::wire::decoded_event(
            crate::wire::field_views(fields),
        ) == Some(event@) <==> {
            &&& envelope_given(event, fields)
            &&& text_at(fields, "kind"@, "tool.invoked"@) || count_at(fields, "kind"@, 3)
            &&& text_at(fields, "tool_name"@, tool_name@)
            &&& opt_text_given(fields, "provider_call_id"@, provider_call_id)
            &&& text_at(fields, "call_id"@, call_id@)
            &&& text_at(fields, "args_json"@, args_json@)
            &&& flag_at(fields, "truncated"@, truncated)
        }),
{
    if let EventKind::ToolInvoked { tool_name, provider_call_id, call_id, args_json, truncated } = event.kind {
        lemma_envelope_is_read(event, fields);
        crate::wire_laws::lemma_kind_codes();
        lemma_kind_is_read("tool.invoked"@, 3, event.kind@, fields);
        lemma_reads_text(fields, "tool_name"@, tool_name@);
        lemma_reads_opt_text(fields, "provider_call_id"@, provider_call_id);
        lemma_reads_text(fields, "call_id"@, call_id@);
        lemma_reads_text(fields, "args_json"@, args_json@);
        lemma_reads_flag(fields, "truncated"@, truncated);
    }
}

/// A `tool.completed` event on the wire: under each name of the schema stands the
/// member of that name, and nothing where it is left out.
pub proof fn lemma_tool_completed_is_written(
    event: ObservabilityEvent,
    fields: Seq<(String, WireValue)>,
)
    requires
        crate::wire::field_views(fields) == crate::wire::event_fields(event@),
    ensures
        event.kind matches EventKind::ToolCompleted { tool_name, provider_call_id, call_id, result, truncated, duration_ms } ==> {
            &&& text_at(fields, "kind"@, "tool.completed"@)
            &&& text_at(fields, "tool_name"@, tool_name@)
            &&& opt_text_written(fields, "provider_call_id"@, provider_call_id)
            &&& text_at(fields, "call_id"@, call_id@)
            &&& text_at(fields, "result"@, result@)
            &&& flag_at(fields, "truncated"@, truncated)
            &&& opt_count_written(fields, "duration_ms"@, duration_ms)
        },
{
    broadcast use {crate::wire::lemma_lookup_join, crate::wire::lemma_lookup_field};

    if let EventKind::ToolCompleted { tool_name, provider_call_id, call_id, result, truncated, duration_ms } = event.kind {
        lemma_envelope_is_written(event, fields);
        crate::wire_laws::lemma_envelope_alone(event@);
        crate::wire_laws::lemma_key_codes();
        let views = crate::wire::field_views(fields);
        assert(crate::wire::lookup(views, "tool_name"@) == Some(crate::wire::WireView::Text(tool_name@)));
        lemma_writes(fields, "tool_name"@, Some(crate::wire::WireView::Text(tool_name@)));
        assert(crate::wire::lookup(views, "provider_call_id"@) == crate::wire::opt_text(provider_call_id.deep_view()));
        lemma_writes(fields, "provider_call_id"@, crate::wire::opt_text(provider_call_id.deep_view()));
        assert(crate::wire::lookup(views, "call_id"@) == Some(crate::wire::WireView::Text(call_id@)));
        lemma_writes(fields, "call_id"@, Some(crate::wire::WireView::Text(call_id@)));
        assert(crate::wire::lookup(views, "result"@) == Some(crate::wire::WireView::Text(result@)));
        lemma_writes(fields, "result"@, Some(crate::wire::WireView::Text(result@)));
        assert(crate::wire::lookup(views, "truncated"@) == Some(crate::wire::WireView::Flag(truncated)));
        lemma_writes(fields, "truncated"@, Some(crate::wire::WireView::Flag(truncated)));
        assert(crate::wire::lookup(views, "duration_ms"@) == crate::wire::opt_number(duration_ms));
        lemma_writes(fields, "duration_ms"@, crate::wire::opt_number(duration_ms));
    }
}

/// A list of fields is read as a `tool.completed` event if and only if it holds
/// the envelope of that event, names the kind by its name or its number, and
/// holds each member under its own name.
pub proof fn lemma_tool_completed_is_read(
    event: ObservabilityEvent,
    fields: Seq<(String, WireValue)>,
)
    ensures
        event.kind matches EventKind::ToolCompleted { tool_name, provider_call_id, call_id, result, truncated, duration_ms } ==> (crate::wire::decoded_event(
            crate::wire::field_views(fields),
        ) == Some(event@) <==> {
            &&& envelope_given(event, fields)
            &&& text_at(fields, "kind"@, "tool.completed"@) || count_at(fields, "kind"@, 4)
            &&& text_at(fields, "tool_name"@, tool_name@)
            &&& opt_text_given(fields, "provider_call_id"@, provider_call_id)
            &&& text_at(fields, "call_id"@, call_id@)
            &&& text_at(fields, "result"@, result@)
            &&& flag_at(fields, "truncated"@, truncated)
            &&& opt_count_given(fields, "duration_ms"@, duration_ms)
        }),
{
    if let EventKind::ToolCompleted { tool_name, provider_call_id, call_id, result, truncated, duration_ms } = event.kind {
        lemma_envelope_is_read(event, fields);
        crate::wire_laws::lemma_kind_codes();
        lemma_kind_is_read("tool.completed"@, 4, event.kind@, fields);
        lemma_reads_text(fields, "tool_name"@, tool_name@);
        lemma_reads_opt_text(fields, "provider_call_id"@, provider_call_id);
        lemma_reads_text(fields, "call_id"@, call_id@);
        lemma_reads_text(fields, "result"@, result@);
        lemma_reads_flag(fields, "truncated"@, truncated);
        lemma_reads_opt_count(fields, "duration_ms"@, duration_ms);
    }
}

/// A `tool.failed` event on the wire: under each name of the schema stands the
/// member of that name, and nothing where it is left out.
pub proof fn lemma_tool_failed_is_written(
    event: ObservabilityEvent,
    fields: Seq<(String, WireValue)>,
)
    requires
        crate::wire::field_views(fields) == crate::wire::event_fields(event@),
    ensures
        event.kind matches EventKind::ToolFailed { tool_name, call_id, error_class, message } ==> {
            &&& text_at(fields, "kind"@, "tool.failed"@)
            &&& text_at(fields, "tool_name"@, tool_name@)
            &&& text_at(fields, "call_id"@, call_id@)
            &&& text_at(fields, "error_class"@, class_name(error_class))
            &&& text_at(fields, "message"@, message@)
        },
{
    broadcast use {crate::wire::lemma_lookup_join, crate::wire::lemma_lookup_field};

    if let EventKind::ToolFailed { tool_name, call_id, error_class, message } = event.kind {
        lemma_envelope_is_written(event, fields);
        crate::wire_laws::lemma_envelope_alone(event@);
        crate::wire_laws::lemma_key_codes();
        let views = crate::wire::field_views(fields);
        assert(crate::wire::lookup(views, "tool_name"@) == Some(crate::wire::WireView::Text(tool_name@)));
        lemma_writes(fields, "tool_name"@, Some(crate::wire::WireView::Text(tool_name@)));
        assert(crate::wire::lookup(views, "call_id"@) == Some(crate::wire::WireView::Text(call_id@)));
        lemma_writes(fields, "call_id"@, Some(crate::wire::WireView::Text(call_id@)));
        assert(crate::wire::lookup(views, "error_class"@) == Some(crate::wire::WireView::Text(error_class.label())));
        lemma_writes(fields, "error_class"@, Some(crate::wire::WireView::Text(error_class.label())));
        assert(crate::wire::lookup(views, "message"@) == Some(crate::wire::WireView::Text(message@)));
        lemma_writes(fields, "message"@, Some(crate::wire::WireView::Text(message@)));
    }
}

/// A list of fields is read as a `tool.failed` event if and only if it holds
/// the envelope of that event, names the kind by its name or its number, and
/// holds each member under its own name.
pub proof fn lemma_tool_failed_is_read(
    event: ObservabilityEvent,
    fields: Seq<(String, WireValue)>,
)
    ensures
        event.kind matches EventKind::ToolFailed { tool_name, call_id, error_class, message } ==> (crate::wire::decoded_event(
            crate::wire::field_views(fields),
        ) == Some(event@) <==> {
            &&& envelope_given(event, fields)
            &&& text_at(fields, "kind"@, "tool.failed"@) || count_at(fields, "kind"@, 5)
            &&& text_at(fields, "tool_name"@, tool_name@)
            &&& text_at(fields, "call_id"@, call_id@)
            &&& class_at(fields, "error_class"@, error_class)
            &&& text_at(fields, "message"@, message@)
        }),
{
    if let EventKind::ToolFailed { tool_name, call_id, error_class, message } = event.kind {
        lemma_envelope_is_read(event, fields);
        crate::wire_laws::lemma_kind_codes();
        lemma_kind_is_read("tool.failed"@, 5, event.kind@, fields);
        lemma_reads_text(fields, "tool_name"@, tool_name@);
        lemma_reads_text(fields, "call_id"@, call_id@);
        lemma_reads_class(fields, "error_class"@, error_class);
        lemma_reads_text(fields, "message"@, message@);
    }
}

/// A `tool.skipped` event on the wire: under each name of the schema stands the
/// member of that name, and nothing where it is left out.
pub proof fn lemma_tool_skipped_is_written(
    event: ObservabilityEvent,
    fields: Seq<(String, WireValue)>,
)
    requires
        crate::wire::field_views(fields) == crate::wire::event_fields(event@),
    ensures
        event.kind matches EventKind::ToolSkipped { tool_name, call_id, reason } ==> {
            &&& text_at(fields, "kind"@, "tool.skipped"@)
            &&& text_at(fields, "tool_name"@, tool_name@)
            &&& text_at(fields, "call_id"@, call_id@)
            &&& text_at(fields, "reason"@, reason@)
        },
{
    broadcast use {crate::wire::lemma_lookup_join, crate::wire::lemma_lookup_field};

    if let EventKind::ToolSkipped { tool_name, call_id, reason } = event.kind {
        lemma_envelope_is_written(event, fields);
        crate::wire_laws::lemma_envelope_alone(event@);
        crate::wire_laws::lemma_key_codes();
        let views = crate::wire::field_views(fields);
        assert(crate::wire::lookup(views, "tool_name"@) == Some(crate::wire::WireView::Text(tool_name@)));
        lemma_writes(fields, "tool_name"@, Some(crate::wire::WireView::Text(tool_name@)));
        assert(crate::wire::lookup(views, "call_id"@) == Some(crate::wire::WireView::Text(call_id@)));
        lemma_writes(fields, "call_id"@, Some(crate::wire::WireView::Text(call_id@)));
        assert(crate::wire::lookup(views, "reason"@) == Some(crate::wire::WireView::Text(reason@)));
        lemma_writes(fields, "reason"@, Some(crate::wire::WireView::Text(reason@)));
    }
}

/// A list of fields is read as a `tool.skipped` event if and only if it holds
/// the envelope of that event, names the kind by its name or its number, and
/// holds each member under its own name.
pub proof fn lemma_tool_skipped_is_read(
    event: ObservabilityEvent,
    fields: Seq<(String, WireValue)>,
)
    ensures
        event.kind matches EventKind::ToolSkipped { tool_name, call_id, reason } ==> (crate::wire::decoded_event(
            crate::wire::field_views(fields),
        ) == Some(event@) <==> {
            &&& envelope_given(event, fields)
            &&& text_at(fields, "kind"@, "tool.skipped"@) || count_at(fields, "kind"@, 6)
            &&& text_at(fields, "tool_name"@, tool_name@)
            &&& text_at(fields, "call_id"@, call_id@)
            &&& text_at(fields, "reason"@, reason@)
        }),
{
    if let EventKind::ToolSkipped { tool_name, call_id, reason } = event.kind {
        lemma_envelope_is_read(event, fields);
        crate::wire_laws::lemma_kind_codes();
        lemma_kind_is_read("tool.skipped"@, 6, event.kind@, fields);
        lemma_reads_text(fields, "tool_name"@, tool_name@);
        lemma_reads_text(fields, "call_id"@, call_id@);
        lemma_reads_text(fields, "reason"@, reason@);
    }
}

/// A `tool.terminated` event on the wire: under each name of the schema stands the
/// member of that name, and nothing where it is left out.
pub proof fn lemma_tool_terminated_is_written(
    event: ObservabilityEvent,
    fields: Seq<(String, WireValue)>,
)
    requires
        crate::wire::field_views(fields) == crate::wire::event_fields(event@),
    ensures
        event.kind matches EventKind::ToolTerminated { tool_name, call_id, reason } ==> {
            &&& text_at(fields, "kind"@, "tool.terminated"@)
            &&& text_at(fields, "tool_name"@, tool_name@)
            &&& text_at(fields, "call_id"@, call_id@)
            &&& text_at(fields, "reason"@, reason@)
        },
{
    broadcast use {crate::wire::lemma_lookup_join, crate::wire::lemma_lookup_field};

    if let EventKind::ToolTerminated { tool_name, call_id, reason } = event.kind {
        lemma_envelope_is_written(event, fields);
        crate::wire_laws::lemma_envelope_alone(event@);
        crate::wire_laws::lemma_key_codes();
        let views = crate::wire::field_views(fields);
        assert(crate::wire::lookup(views, "tool_name"@) == Some(crate::wire::WireView::Text(tool_name@)));
        lemma_writes(fields, "tool_name"@, Some(crate::wire::WireView::Text(tool_name@)));
        assert(crate::wire::lookup(views, "call_id"@) == Some(crate::wire::WireView::Text(call_id@)));
        lemma_writes(fields, "call_id"@, Some(crate::wire::WireView::Text(call_id@)));
        assert(crate::wire::lookup(views, "reason"@) == Some(crate::wire::WireView::Text(reason@)));
        lemma_writes(fields, "reason"@, Some(crate::wire::WireView::Text(reason@)));
    }
}

/// A list of fields is read as a `tool.terminated` event if and only if it holds
/// the envelope of that event, names the kind by its name or its number, and
/// holds each member under its own name.
pub proof fn lemma_tool_terminated_is_read(
    event: ObservabilityEvent,
    fields: Seq<(String, WireValue)>,
)
    ensures
        event.kind matches EventKind::ToolTerminated { tool_name, call_id, reason } ==> (crate::wire::decoded_event(
            crate::wire::field_views(fields),
        ) == Some(event@) <==> {
            &&& envelope_given(event, fields)
            &&& text_at(fields, "kind"@, "tool.terminated"@) || count_at(fields, "kind"@, 7)
            &&& text_at(fields, "tool_name"@, tool_name@)
            &&& text_at(fields, "call_id"@, call_id@)
            &&& text_at(fields, "reason"@, reason@)
        }),
{
    if let EventKind::ToolTerminated { tool_name, call_id, reason } = event.kind {
        lemma_envelope_is_read(event, fields);
        crate::wire_laws::lemma_kind_codes();
        lemma_kind_is_read("tool.terminated"@, 7, event.kind@, fields);
        lemma_reads_text(fields, "tool_name"@, tool_name@);
        lemma_reads_text(fields, "call_id"@, call_id@);
        lemma_reads_text(fields, "reason"@, reason@);
    }
}

/// A `tool.hosted_invoked` event on the wire: under each name of the schema stands the
/// member of that name, and nothing where it is left out.
pub proof fn lemma_tool_hosted_invoked_is_written(
    event: ObservabilityEvent,
    fields: Seq<(String, WireValue)>,
)
    requires
        crate::wire::field_views(fields) == crate::wire::event_fields(event@),
    ensures
        event.kind matches EventKind::ToolHostedInvoked { tool_name, provider_call_id, call_id, response_id, args_json, truncated } ==> {
            &&& text_at(fields, "kind"@, "tool.hosted_invoked"@)
            &&& text_at(fields, "tool_name"@, tool_name@)
            &&& opt_text_written(fields, "provider_call_id"@, provider_call_id)
            &&& text_at(fields, "call_id"@, call_id@)
            &&& opt_text_written(fields, "response_id"@, response_id)
            &&& text_at(fields, "args_json"@, args_json@)
            &&& flag_at(fields, "truncated"@, truncated)
        },
{
    broadcast use {crate::wire::lemma_lookup_join, crate::wire::lemma_lookup_field};

    if let EventKind::ToolHostedInvoked { tool_name, provider_call_id, call_id, response_id, args_json, truncated } = event.kind {
        lemma_envelope_is_written(event, fields);
        crate::wire_laws::lemma_envelope_alone(event@);
        crate::wire_laws::lemma_key_codes();
        let views = crate::wire::field_views(fields);
        assert(crate::wire::lookup(views, "tool_name"@) == Some(crate::wire::WireView::Text(tool_name@)));
        lemma_writes(fields, "tool_name"@, Some(crate::wire::WireView::Text(tool_name@)));
        assert(crate::wire::lookup(views, "provider_call_id"@) == crate::wire::opt_text(provider_call_id.deep_view()));
        lemma_writes(fields, "provider_call_id"@, crate::wire::opt_text(provider_call_id.deep_view()));
        assert(crate::wire::lookup(views, "call_id"@) == Some(crate::wire::WireView::Text(call_id@)));
        lemma_writes(fields, "call_id"@, Some(crate::wire::WireView::Text(call_id@)));
        assert(crate::wire::lookup(views, "response_id"@) == crate::wire::opt_text(response_id.deep_view()));
        lemma_writes(fields, "response_id"@, crate::wire::opt_text(response_id.deep_view()));
        assert(crate::wire::lookup(views, "args_json"@) == Some(crate::wire::WireView::Text(args_json@)));
        lemma_writes(fields, "args_json"@, Some(crate::wire::WireView::Text(args_json@)));
        assert(crate::wire::lookup(views, "truncated"@) == Some(crate::wire::WireView::Flag(truncated)));
        lemma_writes(fields, "truncated"@, Some(crate::wire::WireView::Flag(truncated)));
    }
}

/// A list of fields is read as a `tool.hosted_invoked` event if and only if it holds
/// the envelope of that event, names the kind by its name or its number, and
/// holds each member under its own name.
pub proof fn lemma_tool_hosted_invoked_is_read(
    event: ObservabilityEvent,
    fields: Seq<(String, WireValue)>,
)
    ensures
        event.kind matches EventKind::ToolHostedInvoked { tool_name, provider_call_id, call_id, response_id, args_json, truncated } ==> (crate::wire::decoded_event(
            crate::wire::field_views(fields),
        ) == Some(event@) <==> {
            &&& envelope_given(event, fields)
            &&& text_at(fields, "kind"@, "tool.hosted_invoked"@) || count_at(fields, "kind"@, 8)
            &&& text_at(fields, "tool_name"@, tool_name@)
            &&& opt_text_given(fields, "provider_call_id"@, provider_call_id)
            &&& text_at(fields, "call_id"@, call_id@)
            &&& opt_text_given(fields, "response_id"@, response_id)
            &&& text_at(fields, "args_json"@, args_json@)
            &&& flag_at(fields, "truncated"@, truncated)
        }),
{
    if let EventKind::ToolHostedInvoked { tool_name, provider_call_id, call_id, response_id, args_json, truncated } = event.kind {
        lemma_envelope_is_read(event, fields);
        crate::wire_laws::lemma_kind_codes();
        lemma_kind_is_read("tool.hosted_invoked"@, 8, event.kind@, fields);
        lemma_reads_text(fields, "tool_name"@, tool_name@);
        lemma_reads_opt_text(fields, "provider_call_id"@, provider_call_id);
        lemma_reads_text(fields, "call_id"@, call_id@);
        lemma_reads_opt_text(fields, "response_id"@, response_id);
        lemma_reads_text(fields, "args_json"@, args_json@);
        lemma_reads_flag(fields, "truncated"@, truncated);
    }
}

/// A `tool.hosted_completed` event on the wire: under each name of the schema stands the
/// member of that name, and nothing where it is left out.
pub proof fn lemma_tool_hosted_completed_is_written(
    event: ObservabilityEvent,
    fields: Seq<(String, WireValue)>,
)
    requires
        crate::wire::field_views(fields) == crate::wire::event_fields(event@),
    ensures
        event.kind matches EventKind::ToolHostedCompleted { tool_name, provider_call_id, call_id, response_id, status, result, truncated, duration_ms } ==> {
            &&& text_at(fields, "kind"@, "tool.hosted_completed"@)
            &&& text_at(fields, "tool_name"@, tool_name@)
            &&& opt_text_written(fields, "provider_call_id"@, provider_call_id)
            &&& text_at(fields, "call_id"@, call_id@)
            &&& opt_text_written(fields, "response_id"@, response_id)
            &&& opt_text_written(fields, "status"@, status)
            &&& text_at(fields, "result"@, result@)
            &&& flag_at(fields, "truncated"@, truncated)
            &&& opt_count_written(fields, "duration_ms"@, duration_ms)
        },
{
    broadcast use {crate::wire::lemma_lookup_join, crate::wire::lemma_lookup_field};

    if let EventKind::ToolHostedCompleted { tool_name, provider_call_id, call_id, response_id, status, result, truncated, duration_ms } = event.kind {
        lemma_envelope_is_written(event, fields);
        crate::wire_laws::lemma_envelope_alone(event@);
        crate::wire_laws::lemma_key_codes();
        let views = crate::wire::field_views(fields);
        assert(crate::wire::lookup(views, "tool_name"@) == Some(crate::wire::WireView::Text(tool_name@)));
        lemma_writes(fields, "tool_name"@, Some(crate::wire::WireView::Text(tool_name@)));
        assert(crate::wire::lookup(views, "provider_call_id"@) == crate::wire::opt_text(provider_call_id.deep_view()));
        lemma_writes(fields, "provider_call_id"@, crate::wire::opt_text(provider_call_id.deep_view()));
        assert(crate::wire::lookup(views, "call_id"@) == Some(crate::wire::WireView::Text(call_id@)));
        lemma_writes(fields, "call_id"@, Some(crate::wire::WireView::Text(call_id@)));
        assert(crate::wire::lookup(views, "response_id"@) == crate::wire::opt_text(response_id.deep_view()));
        lemma_writes(fields, "response_id"@, crate::wire::opt_text(response_id.deep_view()));
        assert(crate::wire::lookup(views, "status"@) == crate::wire::opt_text(status.deep_view()));
        lemma_writes(fields, "status"@, crate::wire::opt_text(status.deep_view()));
        assert(crate::wire::lookup(views, "result"@) == Some(crate::wire::WireView::Text(result@)));
        lemma_writes(fields, "result"@, Some(crate::wire::WireView::Text(result@)));
        assert(crate::wire::lookup(views, "truncated"@) == Some(crate::wire::WireView::Flag(truncated)));
        lemma_writes(fields, "truncated"@, Some(crate::wire::WireView::Flag(truncated)));
        assert(crate::wire::lookup(views, "duration_ms"@) == crate::wire::opt_number(duration_ms));
        lemma_writes(fields, "duration_ms"@, crate::wire::opt_number(duration_ms));
    }
}

/// A list of fields is read as a `tool.hosted_completed` event if and only if it holds
/// the envelope of that event, names the kind by its name or its number, and
/// holds each member under its own name.
pub proof fn lemma_tool_hosted_completed_is_read(
    event: ObservabilityEvent,
    fields: Seq<(String, WireValue)>,
)
    ensures
        event.kind matches EventKind::ToolHostedCompleted { tool_name, provider_call_id, call_id, response_id, status, result, truncated, duration_ms } ==> (crate::wire::decoded_event(
            crate::wire::field_views(fields),
        ) == Some(event@) <==> {
            &&& envelope_given(event, fields)
            &&& text_at(fields, "kind"@, "tool.hosted_completed"@) || count_at(fields, "kind"@, 9)
            &&& text_at(fields, "tool_name"@, tool_name@)
            &&& opt_text_given(fields, "provider_call_id"@, provider_call_id)
            &&& text_at(fields, "call_id"@, call_id@)
            &&& opt_text_given(fields, "response_id"@, response_id)
            &&& opt_text_given(fields, "status"@, status)
            &&& text_at(fields, "result"@, result@)
            &&& flag_at(fields, "truncated"@, truncated)
            &&& opt_count_given(fields, "duration_ms"@, duration_ms)
        }),
{
    if let EventKind::ToolHostedCompleted { tool_name, provider_call_id, call_id, response_id, status, result, truncated, duration_ms } = event.kind {
        lemma_envelope_is_read(event, fields);
        crate::wire_laws::lemma_kind_codes();
        lemma_kind_is_read("tool.hosted_completed"@, 9, event.kind@, fields);
        lemma_reads_text(fields, "tool_name"@, tool_name@);
        lemma_reads_opt_text(fields, "provider_call_id"@, provider_call_id);
        lemma_reads_text(fields, "call_id"@, call_id@);
        lemma_reads_opt_text(fields, "response_id"@, response_id);
        lemma_reads_opt_text(fields, "status"@, status);
        lemma_reads_text(fields, "result"@, result@);
        lemma_reads_flag(fields, "truncated"@, truncated);
        lemma_reads_opt_count(fields, "duration_ms"@, duration_ms);
    }
}

/// A `context.sampled` event on the wire: under each name of the schema stands the
/// member of that name, and nothing where it is left out.
pub proof fn lemma_context_sampled_is_written(
    event: ObservabilityEvent,
    fields: Seq<(String, WireValue)>,
)
    requires
        crate::wire::field_views(fields) == crate::wire::event_fields(event@),
    ensures
        event.kind matches EventKind::ContextSampled { message_count, byte_size, token_estimate } ==> {
            &&& text_at(fields, "kind"@, "context.sampled"@)
            &&& count_at(fields, "message_count"@, message_count as u64)
            &&& count_at(fields, "byte_size"@, byte_size as u64)
            &&& opt_count_written(fields, "token_estimate"@, token_estimate)
        },
{
    broadcast use {crate::wire::lemma_lookup_join, crate::wire::lemma_lookup_field};

    if let EventKind::ContextSampled { message_count, byte_size, token_estimate } = event.kind {
        lemma_envelope_is_written(event, fields);
        crate::wire_laws::lemma_envelope_alone(event@);
        crate::wire_laws::lemma_key_codes();
        let views = crate::wire::field_views(fields);
        assert(crate::wire::lookup(views, "message_count"@) == Some(crate::wire::number(message_count as u64)));
        lemma_writes(fields, "message_count"@, Some(crate::wire::number(message_count as u64)));
        assert(crate::wire::lookup(views, "byte_size"@) == Some(crate::wire::number(byte_size as u64)));
        lemma_writes(fields, "byte_size"@, Some(crate::wire::number(byte_size as u64)));
        assert(crate::wire::lookup(views, "token_estimate"@) == crate::wire::opt_number(token_estimate));
        lemma_writes(fields, "token_estimate"@, crate::wire::opt_number(token_estimate));
    }
}

/// A list of fields is read as a `context.sampled` event if and only if it holds
/// the envelope of that event, names the kind by its name or its number, and
/// holds each member under its own name.
pub proof fn lemma_context_sampled_is_read(
    event: ObservabilityEvent,
    fields: Seq<(String, WireValue)>,
)
    ensures
        event.kind matches EventKind::ContextSampled { message_count, byte_size, token_estimate } ==> (crate::wire::decoded_event(
            crate::wire::field_views(fields),
        ) == Some(event@) <==> {
            &&& envelope_given(event, fields)
            &&& text_at(fields, "kind"@, "context.sampled"@) || count_at(fields, "kind"@, 10)
            &&& count_at(fields, "message_count"@, message_count as u64)
            &&& count_at(fields, "byte_size"@, byte_size as u64)
            &&& opt_count_given(fields, "token_estimate"@, token_estimate)
        }),
{
    if let EventKind::ContextSampled { message_count, byte_size, token_estimate } = event.kind {
        lemma_envelope_is_read(event, fields);
        crate::wire_laws::lemma_kind_codes();
        lemma_kind_is_read("context.sampled"@, 10, event.kind@, fields);
        lemma_reads_size(fields, "message_count"@, message_count);
        lemma_reads_size(fields, "byte_size"@, byte_size);
        lemma_reads_opt_count(fields, "token_estimate"@, token_estimate);
    }
}

/// A `context.persisted` event on the wire: under each name of the schema stands the
/// member of that name, and nothing where it is left out.
pub proof fn lemma_context_persisted_is_written(
    event: ObservabilityEvent,
    fields: Seq<(String, WireValue)>,
)
    requires
        crate::wire::field_views(fields) == crate::wire::event_fields(event@),
    ensures
        event.kind matches EventKind::ContextPersisted { message_count, byte_size } ==> {
            &&& text_at(fields, "kind"@, "context.persisted"@)
            &&& count_at(fields, "message_count"@, message_count as u64)
            &&& count_at(fields, "byte_size"@, byte_size as u64)
        },
{
    broadcast use {crate::wire::lemma_lookup_join, crate::wire::lemma_lookup_field};

    if let EventKind::ContextPersisted { message_count, byte_size } = event.kind {
        lemma_envelope_is_written(event, fields);
        crate::wire_laws::lemma_envelope_alone(event@);
        crate::wire_laws::lemma_key_codes();
        let views = crate::wire::field_views(fields);
        assert(crate::wire::lookup(views, "message_count"@) == Some(crate::wire::number(message_count as u64)));
        lemma_writes(fields, "message_count"@, Some(crate::wire::number(message_count as u64)));
        assert(crate::wire::lookup(views, "byte_size"@) == Some(crate::wire::number(byte_size as u64)));
        lemma_writes(fields, "byte_size"@, Some(crate::wire::number(byte_size as u64)));
    }
}

/// A list of fields is read as a `context.persisted` event if and only if it holds
/// the envelope of that event, names the kind by its name or its number, and
/// holds each member under its own name.
pub proof fn lemma_context_persisted_is_read(
    event: ObservabilityEvent,
    fields: Seq<(String, WireValue)>,
)
    ensures
        event.kind matches EventKind::ContextPersisted { message_count, byte_size } ==> (crate::wire::decoded_event(
            crate::wire::field_views(fields),
        ) == Some(event@) <==> {
            &&& envelope_given(event, fields)
            &&& text_at(fields, "kind"@, "context.persisted"@) || count_at(fields, "kind"@, 11)
            &&& count_at(fields, "message_count"@, message_count as u64)
            &&& count_at(fields, "byte_size"@, byte_size as u64)
        }),
{
    if let EventKind::ContextPersisted { message_count, byte_size } = event.kind {
        lemma_envelope_is_read(event, fields);
        crate::wire_laws::lemma_kind_codes();
        lemma_kind_is_read("context.persisted"@, 11, event.kind@, fields);
        lemma_reads_size(fields, "message_count"@, message_count);
        lemma_reads_size(fields, "byte_size"@, byte_size);
    }
}

/// A `context.compacted` event on the wire: under each name of the schema stands the
/// member of that name, and nothing where it is left out.
pub proof fn lemma_context_compacted_is_written(
    event: ObservabilityEvent,
    fields: Seq<(String, WireValue)>,
)
    requires
        crate::wire::field_views(fields) == crate::wire::event_fields(event@),
    ensures
        event.kind matches EventKind::ContextCompacted { evicted_count, evicted_bytes, carry_over, summary_bytes } ==> {
            &&& text_at(fields, "kind"@, "context.compacted"@)
            &&& count_at(fields, "evicted_count"@, evicted_count as u64)
            &&& count_at(fields, "evicted_bytes"@, evicted_bytes as u64)
            &&& flag_at(fields, "carry_over"@, carry_over)
            &&& count_at(fields, "summary_bytes"@, summary_bytes as u64)
        },
{
    broadcast use {crate::wire::lemma_lookup_join, crate::wire::lemma_lookup_field};

    if let EventKind::ContextCompacted { evicted_count, evicted_bytes, carry_over, summary_bytes } = event.kind {
        lemma_envelope_is_written(event, fields);
        crate::wire_laws::lemma_envelope_alone(event@);
        crate::wire_laws::lemma_key_codes();
        let views = crate::wire::field_views(fields);
        assert(crate::wire::lookup(views, "evicted_count"@) == Some(crate::wire::number(evicted_count as u64)));
        lemma_writes(fields, "evicted_count"@, Some(crate::wire::number(evicted_count as u64)));
        assert(crate::wire::lookup(views, "evicted_bytes"@) == Some(crate::wire::number(evicted_bytes as u64)));
        lemma_writes(fields, "evicted_bytes"@, Some(crate::wire::number(evicted_bytes as u64)));
        assert(crate::wire::lookup(views, "carry_over"@) == Some(crate::wire::WireView::Flag(carry_over)));
        lemma_writes(fields, "carry_over"@, Some(crate::wire::WireView::Flag(carry_over)));
        assert(crate::wire::lookup(views, "summary_bytes"@) == Some(crate::wire::number(summary_bytes as u64)));
        lemma_writes(fields, "summary_bytes"@, Some(crate::wire::number(summary_bytes as u64)));
    }
}

/// A list of fields is read as a `context.compacted` event if and only if it holds
/// the envelope of that event, names the kind by its name or its number, and
/// holds each member under its own name.
pub proof fn lemma_context_compacted_is_read(
    event: ObservabilityEvent,
    fields: Seq<(String, WireValue)>,
)
    ensures
        event.kind matches EventKind::ContextCompacted { evicted_count, evicted_bytes, carry_over, summary_bytes } ==> (crate::wire::decoded_event(
            crate::wire::field_views(fields),
        ) == Some(event@) <==> {
            &&& envelope_given(event, fields)
            &&& text_at(fields, "kind"@, "context.compacted"@) || count_at(fields, "kind"@, 12)
            &&& count_at(fields, "evicted_count"@, evicted_count as u64)
            &&& count_at(fields, "evicted_bytes"@, evicted_bytes as u64)
            &&& flag_at(fields, "carry_over"@, carry_over)
            &&& count_at(fields, "summary_bytes"@, summary_bytes as u64)
        }),
{
    if let EventKind::ContextCompacted { evicted_count, evicted_bytes, carry_over, summary_bytes } = event.kind {
        lemma_envelope_is_read(event, fields);
        crate::wire_laws::lemma_kind_codes();
        lemma_kind_is_read("context.compacted"@, 12, event.kind@, fields);
        lemma_reads_size(fields, "evicted_count"@, evicted_count);
        lemma_reads_size(fields, "evicted_bytes"@, evicted_bytes);
        lemma_reads_flag(fields, "carry_over"@, carry_over);
        lemma_reads_size(fields, "summary_bytes"@, summary_bytes);
    }
}

/// A `memory.demoted` event on the wire: under each name of the schema stands the
/// member of that name, and nothing where it is left out.
pub proof fn lemma_memory_demoted_is_written(
    event: ObservabilityEvent,
    fields: Seq<(String, WireValue)>,
)
    requires
        crate::wire::field_views(fields) == crate::wire::event_fields(event@),
    ensures
        event.kind matches EventKind::MemoryDemoted { demoted_count, tags } ==> {
            &&& text_at(fields, "kind"@, "memory.demoted"@)
            &&& count_at(fields, "demoted_count"@, demoted_count as u64)
            &&& texts_at(fields, "tags"@, tags.deep_view())
        },
{
    broadcast use {crate::wire::lemma_lookup_join, crate::wire::lemma_lookup_field};

    if let EventKind::MemoryDemoted { demoted_count, tags } = event.kind {
        lemma_envelope_is_written(event, fields);
        crate::wire_laws::lemma_envelope_alone(event@);
        crate::wire_laws::lemma_key_codes();
        let views = crate::wire::field_views(fields);
        assert(crate::wire::lookup(views, "demoted_count"@) == Some(crate::wire::number(demoted_count as u64)));
        lemma_writes(fields, "demoted_count"@, Some(crate::wire::number(demoted_count as u64)));
        assert(crate::wire::lookup(views, "tags"@) == Some(crate::wire::WireView::Texts(tags.deep_view())));
        lemma_writes(fields, "tags"@, Some(crate::wire::WireView::Texts(tags.deep_view())));
    }
}

/// A list of fields is read as a `memory.demoted` event if and only if it holds
/// the envelope of that event, names the kind by its name or its number, and
/// holds each member under its own name.
pub proof fn lemma_memory_demoted_is_read(
    event: ObservabilityEvent,
    fields: Seq<(String, WireValue)>,
)
    ensures
        event.kind matches EventKind::MemoryDemoted { demoted_count, tags } ==> (crate::wire::decoded_event(
            crate::wire::field_views(fields),
        ) == Some(event@) <==> {
            &&& envelope_given(event, fields)
            &&& text_at(fields, "kind"@, "memory.demoted"@) || count_at(fields, "kind"@, 13)
            &&& count_at(fields, "demoted_count"@, demoted_count as u64)
            &&& texts_at(fields, "tags"@, tags.deep_view())
        }),
{
    if let EventKind::MemoryDemoted { demoted_count, tags } = event.kind {
        lemma_envelope_is_read(event, fields);
        crate::wire_laws::lemma_kind_codes();
        lemma_kind_is_read("memory.demoted"@, 13, event.kind@, fields);
        lemma_reads_size(fields, "demoted_count"@, demoted_count);
        lemma_reads_texts(fields, "tags"@, tags.deep_view());
    }
}

/// A `memory.frame_written` event on the wire: under each name of the schema stands the
/// member of that name, and nothing where it is left out.
pub proof fn lemma_memory_frame_written_is_written(
    event: ObservabilityEvent,
    fields: Seq<(String, WireValue)>,
)
    requires
        crate::wire::field_views(fields) == crate::wire::event_fields(event@),
    ensures
        event.kind matches EventKind::MemoryFrameWritten { frame_kind, frame_count_after, bytes_written } ==> {
            &&& text_at(fields, "kind"@, "memory.frame_written"@)
            &&& text_at(fields, "frame_kind"@, frame_kind@)
            &&& opt_count_written(fields, "frame_count_after"@, frame_count_after)
            &&& count_at(fields, "bytes_written"@, bytes_written as u64)
        },
{
    broadcast use {crate::wire::lemma_lookup_join, crate::wire::lemma_lookup_field};

    if let EventKind::MemoryFrameWritten { frame_kind, frame_count_after, bytes_written } = event.kind {
        lemma_envelope_is_written(event, fields);
        crate::wire_laws::lemma_envelope_alone(event@);
        crate::wire_laws::lemma_key_codes();
        let views = crate::wire::field_views(fields);
        assert(crate::wire::lookup(views, "frame_kind"@) == Some(crate::wire::WireView::Text(frame_kind@)));
        lemma_writes(fields, "frame_kind"@, Some(crate::wire::WireView::Text(frame_kind@)));
        assert(crate::wire::lookup(views, "frame_count_after"@) == crate::wire::opt_number(frame_count_after));
        lemma_writes(fields, "frame_count_after"@, crate::wire::opt_number(frame_count_after));
        assert(crate::wire::lookup(views, "bytes_written"@) == Some(crate::wire::number(bytes_written as u64)));
        lemma_writes(fields, "bytes_written"@, Some(crate::wire::number(bytes_written as u64)));
    }
}

/// A list of fields is read as a `memory.frame_written` event if and only if it holds
/// the envelope of that event, names the kind by its name or its number, and
/// holds each member under its own name.
pub proof fn lemma_memory_frame_written_is_read(
    event: ObservabilityEvent,
    fields: Seq<(String, WireValue)>,
)
    ensures
        event.kind matches EventKind::MemoryFrameWritten { frame_kind, frame_count_after, bytes_written } ==> (crate::wire::decoded_event(
            crate::wire::field_views(fields),
        ) == Some(event@) <==> {
            &&& envelope_given(event, fields)
            &&& text_at(fields, "kind"@, "memory.frame_written"@) || count_at(fields, "kind"@, 14)
            &&& text_at(fields, "frame_kind"@, frame_kind@)
            &&& opt_count_given(fields, "frame_count_after"@, frame_count_after)
            &&& count_at(fields, "bytes_written"@, bytes_written as u64)
        }),
{
    if let EventKind::MemoryFrameWritten { frame_kind, frame_count_after, bytes_written } = event.kind {
        lemma_envelope_is_read(event, fields);
        crate::wire_laws::lemma_kind_codes();
        lemma_kind_is_read("memory.frame_written"@, 14, event.kind@, fields);
        lemma_reads_text(fields, "frame_kind"@, frame_kind@);
        lemma_reads_opt_count(fields, "frame_count_after"@, frame_count_after);
        lemma_reads_size(fields, "bytes_written"@, bytes_written);
    }
}

/// A `compose.kernel_start` event on the wire: under each name of the schema stands the
/// member of that name, and nothing where it is left out.
pub proof fn lemma_compose_kernel_start_is_written(
    event: ObservabilityEvent,
    fields: Seq<(String, WireValue)>,
)
    requires
        crate::wire::field_views(fields) == crate::wire::event_fields(event@),
    ensures
        event.kind matches EventKind::ComposeKernelStart { kernel_id, skills_registered, tools_registered } ==> {
            &&& text_at(fields, "kind"@, "compose.kernel_start"@)
            &&& text_at(fields, "kernel_id"@, kernel_id@)
            &&& opt_count_written(fields, "skills_registered"@, size_count(skills_registered))
            &&& opt_count_written(fields, "tools_registered"@, size_count(tools_registered))
        },
{
    broadcast use {crate::wire::lemma_lookup_join, crate::wire::lemma_lookup_field};

    if let EventKind::ComposeKernelStart { kernel_id, skills_registered, tools_registered } = event.kind {
        lemma_envelope_is_written(event, fields);
        crate::wire_laws::lemma_envelope_alone(event@);
        crate::wire_laws::lemma_key_codes();
        let views = crate::wire::field_views(fields);
        assert(crate::wire::lookup(views, "kernel_id"@) == Some(crate::wire::WireView::Text(kernel_id@)));
        lemma_writes(fields, "kernel_id"@, Some(crate::wire::WireView::Text(kernel_id@)));
        assert(crate::wire::lookup(views, "skills_registered"@) == crate::wire::opt_size(skills_registered));
        lemma_writes(fields, "skills_registered"@, crate::wire::opt_size(skills_registered));
        assert(crate::wire::lookup(views, "tools_registered"@) == crate::wire::opt_size(tools_registered));
        lemma_writes(fields, "tools_registered"@, crate::wire::opt_size(tools_registered));
    }
}

/// A list of fields is read as a `compose.kernel_start` event if and only if it holds
/// the envelope of that event, names the kind by its name or its number, and
/// holds each member under its own name.
pub proof fn lemma_compose_kernel_start_is_read(
    event: ObservabilityEvent,
    fields: Seq<(String, WireValue)>,
)
    ensures
        event.kind matches EventKind::ComposeKernelStart { kernel_id, skills_registered, tools_registered } ==> (crate::wire::decoded_event(
            crate::wire::field_views(fields),
        ) == Some(event@) <==> {
            &&& envelope_given(event, fields)
            &&& text_at(fields, "kind"@, "compose.kernel_start"@) || count_at(fields, "kind"@, 15)
            &&& text_at(fields, "kernel_id"@, kernel_id@)
            &&& opt_count_given(fields, "skills_registered"@, size_count(skills_registered))
            &&& opt_count_given(fields, "tools_registered"@, size_count(tools_registered))
        }),
{
    if let EventKind::ComposeKernelStart { kernel_id, skills_registered, tools_registered } = event.kind {
        lemma_envelope_is_read(event, fields);
        crate::wire_laws::lemma_kind_codes();
        lemma_kind_is_read("compose.kernel_start"@, 15, event.kind@, fields);
        lemma_reads_text(fields, "kernel_id"@, kernel_id@);
        lemma_reads_opt_size(fields, "skills_registered"@, skills_registered);
        lemma_reads_opt_size(fields, "tools_registered"@, tools_registered);
    }
}

/// A `compose.kernel_shutdown` event on the wire: under each name of the schema stands the
/// member of that name, and nothing where it is left out.
pub proof fn lemma_compose_kernel_shutdown_is_written(
    event: ObservabilityEvent,
    fields: Seq<(String, WireValue)>,
)
    requires
        crate::wire::field_views(fields) == crate::wire::event_fields(event@),
    ensures
        event.kind matches EventKind::ComposeKernelShutdown { kernel_id, reason } ==> {
            &&& text_at(fields, "kind"@, "compose.kernel_shutdown"@)
            &&& text_at(fields, "kernel_id"@, kernel_id@)
            &&& text_at(fields, "reason"@, reason@)
        },
{
    broadcast use {crate::wire::lemma_lookup_join, crate::wire::lemma_lookup_field};

    if let EventKind::ComposeKernelShutdown { kernel_id, reason } = event.kind {
        lemma_envelope_is_written(event, fields);
        crate::wire_laws::lemma_envelope_alone(event@);
        crate::wire_laws::lemma_key_codes();
        let views = crate::wire::field_views(fields);
        assert(crate::wire::lookup(views, "kernel_id"@) == Some(crate::wire::WireView::Text(kernel_id@)));
        lemma_writes(fields, "kernel_id"@, Some(crate::wire::WireView::Text(kernel_id@)));
        assert(crate::wire::lookup(views, "reason"@) == Some(crate::wire::WireView::Text(reason@)));
        lemma_writes(fields, "reason"@, Some(crate::wire::WireView::Text(reason@)));
    }
}

/// A list of fields is read as a `compose.kernel_shutdown` event if and only if it holds
/// the envelope of that event, names the kind by its name or its number, and
/// holds each member under its own name.
pub proof fn lemma_compose_kernel_shutdown_is_read(
    event: ObservabilityEvent,
    fields: Seq<(String, WireValue)>,
)
    ensures
        event.kind matches EventKind::ComposeKernelShutdown { kernel_id, reason } ==> (crate::wire::decoded_event(
            crate::wire::field_views(fields),
        ) == Some(event@) <==> {
            &&& envelope_given(event, fields)
            &&& text_at(fields, "kind"@, "compose.kernel_shutdown"@) || count_at(fields, "kind"@, 16)
            &&& text_at(fields, "kernel_id"@, kernel_id@)
            &&& text_at(fields, "reason"@, reason@)
        }),
{
    if let EventKind::ComposeKernelShutdown { kernel_id, reason } = event.kind {
        lemma_envelope_is_read(event, fields);
        crate::wire_laws::lemma_kind_codes();
        lemma_kind_is_read("compose.kernel_shutdown"@, 16, event.kind@, fields);
        lemma_reads_text(fields, "kernel_id"@, kernel_id@);
        lemma_reads_text(fields, "reason"@, reason@);
    }
}

/// A `compose.loop_iteration` event on the wire: under each name of the schema stands the
/// member of that name, and nothing where it is left out.
pub proof fn lemma_compose_loop_iteration_is_written(
    event: ObservabilityEvent,
    fields: Seq<(String, WireValue)>,
)
    requires
        crate::wire::field_views(fields) == crate::wire::event_fields(event@),
    ensures
        event.kind matches EventKind::ComposeLoopIteration { kernel_id, iteration, skill_id, confidence } ==> {
            &&& text_at(fields, "kind"@, "compose.loop_iteration"@)
            &&& text_at(fields, "kernel_id"@, kernel_id@)
            &&& count_at(fields, "iteration"@, iteration)
            &&& opt_text_written(fields, "skill_id"@, skill_id)
            &&& opt_double_written(fields, "confidence"@, confidence)
        },
{
    broadcast use {crate::wire::lemma_lookup_join, crate::wire::lemma_lookup_field};

    if let EventKind::ComposeLoopIteration { kernel_id, iteration, skill_id, confidence } = event.kind {
        lemma_envelope_is_written(event, fields);
        crate::wire_laws::lemma_envelope_alone(event@);
        crate::wire_laws::lemma_key_codes();
        let views = crate::wire::field_views(fields);
        assert(crate::wire::lookup(views, "kernel_id"@) == Some(crate::wire::WireView::Text(kernel_id@)));
        lemma_writes(fields, "kernel_id"@, Some(crate::wire::WireView::Text(kernel_id@)));
        assert(crate::wire::lookup(views, "iteration"@) == Some(crate::wire::number(iteration)));
        lemma_writes(fields, "iteration"@, Some(crate::wire::number(iteration)));
        assert(crate::wire::lookup(views, "skill_id"@) == crate::wire::opt_text(skill_id.deep_view()));
        lemma_writes(fields, "skill_id"@, crate::wire::opt_text(skill_id.deep_view()));
        assert(crate::wire::lookup(views, "confidence"@) == crate::wire::opt_double(confidence));
        lemma_writes(fields, "confidence"@, crate::wire::opt_double(confidence));
    }
}

/// A list of fields is read as a `compose.loop_iteration` event if and only if it holds
/// the envelope of that event, names the kind by its name or its number, and
/// holds each member under its own name.
pub proof fn lemma_compose_loop_iteration_is_read(
    event: ObservabilityEvent,
    fields: Seq<(String, WireValue)>,
)
    ensures
        event.kind matches EventKind::ComposeLoopIteration { kernel_id, iteration, skill_id, confidence } ==> (crate::wire::decoded_event(
            crate::wire::field_views(fields),
        ) == Some(event@) <==> {
            &&& envelope_given(event, fields)
            &&& text_at(fields, "kind"@, "compose.loop_iteration"@) || count_at(fields, "kind"@, 17)
            &&& text_at(fields, "kernel_id"@, kernel_id@)
            &&& count_at(fields, "iteration"@, iteration)
            &&& opt_text_given(fields, "skill_id"@, skill_id)
            &&& opt_double_given(fields, "confidence"@, confidence)
        }),
{
    if let EventKind::ComposeLoopIteration { kernel_id, iteration, skill_id, confidence } = event.kind {
        lemma_envelope_is_read(event, fields);
        crate::wire_laws::lemma_kind_codes();
        lemma_kind_is_read("compose.loop_iteration"@, 17, event.kind@, fields);
        lemma_reads_text(fields, "kernel_id"@, kernel_id@);
        lemma_reads_count(fields, "iteration"@, iteration);
        lemma_reads_opt_text(fields, "skill_id"@, skill_id);
        lemma_reads_opt_double(fields, "confidence"@, confidence);
    }
}

/// A `compose.skill_resolved` event on the wire: under each name of the schema stands the
/// member of that name, and nothing where it is left out.
pub proof fn lemma_compose_skill_resolved_is_written(
    event: ObservabilityEvent,
    fields: Seq<(String, WireValue)>,
)
    requires
        crate::wire::field_views(fields) == crate::wire::event_fields(event@),
    ensures
        event.kind matches EventKind::ComposeSkillResolved { kernel_id, skill_id, applies, delta, confidence } ==> {
            &&& text_at(fields, "kind"@, "compose.skill_resolved"@)
            &&& text_at(fields, "kernel_id"@, kernel_id@)
            &&& text_at(fields, "skill_id"@, skill_id@)
            &&& flag_at(fields, "applies"@, applies)
            &&& opt_double_written(fields, "delta"@, delta)
            &&& opt_double_written(fields, "confidence"@, confidence)
        },
{
    broadcast use {crate::wire::lemma_lookup_join, crate::wire::lemma_lookup_field};

    if let EventKind::ComposeSkillResolved { kernel_id, skill_id, applies, delta, confidence } = event.kind {
        lemma_envelope_is_written(event, fields);
        crate::wire_laws::lemma_envelope_alone(event@);
        crate::wire_laws::lemma_key_codes();
        let views = crate::wire::field_views(fields);
        assert(crate::wire::lookup(views, "kernel_id"@) == Some(crate::wire::WireView::Text(kernel_id@)));
        lemma_writes(fields, "kernel_id"@, Some(crate::wire::WireView::Text(kernel_id@)));
        assert(crate::wire::lookup(views, "skill_id"@) == Some(crate::wire::WireView::Text(skill_id@)));
        lemma_writes(fields, "skill_id"@, Some(crate::wire::WireView::Text(skill_id@)));
        assert(crate::wire::lookup(views, "applies"@) == Some(crate::wire::WireView::Flag(applies)));
        lemma_writes(fields, "applies"@, Some(crate::wire::WireView::Flag(applies)));
        assert(crate::wire::lookup(views, "delta"@) == crate::wire::opt_double(delta));
        lemma_writes(fields, "delta"@, crate::wire::opt_double(delta));
        assert(crate::wire::lookup(views, "confidence"@) == crate::wire::opt_double(confidence));
        lemma_writes(fields, "confidence"@, crate::wire::opt_double(confidence));
    }
}

/// A list of fields is read as a `compose.skill_resolved` event if and only if it holds
/// the envelope of that event, names the kind by its name or its number, and
/// holds each member under its own name.
pub proof fn lemma_compose_skill_resolved_is_read(
    event: ObservabilityEvent,
    fields: Seq<(String, WireValue)>,
)
    ensures
        event.kind matches EventKind::ComposeSkillResolved { kernel_id, skill_id, applies, delta, confidence } ==> (crate::wire::decoded_event(
            crate::wire::field_views(fields),
        ) == Some(event@) <==> {
            &&& envelope_given(event, fields)
            &&& text_at(fields, "kind"@, "compose.skill_resolved"@) || count_at(fields, "kind"@, 18)
            &&& text_at(fields, "kernel_id"@, kernel_id@)
            &&& text_at(fields, "skill_id"@, skill_id@)
            &&& flag_at(fields, "applies"@, applies)
            &&& opt_double_given(fields, "delta"@, delta)
            &&& opt_double_given(fields, "confidence"@, confidence)
        }),
{
    if let EventKind::ComposeSkillResolved { kernel_id, skill_id, applies, delta, confidence } = event.kind {
        lemma_envelope_is_read(event, fields);
        crate::wire_laws::lemma_kind_codes();
        lemma_kind_is_read("compose.skill_resolved"@, 18, event.kind@, fields);
        lemma_reads_text(fields, "kernel_id"@, kernel_id@);
        lemma_reads_text(fields, "skill_id"@, skill_id@);
        lemma_reads_flag(fields, "applies"@, applies);
        lemma_reads_opt_double(fields, "delta"@, delta);
        lemma_reads_opt_double(fields, "confidence"@, confidence);
    }
}

/// A `compose.retry_attempt` event on the wire: under each name of the schema stands the
/// member of that name, and nothing where it is left out.
pub proof fn lemma_compose_retry_attempt_is_written(
    event: ObservabilityEvent,
    fields: Seq<(String, WireValue)>,
)
    requires
        crate::wire::field_views(fields) == crate::wire::event_fields(event@),
    ensures
        event.kind matches EventKind::ComposeRetryAttempt { kernel_id, target, attempt, classification } ==> {
            &&& text_at(fields, "kind"@, "compose.retry_attempt"@)
            &&& text_at(fields, "kernel_id"@, kernel_id@)
            &&& text_at(fields, "target"@, target@)
            &&& count_at(fields, "attempt"@, attempt)
            &&& text_at(fields, "classification"@, classification@)
        },
{
    broadcast use {crate::wire::lemma_lookup_join, crate::wire::lemma_lookup_field};

    if let EventKind::ComposeRetryAttempt { kernel_id, target, attempt, classification } = event.kind {
        lemma_envelope_is_written(event, fields);
        crate::wire_laws::lemma_envelope_alone(event@);
        crate::wire_laws::lemma_key_codes();
        let views = crate::wire::field_views(fields);
        assert(crate::wire::lookup(views, "kernel_id"@) == Some(crate::wire::WireView::Text(kernel_id@)));
        lemma_writes(fields, "kernel_id"@, Some(crate::wire::WireView::Text(kernel_id@)));
        assert(crate::wire::lookup(views, "target"@) == Some(crate::wire::WireView::Text(target@)));
        lemma_writes(fields, "target"@, Some(crate::wire::WireView::Text(target@)));
        assert(crate::wire::lookup(views, "attempt"@) == Some(crate::wire::number(attempt)));
        lemma_writes(fields, "attempt"@, Some(crate::wire::number(attempt)));
        assert(crate::wire::lookup(views, "classification"@) == Some(crate::wire::WireView::Text(classification@)));
        lemma_writes(fields, "classification"@, Some(crate::wire::WireView::Text(classification@)));
    }
}

/// A list of fields is read as a `compose.retry_attempt` event if and only if it holds
/// the envelope of that event, names the kind by its name or its number, and
/// holds each member under its own name.
pub proof fn lemma_compose_retry_attempt_is_read(
    event: ObservabilityEvent,
    fields: Seq<(String, WireValue)>,
)
    ensures
        event.kind matches EventKind::ComposeRetryAttempt { kernel_id, target, attempt, classification } ==> (crate::wire::decoded_event(
            crate::wire::field_views(fields),
        ) == Some(event@) <==> {
            &&& envelope_given(event, fields)
            &&& text_at(fields, "kind"@, "compose.retry_attempt"@) || count_at(fields, "kind"@, 19)
            &&& text_at(fields, "kernel_id"@, kernel_id@)
            &&& text_at(fields, "target"@, target@)
            &&& count_at(fields, "attempt"@, attempt)
            &&& text_at(fields, "classification"@, classification@)
        }),
{
    if let EventKind::ComposeRetryAttempt { kernel_id, target, attempt, classification } = event.kind {
        lemma_envelope_is_read(event, fields);
        crate::wire_laws::lemma_kind_codes();
        lemma_kind_is_read("compose.retry_attempt"@, 19, event.kind@, fields);
        lemma_reads_text(fields, "kernel_id"@, kernel_id@);
        lemma_reads_text(fields, "target"@, target@);
        lemma_reads_count(fields, "attempt"@, attempt);
        lemma_reads_text(fields, "classification"@, classification@);
    }
}

/// A `compose.recovery` event on the wire: under each name of the schema stands the
/// member of that name, and nothing where it is left out.
pub proof fn lemma_compose_recovery_is_written(
    event: ObservabilityEvent,
    fields: Seq<(String, WireValue)>,
)
    requires
        crate::wire::field_views(fields) == crate::wire::event_fields(event@),
    ensures
        event.kind matches EventKind::ComposeRecovery { kernel_id, reason, recovered } ==> {
            &&& text_at(fields, "kind"@, "compose.recovery"@)
            &&& text_at(fields, "kernel_id"@, kernel_id@)
            &&& text_at(fields, "reason"@, reason@)
            &&& flag_at(fields, "recovered"@, recovered)
        },
{
    broadcast use {crate::wire::lemma_lookup_join, crate::wire::lemma_lookup_field};

    if let EventKind::ComposeRecovery { kernel_id, reason, recovered } = event.kind {
        lemma_envelope_is_written(event, fields);
        crate::wire_laws::lemma_envelope_alone(event@);
        crate::wire_laws::lemma_key_codes();
        let views = crate::wire::field_views(fields);
        assert(crate::wire::lookup(views, "kernel_id"@) == Some(crate::wire::WireView::Text(kernel_id@)));
        lemma_writes(fields, "kernel_id"@, Some(crate::wire::WireView::Text(kernel_id@)));
        assert(crate::wire::lookup(views, "reason"@) == Some(crate::wire::WireView::Text(reason@)));
        lemma_writes(fields, "reason"@, Some(crate::wire::WireView::Text(reason@)));
        assert(crate::wire::lookup(views, "recovered"@) == Some(crate::wire::WireView::Flag(recovered)));
        lemma_writes(fields, "recovered"@, Some(crate::wire::WireView::Flag(recovered)));
    }
}

/// A list of fields is read as a `compose.recovery` event if and only if it holds
/// the envelope of that event, names the kind by its name or its number, and
/// holds each member under its own name.
pub proof fn lemma_compose_recovery_is_read(
    event: ObservabilityEvent,
    fields: Seq<(String, WireValue)>,
)
    ensures
        event.kind matches EventKind::ComposeRecovery { kernel_id, reason, recovered } ==> (crate::wire::decoded_event(
            crate::wire::field_views(fields),
        ) == Some(event@) <==> {
            &&& envelope_given(event, fields)
            &&& text_at(fields, "kind"@, "compose.recovery"@) || count_at(fields, "kind"@, 20)
            &&& text_at(fields, "kernel_id"@, kernel_id@)
            &&& text_at(fields, "reason"@, reason@)
            &&& flag_at(fields, "recovered"@, recovered)
        }),
{
    if let EventKind::ComposeRecovery { kernel_id, reason, recovered } = event.kind {
        lemma_envelope_is_read(event, fields);
        crate::wire_laws::lemma_kind_codes();
        lemma_kind_is_read("compose.recovery"@, 20, event.kind@, fields);
        lemma_reads_text(fields, "kernel_id"@, kernel_id@);
        lemma_reads_text(fields, "reason"@, reason@);
        lemma_reads_flag(fields, "recovered"@, recovered);
    }
}

/// A `response.session_started` event on the wire: under each name of the schema stands the
/// member of that name, and nothing where it is left out.
pub proof fn lemma_response_session_started_is_written(
    event: ObservabilityEvent,
    fields: Seq<(String, WireValue)>,
)
    requires
        crate::wire::field_views(fields) == crate::wire::event_fields(event@),
    ensures
        event.kind matches EventKind::ResponseSessionStarted { model, session_id } ==> {
            &&& text_at(fields, "kind"@, "response.session_started"@)
            &&& text_at(fields, "model"@, model@)
            &&& text_at(fields, "session_id"@, session_id@)
        },
{
    broadcast use {crate::wire::lemma_lookup_join, crate::wire::lemma_lookup_field};

    if let EventKind::ResponseSessionStarted { model, session_id } = event.kind {
        lemma_envelope_is_written(event, fields);
        crate::wire_laws::lemma_envelope_alone(event@);
        crate::wire_laws::lemma_key_codes();
        let views = crate::wire::field_views(fields);
        assert(crate::wire::lookup(views, "model"@) == Some(crate::wire::WireView::Text(model@)));
        lemma_writes(fields, "model"@, Some(crate::wire::WireView::Text(model@)));
        assert(crate::wire::lookup(views, "session_id"@) == Some(crate::wire::WireView::Text(session_id@)));
        lemma_writes(fields, "session_id"@, Some(crate::wire::WireView::Text(session_id@)));
    }
}

/// A list of fields is read as a `response.session_started` event if and only if it holds
/// the envelope of that event, names the kind by its name or its number, and
/// holds each member under its own name.
pub proof fn lemma_response_session_started_is_read(
    event: ObservabilityEvent,
    fields: Seq<(String, WireValue)>,
)
    ensures
        event.kind matches EventKind::ResponseSessionStarted { model, session_id } ==> (crate::wire::decoded_event(
            crate::wire::field_views(fields),
        ) == Some(event@) <==> {
            &&& envelope_given(event, fields)
            &&& text_at(fields, "kind"@, "response.session_started"@) || count_at(fields, "kind"@, 21)
            &&& text_at(fields, "model"@, model@)
            &&& text_at(fields, "session_id"@, session_id@)
        }),
{
    if let EventKind::ResponseSessionStarted { model, session_id } = event.kind {
        lemma_envelope_is_read(event, fields);
        crate::wire_laws::lemma_kind_codes();
        lemma_kind_is_read("response.session_started"@, 21, event.kind@, fields);
        lemma_reads_text(fields, "model"@, model@);
        lemma_reads_text(fields, "session_id"@, session_id@);
    }
}

/// A `response.turn_started` event on the wire: under each name of the schema stands the
/// member of that name, and nothing where it is left out.
pub proof fn lemma_response_turn_started_is_written(
    event: ObservabilityEvent,
    fields: Seq<(String, WireValue)>,
)
    requires
        crate::wire::field_views(fields) == crate::wire::event_fields(event@),
    ensures
        event.kind matches EventKind::ResponseTurnStarted { session_id, previous_response_id } ==> {
            &&& text_at(fields, "kind"@, "response.turn_started"@)
            &&& text_at(fields, "session_id"@, session_id@)
            &&& opt_text_written(fields, "previous_response_id"@, previous_response_id)
        },
{
    broadcast use {crate::wire::lemma_lookup_join, crate::wire::lemma_lookup_field};

    if let EventKind::ResponseTurnStarted { session_id, previous_response_id } = event.kind {
        lemma_envelope_is_written(event, fields);
        crate::wire_laws::lemma_envelope_alone(event@);
        crate::wire_laws::lemma_key_codes();
        let views = crate::wire::field_views(fields);
        assert(crate::wire::lookup(views, "session_id"@) == Some(crate::wire::WireView::Text(session_id@)));
        lemma_writes(fields, "session_id"@, Some(crate::wire::WireView::Text(session_id@)));
        assert(crate::wire::lookup(views, "previous_response_id"@) == crate::wire::opt_text(previous_response_id.deep_view()));
        lemma_writes(fields, "previous_response_id"@, crate::wire::opt_text(previous_response_id.deep_view()));
    }
}

/// A list of fields is read as a `response.turn_started` event if and only if it holds
/// the envelope of that event, names the kind by its name or its number, and
/// holds each member under its own name.
pub proof fn lemma_response_turn_started_is_read(
    event: ObservabilityEvent,
    fields: Seq<(String, WireValue)>,
)
    ensures
        event.kind matches EventKind::ResponseTurnStarted { session_id, previous_response_id } ==> (crate::wire::decoded_event(
            crate::wire::field_views(fields),
        ) == Some(event@) <==> {
            &&& envelope_given(event, fields)
            &&& text_at(fields, "kind"@, "response.turn_started"@) || count_at(fields, "kind"@, 22)
            &&& text_at(fields, "session_id"@, session_id@)
            &&& opt_text_given(fields, "previous_response_id"@, previous_response_id)
        }),
{
    if let EventKind::ResponseTurnStarted { session_id, previous_response_id } = event.kind {
        lemma_envelope_is_read(event, fields);
        crate::wire_laws::lemma_kind_codes();
        lemma_kind_is_read("response.turn_started"@, 22, event.kind@, fields);
        lemma_reads_text(fields, "session_id"@, session_id@);
        lemma_reads_opt_text(fields, "previous_response_id"@, previous_response_id);
    }
}

/// A `response.turn_completed` event on the wire: under each name of the schema stands the
/// member of that name, and nothing where it is left out.
pub proof fn lemma_response_turn_completed_is_written(
    event: ObservabilityEvent,
    fields: Seq<(String, WireValue)>,
)
    requires
        crate::wire::field_views(fields) == crate::wire::event_fields(event@),
    ensures
        event.kind matches EventKind::ResponseTurnCompleted { session_id, response_id, previous_response_id, status, tokens_in, tokens_out, hosted_tool_calls, duration_ms } ==> {
            &&& text_at(fields, "kind"@, "response.turn_completed"@)
            &&& text_at(fields, "session_id"@, session_id@)
            &&& text_at(fields, "response_id"@, response_id@)
            &&& opt_text_written(fields, "previous_response_id"@, previous_response_id)
            &&& text_at(fields, "status"@, status@)
            &&& opt_count_written(fields, "tokens_in"@, tokens_in)
            &&& opt_count_written(fields, "tokens_out"@, tokens_out)
            &&& if hosted_tool_calls == 0 { absent(fields, "hosted_tool_calls"@) } else { count_at(fields, "hosted_tool_calls"@, hosted_tool_calls as u64) }
            &&& opt_count_written(fields, "duration_ms"@, duration_ms)
        },
{
    broadcast use {crate::wire::lemma_lookup_join, crate::wire::lemma_lookup_field};

    if let EventKind::ResponseTurnCompleted { session_id, response_id, previous_response_id, status, tokens_in, tokens_out, hosted_tool_calls, duration_ms } = event.kind {
        lemma_envelope_is_written(event, fields);
        crate::wire_laws::lemma_envelope_alone(event@);
        crate::wire_laws::lemma_key_codes();
        let views = crate::wire::field_views(fields);
        assert(crate::wire::lookup(views, "session_id"@) == Some(crate::wire::WireView::Text(session_id@)));
        lemma_writes(fields, "session_id"@, Some(crate::wire::WireView::Text(session_id@)));
        assert(crate::wire::lookup(views, "response_id"@) == Some(crate::wire::WireView::Text(response_id@)));
        lemma_writes(fields, "response_id"@, Some(crate::wire::WireView::Text(response_id@)));
        assert(crate::wire::lookup(views, "previous_response_id"@) == crate::wire::opt_text(previous_response_id.deep_view()));
        lemma_writes(fields, "previous_response_id"@, crate::wire::opt_text(previous_response_id.deep_view()));
        assert(crate::wire::lookup(views, "status"@) == Some(crate::wire::WireView::Text(status@)));
        lemma_writes(fields, "status"@, Some(crate::wire::WireView::Text(status@)));
        assert(crate::wire::lookup(views, "tokens_in"@) == crate::wire::opt_number(tokens_in));
        lemma_writes(fields, "tokens_in"@, crate::wire::opt_number(tokens_in));
        assert(crate::wire::lookup(views, "tokens_out"@) == crate::wire::opt_number(tokens_out));
        lemma_writes(fields, "tokens_out"@, crate::wire::opt_number(tokens_out));
        assert(crate::wire::lookup(views, "hosted_tool_calls"@) == crate::wire::nonzero(hosted_tool_calls));
        lemma_writes(fields, "hosted_tool_calls"@, crate::wire::nonzero(hosted_tool_calls));
        assert(crate::wire::lookup(views, "duration_ms"@) == crate::wire::opt_number(duration_ms));
        lemma_writes(fields, "duration_ms"@, crate::wire::opt_number(duration_ms));
    }
}

/// A list of fields is read as a `response.turn_completed` event if and only if it holds
/// the envelope of that event, names the kind by its name or its number, and
/// holds each member under its own name.
pub proof fn lemma_response_turn_completed_is_read(
    event: ObservabilityEvent,
    fields: Seq<(String, WireValue)>,
)
    ensures
        event.kind matches EventKind::ResponseTurnCompleted { session_id, response_id, previous_response_id, status, tokens_in, tokens_out, hosted_tool_calls, duration_ms } ==> (crate::wire::decoded_event(
            crate::wire::field_views(fields),
        ) == Some(event@) <==> {
            &&& envelope_given(event, fields)
            &&& text_at(fields, "kind"@, "response.turn_completed"@) || count_at(fields, "kind"@, 23)
            &&& text_at(fields, "session_id"@, session_id@)
            &&& text_at(fields, "response_id"@, response_id@)
            &&& opt_text_given(fields, "previous_response_id"@, previous_response_id)
            &&& text_at(fields, "status"@, status@)
            &&& opt_count_given(fields, "tokens_in"@, tokens_in)
            &&& opt_count_given(fields, "tokens_out"@, tokens_out)
            &&& count_at(fields, "hosted_tool_calls"@, hosted_tool_calls as u64) || (absent(fields, "hosted_tool_calls"@) && hosted_tool_calls == 0)
            &&& opt_count_given(fields, "duration_ms"@, duration_ms)
        }),
{
    if let EventKind::ResponseTurnCompleted { session_id, response_id, previous_response_id, status, tokens_in, tokens_out, hosted_tool_calls, duration_ms } = event.kind {
        lemma_envelope_is_read(event, fields);
        crate::wire_laws::lemma_kind_codes();
        lemma_kind_is_read("response.turn_completed"@, 23, event.kind@, fields);
        lemma_reads_text(fields, "session_id"@, session_id@);
        lemma_reads_text(fields, "response_id"@, response_id@);
        lemma_reads_opt_text(fields, "previous_response_id"@, previous_response_id);
        lemma_reads_text(fields, "status"@, status@);
        lemma_reads_opt_count(fields, "tokens_in"@, tokens_in);
        lemma_reads_opt_count(fields, "tokens_out"@, tokens_out);
        lemma_reads_zero_size(fields, "hosted_tool_calls"@, hosted_tool_calls);
        lemma_reads_opt_count(fields, "duration_ms"@, duration_ms);
    }
}

/// A `response.session_ended` event on the wire: under each name of the schema stands the
/// member of that name, and nothing where it is left out.
pub proof fn lemma_response_session_ended_is_written(
    event: ObservabilityEvent,
    fields: Seq<(String, WireValue)>,
)
    requires
        crate::wire::field_views(fields) == crate::wire::event_fields(event@),
    ensures
        event.kind matches EventKind::ResponseSessionEnded { session_id, reason } ==> {
            &&& text_at(fields, "kind"@, "response.session_ended"@)
            &&& text_at(fields, "session_id"@, session_id@)
            &&& text_at(fields, "reason"@, reason@)
        },
{
    broadcast use {crate::wire::lemma_lookup_join, crate::wire::lemma_lookup_field};

    if let EventKind::ResponseSessionEnded { session_id, reason } = event.kind {
        lemma_envelope_is_written(event, fields);
        crate::wire_laws::lemma_envelope_alone(event@);
        crate::wire_laws::lemma_key_codes();
        let views = crate::wire::field_views(fields);
        assert(crate::wire::lookup(views, "session_id"@) == Some(crate::wire::WireView::Text(session_id@)));
        lemma_writes(fields, "session_id"@, Some(crate::wire::WireView::Text(session_id@)));
        assert(crate::wire::lookup(views, "reason"@) == Some(crate::wire::WireView::Text(reason@)));
        lemma_writes(fields, "reason"@, Some(crate::wire::WireView::Text(reason@)));
    }
}

/// A list of fields is read as a `response.session_ended` event if and only if it holds
/// the envelope of that event, names the kind by its name or its number, and
/// holds each member under its own name.
pub proof fn lemma_response_session_ended_is_read(
    event: ObservabilityEvent,
    fields: Seq<(String, WireValue)>,
)
    ensures
        event.kind matches EventKind::ResponseSessionEnded { session_id, reason } ==> (crate::wire::decoded_event(
            crate::wire::field_views(fields),
        ) == Some(event@) <==> {
            &&& envelope_given(event, fields)
            &&& text_at(fields, "kind"@, "response.session_ended"@) || count_at(fields, "kind"@, 24)
            &&& text_at(fields, "session_id"@, session_id@)
            &&& text_at(fields, "reason"@, reason@)
        }),
{
    if let EventKind::ResponseSessionEnded { session_id, reason } = event.kind {
        lemma_envelope_is_read(event, fields);
        crate::wire_laws::lemma_kind_codes();
        lemma_kind_is_read("response.session_ended"@, 24, event.kind@, fields);
        lemma_reads_text(fields, "session_id"@, session_id@);
        lemma_reads_text(fields, "reason"@, reason@);
    }
}

/// A `eval.report` event on the wire: under each name of the schema stands the
/// member of that name, and nothing where it is left out.
pub proof fn lemma_eval_report_is_written(
    event: ObservabilityEvent,
    fields: Seq<(String, WireValue)>,
)
    requires
        crate::wire::field_views(fields) == crate::wire::event_fields(event@),
    ensures
        event.kind matches EventKind::EvalReport { report_id, dataset, metric, value, ci_low, ci_high, baseline_value, delta, verdict, sample_size } ==> {
            &&& text_at(fields, "kind"@, "eval.report"@)
            &&& text_at(fields, "report_id"@, report_id@)
            &&& text_at(fields, "dataset"@, dataset@)
            &&& text_at(fields, "metric"@, metric@)
            &&& double_written(fields, "value"@, value)
            &&& opt_double_written(fields, "ci_low"@, ci_low)
            &&& opt_double_written(fields, "ci_high"@, ci_high)
            &&& opt_double_written(fields, "baseline_value"@, baseline_value)
            &&& opt_double_written(fields, "delta"@, delta)
            &&& opt_text_written(fields, "verdict"@, verdict)
            &&& opt_count_written(fields, "sample_size"@, sample_size)
        },
{
    broadcast use {crate::wire::lemma_lookup_join, crate::wire::lemma_lookup_field};

    if let EventKind::EvalReport { report_id, dataset, metric, value, ci_low, ci_high, baseline_value, delta, verdict, sample_size } = event.kind {
        lemma_envelope_is_written(event, fields);
        crate::wire_laws::lemma_envelope_alone(event@);
        crate::wire_laws::lemma_key_codes();
        let views = crate::wire::field_views(fields);
        assert(crate::wire::lookup(views, "report_id"@) == Some(crate::wire::WireView::Text(report_id@)));
        lemma_writes(fields, "report_id"@, Some(crate::wire::WireView::Text(report_id@)));
        assert(crate::wire::lookup(views, "dataset"@) == Some(crate::wire::WireView::Text(dataset@)));
        lemma_writes(fields, "dataset"@, Some(crate::wire::WireView::Text(dataset@)));
        assert(crate::wire::lookup(views, "metric"@) == Some(crate::wire::WireView::Text(metric@)));
        lemma_writes(fields, "metric"@, Some(crate::wire::WireView::Text(metric@)));
        assert(crate::wire::lookup(views, "value"@) == Some(crate::wire::double(value)));
        lemma_writes(fields, "value"@, Some(crate::wire::double(value)));
        assert(crate::wire::lookup(views, "ci_low"@) == crate::wire::opt_double(ci_low));
        lemma_writes(fields, "ci_low"@, crate::wire::opt_double(ci_low));
        assert(crate::wire::lookup(views, "ci_high"@) == crate::wire::opt_double(ci_high));
        lemma_writes(fields, "ci_high"@, crate::wire::opt_double(ci_high));
        assert(crate::wire::lookup(views, "baseline_value"@) == crate::wire::opt_double(baseline_value));
        lemma_writes(fields, "baseline_value"@, crate::wire::opt_double(baseline_value));
        assert(crate::wire::lookup(views, "delta"@) == crate::wire::opt_double(delta));
        lemma_writes(fields, "delta"@, crate::wire::opt_double(delta));
        assert(crate::wire::lookup(views, "verdict"@) == crate::wire::opt_text(verdict.deep_view()));
        lemma_writes(fields, "verdict"@, crate::wire::opt_text(verdict.deep_view()));
        assert(crate::wire::lookup(views, "sample_size"@) == crate::wire::opt_number(sample_size));
        lemma_writes(fields, "sample_size"@, crate::wire::opt_number(sample_size));
    }
}

/// A list of fields is read as a `eval.report` event if and only if it holds
/// the envelope of that event, names the kind by its name or its number, and
/// holds each member under its own name.
pub proof fn lemma_eval_report_is_read(
    event: ObservabilityEvent,
    fields: Seq<(String, WireValue)>,
)
    ensures
        event.kind matches EventKind::EvalReport { report_id, dataset, metric, value, ci_low, ci_high, baseline_value, delta, verdict, sample_size } ==> (crate::wire::decoded_event(
            crate::wire::field_views(fields),
        ) == Some(event@) <==> {
            &&& envelope_given(event, fields)
            &&& text_at(fields, "kind"@, "eval.report"@) || count_at(fields, "kind"@, 25)
            &&& text_at(fields, "report_id"@, report_id@)
            &&& text_at(fields, "dataset"@, dataset@)
            &&& text_at(fields, "metric"@, metric@)
            &&& double_at(fields, "value"@, value)
            &&& opt_double_given(fields, "ci_low"@, ci_low)
            &&& opt_double_given(fields, "ci_high"@, ci_high)
            &&& opt_double_given(fields, "baseline_value"@, baseline_value)
            &&& opt_double_given(fields, "delta"@, delta)
            &&& opt_text_given(fields, "verdict"@, verdict)
            &&& opt_count_given(fields, "sample_size"@, sample_size)
        }),
{
    if let EventKind::EvalReport { report_id, dataset, metric, value, ci_low, ci_high, baseline_value, delta, verdict, sample_size } = event.kind {
        lemma_envelope_is_read(event, fields);
        crate::wire_laws::lemma_kind_codes();
        lemma_kind_is_read("eval.report"@, 25, event.kind@, fields);
        lemma_reads_text(fields, "report_id"@, report_id@);
        lemma_reads_text(fields, "dataset"@, dataset@);
        lemma_reads_text(fields, "metric"@, metric@);
        lemma_reads_double(fields, "value"@, value);
        lemma_reads_opt_double(fields, "ci_low"@, ci_low);
        lemma_reads_opt_double(fields, "ci_high"@, ci_high);
        lemma_reads_opt_double(fields, "baseline_value"@, baseline_value);
        lemma_reads_opt_double(fields, "delta"@, delta);
        lemma_reads_opt_text(fields, "verdict"@, verdict);
        lemma_reads_opt_count(fields, "sample_size"@, sample_size);
    }
}

/// A `embedding.completed` event on the wire: under each name of the schema stands the
/// member of that name, and nothing where it is left out.
pub proof fn lemma_embedding_completed_is_written(
    event: ObservabilityEvent,
    fields: Seq<(String, WireValue)>,
)
    requires
        crate::wire::field_views(fields) == crate::wire::event_fields(event@),
    ensures
        event.kind matches EventKind::EmbeddingCompleted { model, documents, tokens_in, duration_ms } ==> {
            &&& text_at(fields, "kind"@, "embedding.completed"@)
            &&& text_at(fields, "model"@, model@)
            &&& count_at(fields, "documents"@, documents as u64)
            &&& opt_count_written(fields, "tokens_in"@, tokens_in)
            &&& opt_count_written(fields, "duration_ms"@, duration_ms)
        },
{
    broadcast use {crate::wire::lemma_lookup_join, crate::wire::lemma_lookup_field};

    if let EventKind::EmbeddingCompleted { model, documents, tokens_in, duration_ms } = event.kind {
        lemma_envelope_is_written(event, fields);
        crate::wire_laws::lemma_envelope_alone(event@);
        crate::wire_laws::lemma_key_codes();
        let views = crate::wire::field_views(fields);
        assert(crate::wire::lookup(views, "model"@) == Some(crate::wire::WireView::Text(model@)));
        lemma_writes(fields, "model"@, Some(crate::wire::WireView::Text(model@)));
        assert(crate::wire::lookup(views, "documents"@) == Some(crate::wire::number(documents as u64)));
        lemma_writes(fields, "documents"@, Some(crate::wire::number(documents as u64)));
        assert(crate::wire::lookup(views, "tokens_in"@) == crate::wire::opt_number(tokens_in));
        lemma_writes(fields, "tokens_in"@, crate::wire::opt_number(tokens_in));
        assert(crate::wire::lookup(views, "duration_ms"@) == crate::wire::opt_number(duration_ms));
        lemma_writes(fields, "duration_ms"@, crate::wire::opt_number(duration_ms));
    }
}

/// A list of fields is read as a `embedding.completed` event if and only if it holds
/// the envelope of that event, names the kind by its name or its number, and
/// holds each member under its own name.
pub proof fn lemma_embedding_completed_is_read(
    event: ObservabilityEvent,
    fields: Seq<(String, WireValue)>,
)
    ensures
        event.kind matches EventKind::EmbeddingCompleted { model, documents, tokens_in, duration_ms } ==> (crate::wire::decoded_event(
            crate::wire::field_views(fields),
        ) == Some(event@) <==> {
            &&& envelope_given(event, fields)
            &&& text_at(fields, "kind"@, "embedding.completed"@) || count_at(fields, "kind"@, 26)
            &&& text_at(fields, "model"@, model@)
            &&& count_at(fields, "documents"@, documents as u64)
            &&& opt_count_given(fields, "tokens_in"@, tokens_in)
            &&& opt_count_given(fields, "duration_ms"@, duration_ms)
        }),
{
    if let EventKind::EmbeddingCompleted { model, documents, tokens_in, duration_ms } = event.kind {
        lemma_envelope_is_read(event, fields);
        crate::wire_laws::lemma_kind_codes();
        lemma_kind_is_read("embedding.completed"@, 26, event.kind@, fields);
        lemma_reads_text(fields, "model"@, model@);
        lemma_reads_size(fields, "documents"@, documents);
        lemma_reads_opt_count(fields, "tokens_in"@, tokens_in);
        lemma_reads_opt_count(fields, "duration_ms"@, duration_ms);
    }
}

/// A `retrieval.queried` event on the wire: under each name of the schema stands the
/// member of that name, and nothing where it is left out.
pub proof fn lemma_retrieval_queried_is_written(
    event: ObservabilityEvent,
    fields: Seq<(String, WireValue)>,
)
    requires
        crate::wire::field_views(fields) == crate::wire::event_fields(event@),
    ensures
        event.kind matches EventKind::RetrievalQueried { queries, top_k, results, duration_ms } ==> {
            &&& text_at(fields, "kind"@, "retrieval.queried"@)
            &&& if queries.deep_view().len() == 0 { absent(fields, "queries"@) } else { texts_at(fields, "queries"@, queries.deep_view()) }
            &&& opt_count_written(fields, "top_k"@, size_count(top_k))
            &&& count_at(fields, "results"@, results as u64)
            &&& opt_count_written(fields, "duration_ms"@, duration_ms)
        },
{
    broadcast use {crate::wire::lemma_lookup_join, crate::wire::lemma_lookup_field};

    if let EventKind::RetrievalQueried { queries, top_k, results, duration_ms } = event.kind {
        lemma_envelope_is_written(event, fields);
        crate::wire_laws::lemma_envelope_alone(event@);
        crate::wire_laws::lemma_key_codes();
        let views = crate::wire::field_views(fields);
        assert(crate::wire::lookup(views, "queries"@) == crate::wire::nonempty(queries.deep_view()));
        lemma_writes(fields, "queries"@, crate::wire::nonempty(queries.deep_view()));
        assert(crate::wire::lookup(views, "top_k"@) == crate::wire::opt_size(top_k));
        lemma_writes(fields, "top_k"@, crate::wire::opt_size(top_k));
        assert(crate::wire::lookup(views, "results"@) == Some(crate::wire::number(results as u64)));
        lemma_writes(fields, "results"@, Some(crate::wire::number(results as u64)));
        assert(crate::wire::lookup(views, "duration_ms"@) == crate::wire::opt_number(duration_ms));
        lemma_writes(fields, "duration_ms"@, crate::wire::opt_number(duration_ms));
    }
}

/// A list of fields is read as a `retrieval.queried` event if and only if it holds
/// the envelope of that event, names the kind by its name or its number, and
/// holds each member under its own name.
pub proof fn lemma_retrieval_queried_is_read(
    event: ObservabilityEvent,
    fields: Seq<(String, WireValue)>,
)
    ensures
        event.kind matches EventKind::RetrievalQueried { queries, top_k, results, duration_ms } ==> (crate::wire::decoded_event(
            crate::wire::field_views(fields),
        ) == Some(event@) <==> {
            &&& envelope_given(event, fields)
            &&& text_at(fields, "kind"@, "retrieval.queried"@) || count_at(fields, "kind"@, 27)
            &&& texts_at(fields, "queries"@, queries.deep_view()) || (absent(fields, "queries"@) && queries.deep_view().len() == 0)
            &&& opt_count_given(fields, "top_k"@, size_count(top_k))
            &&& count_at(fields, "results"@, results as u64)
            &&& opt_count_given(fields, "duration_ms"@, duration_ms)
        }),
{
    if let EventKind::RetrievalQueried { queries, top_k, results, duration_ms } = event.kind {
        lemma_envelope_is_read(event, fields);
        crate::wire_laws::lemma_kind_codes();
        lemma_kind_is_read("retrieval.queried"@, 27, event.kind@, fields);
        lemma_reads_empty_texts(fields, "queries"@, queries.deep_view());
        lemma_reads_opt_size(fields, "top_k"@, top_k);
        lemma_reads_size(fields, "results"@, results);
        lemma_reads_opt_count(fields, "duration_ms"@, duration_ms);
    }
}

/// A `rerank.completed` event on the wire: under each name of the schema stands the
/// member of that name, and nothing where it is left out.
pub proof fn lemma_rerank_completed_is_written(
    event: ObservabilityEvent,
    fields: Seq<(String, WireValue)>,
)
    requires
        crate::wire::field_views(fields) == crate::wire::event_fields(event@),
    ensures
        event.kind matches EventKind::RerankCompleted { model, documents_in, documents_out, duration_ms } ==> {
            &&& text_at(fields, "kind"@, "rerank.completed"@)
            &&& text_at(fields, "model"@, model@)
            &&& count_at(fields, "documents_in"@, documents_in as u64)
            &&& count_at(fields, "documents_out"@, documents_out as u64)
            &&& opt_count_written(fields, "duration_ms"@, duration_ms)
        },
{
    broadcast use {crate::wire::lemma_lookup_join, crate::wire::lemma_lookup_field};

    if let EventKind::RerankCompleted { model, documents_in, documents_out, duration_ms } = event.kind {
        lemma_envelope_is_written(event, fields);
        crate::wire_laws::lemma_envelope_alone(event@);
        crate::wire_laws::lemma_key_codes();
        let views = crate::wire::field_views(fields);
        assert(crate::wire::lookup(views, "model"@) == Some(crate::wire::WireView::Text(model@)));
        lemma_writes(fields, "model"@, Some(crate::wire::WireView::Text(model@)));
        assert(crate::wire::lookup(views, "documents_in"@) == Some(crate::wire::number(documents_in as u64)));
        lemma_writes(fields, "documents_in"@, Some(crate::wire::number(documents_in as u64)));
        assert(crate::wire::lookup(views, "documents_out"@) == Some(crate::wire::number(documents_out as u64)));
        lemma_writes(fields, "documents_out"@, Some(crate::wire::number(documents_out as u64)));
        assert(crate::wire::lookup(views, "duration_ms"@) == crate::wire::opt_number(duration_ms));
        lemma_writes(fields, "duration_ms"@, crate::wire::opt_number(duration_ms));
    }
}

/// A list of fields is read as a `rerank.completed` event if and only if it holds
/// the envelope of that event, names the kind by its name or its number, and
/// holds each member under its own name.
pub proof fn lemma_rerank_completed_is_read(
    event: ObservabilityEvent,
    fields: Seq<(String, WireValue)>,
)
    ensures
        event.kind matches EventKind::RerankCompleted { model, documents_in, documents_out, duration_ms } ==> (crate::wire::decoded_event(
            crate::wire::field_views(fields),
        ) == Some(event@) <==> {
            &&& envelope_given(event, fields)
            &&& text_at(fields, "kind"@, "rerank.completed"@) || count_at(fields, "kind"@, 28)
            &&& text_at(fields, "model"@, model@)
            &&& count_at(fields, "documents_in"@, documents_in as u64)
            &&& count_at(fields, "documents_out"@, documents_out as u64)
            &&& opt_count_given(fields, "duration_ms"@, duration_ms)
        }),
{
    if let EventKind::RerankCompleted { model, documents_in, documents_out, duration_ms } = event.kind {
        lemma_envelope_is_read(event, fields);
        crate::wire_laws::lemma_kind_codes();
        lemma_kind_is_read("rerank.completed"@, 28, event.kind@, fields);
        lemma_reads_text(fields, "model"@, model@);
        lemma_reads_size(fields, "documents_in"@, documents_in);
        lemma_reads_size(fields, "documents_out"@, documents_out);
        lemma_reads_opt_count(fields, "duration_ms"@, duration_ms);
    }
}

} // verus!
