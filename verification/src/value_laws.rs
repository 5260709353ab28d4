//! What rates, readings, sizes and texts amount to, as numbers and characters.

use std::time::Instant;

use vstd::prelude::*;

use crate::emit::{Emission, RecordFields};
use crate::error::Error;
use crate::event::{EventKind, ObservabilityEvent};
use crate::extract::EventVisitor;
use crate::float::Float64;
use crate::insights::{PromptStats, SuccessRate, ToolStats};
use crate::observed_memory::ObservedMemory;
use crate::query::EventQuery;
use crate::sampling::{AdaptiveErrorPolicy, AlwaysSample, RatePolicy, SamplingPolicy};

verus! {

/// A double with exponent field `e` and fraction field `f` stands at
/// `(2^52 + f) * 2^(e - 1)` units of `2^-1074`, at `f` units where `e` is zero,
/// below zero where its highest bit is set.
pub proof fn lemma_double_value(number: Float64)
    ensures
        ({
            let rest = number.bits % 0x8000_0000_0000_0000;
            let e = rest / 0x10_0000_0000_0000;
            let f = number.bits % 0x10_0000_0000_0000;
            let magnitude = if e == 0 {
                f as int
            } else {
                (0x10_0000_0000_0000 + f) * vstd::arithmetic::power2::pow2((e - 1) as nat)
            };
            &&& number.bits < 0x8000_0000_0000_0000 ==> number.units() == magnitude
            &&& number.bits >= 0x8000_0000_0000_0000 ==> number.units() == -magnitude
            &&& number.nan() <==> e == 2047 && f != 0
        }),
{
    vstd::arithmetic::power2::lemma2_to64();
    if number.exponent() == 0 {
        let unit = vstd::arithmetic::power2::pow2(0);
        assert(number.significand() * unit == number.significand()) by (nonlinear_arith)
            requires
                unit == 1,
        ;
    }
}

proof fn lemma_one_or_more(rate: Float64)
    requires
        !rate.nan(),
    ensures
        rate.at_least_one() <==> rate.units() >= vstd::arithmetic::power2::pow2(1074),
        rate.positive() <==> rate.units() > 0,
        rate.negative() ==> rate.units() <= 0,
        rate.negative() && rate.significand() == 0 ==> rate.units() == 0,
        vstd::arithmetic::power2::pow2(1074) > 0,
{
    let s = rate.scale();
    let unit = vstd::arithmetic::power2::pow2(s);
    let sig = rate.significand();
    vstd::arithmetic::power2::lemma_pow2_pos(s);
    vstd::arithmetic::power2::lemma_pow2_pos(1074);
    vstd::arithmetic::power2::lemma2_to64();
    vstd::arithmetic::power2::lemma2_to64_rest();
    assert(sig * unit >= 0) by (nonlinear_arith);
    if sig > 0 {
        assert(sig * unit > 0) by (nonlinear_arith)
            requires
                sig > 0,
                unit > 0,
        ;
    } else {
        assert(sig * unit == 0) by (nonlinear_arith)
            requires
                sig == 0,
        ;
    }
    vstd::arithmetic::power2::lemma_pow2_adds(52, 1022);
    if rate.exponent() >= 1023 {
        if s > 1022 {
            vstd::arithmetic::power2::lemma_pow2_strictly_increases(1022, s);
        }
        let least = vstd::arithmetic::power2::pow2(1022);
        assert(sig * unit >= 0x10_0000_0000_0000 * least) by (nonlinear_arith)
            requires
                sig >= 0x10_0000_0000_0000,
                unit >= least,
                least >= 0,
        ;
    } else {
        vstd::arithmetic::power2::lemma_pow2_adds(53, 1021);
        if s < 1021 {
            vstd::arithmetic::power2::lemma_pow2_strictly_increases(s, 1021);
        }
        let most = vstd::arithmetic::power2::pow2(1021);
        assert(sig * unit < 0x20_0000_0000_0000 * most) by (nonlinear_arith)
            requires
                sig < 0x20_0000_0000_0000,
                unit <= most,
                unit > 0,
        ;
    }
}

/// A rate keeps a bucket exactly where the bucket, as a fraction of all `2^32`
/// buckets, lies below the rate as a number; what is no number keeps nothing.
pub proof fn lemma_rate_keeps(rate: Float64, bucket: nat)
    requires
        bucket < 0x1_0000_0000,
    ensures
        crate::sampling::keeps(rate, bucket) <==> !rate.nan() && bucket
            * vstd::arithmetic::power2::pow2(1042) < rate.units(),
{
    if !rate.nan() {
        let all = vstd::arithmetic::power2::pow2(1042);
        vstd::arithmetic::power2::lemma_pow2_pos(1042);
        lemma_one_or_more(rate);
        vstd::arithmetic::power2::lemma2_to64();
        vstd::arithmetic::power2::lemma2_to64_rest();
        vstd::arithmetic::power2::lemma_pow2_adds(32, 1042);
        assert(bucket * all >= 0) by (nonlinear_arith);
        assert(bucket * all < 0x1_0000_0000 * all) by (nonlinear_arith)
            requires
                bucket < 0x1_0000_0000,
                all > 0,
        ;
        if rate.positive() && !rate.at_least_one() {
            let s = rate.scale();
            let unit = vstd::arithmetic::power2::pow2(s);
            let inverse = vstd::arithmetic::power2::pow2((1042 - s) as nat);
            let sig = rate.significand();
            vstd::arithmetic::power2::lemma_pow2_pos(s);
            vstd::arithmetic::power2::lemma_pow2_adds((1042 - s) as nat, s);
            assert((bucket * inverse < sig) == (bucket * (inverse * unit) < sig * unit))
                by (nonlinear_arith)
                requires
                    unit > 0,
            ;
        }
    }
}

/// A rate is kept within zero and one: as a number it is the nearest there, and
/// zero where it is no number.
pub proof fn lemma_rate_is_clamped(rate: Float64)
    ensures
        ({
            let one = vstd::arithmetic::power2::pow2(1074);
            let clamped = crate::sampling::unit_rate(rate);
            &&& !clamped.nan()
            &&& rate.nan() ==> clamped.units() == 0
            &&& !rate.nan() && rate.units() <= 0 ==> clamped.units() == 0
            &&& !rate.nan() && 0 <= rate.units() <= one ==> clamped.units() == rate.units()
            &&& !rate.nan() && rate.units() >= one ==> clamped.units() == one
        }),
{
    let one = Float64 { bits: 0x3FF0_0000_0000_0000 };
    let zero = Float64 { bits: 0 };
    lemma_double_value(one);
    lemma_double_value(zero);
    assert((0x3FF0_0000_0000_0000u64 % 0x8000_0000_0000_0000u64) / 0x10_0000_0000_0000u64 == 1023);
    assert(0x3FF0_0000_0000_0000u64 % 0x10_0000_0000_0000u64 == 0);
    vstd::arithmetic::power2::lemma2_to64();
    vstd::arithmetic::power2::lemma2_to64_rest();
    vstd::arithmetic::power2::lemma_pow2_adds(52, 1022);
    if !rate.nan() {
        lemma_one_or_more(rate);
    }
}

/// A rate that was set holds for its own kind, and the default for every kind
/// for which none was; setting one changes no other.
pub proof fn lemma_rates_are_set(
    policy: RatePolicy,
    kind: &str,
    rate: Float64,
    after: RatePolicy,
    other: Seq<char>,
)
    requires
        call_ensures(RatePolicy::with_rate, (policy, kind, rate), after),
    ensures
        after.rate(kind@) == crate::sampling::unit_rate(rate),
        other != kind@ ==> after.rate(other) == policy.rate(other),
{
    assert(after.configured(kind@) == Some(crate::sampling::unit_rate(rate)));
    assert(other != kind@ ==> after.configured(other) == policy.configured(other));
}

/// A new policy keeps every event, and the default rate holds for every kind for
/// which none was set.
pub proof fn lemma_default_rates(
    fresh: RatePolicy,
    rate: Float64,
    after: RatePolicy,
    kind: Seq<char>,
    correlator: Seq<char>,
)
    requires
        call_ensures(RatePolicy::new, (), fresh),
        call_ensures(RatePolicy::with_default_rate, (fresh, rate), after),
    ensures
        fresh.samples(kind, correlator),
        after.rate(kind) == crate::sampling::unit_rate(rate),
{
    assert(fresh.configured(kind) is None);
    assert(after.configured(kind) == fresh.configured(kind));
    crate::sampling::lemma_rate_extremes(rate, crate::sampling::bucket_of(correlator));
}

/// A rate policy decides by the lower half of the hash of the correlator alone.
pub proof fn lemma_rate_policy_decides(policy: RatePolicy, kind: Seq<char>, correlator: Seq<char>)
    ensures
        policy.samples(kind, correlator) <==> !policy.rate(kind).nan() && (
        crate::sampling::correlator_hash(correlator) as int % 0x1_0000_0000)
            * vstd::arithmetic::power2::pow2(1042) < policy.rate(kind).units(),
{
    lemma_rate_keeps(policy.rate(kind), crate::sampling::bucket_of(correlator));
}

/// The default policy keeps everything.
pub proof fn lemma_always_sampled(kind: Seq<char>, correlator: Seq<char>)
    ensures
        AlwaysSample.samples(kind, correlator),
{
}

/// Failures, ended calls, recoveries and retries are kept whatever the inner
/// policy decides; of the other kinds only those that were added.
pub proof fn lemma_anomalies_are_kept<P: SamplingPolicy>(
    policy: AdaptiveErrorPolicy<P>,
    kind: Seq<char>,
    correlator: Seq<char>,
)
    ensures
        policy.samples("prompt.failed"@, correlator),
        policy.samples("tool.failed"@, correlator),
        policy.samples("tool.terminated"@, correlator),
        policy.samples("compose.recovery"@, correlator),
        policy.samples("compose.retry_attempt"@, correlator),
        policy.extra().contains(kind) ==> policy.samples(kind, correlator),
        kind != "prompt.failed"@ && kind != "tool.failed"@ && kind != "tool.terminated"@ && kind
            != "compose.recovery"@ && kind != "compose.retry_attempt"@ && !policy.extra().contains(
            kind,
        ) ==> policy.samples(kind, correlator) == policy.inner().samples(kind, correlator),
{
}

/// A kind that was added is kept besides those that were kept before.
pub proof fn lemma_kinds_are_added<P: SamplingPolicy>(
    policy: AdaptiveErrorPolicy<P>,
    kind: &str,
    after: AdaptiveErrorPolicy<P>,
    other: Seq<char>,
    correlator: Seq<char>,
)
    requires
        call_ensures(AdaptiveErrorPolicy::<P>::also_keep, (policy, kind), after),
    ensures
        after.samples(kind@, correlator),
        other != kind@ ==> after.samples(other, correlator) == policy.samples(other, correlator),
{
    let n = policy.extra().len() as int;
    assert(after.extra()[n] == kind@);
    if policy.extra().contains(other) {
        let k = policy.extra().index_of(other);
        assert(after.extra()[k] == other);
    }
    if other != kind@ && after.extra().contains(other) {
        let k = after.extra().index_of(other);
        assert(policy.extra()[k] == other);
    }
}

/// A reading is the number it is, as far as sixty-four bits hold it, and the
/// largest of these beyond; a clock before the epoch reads zero.
pub proof fn lemma_readings(reading: u128, started_at: Instant, now: Instant)
    ensures
        reading <= u64::MAX ==> crate::clock::saturated(reading as int) == reading,
        reading > u64::MAX ==> crate::clock::saturated(reading as int) == 0xffff_ffff_ffff_ffff,
        reading <= u64::MAX ==> crate::clock::timestamp(Some(reading)) == reading,
        reading > u64::MAX ==> crate::clock::timestamp(Some(reading)) == 0xffff_ffff_ffff_ffff,
        crate::clock::timestamp(None) == 0,
        crate::clock::instant_millis(started_at, now) <= u64::MAX
            ==> crate::clock::elapsed_between(started_at, now) == crate::clock::instant_millis(
            started_at,
            now,
        ),
        crate::clock::instant_millis(started_at, now) > u64::MAX
            ==> crate::clock::elapsed_between(started_at, now) == 0xffff_ffff_ffff_ffff,
{
}

/// Sizes add up, as far as a size can hold them.
pub proof fn lemma_sizes_add_up(counted: usize, more: usize)
    ensures
        counted + more <= usize::MAX ==> crate::observed_memory::saturating_sum(
            counted as int,
            more as int,
        ) == counted + more,
        counted + more > usize::MAX ==> crate::observed_memory::saturating_sum(
            counted as int,
            more as int,
        ) == usize::MAX,
{
}

/// A load is reported with the size of what was loaded.
pub proof fn lemma_load_is_sampled<M>(
    memory: ObservedMemory<M>,
    conversation: &str,
    messages: usize,
    bytes: usize,
    emission: Emission,
)
    requires
        call_ensures(
            ObservedMemory::<M>::on_load,
            (&memory, conversation, messages, bytes),
            emission,
        ),
    ensures
        emission.conversation_id@ == conversation@,
        emission.kind matches EventKind::ContextSampled {
            message_count,
            byte_size,
            token_estimate,
        } && message_count == messages && byte_size == bytes && token_estimate is None,
{
}

/// The number that a text of digits stands for, from the first digit on.
pub open spec fn number_of(text: Seq<char>) -> int
    decreases text.len(),
{
    if text.len() == 0 {
        0
    } else {
        10 * number_of(text.drop_last()) + (text.last() as int - '0' as int)
    }
}

/// Decimal text stands for its number, holds digits alone, and begins with a
/// zero only where it is that.
pub proof fn lemma_decimal_text(n: nat)
    ensures
        number_of(crate::text::decimal(n)) == n,
        crate::text::decimal(n).len() > 0,
        forall|i: int|
            0 <= i < crate::text::decimal(n).len() ==> '0' <= #[trigger] crate::text::decimal(n)[i]
                <= '9',
        crate::text::decimal(n).len() > 1 ==> crate::text::decimal(n)[0] != '0',
    decreases n,
{
    crate::text::lemma_decimal_digits(n);
    let text = crate::text::decimal(n);
    if n < 10 {
        assert(text.drop_last() =~= Seq::empty());
        assert(number_of(text.drop_last()) == 0);
    } else {
        lemma_decimal_text(n / 10);
        assert(text.drop_last() =~= crate::text::decimal(n / 10));
        if crate::text::decimal(n / 10).len() == 1 {
            crate::text::lemma_decimal_len(n / 10);
        }
    }
}

/// Strings sort by their bytes: where two differ first, the one with the lower
/// byte comes first, and where one begins another, the shorter one does.
pub proof fn lemma_texts_sort_by_bytes(a: Seq<char>, b: Seq<char>, n: int)
    requires
        0 <= n <= vstd::utf8::encode_utf8(a).len(),
        n <= vstd::utf8::encode_utf8(b).len(),
        forall|i: int|
            0 <= i < n ==> #[trigger] vstd::utf8::encode_utf8(a)[i] == vstd::utf8::encode_utf8(b)[i],
    ensures
        n < vstd::utf8::encode_utf8(a).len() && n < vstd::utf8::encode_utf8(b).len()
            && vstd::utf8::encode_utf8(a)[n] < vstd::utf8::encode_utf8(b)[n]
            ==> crate::text::sorts_before(a, b) && !crate::text::sorts_before(b, a),
        n == vstd::utf8::encode_utf8(a).len() && n < vstd::utf8::encode_utf8(b).len()
            ==> crate::text::sorts_before(a, b) && !crate::text::sorts_before(b, a),
        a == b ==> !crate::text::sorts_before(a, b),
{
    crate::text::lemma_order_is_total(a, b);
    let x = vstd::utf8::encode_utf8(a);
    let y = vstd::utf8::encode_utf8(b);
    if n < y.len() && (n == x.len() || x[n] < y[n]) {
        assert(crate::text::decides_before(x, y, n));
    }
}

/// A stamped event holds each reading where it belongs.
pub proof fn lemma_event_is_stamped(
    conversation: &str,
    kind: EventKind,
    millis: u64,
    number: u64,
    span: Option<u64>,
    agent: Option<String>,
    trace: Option<u64>,
    event: ObservabilityEvent,
)
    requires
        call_ensures(
            crate::emit::stamp_event,
            (conversation, kind, millis, number, span, agent, trace),
            event,
        ),
    ensures
        event.version == crate::event::SCHEMA_VERSION,
        event.occurred_at_millis == millis,
        event.tick == number,
        event.conversation_id@ == conversation@,
        event.span_id == span,
        event.agent_id.deep_view() == agent.deep_view(),
        event.trace_id == trace,
        event.severity is None,
        event.kind@ == kind@,
{
}

/// An event is recorded under its own fields, each with absence as zero or as
/// the empty text.
pub proof fn lemma_event_is_recorded(event: ObservabilityEvent, fields: RecordFields<'_>)
    requires
        call_ensures(crate::emit::record_fields, (&event,), fields),
    ensures
        fields.version == event.version,
        fields.kind@ == event.kind@.discriminant(),
        fields.conversation_id@ == event.conversation_id@,
        fields.tick == event.tick,
        fields.occurred_at_millis == event.occurred_at_millis,
        match event.span_id {
            Some(id) => fields.span_id == id,
            None => fields.span_id == 0,
        },
        match event.agent_id {
            Some(agent) => fields.agent_id@ == agent@,
            None => fields.agent_id@.len() == 0,
        },
        fields.scalars@ == event.kind@.scalars(),
{
}

/// An envelope is read only from records of the target `rig_tap`.
pub proof fn lemma_envelope_is_found(visitor: EventVisitor, target: &str, json: Option<String>)
    requires
        call_ensures(EventVisitor::finish, (visitor, target), json),
    ensures
        target@ == "rig_tap"@ ==> json.deep_view() == visitor.found(),
        target@ != "rig_tap"@ ==> json is None,
{
}

/// An error of serialization is named so.
pub proof fn lemma_error_names(error: Error, name: &'static str)
    requires
        call_ensures(Error::kind, (&error,), name),
    ensures
        name@ == "serialize"@,
{
}

/// The latest events are the last ones, as many as were asked for and there are,
/// in their order.
pub proof fn lemma_latest_events(query: EventQuery, limit: usize, events: Vec<ObservabilityEvent>)
    requires
        call_ensures(EventQuery::latest, (&query, limit), events),
    ensures
        events.len() == limit || events.len() == query@.len(),
        events.len() <= limit,
        events.len() <= query@.len(),
        forall|i: int|
            0 <= i < events.len() ==> (#[trigger] events[i])@ == query@[query@.len() - events.len()
                + i],
{
    let start = query@.len() - events.deep_view().len();
    assert(events.deep_view().len() == events.len());
    assert forall|i: int| 0 <= i < events.len() implies (#[trigger] events[i])@
        == query@[query@.len() - events.len() + i] by {
        assert(events.deep_view()[i] == events[i]@);
    }
}

/// A success rate relates what completed to what was resolved: of prompts, what
/// completed or failed; of tools, what was skipped or ended too.
pub proof fn lemma_success_rates(
    prompts: PromptStats,
    tools: ToolStats,
    of_prompts: Option<SuccessRate>,
    of_tools: Option<SuccessRate>,
)
    requires
        prompts.completed + prompts.failed <= usize::MAX,
        tools.completed + tools.failed + tools.skipped + tools.terminated <= usize::MAX,
        call_ensures(PromptStats::success_rate, (&prompts,), of_prompts),
        call_ensures(ToolStats::success_rate, (&tools,), of_tools),
    ensures
        of_prompts is None <==> prompts.completed == 0 && prompts.failed == 0,
        of_prompts matches Some(rate) ==> rate.completed == prompts.completed && rate.resolved
            == prompts.completed + prompts.failed,
        of_tools is None <==> tools.completed == 0 && tools.failed == 0 && tools.skipped == 0
            && tools.terminated == 0,
        of_tools matches Some(rate) ==> rate.completed == tools.completed && rate.resolved
            == tools.completed + tools.failed + tools.skipped + tools.terminated,
{
}

/// A percentile of a sorted list stands at its nearest rank; there is one
/// wherever there are samples.
pub proof fn lemma_percentile(sorted: Vec<u64>, p: u64, value: Option<u64>)
    requires
        call_ensures(crate::latency::percentile, (&sorted, p), value),
    ensures
        value is None <==> sorted@.len() == 0,
        sorted@.len() > 0 && p == 0 ==> value == Some(sorted@[0]),
        sorted@.len() > 0 && 0 < p <= 100 ==> crate::insight_laws::stands_at_percentile(
            sorted@,
            p as int,
            value,
        ),
        sorted@.len() > 0 && p > 100 ==> value == Some(sorted@[sorted@.len() - 1]),
{
    let n = sorted@.len();
    if n > 0 {
        if 0 < p <= 100 {
            crate::latency::lemma_nearest_rank(p as nat, n);
            let rank = crate::latency::nearest_rank(p as nat, n) as int;
            assert(value == Some(sorted@[rank - 1]));
        } else if p > 100 {
            assert(p * n >= 101 * n) by (nonlinear_arith)
                requires
                    p >= 101,
                    n > 0,
            ;
        } else {
            assert(p * n == 0) by (nonlinear_arith)
                requires
                    p == 0,
            ;
        }
    }
}

} // verus!
