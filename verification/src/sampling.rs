//! Sampling policies for [`TelemetryHook`](crate::TelemetryHook).
//!
//! High-volume `tool.*` traffic can dwarf `prompt.*` and `memory.*` events
//! in a busy agent. The [`SamplingPolicy`] trait lets callers downsample
//! per-event-kind without losing the lower-volume lifecycle events that
//! collectors care about most.
//!
//! The default policy ([`AlwaysSample`]) keeps every event. The bundled
//! [`RatePolicy`] downsamples deterministically via a hash of a per-event
//! correlator so that **paired events stay coherent**: a `tool.invoked` and
//! its matching `tool.completed` share the same internal call id, hash to the
//! same bucket, and are therefore either both kept or both dropped.

use vstd::prelude::*;

use crate::float::{Float64, FRACTION, MAGNITUDE};
use crate::text::same_text;

verus! {

/// Decide whether to emit a given event based on its kind discriminant
/// and a stable correlator string.
///
/// Implementations are deterministic: [`SamplingPolicy::should_sample`] is a
/// function of the policy and its arguments. This is what lets
/// [`TelemetryHook`] keep paired events (`tool.invoked` ↔ `tool.completed`)
/// coherent — the hook passes the same correlator on both sides of the pair,
/// so the policy decision is symmetric.
///
/// [`TelemetryHook`]: crate::TelemetryHook
pub trait SamplingPolicy: Send + Sync + std::fmt::Debug {
    /// The decision of the policy. Of a policy that does not say what it
    /// decides, nothing is known but that the decision is some function of the
    /// policy and the arguments.
    open spec fn samples(&self, kind: Seq<char>, correlator: Seq<char>) -> bool {
        arbitrary::<spec_fn(&Self, Seq<char>, Seq<char>) -> bool>()(self, kind, correlator)
    }

    /// Return `true` if the event with the given `kind` discriminant
    /// (e.g. `"tool.invoked"`, `"prompt.completed"`) and per-emission
    /// `correlator` should be emitted.
    ///
    /// The `correlator` is producer-supplied and intended to be the
    /// most natural pairing key for the event family — for `tool.*`
    /// the internal call id, for `prompt.*` the conversation id, etc.
    fn should_sample(&self, kind: &str, correlator: &str) -> (keep: bool)
        ensures
            keep == self.samples(kind@, correlator@),
    ;
}

/// Policy that keeps every event. The default for [`TelemetryHook`].
///
/// [`TelemetryHook`]: crate::TelemetryHook
#[derive(Debug, Default, Clone, Copy)]
pub struct AlwaysSample;

impl SamplingPolicy for AlwaysSample {
    open spec fn samples(&self, kind: Seq<char>, correlator: Seq<char>) -> bool {
        true
    }

    fn should_sample(&self, _kind: &str, _correlator: &str) -> (keep: bool) {
        true
    }
}

/// Event kinds the [`AdaptiveErrorPolicy`] always keeps regardless of the
/// inner policy's drop rate: failures, hook-driven aborts, and recovery.
pub open spec fn anomaly(kind: Seq<char>) -> bool {
    ||| kind == "prompt.failed"@
    ||| kind == "tool.failed"@
    ||| kind == "tool.terminated"@
    ||| kind == "compose.recovery"@
    ||| kind == "compose.retry_attempt"@
}

fn is_anomaly(kind: &str) -> (kept: bool)
    ensures
        kept == anomaly(kind@),
{
    same_text(kind, "prompt.failed") || same_text(kind, "tool.failed") || same_text(
        kind,
        "tool.terminated",
    ) || same_text(kind, "compose.recovery") || same_text(kind, "compose.retry_attempt")
}

/// A policy that wraps an underlying downsampler but guarantees that critical
/// error and recovery paths always bypass the drop rate and get emitted 100%
/// of the time.
///
/// The always-keep set is a deliberate allowlist of *anomaly* kinds, not a
/// broad suffix match. It covers genuine failures and recovery signals:
/// `prompt.failed`, `tool.failed`, `tool.terminated`, `compose.recovery` and
/// `compose.retry_attempt`.
///
/// `tool.skipped` is intentionally **not** retained: a gate choosing not to
/// run a tool is a routine control-flow decision, not an anomaly, and keeping
/// 100% of skips would flood a sampled stream with non-error volume. Callers
/// who want additional kinds always kept can list them via
/// [`AdaptiveErrorPolicy::also_keep`].
#[derive(Debug, Clone)]
pub struct AdaptiveErrorPolicy<P: SamplingPolicy> {
    inner: P,
    extra_keep: Vec<String>,
}

impl<P: SamplingPolicy> AdaptiveErrorPolicy<P> {
    /// The policy that decides on ordinary kinds.
    pub closed spec fn inner(self) -> P {
        self.inner
    }

    /// The kinds kept besides the anomalies, in the order they were added.
    pub closed spec fn extra(self) -> Seq<Seq<char>> {
        self.extra_keep.deep_view()
    }

    /// Wrap an existing policy (like [`RatePolicy`]) with error-bypassing logic.
    pub fn new(inner: P) -> (policy: Self)
        ensures
            policy.inner() == inner,
            policy.extra() == Seq::<Seq<char>>::empty(),
    {
        let policy = AdaptiveErrorPolicy { inner, extra_keep: Vec::new() };
        assert(policy.extra() =~= Seq::<Seq<char>>::empty());
        policy
    }

    /// Add an extra event-kind discriminant to the always-keep allowlist
    /// (e.g. `"tool.skipped"` if your deployment treats skips as signal).
    #[must_use]
    pub fn also_keep(self, kind: &str) -> (policy: Self)
        ensures
            policy.inner() == self.inner(),
            policy.extra() == self.extra().push(kind@),
    {
        let mut extra_keep = self.extra_keep;
        extra_keep.push(kind.to_owned());
        let policy = AdaptiveErrorPolicy { inner: self.inner, extra_keep };
        assert(policy.extra() =~= self.extra().push(kind@));
        policy
    }
}

impl<P: SamplingPolicy> SamplingPolicy for AdaptiveErrorPolicy<P> {
    open spec fn samples(&self, kind: Seq<char>, correlator: Seq<char>) -> bool {
        anomaly(kind) || self.extra().contains(kind) || self.inner().samples(kind, correlator)
    }

    fn should_sample(&self, kind: &str, correlator: &str) -> (keep: bool) {
        // Deterministically retain genuine failure / recovery anomalies.
        if is_anomaly(kind) {
            return true;
        }
        let mut i: usize = 0;
        while i < self.extra_keep.len()
            invariant
                i <= self.extra_keep.len(),
                self.extra() == self.extra_keep.deep_view(),
                forall|k: int| 0 <= k < i ==> self.extra_keep[k]@ != kind@,
            decreases self.extra_keep.len() - i,
        {
            if same_text(self.extra_keep[i].as_str(), kind) {
                assert(self.extra()[i as int] == kind@);
                return true;
            }
            i += 1;
        }
        proof {
            if self.extra().contains(kind@) {
                let k = choose|k: int| 0 <= k < self.extra().len() && self.extra()[k] == kind@;
                assert(self.extra_keep[k]@ == kind@);
            }
        }
        self.inner.should_sample(kind, correlator)
    }
}

/// Number of sampling buckets.
pub const BUCKETS: u64 = 0x1_0000_0000;

/// The bits of `1.0`.
pub const ONE_BITS: u64 = 0x3FF0_0000_0000_0000;

/// Name of the hash of `correlator`: what `BuildHasher::hash_one` returns for
/// it over std's `DefaultHasher` in its fixed initial state.
pub uninterp spec fn correlator_hash(correlator: Seq<char>) -> u64;

/// Calls `std::hash::BuildHasher::hash_one` with a builder of
/// `DefaultHasher::new()`, which starts every hash from the same fixed keys.
/// The contract claims that the result depends on the text alone and names it;
/// nothing is said of its value.
#[verifier::external_body]
fn hash_correlator(correlator: &str) -> (hash: u64)
    ensures
        hash == correlator_hash(correlator@),
{
    let fixed = std::hash::BuildHasherDefault::<std::hash::DefaultHasher>::default();
    std::hash::BuildHasher::hash_one(&fixed, correlator)
}

/// The bucket of `correlator`: the bottom 32 bits of its hash.
pub open spec fn bucket_of(correlator: Seq<char>) -> nat {
    (correlator_hash(correlator) % BUCKETS) as nat
}

/// Whether `rate` keeps `bucket`: the bucket, scaled to `[0, 1)`, lies below
/// the rate. With `bucket / 2^32 < significand * 2^(scale - 1074)` both sides
/// are multiplied by `2^(1074 - scale)`.
pub open spec fn keeps(rate: Float64, bucket: nat) -> bool {
    rate.at_least_one() || (rate.positive() && bucket * vstd::arithmetic::power2::pow2(
        (1042 - rate.scale()) as nat,
    ) < rate.significand())
}

/// The rate nearest to `rate` in the unit interval, with no number as zero.
pub open spec fn unit_rate(rate: Float64) -> Float64 {
    if rate.nan() {
        Float64 { bits: 0 }
    } else if rate.negative() {
        if rate.significand() == 0 {
            rate
        } else {
            Float64 { bits: 0 }
        }
    } else if rate.at_least_one() {
        Float64 { bits: ONE_BITS }
    } else {
        rate
    }
}

fn exponent_of(rate: Float64) -> (exponent: u64)
    ensures
        exponent == rate.exponent(),
        exponent < 2048,
{
    let exponent: u64 = (rate.bits % MAGNITUDE) / FRACTION;
    assert(exponent < 2048) by (nonlinear_arith)
        requires
            exponent == (rate.bits % 0x8000_0000_0000_0000u64) / 0x10_0000_0000_0000u64,
    ;
    exponent
}

/// Clamps `rate` to `[0, 1]`; what is not a number becomes `0.0`.
pub fn clamp_unit(rate: Float64) -> (clamped: Float64)
    ensures
        clamped == unit_rate(rate),
{
    let exponent: u64 = exponent_of(rate);
    let fraction: u64 = rate.bits % FRACTION;
    if exponent == 2047 && fraction != 0 {
        Float64 { bits: 0 }
    } else if rate.bits >= MAGNITUDE {
        if exponent == 0 && fraction == 0 {
            rate
        } else {
            Float64 { bits: 0 }
        }
    } else if exponent >= 1023 {
        Float64 { bits: ONE_BITS }
    } else {
        rate
    }
}

/// Whether `rate` keeps `bucket`.
pub fn keeps_bucket(rate: Float64, bucket: u64) -> (keep: bool)
    requires
        bucket < BUCKETS,
    ensures
        keep == keeps(rate, bucket as nat),
{
    let exponent: u64 = exponent_of(rate);
    let fraction: u64 = rate.bits % FRACTION;
    if exponent == 2047 && fraction != 0 {
        return false;
    }
    if rate.bits >= MAGNITUDE {
        return false;
    }
    if exponent >= 1023 {
        return true;
    }
    if exponent == 0 && fraction == 0 {
        return false;
    }
    let significand: u64 = if exponent == 0 {
        fraction
    } else {
        FRACTION + fraction
    };
    let scale: u64 = if exponent == 0 {
        0
    } else {
        exponent - 1
    };
    let shift: u64 = 1042 - scale;
    let ghost unit = vstd::arithmetic::power2::pow2(shift as nat);
    proof {
        vstd::arithmetic::power2::lemma_pow2_pos(shift as nat);
    }
    if shift >= 53 {
        proof {
            vstd::arithmetic::power2::lemma2_to64();
            vstd::arithmetic::power2::lemma2_to64_rest();
            if shift > 53 {
                vstd::arithmetic::power2::lemma_pow2_strictly_increases(53, shift as nat);
            }
            assert(unit >= 0x20_0000_0000_0000);
            if bucket >= 1 {
                assert(bucket * unit >= unit) by (nonlinear_arith)
                    requires
                        bucket >= 1,
                        unit >= 0,
                ;
            }
        }
        return bucket == 0;
    }
    let limit: u64 = (significand - 1) >> shift;
    proof {
        let below = (significand - 1) as u64;
        vstd::bits::lemma_u64_shr_is_div(below, shift);
        assert(limit as int == below as int / unit as int);
        assert((bucket <= limit) == (bucket * unit <= below)) by (nonlinear_arith)
            requires
                limit as int == below as int / unit as int,
                unit > 0,
                bucket >= 0,
        ;
    }
    bucket <= limit
}

/// Whether `rate` keeps a correlator with the given hash.
pub fn keeps_hash(rate: Float64, hash: u64) -> (keep: bool)
    ensures
        keep == keeps(rate, (hash % BUCKETS) as nat),
{
    keeps_bucket(rate, hash % BUCKETS)
}

/// Per-kind rate sampler with deterministic, paired-event-safe
/// decisions.
///
/// Unspecified kinds default to `default_rate` (initially `1.0`, i.e.
/// always sample). Configured kinds use the supplied rate in `[0, 1]`,
/// clamped to that range. Rates outside the unit interval are treated
/// as the nearest valid value.
///
/// Sampling is computed by hashing the `correlator` with std's default
/// hasher and comparing the bottom 32 bits, scaled to `[0, 1)`,
/// against the configured rate. Because event kind is deliberately not part
/// of the bucket hash, paired emissions (e.g. `tool.invoked` and
/// `tool.completed` sharing an internal call id) use the same bucket and are
/// either both kept or both dropped when configured with the same rate.
#[derive(Debug, Clone)]
pub struct RatePolicy {
    /// Configured rates in the order they were set: for a kind that occurs
    /// more than once the last entry counts.
    rates: Vec<(String, Float64)>,
    default_rate: Float64,
}

/// The rate of the last entry for `kind` in `rates`.
pub open spec fn last_rate(rates: Seq<(String, Float64)>, kind: Seq<char>) -> Option<Float64>
    decreases rates.len(),
{
    if rates.len() == 0 {
        None
    } else if rates.last().0@ == kind {
        Some(rates.last().1)
    } else {
        last_rate(rates.drop_last(), kind)
    }
}

impl Default for RatePolicy {
    fn default() -> (policy: Self)
        ensures
            forall|kind: Seq<char>| #[trigger] policy.configured(kind) is None,
            policy.default_rate() == (Float64 { bits: ONE_BITS }),
    {
        RatePolicy::new()
    }
}

impl RatePolicy {
    /// The rate set for `kind`, if one was set.
    pub closed spec fn configured(self, kind: Seq<char>) -> Option<Float64> {
        last_rate(self.rates@, kind)
    }

    /// The rate of kinds for which none was set.
    pub closed spec fn default_rate(self) -> Float64 {
        self.default_rate
    }

    /// The rate that applies to `kind`.
    pub open spec fn rate(self, kind: Seq<char>) -> Float64 {
        match self.configured(kind) {
            Some(rate) => rate,
            None => self.default_rate(),
        }
    }

    /// Build a policy that keeps every event (`default_rate = 1.0`)
    /// until rates are configured per-kind via [`with_rate`].
    ///
    /// [`with_rate`]: Self::with_rate
    pub fn new() -> (policy: Self)
        ensures
            forall|kind: Seq<char>| #[trigger] policy.configured(kind) is None,
            policy.default_rate() == (Float64 { bits: ONE_BITS }),
    {
        RatePolicy { rates: Vec::new(), default_rate: Float64 { bits: ONE_BITS } }
    }

    /// Override the rate applied to event kinds that have no explicit
    /// entry. Useful when downsampling is the rule and full sampling
    /// is the exception.
    #[must_use]
    pub fn with_default_rate(self, rate: Float64) -> (policy: Self)
        ensures
            forall|kind: Seq<char>| #[trigger]
                policy.configured(kind) == self.configured(kind),
            policy.default_rate() == unit_rate(rate),
    {
        RatePolicy { rates: self.rates, default_rate: clamp_unit(rate) }
    }

    /// Set the sampling rate for `kind` to `rate` (clamped to `[0, 1]`).
    ///
    /// `kind` should match an [`EventKind::discriminant()`](crate::EventKind::discriminant)
    /// return value such as `"tool.invoked"`, `"tool.completed"`,
    /// `"prompt.completed"`, `"eval.report"`.
    #[must_use]
    pub fn with_rate(self, kind: &str, rate: Float64) -> (policy: Self)
        ensures
            forall|k: Seq<char>| #[trigger]
                policy.configured(k) == (if k == kind@ {
                    Some(unit_rate(rate))
                } else {
                    self.configured(k)
                }),
            policy.default_rate() == self.default_rate(),
    {
        let mut rates = self.rates;
        rates.push((kind.to_owned(), clamp_unit(rate)));
        assert(rates@.drop_last() =~= self.rates@);
        RatePolicy { rates, default_rate: self.default_rate }
    }

    fn rate_for(&self, kind: &str) -> (rate: Float64)
        ensures
            rate == self.rate(kind@),
    {
        let mut i: usize = self.rates.len();
        assert(self.rates@.take(i as int) =~= self.rates@);
        while i > 0
            invariant
                i <= self.rates.len(),
                last_rate(self.rates@, kind@) == last_rate(self.rates@.take(i as int), kind@),
            decreases i,
        {
            i -= 1;
            assert(self.rates@.take(i + 1).drop_last() =~= self.rates@.take(i as int));
            if same_text(self.rates[i].0.as_str(), kind) {
                return self.rates[i].1;
            }
        }
        self.default_rate
    }
}

impl SamplingPolicy for RatePolicy {
    open spec fn samples(&self, kind: Seq<char>, correlator: Seq<char>) -> bool {
        keeps(self.rate(kind), bucket_of(correlator))
    }

    fn should_sample(&self, kind: &str, correlator: &str) -> (keep: bool) {
        keeps_hash(self.rate_for(kind), hash_correlator(correlator))
    }
}

/// Paired events stay coherent: two kinds with the same rate are both kept or
/// both dropped for one correlator, whatever the rate.
pub proof fn lemma_pairs_are_coherent(
    policy: RatePolicy,
    kind: Seq<char>,
    paired_kind: Seq<char>,
    correlator: Seq<char>,
)
    requires
        policy.rate(kind) == policy.rate(paired_kind),
    ensures
        policy.samples(kind, correlator) == policy.samples(paired_kind, correlator),
{
}

/// Clamping changes no decision: a rate outside the unit interval keeps
/// exactly what the nearest rate inside it keeps.
pub proof fn lemma_clamping_keeps_decisions(rate: Float64, bucket: nat)
    ensures
        keeps(unit_rate(rate), bucket) == keeps(rate, bucket),
{
    lemma_bits_of_one();
    lemma_bits_of_zero();
}

/// A rate of one or more keeps every bucket; zero, a negative rate and what
/// is not a number keep none.
pub proof fn lemma_rate_extremes(rate: Float64, bucket: nat)
    ensures
        rate.at_least_one() ==> keeps(rate, bucket),
        !rate.positive() ==> !keeps(rate, bucket),
        keeps(Float64 { bits: ONE_BITS }, bucket),
        !keeps(Float64 { bits: 0 }, bucket),
{
    lemma_bits_of_one();
    lemma_bits_of_zero();
    if rate.at_least_one() {
        assert(rate.positive());
    }
}

/// What a rate keeps, every bucket below it is kept by too: the rate is a
/// threshold on the bucket.
pub proof fn lemma_rate_is_a_threshold(rate: Float64, bucket: nat, lower: nat)
    requires
        keeps(rate, bucket),
        lower <= bucket,
    ensures
        keeps(rate, lower),
{
    let unit = vstd::arithmetic::power2::pow2((1042 - rate.scale()) as nat);
    vstd::arithmetic::power2::lemma_pow2_pos((1042 - rate.scale()) as nat);
    assert(lower * unit <= bucket * unit) by (nonlinear_arith)
        requires
            lower <= bucket,
            unit >= 0,
    ;
}

/// A higher rate keeps whatever a lower rate keeps: raising a rate drops
/// nothing that was kept before.
pub proof fn lemma_higher_rate_keeps_more(rate: Float64, higher: Float64, bucket: nat)
    requires
        keeps(rate, bucket),
        rate.at_most(higher),
    ensures
        keeps(higher, bucket),
{
    if higher.exponent() < rate.exponent() {
        crate::float::lemma_exponents_order(higher, rate);
    }
    let unit = vstd::arithmetic::power2::pow2(rate.scale());
    let higher_unit = vstd::arithmetic::power2::pow2(higher.scale());
    vstd::arithmetic::power2::lemma_pow2_pos(rate.scale());
    vstd::arithmetic::power2::lemma_pow2_pos(higher.scale());
    assert(rate.significand() * unit > 0) by (nonlinear_arith)
        requires
            rate.significand() > 0,
            unit > 0,
    ;
    assert(higher.significand() * higher_unit >= 0) by (nonlinear_arith);
    assert(higher.significand() > 0) by (nonlinear_arith)
        requires
            higher.significand() * higher_unit > 0,
    ;
    if !rate.at_least_one() && !higher.at_least_one() {
        let inverse = vstd::arithmetic::power2::pow2((1042 - rate.scale()) as nat);
        let higher_inverse = vstd::arithmetic::power2::pow2((1042 - higher.scale()) as nat);
        vstd::arithmetic::power2::lemma_pow2_adds((1042 - rate.scale()) as nat, rate.scale());
        vstd::arithmetic::power2::lemma_pow2_adds((1042 - higher.scale()) as nat, higher.scale());
        assert(bucket * higher_inverse < higher.significand()) by (nonlinear_arith)
            requires
                bucket * inverse < rate.significand(),
                rate.significand() * unit <= higher.significand() * higher_unit,
                inverse * unit == higher_inverse * higher_unit,
                unit > 0,
                higher_unit > 0,
        ;
    }
}

/// Failures and recovery signals are kept whatever the inner policy decides,
/// and every other kind that was not added is left to it.
pub proof fn lemma_adaptive_keeps_anomalies<P: SamplingPolicy>(
    policy: AdaptiveErrorPolicy<P>,
    kind: Seq<char>,
    correlator: Seq<char>,
)
    ensures
        anomaly(kind) ==> policy.samples(kind, correlator),
        policy.extra().contains(kind) ==> policy.samples(kind, correlator),
        !anomaly(kind) && !policy.extra().contains(kind) ==> policy.samples(kind, correlator)
            == policy.inner().samples(kind, correlator),
{
}

proof fn lemma_bits_of_one()
    ensures
        (Float64 { bits: ONE_BITS }).at_least_one(),
{
    assert((0x3FF0_0000_0000_0000u64 % 0x8000_0000_0000_0000u64) / 0x10_0000_0000_0000u64
        == 1023);
    assert(0x3FF0_0000_0000_0000u64 % 0x10_0000_0000_0000u64 == 0);
}

proof fn lemma_bits_of_zero()
    ensures
        !(Float64 { bits: 0 }).positive(),
        !(Float64 { bits: 0 }).at_least_one(),
{
}

} // verus!
