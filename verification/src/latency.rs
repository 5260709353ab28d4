//! Summary statistics over latency samples.

use vstd::prelude::*;

verus! {

/// Summary statistics over a set of millisecond latency samples.
///
/// Percentiles use the nearest-rank method on the sorted sample set. All
/// fields are `None` when no samples were observed (`count == 0`).
#[derive(Debug, Clone, Copy, PartialEq, Eq, Structural)]
pub struct LatencySummary {
    /// Number of latency samples observed.
    pub count: usize,
    /// Smallest sample, if any.
    pub min_ms: Option<u64>,
    /// Largest sample, if any.
    pub max_ms: Option<u64>,
    /// Arithmetic mean (integer-truncated), if any.
    pub mean_ms: Option<u64>,
    /// 50th percentile (median), if any.
    pub p50_ms: Option<u64>,
    /// 90th percentile, if any.
    pub p90_ms: Option<u64>,
    /// 95th percentile, if any.
    pub p95_ms: Option<u64>,
    /// 99th percentile, if any.
    pub p99_ms: Option<u64>,
}

/// Whether the samples stand in ascending order.
pub open spec fn ascending(samples: Seq<u64>) -> bool {
    forall|i: int, j: int| 0 <= i <= j < samples.len() ==> samples[i] <= samples[j]
}

/// Whether `sorted` holds the samples, each as often, in ascending order.
pub open spec fn sorted_form(samples: Seq<u64>, sorted: Seq<u64>) -> bool {
    ascending(sorted) && sorted.to_multiset() == samples.to_multiset()
}

/// The sum of the samples.
pub open spec fn total(samples: Seq<u64>) -> nat
    decreases samples.len(),
{
    if samples.len() == 0 {
        0
    } else {
        total(samples.drop_last()) + samples.last() as nat
    }
}

/// The nearest rank of the `p`-th percentile among `len` samples, counted from
/// one: the smallest rank that at least `p` percent of the samples reach.
pub open spec fn nearest_rank(p: nat, len: nat) -> nat {
    (p * len + 99) / 100
}

/// The position of the `p`-th percentile in a sorted list, counted from zero
/// and kept within the list.
pub open spec fn percentile_index(p: nat, len: nat) -> int {
    let rank = nearest_rank(p, len);
    if rank == 0 {
        0
    } else if rank > len {
        len - 1
    } else {
        rank - 1
    }
}

/// The `p`-th percentile of a sorted list.
pub open spec fn percentile_of(sorted: Seq<u64>, p: nat) -> Option<u64> {
    if sorted.len() == 0 {
        None
    } else {
        Some(sorted[percentile_index(p, sorted.len())])
    }
}

/// The summary of no samples.
pub open spec fn empty_summary() -> LatencySummary {
    LatencySummary {
        count: 0,
        min_ms: None,
        max_ms: None,
        mean_ms: None,
        p50_ms: None,
        p90_ms: None,
        p95_ms: None,
        p99_ms: None,
    }
}

/// The summary of a sorted list of samples.
pub open spec fn summary_of(sorted: Seq<u64>) -> LatencySummary {
    if sorted.len() == 0 {
        empty_summary()
    } else {
        LatencySummary {
            count: sorted.len() as usize,
            min_ms: Some(sorted.first()),
            max_ms: Some(sorted.last()),
            mean_ms: Some((total(sorted) / sorted.len()) as u64),
            p50_ms: percentile_of(sorted, 50),
            p90_ms: percentile_of(sorted, 90),
            p95_ms: percentile_of(sorted, 95),
            p99_ms: percentile_of(sorted, 99),
        }
    }
}

/// Whether `summary` is the summary of the samples: that of their sorted form,
/// whatever their order.
pub open spec fn summarizes(samples: Seq<u64>, summary: LatencySummary) -> bool {
    &&& exists|sorted: Seq<u64>| #[trigger] sorted_form(samples, sorted)
    &&& forall|sorted: Seq<u64>| #[trigger]
        sorted_form(samples, sorted) ==> summary == summary_of(sorted)
}

/// Calls `slice::sort_unstable`: afterwards the list holds the same samples in
/// ascending order.
#[verifier::external_body]
fn sort_samples(samples: &mut Vec<u64>)
    ensures
        sorted_form(old(samples)@, final(samples)@),
{
    samples.sort_unstable();
}

/// Nearest-rank percentile over an already-sorted ascending list.
pub fn percentile(sorted: &Vec<u64>, p: u64) -> (value: Option<u64>)
    ensures
        value == percentile_of(sorted@, p as nat),
{
    let len: usize = sorted.len();
    if len == 0 {
        return None;
    }
    assert(p * len + 99 <= u128::MAX) by (nonlinear_arith)
        requires
            0 <= p <= u64::MAX,
            0 <= len <= u64::MAX,
    ;
    let rank: u128 = (p as u128 * len as u128 + 99) / 100;
    let index: usize = if rank == 0 {
        0
    } else if rank > len as u128 {
        len - 1
    } else {
        (rank - 1) as usize
    };
    Some(sorted[index])
}

impl Default for LatencySummary {
    fn default() -> (summary: Self)
        ensures
            summary == empty_summary(),
    {
        LatencySummary {
            count: 0,
            min_ms: None,
            max_ms: None,
            mean_ms: None,
            p50_ms: None,
            p90_ms: None,
            p95_ms: None,
            p99_ms: None,
        }
    }
}

impl LatencySummary {
    /// Build a summary from raw millisecond samples. The input is sorted
    /// internally; sample order does not matter.
    pub fn from_samples(samples: Vec<u64>) -> (summary: Self)
        ensures
            summarizes(samples@, summary),
    {
        let mut sorted = samples;
        sort_samples(&mut sorted);
        proof {
            assert forall|other: Seq<u64>| #[trigger] sorted_form(samples@, other) implies other
                == sorted@ by {
                lemma_sorted_form_is_unique(samples@, sorted@, other);
            }
        }
        let count: usize = sorted.len();
        if count == 0 {
            return LatencySummary::default();
        }
        let mut sum: u128 = 0;
        let mut i: usize = 0;
        while i < sorted.len()
            invariant
                i <= sorted.len(),
                sum == total(sorted@.take(i as int)),
                sum <= i * u64::MAX,
            decreases sorted.len() - i,
        {
            assert(sorted@.take(i + 1).drop_last() =~= sorted@.take(i as int));
            assert(i * u64::MAX + u64::MAX <= u128::MAX) by (nonlinear_arith)
                requires
                    0 <= i < u64::MAX,
            ;
            sum = sum + sorted[i] as u128;
            assert((i + 1) * u64::MAX == i * u64::MAX + u64::MAX) by (nonlinear_arith);
            i += 1;
        }
        assert(sorted@.take(i as int) =~= sorted@);
        proof {
            lemma_mean_in_range(sorted@);
        }
        let mean: u64 = (sum / count as u128) as u64;
        LatencySummary {
            count,
            min_ms: Some(sorted[0]),
            max_ms: Some(sorted[count - 1]),
            mean_ms: Some(mean),
            p50_ms: percentile(&sorted, 50),
            p90_ms: percentile(&sorted, 90),
            p95_ms: percentile(&sorted, 95),
            p99_ms: percentile(&sorted, 99),
        }
    }

    /// Return `true` when no samples contributed to this summary.
    pub fn is_empty(&self) -> (empty: bool)
        ensures
            empty == (self.count == 0),
    {
        self.count == 0
    }
}

/// There is one sorted form of a set of samples.
pub proof fn lemma_sorted_form_is_unique(samples: Seq<u64>, one: Seq<u64>, other: Seq<u64>)
    requires
        sorted_form(samples, one),
        sorted_form(samples, other),
    ensures
        one == other,
{
    let leq = |a: u64, b: u64| a <= b;
    assert(vstd::relations::sorted_by(one, leq));
    assert(vstd::relations::sorted_by(other, leq));
    vstd::seq_lib::lemma_sorted_unique(one, other, leq);
}

/// Sample order does not matter: two lists that hold the same samples have the
/// same summary.
pub proof fn lemma_sample_order_does_not_matter(
    samples: Seq<u64>,
    shuffled: Seq<u64>,
    sorted: Seq<u64>,
    sorted_shuffled: Seq<u64>,
)
    requires
        samples.to_multiset() == shuffled.to_multiset(),
        sorted_form(samples, sorted),
        sorted_form(shuffled, sorted_shuffled),
    ensures
        summary_of(sorted) == summary_of(sorted_shuffled),
{
    lemma_sorted_form_is_unique(samples, sorted, sorted_shuffled);
}

/// The nearest rank of a percentile: at least `p` percent of the samples stand
/// at or below it, and fewer do below any smaller rank.
pub proof fn lemma_nearest_rank(p: nat, len: nat)
    requires
        0 < p <= 100,
        len > 0,
    ensures
        1 <= nearest_rank(p, len) <= len,
        percentile_index(p, len) == nearest_rank(p, len) - 1,
        100 * nearest_rank(p, len) >= p * len,
        100 * (nearest_rank(p, len) - 1) < p * len,
{
    assert(1 <= p * len <= 100 * len) by (nonlinear_arith)
        requires
            0 < p <= 100,
            len > 0,
    ;
}

/// A summary is ordered: the smallest sample, the percentiles from the median
/// up, and the largest sample do not decrease, and the mean lies between the
/// extremes.
pub proof fn lemma_summary_is_ordered(sorted: Seq<u64>)
    requires
        ascending(sorted),
        sorted.len() > 0,
    ensures
        ({
            let summary = summary_of(sorted);
            &&& summary.min_ms->0 <= summary.p50_ms->0
            &&& summary.p50_ms->0 <= summary.p90_ms->0
            &&& summary.p90_ms->0 <= summary.p95_ms->0
            &&& summary.p95_ms->0 <= summary.p99_ms->0
            &&& summary.p99_ms->0 <= summary.max_ms->0
            &&& summary.min_ms->0 <= summary.mean_ms->0 <= summary.max_ms->0
        }),
{
    lemma_mean_in_range(sorted);
    let n = sorted.len();
    assert(sorted[0] <= sorted[percentile_index(50, n)]);
    assert(sorted[percentile_index(50, n)] <= sorted[percentile_index(90, n)]);
    assert(sorted[percentile_index(90, n)] <= sorted[percentile_index(95, n)]);
    assert(sorted[percentile_index(95, n)] <= sorted[percentile_index(99, n)]);
    assert(sorted[percentile_index(99, n)] <= sorted[n - 1]);
}

proof fn lemma_total_in_range(sorted: Seq<u64>, low: u64, high: u64)
    requires
        forall|i: int| 0 <= i < sorted.len() ==> low <= #[trigger] sorted[i] <= high,
    ensures
        low * sorted.len() <= total(sorted) <= high * sorted.len(),
    decreases sorted.len(),
{
    if sorted.len() > 0 {
        let n = sorted.len() as int;
        assert forall|i: int| 0 <= i < sorted.drop_last().len() implies low <= #[trigger] sorted.drop_last()[i]
            <= high by {
            assert(sorted.drop_last()[i] == sorted[i]);
        }
        lemma_total_in_range(sorted.drop_last(), low, high);
        assert(low * n == low * (n - 1) + low) by (nonlinear_arith);
        assert(high * n == high * (n - 1) + high) by (nonlinear_arith);
        assert(low <= sorted[n - 1] <= high);
    }
}

/// The mean of a sorted list lies between its extremes.
pub proof fn lemma_mean_in_range(sorted: Seq<u64>)
    requires
        ascending(sorted),
        sorted.len() > 0,
    ensures
        sorted.first() <= total(sorted) / sorted.len() <= sorted.last(),
{
    let n = sorted.len() as int;
    let low = sorted.first();
    let high = sorted.last();
    let sum = total(sorted) as int;
    lemma_total_in_range(sorted, low, high);
    assert(low <= sum / n <= high) by (nonlinear_arith)
        requires
            n > 0,
            low * n <= sum <= high * n,
    ;
}

} // verus!
