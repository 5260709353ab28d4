use rig_tap::sampling::{clamp_unit, keeps_hash};
use rig_tap::{AdaptiveErrorPolicy, AlwaysSample, Float64, RatePolicy, SamplingPolicy};

fn rate(value: f64) -> Float64 {
    Float64::from_bits(value.to_bits())
}

#[test]
fn always_sample_keeps_every_event() {
    let policy = AlwaysSample;
    assert!(policy.should_sample("tool.invoked", "call-1"));
    assert!(policy.should_sample("prompt.completed", "conv-1"));
    assert!(policy.should_sample("anything", ""));
}

#[test]
fn rate_zero_drops_everything_rate_one_keeps_everything() {
    let policy = RatePolicy::new()
        .with_rate("tool.invoked", rate(0.0))
        .with_rate("tool.completed", rate(1.0));
    for i in 0..100 {
        let id = format!("call-{i}");
        assert!(!policy.should_sample("tool.invoked", &id));
        assert!(policy.should_sample("tool.completed", &id));
    }
}

#[test]
fn rate_decisions_are_deterministic_and_pair_coherent() {
    let policy = RatePolicy::new()
        .with_rate("tool.invoked", rate(0.5))
        .with_rate("tool.completed", rate(0.5));
    for i in 0..50 {
        let id = format!("call-{i}");
        let invoked = policy.should_sample("tool.invoked", &id);
        assert_eq!(invoked, policy.should_sample("tool.invoked", &id));
        let completed = policy.should_sample("tool.completed", &id);
        assert_eq!(
            invoked, completed,
            "tool.invoked/tool.completed must share the same bucket for {id}"
        );
    }
}

#[test]
fn rate_default_rate_is_used_for_unspecified_kinds() {
    let policy = RatePolicy::new().with_default_rate(rate(0.0));
    assert!(!policy.should_sample("memory.frame_written", "conv-1"));
    // Configured kinds still win.
    let policy = policy.with_rate("memory.frame_written", rate(1.0));
    assert!(policy.should_sample("memory.frame_written", "conv-1"));
}

#[test]
fn rate_clamps_out_of_range_inputs() {
    let policy = RatePolicy::new()
        .with_rate("a", rate(-0.5))
        .with_rate("b", rate(1.5))
        .with_rate("c", rate(f64::NAN));
    assert!(!policy.should_sample("a", "x"));
    assert!(policy.should_sample("b", "x"));
    assert!(!policy.should_sample("c", "x"));
}

#[test]
fn rate_approximates_configured_rate_over_a_population() {
    let policy = RatePolicy::new().with_rate("tool.invoked", rate(0.30));
    let mut kept = 0;
    let total = 5_000;
    for i in 0..total {
        let id = format!("call-{i}");
        if policy.should_sample("tool.invoked", &id) {
            kept += 1;
        }
    }
    let observed = kept as f64 / total as f64;
    // Wide tolerance — this is a smoke test, not a statistical proof.
    assert!(
        (observed - 0.30).abs() < 0.05,
        "observed rate {observed} drifted from configured 0.30"
    );
}

#[test]
fn adaptive_error_policy_keeps_failures_and_drops_skips() {
    // Inner policy drops everything (rate 0.0 across the board).
    let inner = RatePolicy::new().with_default_rate(rate(0.0));
    let adaptive = AdaptiveErrorPolicy::new(inner);

    // Happy paths are dropped by the inner policy.
    assert!(!adaptive.should_sample("tool.invoked", "call-id"));
    assert!(!adaptive.should_sample("tool.completed", "call-id"));
    assert!(!adaptive.should_sample("prompt.completed", "conv-id"));

    // Genuine failure / recovery anomalies bypass the drop rate.
    assert!(adaptive.should_sample("tool.failed", "call-id"));
    assert!(adaptive.should_sample("prompt.failed", "conv-id"));
    assert!(adaptive.should_sample("tool.terminated", "call-id"));
    assert!(adaptive.should_sample("compose.recovery", "kernel-id"));
    assert!(adaptive.should_sample("compose.retry_attempt", "kernel-id"));

    // `tool.skipped` is a routine gating decision, NOT an anomaly, so the
    // default allowlist must let the inner policy drop it.
    assert!(
        !adaptive.should_sample("tool.skipped", "call-id"),
        "tool.skipped must not be force-kept by default"
    );
}

#[test]
fn adaptive_error_policy_also_keep_extends_allowlist() {
    let inner = RatePolicy::new().with_default_rate(rate(0.0));
    let adaptive = AdaptiveErrorPolicy::new(inner).also_keep("tool.skipped");

    // Opt-in keeps the extra kind…
    assert!(adaptive.should_sample("tool.skipped", "call-id"));
    // …without force-keeping unrelated happy-path kinds.
    assert!(!adaptive.should_sample("tool.completed", "call-id"));
}

/// The decision on doubles: the bottom 32 bits of the fixed-key hash, scaled
/// to `[0, 1)`, lie below the rate.
fn expected(correlator: &str, rate: f64) -> bool {
    let build = std::hash::BuildHasherDefault::<std::hash::DefaultHasher>::default();
    let hash = std::hash::BuildHasher::hash_one(&build, correlator);
    let bucket = (hash as u32) as f64 / (u32::MAX as f64 + 1.0);
    bucket < rate
}

#[test]
fn rate_decision_matches_the_scaled_hash() {
    let rates = [
        0.0, -0.0, 1e-320, 1e-12, 2.3e-10, 0.001, 0.1, 0.25, 0.3, 0.5, 0.75, 0.9, 0.999_999, 1.0,
    ];
    for value in rates {
        let policy = RatePolicy::new().with_rate("k", rate(value));
        for i in 0..400 {
            let id = format!("call-{i}");
            assert_eq!(policy.should_sample("k", &id), expected(&id, value), "{id} at {value}");
        }
    }
}

#[test]
fn infinite_rates_clamp_like_finite_ones() {
    let policy = RatePolicy::new()
        .with_rate("up", rate(f64::INFINITY))
        .with_rate("down", rate(f64::NEG_INFINITY));
    assert!(policy.should_sample("up", "x"));
    assert!(!policy.should_sample("down", "x"));
}

#[test]
fn the_last_rate_for_a_kind_counts() {
    let policy = RatePolicy::new()
        .with_rate("k", rate(0.0))
        .with_rate("k", rate(1.0));
    assert!(policy.should_sample("k", "x"));
    let policy = RatePolicy::default().with_rate("k", rate(1.0)).with_rate("k", rate(0.0));
    assert!(!policy.should_sample("k", "x"));
    assert!(policy.should_sample("other", "x"));
}

#[test]
fn half_rate_splits_the_buckets_in_the_middle() {
    let half = rate(0.5);
    assert!(keeps_hash(half, 0));
    assert!(keeps_hash(half, 0x7FFF_FFFF));
    assert!(!keeps_hash(half, 0x8000_0000));
    // Only the bottom 32 bits count.
    assert!(keeps_hash(half, 0xFFFF_FFFF_7FFF_FFFF));
    assert!(!keeps_hash(half, 0xFFFF_FFFF));
}

#[test]
fn rates_decide_as_on_doubles() {
    let buckets = [0u64, 1, 2, 3, 0x1000, 0x4000_0000, 0x7FFF_FFFF, 0x8000_0000, 0xFFFF_FFFF];
    let rates = [
        f64::MIN_POSITIVE,
        5e-324,
        1.0 / 4_294_967_296.0,
        1.5 / 4_294_967_296.0,
        0.1,
        0.25,
        0.5,
        0.999_999_999_9,
        1.0 - f64::EPSILON,
        1.0,
        2.0,
        -1.0,
        0.0,
    ];
    for value in rates {
        for bucket in buckets {
            let scaled = bucket as f64 / 4_294_967_296.0;
            assert_eq!(keeps_hash(rate(value), bucket), scaled < value, "{bucket} at {value}");
        }
    }
}

#[test]
fn clamping_matches_doubles() {
    for value in [-2.0, -0.0, 0.0, 1e-310, 0.3, 1.0, 1.5, f64::INFINITY, f64::NEG_INFINITY] {
        let clamped: f64 = value.clamp(0.0, 1.0);
        assert_eq!(clamp_unit(rate(value)).to_bits(), clamped.to_bits(), "{value}");
    }
    assert_eq!(clamp_unit(rate(f64::NAN)).to_bits(), 0);
}

#[test]
fn a_higher_rate_keeps_what_a_lower_rate_keeps() {
    let rates = [f64::NEG_INFINITY, -0.5, -0.0, 0.0, 5e-324, 1e-310, 0.1, 0.3, 0.5, 1.0, 7.0];
    let hashes = [0u64, 1, 0x1999_9999, 0x4CCC_CCCD, 0x7FFF_FFFF, 0x8000_0000, 0xFFFF_FFFF];
    for (at, lower) in rates.iter().enumerate() {
        for higher in &rates[at..] {
            for hash in hashes {
                assert!(
                    !keeps_hash(rate(*lower), hash) || keeps_hash(rate(*higher), hash),
                    "{hash} at {lower} and {higher}"
                );
            }
        }
    }
    assert!(!keeps_hash(rate(0.3), 0x7FFF_FFFF));
    assert!(keeps_hash(rate(0.5), 0x7FFF_FFFF));
}

#[test]
fn numbers_are_equal_as_doubles_are() {
    let values = [f64::NAN, f64::NEG_INFINITY, -1.0, -0.0, 0.0, 5e-324, 0.5, 1.0, f64::INFINITY];
    for left in values {
        for right in values {
            assert_eq!(rate(left) == rate(right), left == right, "{left} and {right}");
        }
    }
    assert_ne!(rate(f64::NAN), rate(f64::NAN));
    assert_eq!(rate(-0.0), rate(0.0));
    assert!(rate(f64::NAN).is_nan());
    assert!(!rate(f64::INFINITY).is_nan());
}
