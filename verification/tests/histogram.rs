use bastion::metrics::histogram::LatencyHistogram;
use bastion::time::Duration;

fn percentile(h: &LatencyHistogram, pct: f64) -> u64 {
    h.hdr().inner.value_at_percentile(pct)
}

#[test]
fn test_single_value_all_percentiles_equal() {
    let mut h = LatencyHistogram::new();
    h.record(Duration::from_millis(100));

    assert_eq!(percentile(&h, 50.0), percentile(&h, 99.0));
    assert_eq!(h.count(), 1);
}

#[test]
fn test_percentile_ordering_invariant() {
    let mut h = LatencyHistogram::new();
    for ms in [1, 5, 10, 20, 50, 100, 200, 500, 1000] {
        for _ in 0..100 {
            h.record(Duration::from_millis(ms))
        }
    }

    assert!(percentile(&h, 50.0) <= percentile(&h, 75.0));
    assert!(percentile(&h, 75.0) <= percentile(&h, 90.0));
    assert!(percentile(&h, 90.0) <= percentile(&h, 95.0));
    assert!(percentile(&h, 95.0) <= percentile(&h, 99.0));
    assert!(percentile(&h, 99.0) <= percentile(&h, 99.9));
}

#[test]
fn test_merge_is_equivalent_to_single_histogram() {
    let values_a: Vec<u64> = (1..=100).map(|i| i * 5).collect();
    let values_b: Vec<u64> = (1..=100).map(|i| i * 7).collect();

    let mut combined = LatencyHistogram::new();
    for &v in values_a.iter().chain(values_b.iter()) {
        combined.record(Duration::from_millis(v));
    }

    let mut h_a = LatencyHistogram::new();
    let mut h_b = LatencyHistogram::new();
    for &v in &values_a {
        h_a.record(Duration::from_millis(v));
    }
    for &v in &values_b {
        h_b.record(Duration::from_millis(v));
    }
    h_a.merge(&h_b);

    let p99_combined = percentile(&combined, 99.0) as f64;
    let p99_merged = percentile(&h_a, 99.0) as f64;
    let diff = (p99_combined - p99_merged).abs() / p99_combined;

    assert!(
        diff < 0.001,
        "Merge should be equivalent to combined: combined={:?} merged={:?} diff={:.4}%",
        percentile(&combined, 99.0),
        percentile(&h_a, 99.0),
        diff * 100.0
    );
}

#[test]
fn test_saturate_at_max_does_not_panic() {
    let mut h = LatencyHistogram::new();

    h.record(Duration::from_secs(3600));
    assert_eq!(h.count(), 1);
}

#[test]
fn test_count_matches_records() {
    let mut h = LatencyHistogram::new();
    for i in 0..1000 {
        h.record(Duration::from_millis(i % 100));
    }
    assert_eq!(h.count(), 1000);
}

#[test]
fn test_zero_duration_recorded_without_panic() {
    let mut h = LatencyHistogram::new();

    h.record(Duration::zero());
    assert_eq!(h.count(), 1);
}

#[test]
fn record_clamps_beyond_sixty_seconds() {
    let mut h = LatencyHistogram::new();
    h.record(Duration::from_secs(3600));
    assert!(h.max().as_nanos() >= 60_000_000_000);
    assert!(h.max().as_nanos() < 60_100_000_000);
}

#[test]
fn empty_histogram_reads_zero() {
    let h = LatencyHistogram::new();
    assert_eq!(h.count(), 0);
    assert_eq!(h.min().as_nanos(), 0);
    assert_eq!(h.max().as_nanos(), 0);
}

#[test]
fn min_and_max_bound_the_recorded_values() {
    let mut h = LatencyHistogram::new();
    h.record(Duration::from_micros(1500));
    h.record(Duration::from_millis(250));
    assert!(h.min().as_nanos() <= 1_500_000);
    assert!(h.max().as_nanos() >= 250_000_000);
}

#[test]
fn merge_adds_counts() {
    let mut a = LatencyHistogram::new();
    let mut b = LatencyHistogram::new();
    a.record(Duration::from_millis(1));
    b.record(Duration::from_millis(2));
    b.record(Duration::from_millis(3));
    a.merge(&b);
    assert_eq!(a.count(), 3);
    assert_eq!(b.count(), 2);
}

#[test]
fn extremes_fall_within_a_bucket_of_the_values() {
    let mut h = LatencyHistogram::new();
    h.record(Duration::from_nanos(123_456_789));
    h.record(Duration::from_nanos(987_654_321));
    let lo = h.min().as_nanos() as u64;
    let hi = h.max().as_nanos() as u64;
    assert!(lo <= 123_456_789 && 123_456_789 - lo <= 123_456_789 / 1024);
    assert!(hi >= 987_654_321 && hi - 987_654_321 <= 987_654_321 / 1024);
}
