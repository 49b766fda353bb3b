use bastion::metrics::collector::{
    merge_run, merge_status_counts, merge_workers, progress_step, WorkerMetrics,
};
use bastion::metrics::summary::{
    count_spikes, sort_spans, spike_threshold, sum_counts, summarize_counts, WindowCounts,
};
use bastion::time::Duration;
use std::collections::HashMap;

fn ms(n: u64) -> Duration {
    Duration::from_millis(n)
}

fn window(requests: u64, errors: u64, bytes: u64, p99_ms: u64) -> WindowCounts {
    WindowCounts { request_count: requests, error_count: errors, bytes_received: bytes, p99: ms(p99_ms) }
}

#[test]
fn spans_sort_by_length() {
    let sorted = sort_spans(&vec![ms(30), ms(10), ms(20), ms(10)]);
    assert_eq!(sorted, vec![ms(10), ms(10), ms(20), ms(30)]);
    assert!(sort_spans(&vec![]).is_empty());
}

#[test]
fn spike_threshold_is_twice_the_upper_median() {
    // sorted: 10, 20, 30, 40 -> index 2 -> 30 ms
    assert_eq!(spike_threshold(&vec![ms(40), ms(10), ms(30), ms(20)]), ms(60));
    assert_eq!(spike_threshold(&vec![ms(7)]), ms(14));
}

#[test]
fn spikes_are_windows_strictly_above_the_threshold() {
    let p99s = vec![ms(10), ms(21), ms(20), ms(50)];
    assert_eq!(count_spikes(&p99s, ms(20)), 2);
    assert_eq!(count_spikes(&p99s, ms(50)), 0);
}

#[test]
fn spikes_stay_a_minority() {
    // Whatever the values, at most len - len/2 - 1 windows exceed twice the median.
    let p99s = vec![ms(1), ms(1), ms(1), ms(900), ms(900)];
    let t = spike_threshold(&p99s);
    assert_eq!(t, ms(2));
    let n = count_spikes(&p99s, t);
    assert_eq!(n, 2);
    assert!(n <= p99s.len() - p99s.len() / 2 - 1);
}

#[test]
fn counts_sum_up() {
    assert_eq!(sum_counts(&vec![1, 2, 3]), 6);
    assert_eq!(sum_counts(&vec![]), 0);
}

#[test]
fn run_summary_counts() {
    let ws = vec![window(100, 1, 1000, 10), window(90, 0, 900, 12), window(80, 5, 800, 40)];
    let r = summarize_counts(&ws);
    assert_eq!(r.window_count, 3);
    assert_eq!(r.total_requests, 270);
    assert_eq!(r.total_errors, 6);
    assert_eq!(r.total_bytes, 2700);
    assert_eq!(r.peak_p99, ms(40));
    assert_eq!(r.spike_threshold, ms(24));
    assert_eq!(r.spike_count, 1);
}

#[test]
fn run_summary_of_no_windows_is_zero() {
    let r = summarize_counts(&vec![]);
    assert_eq!(r.window_count, 0);
    assert_eq!(r.total_requests, 0);
    assert_eq!(r.peak_p99, Duration::zero());
    assert_eq!(r.spike_count, 0);
    assert_eq!(r.spike_threshold, Duration::zero());
}

#[test]
fn status_counts_merge_status_by_status() {
    let mut into: HashMap<u16, u64> = HashMap::new();
    into.insert(200, 5);
    into.insert(404, 1);
    let mut from: HashMap<u16, u64> = HashMap::new();
    from.insert(200, 3);
    from.insert(500, 2);
    merge_status_counts(&mut into, &from);
    assert_eq!(into.len(), 3);
    assert_eq!(into[&200], 8);
    assert_eq!(into[&404], 1);
    assert_eq!(into[&500], 2);
}

#[test]
fn workers_merge_into_one() {
    let mut a = WorkerMetrics::new();
    a.record_success(ms(10), 200, 100);
    a.record_success(ms(20), 200, 50);
    a.record_error(ms(30));
    let mut b = WorkerMetrics::new();
    b.record_success(ms(40), 201, 10);
    b.record_error(ms(50));
    let m = merge_workers(vec![a, b, WorkerMetrics::new()]);
    assert_eq!(m.success_count, 3);
    assert_eq!(m.error_count, 2);
    assert_eq!(m.bytes_received, 160);
    assert_eq!(m.histogram.count(), 5);
    assert_eq!(m.status_counts.len(), 2);
    assert_eq!(m.status_counts[&200], 2);
    assert_eq!(m.status_counts[&201], 1);
    assert!(m.histogram.min().as_nanos() <= 10_000_000);
    assert!(m.histogram.max().as_nanos() >= 50_000_000);
}

#[test]
fn merging_equals_recording_all_in_one() {
    let mut one = WorkerMetrics::new();
    let mut a = WorkerMetrics::new();
    let mut b = WorkerMetrics::new();
    for i in 1..=50u64 {
        one.record_success(ms(i), 200, 1);
        if i % 2 == 0 {
            a.record_success(ms(i), 200, 1);
        } else {
            b.record_success(ms(i), 200, 1);
        }
    }
    a.merge(&b);
    assert_eq!(a.success_count, one.success_count);
    assert_eq!(a.bytes_received, one.bytes_received);
    assert_eq!(a.histogram.count(), one.histogram.count());
    assert_eq!(a.histogram.min(), one.histogram.min());
    assert_eq!(a.histogram.max(), one.histogram.max());
    assert_eq!(a.status_counts, one.status_counts);
}

#[test]
fn no_workers_merge_to_nothing() {
    let m = merge_workers(vec![]);
    assert_eq!(m.success_count, 0);
    assert_eq!(m.histogram.count(), 0);
    assert!(m.status_counts.is_empty());
}

#[test]
fn progress_steps() {
    let w = progress_step(true, Some(500), 99);
    assert!(w.warmup && !w.completed && !w.error);
    assert_eq!(w.bytes, 0);
    let ok = progress_step(false, Some(399), 7);
    assert!(!ok.warmup && ok.completed && !ok.error);
    assert_eq!(ok.bytes, 7);
    assert!(progress_step(false, Some(400), 0).error);
    assert!(progress_step(false, None, 0).error);
}

#[test]
fn run_totals_from_workers() {
    let mut a = WorkerMetrics::new();
    a.record_success(ms(10), 200, 5);
    a.record_error(ms(20));
    let mut b = WorkerMetrics::new();
    b.record_success(ms(30), 404, 7);
    let r = merge_run(vec![a, b]);
    assert_eq!(r.total_requests, 3);
    assert_eq!(r.metrics.success_count, 2);
    assert_eq!(r.metrics.error_count, 1);
    assert_eq!(r.metrics.bytes_received, 12);
    assert!(!r.has_ttfb && !r.has_transfer && !r.has_scheduler_delay);
}
