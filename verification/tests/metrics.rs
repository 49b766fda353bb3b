use bastion::http::connector::ConnectionTiming;
use bastion::http::timing::{HttpProtocol, RequestTiming};
use bastion::metrics::aggregator::{Aggregation, MAX_HISTORY};
use bastion::metrics::collector::{SharedProgress, WorkerMetrics};
use bastion::metrics::event::RequestEvent;
use bastion::metrics::snapshot::{avg_duration, LatencySnapshot, WindowLatency};
use bastion::metrics::window::{nanos_to_duration, MetricWindow};
use bastion::time::{Duration, Instant};
use std::sync::atomic::Ordering;

fn at_ms(ms: u64) -> Instant {
    Instant::at(Duration::from_millis(ms))
}

fn event(status: Option<u16>, bytes: u64, latency_ms: u64) -> RequestEvent {
    RequestEvent {
        completed_at: at_ms(0),
        total_latency: Duration::from_millis(latency_ms),
        ttfb: Some(Duration::from_millis(1)),
        status,
        bytes,
        new_connection: true,
        protocol: HttpProtocol::Http1,
        is_warmup: false,
    }
}

#[test]
fn success_and_server_error_classes() {
    assert!(event(Some(200), 0, 1).is_success());
    assert!(event(Some(399), 0, 1).is_success());
    assert!(!event(Some(400), 0, 1).is_success());
    assert!(!event(None, 0, 1).is_success());
    assert!(event(Some(500), 0, 1).is_server_error());
    assert!(!event(Some(499), 0, 1).is_server_error());
    assert!(!event(None, 0, 1).is_server_error());
}

#[test]
fn window_counts_events() {
    let mut w = MetricWindow::new(at_ms(0), Duration::from_secs(1));
    w.record(&event(Some(200), 10, 5));
    w.record(&event(Some(503), 20, 7));
    w.record(&event(None, 0, 9));
    assert_eq!(w.request_count, 3);
    assert_eq!(w.success_count, 1);
    assert_eq!(w.error_count, 2);
    assert_eq!(w.server_error_count, 1);
    assert_eq!(w.bytes_received, 30);
    assert_eq!(w.new_connections, 3);
    assert_eq!(w.histogram.inner.len(), 3);
    assert_eq!(w.ttfb_histogram.inner.len(), 3);
}

#[test]
fn window_closes_after_its_duration() {
    let w = MetricWindow::new(at_ms(1000), Duration::from_secs(1));
    assert!(!w.is_closed(at_ms(1999)));
    assert!(w.is_closed(at_ms(2000)));
    assert!(!w.is_closed(at_ms(500)), "a clock reading before the start closes nothing");
    assert_eq!(nanos_to_duration(42).as_nanos(), 42);
}

#[test]
fn timing_breakdown() {
    let t = RequestTiming {
        scheduled_at: Some(at_ms(10)),
        send_start: Some(at_ms(12)),
        first_byte_at: Some(at_ms(30)),
        last_byte_at: Some(at_ms(35)),
        status: Some(200),
        response_bytes: 5,
        connection_reused: false,
        protocol: HttpProtocol::Http2,
    };
    assert_eq!(t.scheduler_delay().unwrap().as_millis(), 2);
    assert_eq!(t.ttfb().unwrap().as_millis(), 18);
    assert_eq!(t.transfer_time().unwrap().as_millis(), 5);
    assert_eq!(t.total_latency().unwrap().as_millis(), 25);
    let backwards = RequestTiming { last_byte_at: Some(at_ms(5)), ..t };
    assert!(backwards.total_latency().is_none());
    assert!(RequestTiming::default().ttfb().is_none());
    assert_eq!(HttpProtocol::default(), HttpProtocol::Http1);
}

#[test]
fn worker_metrics_record() {
    let mut m = WorkerMetrics::new();
    m.record_success(Duration::from_millis(3), 200, 100);
    m.record_success(Duration::from_millis(4), 200, 50);
    m.record_success(Duration::from_millis(5), 404, 1);
    m.record_error(Duration::from_millis(6));
    assert_eq!(m.success_count, 3);
    assert_eq!(m.error_count, 1);
    assert_eq!(m.bytes_received, 151);
    assert_eq!(m.status_counts.get(&200), Some(&2));
    assert_eq!(m.status_counts.get(&404), Some(&1));
    assert_eq!(m.histogram.count(), 4);
    let t = RequestTiming {
        scheduled_at: Some(at_ms(0)),
        send_start: Some(at_ms(1)),
        first_byte_at: Some(at_ms(2)),
        last_byte_at: None,
        status: None,
        response_bytes: 0,
        connection_reused: true,
        protocol: HttpProtocol::Http2,
    };
    m.record_timing(t);
    assert_eq!(m.ttfb_histogram.count(), 1);
    assert_eq!(m.transfer_histogram.count(), 0);
    assert_eq!(m.scheduler_delay_histogram.count(), 1);
    assert_eq!(m.new_connections, 0);
    assert_eq!(m.http2_count, 1);
    assert_eq!(m.http1_count, 0);
}

#[test]
fn shared_progress_counts() {
    let p = SharedProgress::new();
    p.increment_completed();
    p.increment_completed();
    p.increment_errors();
    p.add_bytes(10);
    p.increment_warmup();
    assert_eq!(p.completed.load(Ordering::Relaxed), 2);
    assert_eq!(p.errors.load(Ordering::Relaxed), 1);
    assert_eq!(p.bytes.load(Ordering::Relaxed), 10);
    assert_eq!(p.warmup_sent.load(Ordering::Relaxed), 1);
}

fn snap(w: &MetricWindow, i: u64) -> (u64, u64) {
    (i, w.request_count)
}

#[test]
fn aggregation_closes_windows() {
    let mut a: Aggregation<(u64, u64)> = Aggregation::new(at_ms(0));
    a.on_event(at_ms(10), &event(Some(200), 1, 1), &snap);
    a.on_event(at_ms(20), &event(Some(200), 1, 1), &snap);
    let mut warm = event(Some(200), 1, 1);
    warm.is_warmup = true;
    a.on_event(at_ms(30), &warm, &snap);
    assert_eq!(a.current_window().request_count, 2);
    a.on_event(at_ms(1500), &event(Some(200), 1, 1), &snap);
    assert_eq!(a.window_index(), 1);
    assert_eq!(a.latest(), Some(&(0, 2)));
    a.check_window_close(at_ms(2600), &snap);
    assert_eq!(a.window_index(), 2);
    a.check_window_close(at_ms(4000), &snap);
    assert_eq!(a.window_index(), 2, "an empty window is dropped");
    assert!(!a.close_current_window(at_ms(4100), &snap));
    assert_eq!(a.into_history(), vec![(0, 2), (1, 1)]);
}

#[test]
fn history_keeps_the_latest_hour() {
    let mut a: Aggregation<(u64, u64)> = Aggregation::new(at_ms(0));
    for i in 0..(MAX_HISTORY as u64 + 5) {
        a.on_event(at_ms(i * 1000 + 1), &event(Some(200), 0, 1), &snap);
        a.close_current_window(at_ms(i * 1000 + 2), &snap);
        a.open_new_window(at_ms((i + 1) * 1000));
    }
    let h = a.into_history();
    assert_eq!(h.len(), MAX_HISTORY);
    assert_eq!(h[0].0, 5);
    assert_eq!(h[MAX_HISTORY - 1].0, MAX_HISTORY as u64 + 4);
}

#[test]
fn averages_round_down() {
    let ds = vec![Duration::from_nanos(1), Duration::from_nanos(2)];
    assert_eq!(avg_duration(&ds).as_nanos(), 1);
    assert_eq!(avg_duration(&vec![]).as_nanos(), 0);
}

#[test]
fn latency_from_windows() {
    let w = |p50: u64, p90: u64, p99: u64, ttfb: Option<u64>| WindowLatency {
        p50: Duration::from_millis(p50),
        p90: Duration::from_millis(p90),
        p99: Duration::from_millis(p99),
        mean: Duration::from_millis(p50),
        ttfb_p99: ttfb.map(Duration::from_millis),
    };
    let ws = vec![w(10, 20, 30, Some(4)), w(20, 40, 90, None), w(30, 60, 60, Some(8))];
    let l = LatencySnapshot::from_windows(&ws);
    assert_eq!(l.min.as_millis(), 10);
    assert_eq!(l.max.as_millis(), 90);
    assert_eq!(l.p50.as_millis(), 20);
    assert_eq!(l.p75.as_millis(), 40);
    assert_eq!(l.p90.as_millis(), 40);
    assert_eq!(l.p99.as_millis(), 60);
    assert_eq!(l.mean.as_millis(), 20);
    assert_eq!(l.stddev.as_nanos(), 0);
    let t = LatencySnapshot::ttfb_from_windows(&ws).unwrap();
    assert_eq!(t.p99.as_millis(), 6);
    assert_eq!(t.max.as_millis(), 8);
    assert!(LatencySnapshot::ttfb_from_windows(&vec![w(1, 1, 1, None)]).is_none());
    assert_eq!(LatencySnapshot::from_windows(&vec![]), LatencySnapshot::zeroed());
}

#[test]
fn connection_overhead_sums_the_steps() {
    let t = ConnectionTiming {
        dns_lookup: Some(Duration::from_millis(2)),
        tcp_connect: None,
        tls_handshake: Some(Duration::from_millis(5)),
        reuses: false,
    };
    assert_eq!(t.total_overhead().as_millis(), 7);
    assert_eq!(ConnectionTiming::default().total_overhead().as_nanos(), 0);
}

fn errors_snap(w: &MetricWindow, i: u64) -> (u64, u64, u64) {
    (i, w.request_count, w.error_count)
}

#[test]
fn every_request_counted_once() {
    let mut a: Aggregation<(u64, u64, u64)> = Aggregation::new(at_ms(0));
    let statuses = [Some(200), Some(500), None, Some(404), Some(201), Some(200), Some(503)];
    let mut fed = 0u64;
    let mut failed = 0u64;
    for (k, st) in statuses.iter().enumerate() {
        let mut e = event(*st, 3, 1);
        e.is_warmup = k == 2;
        if !e.is_warmup {
            fed += 1;
            if !e.is_success() {
                failed += 1;
            }
        }
        a.on_event(at_ms(k as u64 * 700), &e, &errors_snap);
    }
    let current = (a.current_window().request_count, a.current_window().error_count);
    let h = a.into_history();
    let requests: u64 = h.iter().map(|s| s.1).sum::<u64>() + current.0;
    let errors: u64 = h.iter().map(|s| s.2).sum::<u64>() + current.1;
    assert_eq!(requests, fed);
    assert_eq!(errors, failed);
    for (i, s) in h.iter().enumerate() {
        assert_eq!(s.0, i as u64);
        assert!(s.1 > 0);
    }
}
