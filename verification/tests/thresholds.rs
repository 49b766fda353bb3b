use bastion::error::BastionError;
use bastion::metrics::snapshot::LatencySnapshot;
use bastion::thresholds::{fmt_duration, parse_threshold, Threshold};
use bastion::time::Duration;

fn make_latency(p50: Duration, p99: Duration) -> LatencySnapshot {
    LatencySnapshot {
        min: Duration::from_millis(1),
        max: Duration::from_millis(200),
        mean: p50,
        stddev: Duration::from_millis(5),
        p50,
        p75: p50.add(&Duration::from_millis(5)),
        p90: p99.saturating_sub(&Duration::from_millis(10)),
        p95: p99.saturating_sub(&Duration::from_millis(5)),
        p99,
        p999: p99.add(&Duration::from_millis(20)),
    }
}

fn message(e: BastionError) -> String {
    match e {
        BastionError::InvalidConfig(m) => m,
        other => panic!("unexpected error {:?}", other),
    }
}

#[test]
fn test_p99_threshold_passes_when_under_limit() {
    let latency = make_latency(Duration::from_millis(10), Duration::from_millis(80));

    let threshold = Threshold::P99Lt(Duration::from_millis(200));
    let result = threshold.evaluate(&latency).expect("a latency threshold");

    assert!(result.passed, "80ms p99 should pass a 200ms limit");
}

#[test]
fn test_p99_threshold_fails_when_over_limit() {
    let latency = make_latency(Duration::from_millis(10), Duration::from_millis(250));

    let threshold = Threshold::P99Lt(Duration::from_millis(200));
    let result = threshold.evaluate(&latency).expect("a latency threshold");

    assert!(!result.passed, "250ms p99 should fail a 200ms limit")
}

#[test]
fn test_parse_p99_threshold() {
    let t = parse_threshold("p99 < 200ms").expect("Should parse p99 threshold");
    assert!(matches!(t, Threshold::P99Lt(_)));
}

#[test]
fn test_parse_error_rate_threshold() {
    let t = parse_threshold("error_rate < 1%").expect("Should parse error rate threshold");
    assert!(matches!(t, Threshold::ErrorRateLt(_)));
    if let Threshold::ErrorRateLt(pct) = t {
        let rate: f64 = pct.parse::<f64>().expect("a number") / 100.0;
        assert!((rate - 0.01).abs() < 0.001, "Error rate should be 1%");
    }
}

#[test]
fn test_parse_rps_threshold() {
    let t = parse_threshold("rps>100").expect("Should parse");
    assert!(matches!(t, Threshold::RpsGt(_)));
}

#[test]
fn test_parse_invalid_threshold_errors() {
    assert!(parse_threshold("invalid").is_err());
    assert!(parse_threshold("p99>200ms").is_err());
    assert!(parse_threshold("").is_err());
}

#[test]
fn test_parse_all_threshold_types() {
    let cases = vec![
        "p50<50ms",
        "p90<100ms",
        "p95<150ms",
        "p99<200ms",
        "mean<80ms",
        "error-rate<1%",
        "error-rate<0.5%",
        "rps>50",
        "rps>1000",
    ];

    for case in cases {
        parse_threshold(case).unwrap_or_else(|e| panic!("Failed to parse '{}': {:?}", case, e));
    }
}

#[test]
fn parsed_limits_are_exact() {
    match parse_threshold("p99<200ms").unwrap() {
        Threshold::P99Lt(d) => assert_eq!(d.as_nanos(), 200_000_000),
        other => panic!("{:?}", other),
    }
    match parse_threshold("  mean < 1s  ").unwrap() {
        Threshold::MeanLt(d) => assert_eq!(d.as_nanos(), 1_000_000_000),
        other => panic!("{:?}", other),
    }
    match parse_threshold("p50<2m45s").unwrap() {
        Threshold::P50Lt(d) => assert_eq!(d.as_nanos(), 165_000_000_000),
        other => panic!("{:?}", other),
    }
    match parse_threshold("error-rate<0.5%%").unwrap() {
        Threshold::ErrorRateLt(x) => assert_eq!(x, "0.5"),
        other => panic!("{:?}", other),
    }
    match parse_threshold("rps > 1e3").unwrap() {
        Threshold::RpsGt(x) => assert_eq!(x, "1e3"),
        other => panic!("{:?}", other),
    }
}

#[test]
fn float_literals_follow_the_f64_grammar() {
    for ok in ["1", "1.", ".5", "+2.5E-3", "-inf", "Infinity", "NaN", "007"] {
        let text = format!("rps>{}", ok);
        let t = parse_threshold(&text).unwrap_or_else(|e| panic!("{}: {:?}", ok, e));
        if let Threshold::RpsGt(x) = t {
            assert!(x.parse::<f64>().is_ok(), "{}", x);
        }
    }
    for bad in [".", "1e", "e5", "1.2.3", "--1", "0x10", "1_000", "in f"] {
        let text = format!("rps>{}", bad);
        assert!(parse_threshold(&text).is_err(), "{}", bad);
        assert!(bad.parse::<f64>().is_err(), "{}", bad);
    }
}

#[test]
fn parse_error_messages() {
    assert_eq!(
        message(parse_threshold("rps>fast").unwrap_err()),
        "Invalid RPS: 'fast': expected number"
    );
    assert_eq!(
        message(parse_threshold("error-rate<lots%").unwrap_err()),
        "Invalid error rate: 'lots%': expected percentage"
    );
    assert_eq!(
        message(parse_threshold(" p99>1s ").unwrap_err()),
        "Unknown threshold format: 'p99>1s'. expected pattern like 'p99<100ms', 'rps>1000', error-rate<1%', 'mean<50ms'"
    );
    let m = message(parse_threshold("p99<soon").unwrap_err());
    assert!(m.starts_with("Invalid duration: 'soon': "), "{}", m);
}

#[test]
fn latency_verdict_text() {
    let latency = make_latency(Duration::from_micros(850), Duration::from_millis(80));
    let r = Threshold::P50Lt(Duration::from_millis(1)).evaluate(&latency).unwrap();
    assert!(r.passed);
    assert_eq!(r.actual, "850μs");
    assert_eq!(r.expected, "< 1ms");
    let r = Threshold::MeanLt(Duration::from_micros(850)).evaluate(&latency).unwrap();
    assert!(!r.passed, "a limit equal to the figure is not met");
}

#[test]
fn rate_and_throughput_are_left_to_the_caller() {
    let latency = make_latency(Duration::from_millis(10), Duration::from_millis(80));
    assert!(Threshold::RpsGt("50".to_string()).evaluate(&latency).is_none());
    assert!(Threshold::ErrorRateLt("1".to_string()).evaluate(&latency).is_none());
}

#[test]
fn duration_text() {
    assert_eq!(fmt_duration(Duration::from_nanos(999)), "0μs");
    assert_eq!(fmt_duration(Duration::from_micros(999)), "999μs");
    assert_eq!(fmt_duration(Duration::from_micros(1000)), "1ms");
    assert_eq!(fmt_duration(Duration::from_secs(61)), "61000ms");
}

#[test]
fn labels() {
    assert_eq!(Threshold::P99Lt(Duration::zero()).label(), "p99 latency");
    assert_eq!(Threshold::MeanLt(Duration::zero()).label(), "mean latency");
    assert_eq!(Threshold::ErrorRateLt("1".into()).label(), "error rate");
    assert_eq!(Threshold::RpsGt("1".into()).label(), "throughput");
}

#[test]
fn invalid_duration_quotes_the_value_as_written() {
    let m = match parse_threshold("p99< abc") {
        Err(BastionError::InvalidConfig(m)) => m,
        other => panic!("unexpected {:?}", other),
    };
    assert!(m.starts_with("Invalid duration: ' abc': "), "{}", m);
}

#[test]
fn rate_thresholds_never_reach_the_duration_parser() {
    // Text the duration parser would overflow on is read as a number here.
    match parse_threshold("rps>18446744073709551615") {
        Ok(Threshold::RpsGt(x)) => assert_eq!(x, "18446744073709551615"),
        other => panic!("unexpected {:?}", other),
    }
}

#[test]
fn overflowing_latency_limit_is_refused_without_panic() {
    let m = match parse_threshold("p99<18446744073709551615s 0.5s 0.5s") {
        Err(BastionError::InvalidConfig(m)) => m,
        other => panic!("unexpected {:?}", other),
    };
    assert!(m.contains("number is too large"), "{}", m);
}
