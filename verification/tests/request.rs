use bastion::cli::BastionCli;
use bastion::config::Config;
use bastion::display::live::{p99_level, LatencyLevel};
use bastion::error::BastionError;
use bastion::http::client::client_settings;
use bastion::http::request::{request_parts, request_parts_from};
use bastion::report::{scheduler_saturated, sorted_status_counts, status_class, StatusClass};
use bastion::scheduler::rate_quota;
use bastion::time::Duration;
use std::collections::HashMap;

fn cli(url: &str, headers: Vec<&str>, body: Option<&str>) -> BastionCli {
    BastionCli {
        url: url.to_string(),
        requests: Some(10),
        duration: None,
        concurrency: 2,
        rate_limit: None,
        timeout: "30s".to_string(),
        warmup: None,
        method: "POST".to_string(),
        body: body.map(|b| b.to_string()),
        headers: headers.into_iter().map(|h| h.to_string()).collect(),
        output_format: "terminal".to_string(),
        output_file: None,
        no_progress: false,
        no_keep_alive: false,
        follow_redirects: true,
        http2: false,
        assertions: vec![],
        compare: None,
        csv_file: None,
    }
}

fn config(url: &str, headers: Vec<&str>, body: Option<&str>) -> Config {
    cli(url, headers, body).into_config().expect("valid arguments")
}

fn message(e: BastionError) -> String {
    match e {
        BastionError::InvalidConfig(m) => m,
        other => panic!("unexpected error {:?}", other),
    }
}

fn pairs(v: &[(String, String)]) -> Vec<(&str, &str)> {
    v.iter().map(|(a, b)| (a.as_str(), b.as_str())).collect()
}

#[test]
fn request_headers_without_body() {
    let c = config("http://localhost:8080/x", vec!["X-Api-Key: abc"], None);
    let p = request_parts(&c).expect("valid request");
    assert_eq!(pairs(&p.headers), vec![("user-agent", "bastion/0.2.0"), ("X-Api-Key", "abc")]);
    assert_eq!(p.uri.uri().path(), "/x");
    assert_eq!(p.uri.url_text(), "http://localhost:8080/x");
}

#[test]
fn request_headers_with_body_add_json_content_type() {
    let c = config("http://localhost:8080/", vec![], Some("{\"a\":1}"));
    let p = request_parts(&c).expect("valid request");
    assert_eq!(
        pairs(&p.headers),
        vec![("user-agent", "bastion/0.2.0"), ("content-type", "application/json")]
    );
}

#[test]
fn empty_body_adds_no_content_type() {
    let c = config("http://localhost:8080/", vec![], Some(""));
    let p = request_parts(&c).expect("valid request");
    assert_eq!(pairs(&p.headers), vec![("user-agent", "bastion/0.2.0")]);
}

#[test]
fn invalid_header_name_is_refused() {
    let c = config("http://localhost:8080/", vec!["Bad Name: x"], None);
    let e = request_parts(&c).err().expect("refused");
    assert_eq!(message(e), "Invalid header name 'Bad Name': invalid HTTP header name");
}

#[test]
fn invalid_header_value_is_refused() {
    let c = config("http://localhost:8080/", vec!["X-Ok: a\u{7f}b"], None);
    let e = request_parts(&c).err().expect("refused");
    assert_eq!(message(e), "Invalid header value 'a\u{7f}b': failed to parse header value");
}

#[test]
fn invalid_uri_is_refused_first() {
    let mut c = config("http://localhost:8080/", vec!["Bad Name: x"], None);
    c.url = "http://exa mple.com/".to_string();
    let e = request_parts(&c).err().expect("refused");
    assert!(message(e).starts_with("Invalid URI: "));
}

#[test]
fn quota_only_with_a_rate() {
    assert!(rate_quota(None).is_none());
    let q = rate_quota(Some(100)).expect("quota");
    assert_eq!(q.per_second(), 100);
    assert_eq!(q.quota().burst_size().get(), 100);
}

#[test]
fn p99_levels() {
    assert_eq!(p99_level(Duration::from_millis(50)), LatencyLevel::Low);
    assert_eq!(p99_level(Duration::from_millis(51)), LatencyLevel::Elevated);
    assert_eq!(p99_level(Duration::from_millis(100)), LatencyLevel::Elevated);
    assert_eq!(p99_level(Duration::from_millis(101)), LatencyLevel::High);
}

#[test]
fn status_classes() {
    assert_eq!(status_class(200), StatusClass::Success);
    assert_eq!(status_class(302), StatusClass::Redirect);
    assert_eq!(status_class(404), StatusClass::ClientError);
    assert_eq!(status_class(503), StatusClass::Other);
    assert_eq!(status_class(199), StatusClass::Other);
}

#[test]
fn saturation_warning_above_five_ms() {
    assert!(!scheduler_saturated(Duration::from_micros(5_999)));
    assert!(scheduler_saturated(Duration::from_millis(6)));
}

#[test]
fn status_counts_sorted_by_code() {
    let mut m: HashMap<u16, u64> = HashMap::new();
    m.insert(503, 1);
    m.insert(200, 90);
    m.insert(404, 4);
    m.insert(201, 5);
    assert_eq!(sorted_status_counts(&m), vec![(200, 90), (201, 5), (404, 4), (503, 1)]);
    assert!(sorted_status_counts(&HashMap::new()).is_empty());
}

#[test]
fn client_settings_with_keep_alive() {
    let c = config("http://localhost:8080/", vec!["X-A: 1"], None);
    let s = client_settings(&c).expect("valid headers");
    assert_eq!(s.timeout, Duration::from_secs(30));
    assert_eq!(s.tcp_keepalive, Some(Duration::from_secs(60)));
    assert_eq!(s.pool_max_idle_per_host, 10);
    assert!(s.follow_redirects);
    assert_eq!(pairs(&s.default_headers), vec![("user-agent", "bastion/0.1.0"), ("X-A", "1")]);
}

#[test]
fn client_settings_without_keep_alive() {
    let mut a = cli("http://localhost:8080/", vec![], None);
    a.no_keep_alive = true;
    a.follow_redirects = false;
    let c = a.into_config().expect("valid arguments");
    let s = client_settings(&c).expect("valid headers");
    assert_eq!(s.tcp_keepalive, None);
    assert_eq!(s.pool_max_idle_per_host, 0);
    assert!(!s.follow_redirects);
}

#[test]
fn client_settings_refuse_bad_header() {
    let c = config("http://localhost:8080/", vec!["A(b): x"], None);
    let e = client_settings(&c).err().expect("refused");
    assert_eq!(message(e), "Invalid header name 'A(b)': invalid HTTP header name");
}

#[test]
fn uri_verdict_decides_first() {
    let c = config("http://localhost:8080/", vec!["X-B: 2"], None);
    let e = request_parts_from(&c, Err("boom".to_string())).err().expect("refused");
    assert_eq!(message(e), "Invalid URI: boom");
    let other = config("http://elsewhere/y", vec![], None);
    let uri = request_parts(&other).expect("valid").uri;
    let p = request_parts_from(&c, Ok(uri)).expect("valid");
    assert_eq!(p.uri.uri().host(), Some("elsewhere"));
    assert_eq!(p.uri.url_text(), "http://elsewhere/y");
    assert_eq!(pairs(&p.headers), vec![("user-agent", "bastion/0.2.0"), ("X-B", "2")]);
}
