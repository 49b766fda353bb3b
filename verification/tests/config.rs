use bastion::cli::{duration_bound_fits, parse_duration_arg, parse_headers, read_duration, BastionCli};
use bastion::config::{Config, Headers, HttpMethod, OutputFormat, RunMode};
use bastion::error::BastionError;
use bastion::time::Duration;

fn message(e: BastionError) -> String {
    match e {
        BastionError::InvalidConfig(m) => m,
        other => panic!("unexpected error {:?}", other),
    }
}

fn args(url: &str) -> BastionCli {
    BastionCli {
        url: url.to_string(),
        requests: Some(100),
        duration: None,
        concurrency: 10,
        rate_limit: None,
        timeout: "30s".to_string(),
        warmup: None,
        method: "GET".to_string(),
        body: None,
        headers: vec![],
        output_format: "terminal".to_string(),
        output_file: None,
        no_progress: false,
        no_keep_alive: false,
        follow_redirects: true,
        http2: false,
        assertions: vec![],
        compare: None,
        csv_file: None,
    }
}

fn config(url: &str) -> Config {
    args(url).into_config().expect("valid arguments")
}

#[test]
fn methods_parse_in_any_case() {
    assert_eq!(HttpMethod::from_str("get").unwrap(), HttpMethod::Get);
    assert_eq!(HttpMethod::from_str("Post").unwrap(), HttpMethod::Post);
    assert_eq!(HttpMethod::from_str("PUT").unwrap(), HttpMethod::Put);
    assert_eq!(HttpMethod::from_str("patch").unwrap(), HttpMethod::Patch);
    assert_eq!(HttpMethod::from_str("delete").unwrap(), HttpMethod::Delete);
    assert_eq!(HttpMethod::from_str("head").unwrap(), HttpMethod::Head);
    assert_eq!("get".parse::<HttpMethod>().unwrap(), HttpMethod::Get);
    assert_eq!(message(HttpMethod::from_str("fetch").unwrap_err()), "Invalid HTTP method: FETCH");
}

#[test]
fn output_formats() {
    assert_eq!(OutputFormat::from_name("TERM").unwrap(), OutputFormat::Terminal);
    assert_eq!(OutputFormat::from_name("terminal").unwrap(), OutputFormat::Terminal);
    assert_eq!(OutputFormat::from_name("Json").unwrap(), OutputFormat::Json);
    assert_eq!(OutputFormat::from_name("csv").unwrap(), OutputFormat::Csv);
    assert_eq!(
        message(OutputFormat::from_name("XML").unwrap_err()),
        "Invalid output format 'xml': must be one of 'terminal', 'csv', or 'json'"
    );
}

#[test]
fn headers_split_at_the_first_colon_and_trim() {
    let raw = vec![
        "Authorization: Bearer a:b".to_string(),
        " X-Test :  1 ".to_string(),
        "X-Test: 2".to_string(),
    ];
    let h = parse_headers(&raw).unwrap();
    assert_eq!(h.len(), 2);
    assert_eq!(h.entry(0).0, "Authorization");
    assert_eq!(h.entry(0).1, "Bearer a:b");
    assert_eq!(h.entry(1).0, "X-Test");
    assert_eq!(h.entry(1).1, "2", "a later header with the same name wins");
}

#[test]
fn header_without_colon_is_refused() {
    let raw = vec!["Good: yes".to_string(), "NoColon".to_string(), "Also bad".to_string()];
    assert_eq!(
        message(parse_headers(&raw).unwrap_err()),
        "Invalid header 'NoColon': must be in 'Key: Value' format"
    );
}

#[test]
fn header_insert_keeps_names_unique() {
    let mut h = Headers::new();
    h.insert("a".to_string(), "1".to_string());
    h.insert("b".to_string(), "2".to_string());
    h.insert("a".to_string(), "3".to_string());
    assert_eq!(h.len(), 2);
    assert_eq!(h.entry(0).1, "3");
    let c = h.clone();
    assert_eq!(c.len(), 2);
    assert_eq!(c.entry(1).0, "b");
}

#[test]
fn duration_arguments() {
    assert_eq!(parse_duration_arg("5s", "timeout").unwrap().as_nanos(), 5_000_000_000);
    assert_eq!(parse_duration_arg("200ms", "timeout").unwrap().as_nanos(), 200_000_000);
    assert_eq!(parse_duration_arg("2m45s", "timeout").unwrap().as_nanos(), 165_000_000_000);
    assert_eq!(parse_duration_arg("0", "warmup").unwrap().as_nanos(), 0);
    let m = message(parse_duration_arg("soon", "warmup").unwrap_err());
    assert!(m.starts_with("Invalid warmup 'soon': "), "{}", m);
    assert!(m.ends_with(". Use format like '5s', '200ms', '2m45s'."), "{}", m);
}

#[test]
fn defaults_give_a_counted_run() {
    let c = config("https://example.com");
    assert!(matches!(c.run_mode, RunMode::RequestCount(100)));
    assert_eq!(c.concurrency, 10);
    assert_eq!(c.channel_capacity, 20);
    assert_eq!(c.timeout.as_nanos(), 30_000_000_000);
    assert_eq!(c.method, HttpMethod::Get);
    assert_eq!(c.output_format, OutputFormat::Terminal);
    assert!(c.progress && c.keep_alive && c.follow_redirects && !c.http2);
    assert!(c.validate().is_ok());
}

#[test]
fn duration_argument_gives_a_timed_run() {
    let mut a = args("http://localhost:8080/x");
    a.duration = Some("30s".to_string());
    a.warmup = Some("5s".to_string());
    let c = a.into_config().unwrap();
    match c.run_mode {
        RunMode::Duration(d) => assert_eq!(d.as_secs(), 30),
        other => panic!("{:?}", other),
    }
    assert_eq!(c.warmup.unwrap().as_secs(), 5);
}

#[test]
fn validation_errors_in_order() {
    assert_eq!(message(args("").into_config().unwrap_err()), "URL cannot be empty");
    let m = message(args("not a url").into_config().unwrap_err());
    assert!(m.starts_with("Invalid URL: 'not a url': "), "{}", m);

    let mut a = args("https://example.com");
    a.requests = Some(0);
    assert_eq!(message(a.into_config().unwrap_err()), "Request count must be greater than 0");

    let mut a = args("https://example.com");
    a.duration = Some("0s".to_string());
    assert_eq!(message(a.into_config().unwrap_err()), "Duration must be greater than 0");

    let mut a = args("https://example.com");
    a.concurrency = 0;
    assert_eq!(message(a.into_config().unwrap_err()), "Concurrency must be greater than 0");

    let mut a = args("https://example.com");
    a.concurrency = 10_001;
    assert_eq!(
        message(a.into_config().unwrap_err()),
        "Concurrency above 10,000 is unsupported (check OS fd limits)"
    );

    let mut a = args("https://example.com");
    a.rate_limit = Some(0);
    assert_eq!(message(a.into_config().unwrap_err()), "Rate limit must be greater than 0 req/s");

    let mut a = args("https://example.com");
    a.http2 = true;
    a.no_keep_alive = true;
    assert_eq!(
        message(a.into_config().unwrap_err()),
        "HTTP/2 requires keep-alive connections. Remove --no-keep-alive"
    );
}

#[test]
fn argument_errors_come_before_validation() {
    let mut a = args("");
    a.timeout = "later".to_string();
    let m = message(a.into_config().unwrap_err());
    assert!(m.starts_with("Invalid timeout 'later': "), "{}", m);

    let mut a = args("");
    a.method = "brew".to_string();
    assert_eq!(message(a.into_config().unwrap_err()), "Invalid HTTP method: BREW");

    let mut a = args("");
    a.output_format = "yaml".to_string();
    assert_eq!(
        message(a.into_config().unwrap_err()),
        "Invalid output format 'yaml': must be one of 'terminal', 'csv', or 'json'"
    );
}

#[test]
fn concurrency_limits_are_inclusive() {
    let mut a = args("https://example.com");
    a.concurrency = 10_000;
    assert!(a.into_config().is_ok());
    let mut a = args("https://example.com");
    a.concurrency = 1;
    a.rate_limit = Some(1);
    assert!(a.into_config().is_ok());
}

#[test]
fn durations_keep_nanoseconds() {
    let d = Duration::new(2, 1_500_000_000);
    assert_eq!(d.as_secs(), 3);
    assert_eq!(d.subsec_nanos(), 500_000_000);
    assert_eq!(d.as_millis(), 3500);
    assert_eq!(Duration::from_millis(7).div_u32(2).as_nanos(), 3_500_000);
    assert!(Duration::from_secs(1).checked_add(&Duration::from_secs(1)).is_some());
}

#[test]
fn durations_past_the_largest_span_are_refused() {
    assert!(duration_bound_fits("2m45s"));
    assert!(duration_bound_fits("1000000000ns"));
    assert!(!duration_bound_fits("18446744073709551615s 1000000000ns"));
    assert!(!duration_bound_fits("18446744073709551615s 0.5s 0.5s"));
    assert_eq!(read_duration("2m45s"), Ok((165, 0)));
    assert_eq!(read_duration("4.2s"), Ok((4, 200_000_000)));
    let e = read_duration("18446744073709551615s 1000000000ns").unwrap_err();
    assert!(e.starts_with("number is too large"));
    let m = match parse_duration_arg("18446744073709551615s 0.5s 0.5s", "timeout") {
        Err(BastionError::InvalidConfig(m)) => m,
        other => panic!("unexpected {:?}", other),
    };
    assert!(m.starts_with("Invalid timeout '18446744073709551615s 0.5s 0.5s': number is too large"));
}

#[test]
fn durations_are_weighted_by_their_unit() {
    assert!(duration_bound_fits("600000000000ns"));
    assert_eq!(read_duration("600000000000ns"), Ok((600, 0)));
    assert!(duration_bound_fits("18446744073709551615s"));
    assert_eq!(read_duration("18446744073709551615s"), Ok((18446744073709551615, 0)));
    assert!(duration_bound_fits("18446744073709551615s 999999999ns"));
    assert!(!duration_bound_fits("18446744073709551616ns 18446744073709551615s"));
    assert_eq!(read_duration("x 99999999999999999999999y"), Err("expected number at 0".to_string()));
    assert!(read_duration("99999999999999999999999x").is_err());
    assert!(read_duration("5").unwrap_err().starts_with("time unit needed"));
    match parse_duration_arg("600000000000ns", "timeout") {
        Ok(d) => assert_eq!(d.as_secs(), 600),
        other => panic!("unexpected {:?}", other),
    }
}
