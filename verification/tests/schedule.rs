use bastion::config::RunMode;
use bastion::display::live::fmt_duration;
use bastion::engine::progress_target;
use bastion::scheduler::Schedule;
use bastion::time::{Duration, Instant};

fn at_ms(ms: u64) -> Instant {
    Instant::at(Duration::from_millis(ms))
}

#[test]
fn counted_run_issues_exactly_n_items() {
    let mut s = Schedule::new(RunMode::RequestCount(3), at_ms(0), None);
    let mut seqs = vec![];
    let mut now = 0;
    while let Some(warm) = s.next_warmup(at_ms(now)) {
        assert!(s.still_open(at_ms(now)));
        seqs.push(s.issue(at_ms(now), warm).sequence);
        now += 1000;
    }
    assert_eq!(seqs, vec![0, 1, 2]);
}

#[test]
fn timed_run_stops_at_the_deadline() {
    let s = Schedule::new(RunMode::Duration(Duration::from_secs(2)), at_ms(1000), None);
    assert_eq!(s.next_warmup(at_ms(2999)), Some(false));
    assert_eq!(s.next_warmup(at_ms(3000)), None);
    assert!(!s.still_open(at_ms(3000)));
    assert_eq!(s.deadline_at(), Some(at_ms(3000)));
}

#[test]
fn warmup_marks_the_first_requests() {
    let mut s = Schedule::new(RunMode::RequestCount(10), at_ms(0), Some(Duration::from_secs(1)));
    assert_eq!(s.next_warmup(at_ms(999)), Some(true));
    let item = s.issue(at_ms(999), true);
    assert!(item.is_warmup);
    assert_eq!(item.sequence, 0);
    assert_eq!(s.next_warmup(at_ms(1000)), Some(false));
}

#[test]
fn progress_targets() {
    assert_eq!(progress_target(&RunMode::RequestCount(7)), 7);
    assert_eq!(progress_target(&RunMode::Duration(Duration::from_secs(1))), u64::MAX);
}

#[test]
fn live_duration_text() {
    assert_eq!(fmt_duration(Duration::from_micros(999)), "0.00s");
    assert_eq!(fmt_duration(Duration::from_micros(1000)), "1μs");
    assert_eq!(fmt_duration(Duration::from_millis(2500)), "2500μs");
}
