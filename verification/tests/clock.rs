use notify_sleep::clock::{Duration, Instant};

#[test]
fn spans_split_into_seconds_and_nanoseconds() {
    let d = Duration::from_millis(2500);
    assert_eq!(d.as_secs(), 2);
    assert_eq!(d.subsec_nanos(), 500_000_000);
    let d = Duration::new(1, 1_500_000_000);
    assert_eq!(d.as_secs(), 2);
    assert_eq!(d.subsec_nanos(), 500_000_000);
    assert_eq!(Duration::from_secs(3), Duration::from_millis(3000));
}

#[test]
fn spans_compare_and_subtract() {
    let long = Duration::from_millis(3200);
    let short = Duration::from_millis(1700);
    assert!(long.at_least(&short));
    assert!(long.at_least(&long));
    assert!(!short.at_least(&long));
    assert_eq!(long.saturating_sub(&short), Duration::from_millis(1500));
    assert_eq!(short.saturating_sub(&long), Duration::zero());
}

#[test]
fn duration_since_saturates() {
    let early = Instant::from_start(Duration::from_millis(1200));
    let late = Instant::from_start(Duration::from_millis(4100));
    assert_eq!(late.duration_since(early), Duration::from_millis(2900));
    assert_eq!(early.duration_since(late), Duration::zero());
    assert!(late.later_than(&early));
    assert!(!early.later_than(&late));
    assert!(!early.later_than(&early));
}

#[test]
fn adding_past_the_last_instant_fails() {
    let t = Instant::from_start(Duration::from_millis(900));
    assert_eq!(t.checked_add(Duration::from_millis(300)), Some(Instant::from_start(Duration::from_millis(1200))));
    let last = Instant::from_start(Duration::new(u64::MAX, 999_999_999));
    assert_eq!(last.checked_add(Duration::new(0, 1)), None);
    assert_eq!(last.checked_add(Duration::zero()), Some(last));
}
