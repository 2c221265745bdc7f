use notify_sleep::clock::Duration;
use notify_sleep::countdown::{countdown_text, minutes_seconds_text};

#[test]
fn under_an_hour_shows_minutes_and_seconds() {
    assert_eq!(countdown_text(Duration::from_secs(0)), "00:00");
    assert_eq!(countdown_text(Duration::from_secs(59)), "00:59");
    assert_eq!(countdown_text(Duration::from_secs(61)), "01:01");
    assert_eq!(countdown_text(Duration::from_secs(3599)), "59:59");
}

#[test]
fn an_hour_or_more_shows_the_hours() {
    assert_eq!(countdown_text(Duration::from_secs(3600)), "01:00:00");
    assert_eq!(countdown_text(Duration::from_secs(7200)), "02:00:00");
    assert_eq!(countdown_text(Duration::from_secs(7199)), "01:59:59");
    assert_eq!(countdown_text(Duration::from_secs(100 * 3600 + 61)), "100:01:01");
}

#[test]
fn parts_of_a_second_are_dropped() {
    assert_eq!(countdown_text(Duration::from_millis(7_199_999)), "01:59:59");
    assert_eq!(countdown_text(Duration::new(4, 999_999_999)), "00:04");
}

#[test]
fn minutes_count_every_whole_minute() {
    assert_eq!(minutes_seconds_text(Duration::from_secs(7200)), "120:00");
    assert_eq!(minutes_seconds_text(Duration::from_secs(605)), "10:05");
    assert_eq!(minutes_seconds_text(Duration::from_secs(9)), "00:09");
}
