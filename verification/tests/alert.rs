use notify_sleep::alert::{alert_volume_step, VolumeStep};
use notify_sleep::clock::Duration;

fn scale_at(ms: u64) -> (Duration, Duration) {
    match alert_volume_step(Duration::from_millis(ms)) {
        VolumeStep::Scale { part, whole } => (part, whole),
        _ => panic!("the volume is set at {} ms", ms),
    }
}

#[test]
fn fades_in_over_five_seconds() {
    assert_eq!(scale_at(0), (Duration::zero(), Duration::from_secs(5)));
    assert_eq!(scale_at(2500), (Duration::from_millis(2500), Duration::from_secs(5)));
    assert_eq!(scale_at(5000), (Duration::from_secs(5), Duration::from_secs(5)));
}

#[test]
fn holds_in_between() {
    assert!(matches!(alert_volume_step(Duration::from_millis(5001)), VolumeStep::Keep));
    assert!(matches!(alert_volume_step(Duration::from_millis(24_999)), VolumeStep::Keep));
}

#[test]
fn fades_out_over_the_last_five_seconds() {
    assert_eq!(scale_at(25_000), (Duration::from_secs(5), Duration::from_secs(5)));
    assert_eq!(scale_at(27_000), (Duration::from_secs(3), Duration::from_secs(5)));
    assert_eq!(scale_at(29_999), (Duration::from_millis(1), Duration::from_secs(5)));
}

#[test]
fn stops_after_thirty_seconds() {
    assert!(matches!(alert_volume_step(Duration::from_secs(30)), VolumeStep::Stop));
    assert!(matches!(alert_volume_step(Duration::from_secs(31)), VolumeStep::Stop));
}
