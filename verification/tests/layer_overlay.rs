use notify_sleep::clock::{Duration, Instant};
use notify_sleep::layer_overlay::{LayerOverlay, OverlayAction, Phase};

fn at_secs(s: u64) -> Instant {
    Instant::from_start(Duration::from_secs(s))
}

#[test]
fn overlay_moves_through_its_phases_and_suspends_once() {
    let mut o = LayerOverlay::boot().expect("the deadline fits");
    assert_eq!(o.phase(), Phase::FullScreenAlert);
    assert_eq!(o.update_at(at_secs(1)), OverlayAction::Stay);
    assert_eq!(o.phase(), Phase::FullScreenAlert);
    assert_eq!(o.update_at(at_secs(3)), OverlayAction::Stay);
    assert_eq!(o.phase(), Phase::CenterCountdown);
    assert_eq!(o.update_at(at_secs(5)), OverlayAction::Stay);
    assert_eq!(o.phase(), Phase::CenterCountdown);
    assert_eq!(
        o.update_at(at_secs(6)),
        OverlayAction::MoveToCorner { width: 180, height: 44, margin: 24 }
    );
    assert_eq!(o.phase(), Phase::CornerBadge);
    assert_eq!(o.update_at(at_secs(100)), OverlayAction::Stay);
    assert_eq!(o.update_at(at_secs(7201)), OverlayAction::Suspend);
    assert_eq!(o.update_at(at_secs(7300)), OverlayAction::Stay);
    assert_eq!(o.phase(), Phase::CornerBadge);
}

#[test]
fn overlay_counts_down_to_the_deadline() {
    let o = LayerOverlay::boot().expect("the deadline fits");
    assert_eq!(o.countdown_at(at_secs(6)), "01:59:54");
    assert_eq!(o.countdown_at(at_secs(3600)), "01:00:00");
    assert_eq!(o.countdown_at(at_secs(8000)), "00:00");
}

#[test]
fn deadline_is_sleep_time_after_the_alert_starts() {
    let o = LayerOverlay::boot().expect("the deadline fits");
    // The alert started at the reading the deadline is measured from, so the
    // whole sleep time is left at that moment.
    assert_eq!(o.countdown_at(at_secs(0)), "02:00:00");
}
