use notify_sleep::clock::{Duration, Instant};
use notify_sleep::state_machine::{OsdLayout, OsdStateMachine, Request, State};

type Rect = (i32, i32, i32, i32);

const CENTER: Rect = (780, 445, 360, 190);
const CORNER: Rect = (1721, 24, 175, 42);

fn layout() -> OsdLayout<Rect> {
    OsdLayout { center: CENTER, corner: CORNER }
}

fn at_millis(ms: u64) -> Instant {
    Instant::from_start(Duration::from_millis(ms))
}

#[test]
fn new_machine_shows_the_alert() {
    let m: OsdStateMachine<Rect> = OsdStateMachine::new();
    assert!(m.is_animating());
    assert!(!m.is_finished());
    assert!(!m.is_corner_badge());
    assert_eq!(m.get_current_rect(), None);
    match m.state() {
        State::FullScreenAlert { duration, .. } => assert_eq!(*duration, Duration::from_millis(2500)),
        _ => panic!("a new machine starts with the alert"),
    }
}

#[test]
fn alert_waits_for_its_time_then_shows_the_card() {
    let mut m: OsdStateMachine<Rect> = OsdStateMachine::new();
    m.request_at(Request::TriggerAlert { splash_duration: Duration::from_secs(1) }, layout(), at_millis(0));
    m.tick(at_millis(999), layout());
    match m.state() {
        State::FullScreenAlert { start_time, duration } => {
            assert_eq!(*start_time, at_millis(0));
            assert_eq!(*duration, Duration::from_secs(1));
        }
        _ => panic!("the alert lasts its full second"),
    }
    m.tick(at_millis(1000), layout());
    match m.state() {
        State::CenterCountdown { duration, .. } => assert_eq!(*duration, Duration::from_secs(3)),
        _ => panic!("the card follows the alert"),
    }
    assert!(!m.is_animating());
}

#[test]
fn card_shrinks_from_center_to_corner() {
    let mut m: OsdStateMachine<Rect> = OsdStateMachine::new();
    m.request_at(Request::ShowCenterCard { duration: Duration::from_secs(3) }, layout(), at_millis(10_000));
    m.tick(at_millis(12_999), layout());
    assert!(matches!(m.state(), State::CenterCountdown { .. }));
    m.tick(at_millis(13_000), layout());
    match m.state() {
        State::ShrinkingToCorner { from_rect, to_rect, duration, .. } => {
            assert_eq!(*from_rect, CENTER);
            assert_eq!(*to_rect, CORNER);
            assert_eq!(*duration, Duration::from_millis(1000));
        }
        _ => panic!("the card shrinks after three seconds"),
    }
    assert!(m.is_animating());
}

#[test]
fn shrinking_ends_in_the_badge() {
    let mut m: OsdStateMachine<Rect> = OsdStateMachine::new();
    m.request_at(Request::ShrinkToCorner { duration: Duration::from_secs(1) }, layout(), at_millis(20_000));
    assert!(m.is_animating());
    m.tick(at_millis(20_500), layout());
    assert!(!m.is_corner_badge());
    m.tick(at_millis(21_000), layout());
    assert!(m.is_corner_badge());
    assert!(!m.is_animating());
    assert_eq!(m.get_current_rect(), Some(CORNER));
    m.tick(at_millis(1_000_000), layout());
    assert_eq!(m.get_current_rect(), Some(CORNER));
}

#[test]
fn finish_is_only_left_by_a_request() {
    let mut m: OsdStateMachine<Rect> = OsdStateMachine::new();
    m.request(Request::Finish, layout());
    assert!(m.is_finished());
    assert!(!m.is_animating());
    assert!(!m.is_corner_badge());
    m.tick(at_millis(5_000_000), layout());
    assert!(m.is_finished());
    m.request_at(Request::TriggerAlert { splash_duration: Duration::from_secs(2) }, layout(), at_millis(0));
    assert!(!m.is_finished());
    assert!(m.is_animating());
}

#[test]
fn a_phase_with_no_length_ends_even_before_it_started() {
    let mut m: OsdStateMachine<Rect> = OsdStateMachine::new();
    m.request_at(Request::ShrinkToCorner { duration: Duration::zero() }, layout(), at_millis(5_000));
    m.tick(at_millis(1_000), layout());
    assert_eq!(m.get_current_rect(), Some(CORNER));
}

#[test]
fn request_overrides_any_phase() {
    let mut m: OsdStateMachine<Rect> = OsdStateMachine::new();
    m.request_at(Request::ShrinkToCorner { duration: Duration::zero() }, layout(), at_millis(0));
    m.tick(at_millis(0), layout());
    assert!(m.is_corner_badge());
    m.request_at(Request::ShowCenterCard { duration: Duration::from_secs(3) }, layout(), at_millis(7));
    match m.state() {
        State::CenterCountdown { start_time, duration } => {
            assert_eq!(*start_time, at_millis(7));
            assert_eq!(*duration, Duration::from_secs(3));
        }
        _ => panic!("the request sets the phase"),
    }
}

#[test]
fn a_new_phase_starts_at_the_given_reading() {
    let mut m: OsdStateMachine<Rect> = OsdStateMachine::new();
    m.request_at(Request::TriggerAlert { splash_duration: Duration::from_secs(1) }, layout(), at_millis(0));
    m.tick_at(at_millis(1500), at_millis(1600), layout());
    match m.state() {
        State::CenterCountdown { start_time, duration } => {
            assert_eq!(*start_time, at_millis(1600));
            assert_eq!(*duration, Duration::from_secs(3));
        }
        _ => panic!("the card follows the alert"),
    }
    m.tick_at(at_millis(4599), at_millis(9000), layout());
    assert!(matches!(m.state(), State::CenterCountdown { .. }));
    m.tick_at(at_millis(4600), at_millis(4700), layout());
    match m.state() {
        State::ShrinkingToCorner { start_time, duration, from_rect, to_rect } => {
            assert_eq!(*start_time, at_millis(4700));
            assert_eq!(*duration, Duration::from_secs(1));
            assert_eq!(*from_rect, CENTER);
            assert_eq!(*to_rect, CORNER);
        }
        _ => panic!("the card shrinks"),
    }
}
