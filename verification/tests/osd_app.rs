use notify_sleep::clock::{Duration, Instant};
use notify_sleep::osd_app::{FramePlan, SleepOsdApp};
use notify_sleep::session::SessionType;
use notify_sleep::state_machine::OsdLayout;

type Rect = (i32, i32, i32, i32);

const CORNER: Rect = (1721, 24, 175, 42);

fn layout() -> OsdLayout<Rect> {
    OsdLayout { center: (780, 445, 360, 190), corner: CORNER }
}

fn at_secs(s: u64) -> Instant {
    Instant::from_start(Duration::from_secs(s))
}

fn draw(plan: FramePlan<Rect>) -> (bool, Option<Rect>, String, bool) {
    match plan {
        FramePlan::Draw { apply_window_properties, shrink_window_to, countdown, repaint_now } => {
            (apply_window_properties, shrink_window_to, countdown, repaint_now)
        }
        FramePlan::Close { .. } => panic!("the frame is drawn"),
    }
}

#[test]
fn frames_follow_the_overlay_to_its_close() {
    let mut app: SleepOsdApp<Rect> = SleepOsdApp::new(Duration::from_secs(10)).expect("the deadline fits");
    assert_eq!(
        draw(app.frame_at(at_secs(1), at_secs(1), layout(), SessionType::X11)),
        (true, None, "00:09".to_string(), true)
    );
    assert_eq!(
        draw(app.frame_at(at_secs(3), at_secs(3), layout(), SessionType::X11)),
        (false, None, "00:07".to_string(), false)
    );
    assert_eq!(
        draw(app.frame_at(at_secs(7), at_secs(7), layout(), SessionType::X11)),
        (false, None, "00:03".to_string(), true)
    );
    assert_eq!(
        draw(app.frame_at(at_secs(8), at_secs(8), layout(), SessionType::X11)),
        (false, Some(CORNER), "00:02".to_string(), false)
    );
    assert_eq!(
        draw(app.frame_at(at_secs(9), at_secs(9), layout(), SessionType::X11)),
        (false, None, "00:01".to_string(), false)
    );
    assert!(matches!(
        app.frame_at(at_secs(11), at_secs(11), layout(), SessionType::X11),
        FramePlan::Close { apply_window_properties: false }
    ));
    assert!(app.state_machine().is_finished());
    assert_eq!(
        draw(app.frame_at(at_secs(12), at_secs(12), layout(), SessionType::X11)),
        (false, None, "00:00".to_string(), false)
    );
}

#[test]
fn wayland_windows_are_not_shrunk() {
    let mut app: SleepOsdApp<Rect> = SleepOsdApp::new(Duration::from_secs(100)).expect("the deadline fits");
    app.frame_at(at_secs(3), at_secs(3), layout(), SessionType::Wayland);
    app.frame_at(at_secs(7), at_secs(7), layout(), SessionType::Wayland);
    let (_, shrink, _, _) = draw(app.frame_at(at_secs(8), at_secs(8), layout(), SessionType::Wayland));
    assert_eq!(shrink, None);
    assert!(app.state_machine().is_corner_badge());
}

#[test]
fn a_first_frame_past_the_deadline_closes() {
    let mut app: SleepOsdApp<Rect> = SleepOsdApp::new(Duration::zero()).expect("the deadline fits");
    assert!(matches!(
        app.frame_at(at_secs(1), at_secs(1), layout(), SessionType::X11),
        FramePlan::Close { apply_window_properties: true }
    ));
}

#[test]
fn an_unrepresentable_deadline_is_refused() {
    let longest = Duration::new(u64::MAX, 999_999_999);
    let app: Option<SleepOsdApp<Rect>> = SleepOsdApp::new(longest);
    assert!(app.is_none());
}

#[test]
fn an_overlay_opened_at_a_given_time_closes_after_its_duration() {
    let machine = notify_sleep::state_machine::OsdStateMachine::new();
    let mut app: SleepOsdApp<Rect> =
        SleepOsdApp::new_at(machine, at_secs(100), Duration::from_secs(30)).expect("the deadline fits");
    let (apply, _, countdown, _) = draw(app.frame_at(at_secs(101), at_secs(101), layout(), SessionType::X11));
    assert!(apply);
    assert_eq!(countdown, "00:29");
    assert!(matches!(
        app.frame_at(at_secs(130), at_secs(130), layout(), SessionType::X11),
        FramePlan::Close { apply_window_properties: false }
    ));
}

#[test]
fn an_overlay_past_the_last_instant_is_refused() {
    let machine: notify_sleep::state_machine::OsdStateMachine<Rect> =
        notify_sleep::state_machine::OsdStateMachine::new();
    let last = Instant::from_start(Duration::new(u64::MAX, 0));
    assert!(SleepOsdApp::new_at(machine, last, Duration::from_secs(1)).is_none());
}

#[test]
fn a_phase_a_frame_starts_begins_at_the_given_reading() {
    let mut app: SleepOsdApp<Rect> = SleepOsdApp::new(Duration::from_secs(100)).expect("the deadline fits");
    app.frame_at(at_secs(3), at_secs(4), layout(), SessionType::X11);
    match app.state_machine().state() {
        notify_sleep::state_machine::State::CenterCountdown { start_time, duration } => {
            assert_eq!(*start_time, at_secs(4));
            assert_eq!(*duration, Duration::from_secs(3));
        }
        _ => panic!("the card follows the alert"),
    }
    app.frame_at(at_secs(6), at_secs(6), layout(), SessionType::X11);
    assert!(matches!(
        app.state_machine().state(),
        notify_sleep::state_machine::State::CenterCountdown { .. }
    ));
    app.frame_at(at_secs(7), at_secs(7), layout(), SessionType::X11);
    assert!(app.state_machine().is_animating());
}
