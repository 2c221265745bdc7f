//! Decision logic of a bedtime on-screen display: the overlay's phases and
//! their timing, the countdown text, the alert sound's volume envelope and the
//! choice of display session.
use vstd::prelude::*;

pub mod alert;
pub mod clock;
pub mod countdown;
pub mod layer_overlay;
pub mod osd_app;
pub mod session;
pub mod state_machine;

verus! {

/// Title of the overlay window; the X11 helpers find the window by it.
pub const APP_WINDOW_NAME: &'static str = "Sleep OSD";

/// Seconds from start until the machine is put to sleep.
pub const SLEEP_TIME: u64 = 120 * 60;

} // verus!
