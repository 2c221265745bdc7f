//! The native Wayland overlay, drawn on a layer-shell surface: a full-screen
//! alert, then a centred countdown card, then a badge in the top-right corner,
//! which suspends the machine once, when the deadline comes.  Each update says
//! what the surface has to do; the caller does it.
use vstd::prelude::*;

use crate::clock::{nanos_limit, Clock, Duration, Instant};
use crate::countdown::{countdown_spec, countdown_text};
use crate::state_machine::elapsed;
use crate::SLEEP_TIME;

verus! {

/// The overlay's phase.
#[derive(Debug, Clone, Copy, PartialEq, Eq, Structural)]
pub enum Phase {
    FullScreenAlert,
    CenterCountdown,
    CornerBadge,
}

/// Width in pixels of the surface once it is the corner badge.
pub const BADGE_WIDTH: u32 = 180;

/// Height in pixels of the surface once it is the corner badge.
pub const BADGE_HEIGHT: u32 = 44;

/// Distance in pixels of the badge from the screen's top and right edges.
pub const BADGE_MARGIN: i32 = 24;

/// What the surface has to do after an update.
#[derive(Debug, Clone, Copy, PartialEq, Eq, Structural)]
pub enum OverlayAction {
    /// Nothing.
    Stay,
    /// Become the badge: `width` by `height` pixels, anchored to the top and
    /// right edges, `margin` pixels from each of them.
    MoveToCorner { width: u32, height: u32, margin: i32 },
    /// Suspend the machine and close the surface.
    Suspend,
}

/// The Wayland overlay's state, with the latest reading it has taken of
/// its clock.  Readings are kept from going back before the latest one.
pub struct LayerOverlay {
    clock: Clock,
    latest: Instant,
    phase: Phase,
    start_time: Instant,
    target_time: Instant,
    sleep_triggered: bool,
}

/// How long the full-screen alert is shown, in nanoseconds.
pub open spec fn alert_nanos() -> nat {
    2_500_000_000
}

/// How long the countdown card is shown, in nanoseconds.
pub open spec fn card_nanos() -> nat {
    3_000_000_000
}

/// The position of a phase in the overlay's sequence.
pub open spec fn phase_rank(p: Phase) -> nat {
    match p {
        Phase::FullScreenAlert => 0,
        Phase::CenterCountdown => 1,
        Phase::CornerBadge => 2,
    }
}

impl LayerOverlay {
    /// The current phase.
    pub closed spec fn phase_spec(&self) -> Phase {
        self.phase
    }

    /// When the current phase began.
    pub closed spec fn start(&self) -> Instant {
        self.start_time
    }

    /// When the machine is to be suspended.
    pub closed spec fn target(&self) -> Instant {
        self.target_time
    }

    /// Whether the machine has been suspended.
    pub closed spec fn triggered(&self) -> bool {
        self.sleep_triggered
    }

    /// The clock the overlay is timed on.
    pub closed spec fn clock(&self) -> Clock {
        self.clock
    }

    /// The latest reading the overlay has taken of its clock.
    pub closed spec fn latest(&self) -> Instant {
        self.latest
    }

    /// `new` is `old` in all but the latest clock reading.
    pub open spec fn unchanged(old: Self, new: Self) -> bool {
        &&& new.phase_spec() == old.phase_spec()
        &&& new.start() == old.start()
        &&& new.target() == old.target()
        &&& new.triggered() == old.triggered()
        &&& new.clock() == old.clock()
    }

    /// What an update at `now` does: the alert gives way to the card after two
    /// and a half seconds, the card to the badge after three, and the badge
    /// suspends the machine once, when the deadline has come.
    pub open spec fn updated(old: Self, new: Self, action: OverlayAction, now: Instant) -> bool {
        &&& new.target() == old.target()
        &&& new.clock() == old.clock()
        &&& match old.phase_spec() {
            Phase::FullScreenAlert => if elapsed(now, old.start()) >= alert_nanos() {
                &&& new.phase_spec() == Phase::CenterCountdown
                &&& new.start() == now
                &&& new.triggered() == old.triggered()
                &&& action == OverlayAction::Stay
            } else {
                Self::unchanged(old, new) && action == OverlayAction::Stay
            },
            Phase::CenterCountdown => if elapsed(now, old.start()) >= card_nanos() {
                &&& new.phase_spec() == Phase::CornerBadge
                &&& new.start() == now
                &&& new.triggered() == old.triggered()
                &&& action == (OverlayAction::MoveToCorner {
                    width: BADGE_WIDTH,
                    height: BADGE_HEIGHT,
                    margin: BADGE_MARGIN,
                })
            } else {
                Self::unchanged(old, new) && action == OverlayAction::Stay
            },
            Phase::CornerBadge => if !old.triggered() && now@ >= old.target()@ {
                &&& new.phase_spec() == old.phase_spec()
                &&& new.start() == old.start()
                &&& new.triggered()
                &&& action == OverlayAction::Suspend
            } else {
                Self::unchanged(old, new) && action == OverlayAction::Stay
            },
        }
    }

    /// What booting on `clock` at `now` gives: the overlay showing the alert
    /// from `now`, with the deadline `SLEEP_TIME` seconds after `now` and the
    /// machine not suspended, where that deadline can be represented; else
    /// `None`.
    pub open spec fn booted(overlay: Option<Self>, clock: Clock, now: Instant) -> bool {
        match overlay {
            Some(o) => {
                &&& now@ + SLEEP_TIME * 1_000_000_000 < nanos_limit()
                &&& o.clock() == clock
                &&& o.latest() == now
                &&& o.phase_spec() == Phase::FullScreenAlert
                &&& o.start() == now
                &&& o.target()@ == now@ + SLEEP_TIME * 1_000_000_000
                &&& !o.triggered()
            },
            None => now@ + SLEEP_TIME * 1_000_000_000 >= nanos_limit(),
        }
    }

    /// An overlay on a clock started now, showing the alert from now and
    /// suspending the machine `SLEEP_TIME` seconds later; `None` where that
    /// moment cannot be represented.  The alert's start and the deadline are
    /// measured from one reading of the clock.
    pub fn boot() -> (overlay: Option<Self>)
        ensures
            exists|clock: Clock, now: Instant|
                #![trigger Self::booted(overlay, clock, now)]
                now@ < nanos_limit() && Self::booted(overlay, clock, now),
            overlay matches Some(o) ==> o.target()@ == o.start()@ + SLEEP_TIME * 1_000_000_000,
    {
        let clock = Clock::start();
        let now = clock.now();
        Self::boot_at(clock, now)
    }

    /// An overlay on `clock`, showing the alert from `now` and suspending the
    /// machine `SLEEP_TIME` seconds after `now`; `None` where that moment
    /// cannot be represented.
    pub fn boot_at(clock: Clock, now: Instant) -> (overlay: Option<Self>)
        ensures
            now@ < nanos_limit(),
            Self::booted(overlay, clock, now),
    {
        match now.checked_add(Duration::from_secs(SLEEP_TIME)) {
            Some(target_time) => Some(
                LayerOverlay {
                    clock,
                    latest: now,
                    phase: Phase::FullScreenAlert,
                    start_time: now,
                    target_time,
                    sleep_triggered: false,
                },
            ),
            None => None,
        }
    }

    /// The current phase.
    pub fn phase(&self) -> (p: Phase)
        ensures
            p == self.phase_spec(),
    {
        self.phase
    }

    /// An update now, on the overlay's clock.
    pub fn update(&mut self) -> (action: OverlayAction)
        ensures
            exists|now: Instant| Self::updated(*old(self), *final(self), action, now),
            exists|now: Instant|
                #![trigger Self::updated(*old(self), *final(self), action, now)]
                {
                    &&& Self::updated(*old(self), *final(self), action, now)
                    &&& now@ >= old(self).latest()@
                    &&& final(self).latest() == now
                },
    {
        let ghost before = *self;
        let now = self.take_reading();
        let ghost read = *self;
        let action = self.update_at(now);
        proof {
            assert(Self::updated(read, *self, action, now));
            assert(Self::updated(before, *self, action, now));
        }
        action
    }

    /// A reading of the overlay's clock, at or after the latest one.
    fn reading(&self) -> (t: Instant)
        ensures
            t@ >= self.latest()@,
    {
        let reading = self.clock.now();
        if reading.later_than(&self.latest) {
            reading
        } else {
            self.latest
        }
    }

    /// Takes a reading of the overlay's clock, at or after the latest one, and
    /// keeps it as the latest.
    fn take_reading(&mut self) -> (t: Instant)
        ensures
            t@ >= old(self).latest()@,
            final(self).latest() == t,
            Self::unchanged(*old(self), *final(self)),
    {
        let t = self.reading();
        self.latest = t;
        t
    }

    /// An update at `now`.
    pub fn update_at(&mut self, now: Instant) -> (action: OverlayAction)
        ensures
            final(self).latest() == old(self).latest(),
            Self::updated(*old(self), *final(self), action, now),
    {
        let elapsed = now.duration_since(self.start_time);
        match self.phase {
            Phase::FullScreenAlert => {
                if elapsed.at_least(&Duration::from_millis(2500)) {
                    self.phase = Phase::CenterCountdown;
                    self.start_time = now;
                }
                OverlayAction::Stay
            },
            Phase::CenterCountdown => {
                if elapsed.at_least(&Duration::from_secs(3)) {
                    self.phase = Phase::CornerBadge;
                    self.start_time = now;
                    OverlayAction::MoveToCorner {
                        width: BADGE_WIDTH,
                        height: BADGE_HEIGHT,
                        margin: BADGE_MARGIN,
                    }
                } else {
                    OverlayAction::Stay
                }
            },
            Phase::CornerBadge => {
                if !self.sleep_triggered && !self.target_time.later_than(&now) {
                    self.sleep_triggered = true;
                    OverlayAction::Suspend
                } else {
                    OverlayAction::Stay
                }
            },
        }
    }

    /// The countdown text for now, on the overlay's clock.
    pub fn countdown(&self) -> (text: String)
        ensures
            exists|now: Instant|
                #![trigger elapsed(self.target(), now)]
                text@ == countdown_spec(elapsed(self.target(), now) / 1_000_000_000),
            exists|now: Instant|
                #![trigger elapsed(self.target(), now)]
                text@ == countdown_spec(elapsed(self.target(), now) / 1_000_000_000) && now@
                    >= self.latest()@,
    {
        let now = self.reading();
        self.countdown_at(now)
    }

    /// The countdown text at `now`: the time left to the deadline.
    pub fn countdown_at(&self, now: Instant) -> (text: String)
        ensures
            text@ == countdown_spec(elapsed(self.target(), now) / 1_000_000_000),
    {
        countdown_text(self.target_time.duration_since(now))
    }
}

/// The machine is suspended at most once: an update that suspends it finds
/// it not yet suspended, and once suspended it stays so.
pub proof fn lemma_suspends_at_most_once(
    old: LayerOverlay,
    new: LayerOverlay,
    action: OverlayAction,
    now: Instant,
)
    requires
        LayerOverlay::updated(old, new, action, now),
    ensures
        action == OverlayAction::Suspend ==> !old.triggered() && new.triggered(),
        old.triggered() ==> new.triggered() && action != OverlayAction::Suspend,
{
}

/// The machine is suspended only from the badge, and only once the deadline
/// has come.
pub proof fn lemma_suspends_only_at_the_deadline(
    old: LayerOverlay,
    new: LayerOverlay,
    action: OverlayAction,
    now: Instant,
)
    requires
        LayerOverlay::updated(old, new, action, now),
        action == OverlayAction::Suspend,
    ensures
        old.phase_spec() == Phase::CornerBadge,
        now@ >= old.target()@,
{
}

/// An update moves the overlay at most one phase on, and never back.
pub proof fn lemma_update_advances_at_most_one_phase(
    old: LayerOverlay,
    new: LayerOverlay,
    action: OverlayAction,
    now: Instant,
)
    requires
        LayerOverlay::updated(old, new, action, now),
    ensures
        phase_rank(new.phase_spec()) == phase_rank(old.phase_spec()) || phase_rank(
            new.phase_spec(),
        ) == phase_rank(old.phase_spec()) + 1,
{
}

} // verus!
