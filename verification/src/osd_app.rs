//! What the X11 overlay does on each frame, before it draws: it closes once
//! the deadline has come, moves the state machine on, shrinks the window to
//! the badge once the badge is reached, and works out the countdown text and
//! how soon the next frame is wanted.
use vstd::prelude::*;

use crate::clock::{nanos_limit, Duration, Instant};
use crate::countdown::{countdown_spec, countdown_text};
use crate::session::SessionType;
use crate::state_machine::{
    animating, corner_badge, current_rect, elapsed, finished, ticked, ticked_at, OsdLayout,
    OsdStateMachine, Request, State,
};

verus! {

/// What the window has to do on a frame.
pub enum FramePlan<R> {
    /// The deadline has come: the state machine is finished and the window
    /// closes; nothing is drawn.
    Close { apply_window_properties: bool },
    /// The overlay is drawn with the countdown text; the window is first
    /// shrunk to `shrink_window_to` where that is given, and the next frame is
    /// wanted at once where `repaint_now` holds, else after half a second.
    Draw {
        apply_window_properties: bool,
        shrink_window_to: Option<R>,
        countdown: String,
        repaint_now: bool,
    },
}

impl<R> FramePlan<R> {
    /// Whether the window's overlay properties are to be set on this frame.
    pub open spec fn applies_window_properties(&self) -> bool {
        match self {
            FramePlan::Close { apply_window_properties } => *apply_window_properties,
            FramePlan::Draw { apply_window_properties, .. } => *apply_window_properties,
        }
    }
}

/// The X11 overlay: its deadline, its state machine and what it has done to
/// its window.
pub struct SleepOsdApp<R> {
    target_time: Instant,
    state_machine: OsdStateMachine<R>,
    is_window_shrunk: bool,
    first_frame: bool,
}

impl<R: Copy> SleepOsdApp<R> {
    /// The moment the overlay closes.
    pub closed spec fn target(&self) -> Instant {
        self.target_time
    }

    /// The overlay's state machine.
    pub closed spec fn machine(&self) -> OsdStateMachine<R> {
        self.state_machine
    }

    /// Whether the window has been shrunk to the badge.
    pub closed spec fn window_shrunk(&self) -> bool {
        self.is_window_shrunk
    }

    /// Whether no frame has been planned yet.
    pub closed spec fn awaiting_first_frame(&self) -> bool {
        self.first_frame
    }

    /// What opening an overlay at `now` with `state_machine`, to close
    /// `duration` later, gives: the overlay, with its deadline at `now` plus
    /// `duration`, the window not shrunk and no frame planned yet, where that
    /// deadline can be represented; else `None`.
    pub open spec fn opened(
        app: Option<Self>,
        state_machine: OsdStateMachine<R>,
        now: Instant,
        duration: Duration,
    ) -> bool {
        match app {
            Some(a) => {
                &&& now@ + duration@ < nanos_limit()
                &&& a.target()@ == now@ + duration@
                &&& a.machine() == state_machine
                &&& !a.window_shrunk()
                &&& a.awaiting_first_frame()
            },
            None => now@ + duration@ >= nanos_limit(),
        }
    }

    /// An overlay that closes `duration` from now, showing the full-screen
    /// alert first; `None` where that moment cannot be represented.  A zero
    /// `duration` always gives an overlay.
    pub fn new(duration: Duration) -> (app: Option<Self>)
        ensures
            exists|state_machine: OsdStateMachine<R>, now: Instant|
                #![trigger Self::opened(app, state_machine, now, duration)]
                {
                    &&& state_machine@ matches State::FullScreenAlert { duration: splash, .. }
                        && splash@ == 2_500_000_000
                    &&& now@ < nanos_limit()
                    &&& Self::opened(app, state_machine, now, duration)
                },
            duration@ == 0 ==> app is Some,
    {
        let state_machine = OsdStateMachine::new();
        let now = state_machine.now();
        Self::new_at(state_machine, now, duration)
    }

    /// An overlay with `state_machine`, opened at `now` to close `duration`
    /// later; `None` where that moment cannot be represented.
    pub fn new_at(state_machine: OsdStateMachine<R>, now: Instant, duration: Duration) -> (app:
        Option<Self>)
        ensures
            now@ < nanos_limit(),
            Self::opened(app, state_machine, now, duration),
    {
        match now.checked_add(duration) {
            Some(target_time) => Some(
                SleepOsdApp { target_time, state_machine, is_window_shrunk: false, first_frame: true },
            ),
            None => None,
        }
    }

    /// The overlay's state machine, for drawing it.
    pub fn state_machine(&self) -> (m: &OsdStateMachine<R>)
        ensures
            *m == self.machine(),
    {
        &self.state_machine
    }

    /// The plan for a frame drawn now, on the state machine's clock.
    pub fn frame(&mut self, layout: OsdLayout<R>, session: SessionType) -> (plan: FramePlan<R>)
        ensures
            final(self).target() == old(self).target(),
            final(self).machine().clock() == old(self).machine().clock(),
            !final(self).awaiting_first_frame(),
            plan.applies_window_properties() == old(self).awaiting_first_frame(),
            exists|now: Instant, fresh: Instant|
                #![trigger Self::planned(*old(self), *final(self), plan, now, fresh, layout, session)]
                Self::planned(*old(self), *final(self), plan, now, fresh, layout, session),
            exists|now: Instant, fresh: Instant|
                #![trigger Self::planned(*old(self), *final(self), plan, now, fresh, layout, session)]
                {
                    &&& Self::planned(*old(self), *final(self), plan, now, fresh, layout, session)
                    &&& old(self).machine().latest()@ <= now@
                    &&& now@ <= fresh@
                    &&& final(self).machine().latest() == fresh
                },
    {
        let ghost before = *self;
        let now = self.state_machine.take_reading();
        let fresh = self.state_machine.take_reading();
        let ghost read = *self;
        let plan = self.frame_at(now, fresh, layout, session);
        proof {
            assert(read.machine()@ == before.machine()@);
            assert(Self::planned(read, *self, plan, now, fresh, layout, session));
            assert(Self::planned(before, *self, plan, now, fresh, layout, session));
        }
        plan
    }

    /// What a frame at `now` does, apart from the first-frame flag: where the
    /// deadline has come and the machine is not finished, it finishes the
    /// machine and closes; else it ticks the machine at `now`, a new phase
    /// starting at the reading `fresh`, shrinks the window to
    /// the badge where the session is X11, the window is not shrunk yet and the
    /// badge is reached, and draws the time left to the deadline, asking for
    /// the next frame at once while the machine animates.
    pub open spec fn planned(
        old: Self,
        new: Self,
        plan: FramePlan<R>,
        now: Instant,
        fresh: Instant,
        layout: OsdLayout<R>,
        session: SessionType,
    ) -> bool {
        if now@ >= old.target()@ && !finished(old.machine()@) {
            &&& plan is Close
            &&& finished(new.machine()@)
            &&& new.window_shrunk() == old.window_shrunk()
        } else {
            &&& ticked_at(old.machine()@, new.machine()@, now, fresh, layout)
            &&& ticked(old.machine()@, new.machine()@, now, layout)
            &&& plan matches FramePlan::Draw { shrink_window_to, countdown, repaint_now, .. }
            &&& countdown@ == countdown_spec(elapsed(old.target(), now) / 1_000_000_000)
            &&& repaint_now == animating(new.machine()@)
            &&& if session == SessionType::X11 && !old.window_shrunk() && corner_badge(
                new.machine()@,
            ) {
                shrink_window_to == current_rect(new.machine()@) && new.window_shrunk()
            } else {
                shrink_window_to is None && new.window_shrunk() == old.window_shrunk()
            }
        }
    }

    /// The plan for a frame drawn at `now`, where a phase the frame moves the
    /// machine into starts at the reading `fresh`.
    pub fn frame_at(
        &mut self,
        now: Instant,
        fresh: Instant,
        layout: OsdLayout<R>,
        session: SessionType,
    ) -> (plan: FramePlan<R>)
        ensures
            final(self).target() == old(self).target(),
            final(self).machine().clock() == old(self).machine().clock(),
            final(self).machine().latest() == old(self).machine().latest(),
            !final(self).awaiting_first_frame(),
            plan.applies_window_properties() == old(self).awaiting_first_frame(),
            Self::planned(*old(self), *final(self), plan, now, fresh, layout, session),
    {
        let apply_window_properties = self.first_frame;
        self.first_frame = false;
        if !self.target_time.later_than(&now) && !self.state_machine.is_finished() {
            self.state_machine.request_at(Request::Finish, layout, fresh);
            return FramePlan::Close { apply_window_properties };
        }
        self.state_machine.tick_at(now, fresh, layout);
        let mut shrink_window_to = None;
        if session == SessionType::X11 && !self.is_window_shrunk
            && self.state_machine.is_corner_badge() {
            if let Some(corner) = self.state_machine.get_current_rect() {
                shrink_window_to = Some(corner);
                self.is_window_shrunk = true;
            }
        }
        let remaining = self.target_time.duration_since(now);
        let countdown = countdown_text(remaining);
        let repaint_now = self.state_machine.is_animating();
        FramePlan::Draw { apply_window_properties, shrink_window_to, countdown, repaint_now }
    }
}

/// The window is shrunk to the badge at most once: a plan asks for it only
/// while the window is not shrunk yet, and a shrunk window stays so.
pub proof fn lemma_window_shrinks_at_most_once<R: Copy>(
    old: SleepOsdApp<R>,
    new: SleepOsdApp<R>,
    plan: FramePlan<R>,
    now: Instant,
    fresh: Instant,
    layout: OsdLayout<R>,
    session: SessionType,
)
    requires
        SleepOsdApp::planned(old, new, plan, now, fresh, layout, session),
    ensures
        plan matches FramePlan::Draw { shrink_window_to: Some(_), .. } ==> !old.window_shrunk()
            && new.window_shrunk(),
        old.window_shrunk() ==> new.window_shrunk(),
{
}

/// The window is closed once: after the frame that finishes the overlay,
/// every frame draws and the overlay stays finished.
pub proof fn lemma_closes_once<R: Copy>(
    old: SleepOsdApp<R>,
    new: SleepOsdApp<R>,
    plan: FramePlan<R>,
    now: Instant,
    fresh: Instant,
    layout: OsdLayout<R>,
    session: SessionType,
)
    requires
        SleepOsdApp::planned(old, new, plan, now, fresh, layout, session),
        finished(old.machine()@),
    ensures
        plan is Draw,
        finished(new.machine()@),
{
}

/// Before the deadline the overlay is never closed.
pub proof fn lemma_no_close_before_deadline<R: Copy>(
    old: SleepOsdApp<R>,
    new: SleepOsdApp<R>,
    plan: FramePlan<R>,
    now: Instant,
    fresh: Instant,
    layout: OsdLayout<R>,
    session: SessionType,
)
    requires
        SleepOsdApp::planned(old, new, plan, now, fresh, layout, session),
        now@ < old.target()@,
    ensures
        plan is Draw,
{
}

} // verus!
