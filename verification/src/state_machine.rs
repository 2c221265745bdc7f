//! The overlay's state machine: a full-screen alert, then a centred countdown
//! card, which shrinks into a badge in the screen's corner, until the machine
//! is told to finish.
//!
//! The rectangles the overlay is drawn in are of the caller's own type `R`:
//! the machine computes nothing from them, it hands back the ones it was given.
use vstd::prelude::*;

use crate::clock::{Clock, Duration, Instant};

verus! {

/// Where the overlay's cards are drawn: the centred card and the corner badge.
#[derive(Clone, Copy)]
pub struct OsdLayout<R> {
    pub center: R,
    pub corner: R,
}

/// The phase the overlay is in, with what each phase needs to be drawn.
pub enum State<R> {
    FullScreenAlert { start_time: Instant, duration: Duration },
    CenterCountdown { start_time: Instant, duration: Duration },
    ShrinkingToCorner { from_rect: R, to_rect: R, start_time: Instant, duration: Duration },
    CornerBadge { rect: R },
    Finish,
}

/// A request that moves the overlay into a phase, whatever phase it was in.
#[derive(Clone, Copy)]
pub enum Request {
    TriggerAlert { splash_duration: Duration },
    ShowCenterCard { duration: Duration },
    ShrinkToCorner { duration: Duration },
    Finish,
}

/// The overlay's state machine, with the clock its phases are timed on and
/// the latest reading it has taken of that clock.  Readings are kept from
/// going back before the latest one, so that each is at or after every
/// reading taken before it.
pub struct OsdStateMachine<R> {
    clock: Clock,
    latest: Instant,
    state: State<R>,
}

impl<R> View for OsdStateMachine<R> {
    type V = State<R>;

    closed spec fn view(&self) -> State<R> {
        self.state
    }
}

/// The time from `start` to `now`, zero where `now` comes first.
pub open spec fn elapsed(now: Instant, start: Instant) -> nat {
    if now@ >= start@ {
        (now@ - start@) as nat
    } else {
        0
    }
}

/// Whether the phase begun at `start` and lasting `duration` is over at `now`.
pub open spec fn is_due(now: Instant, start: Instant, duration: Duration) -> bool {
    elapsed(now, start) >= duration@
}

/// The state a request puts the overlay in, when it is made at `now`.
pub open spec fn request_outcome<R>(req: Request, layout: OsdLayout<R>, now: Instant) -> State<R> {
    match req {
        Request::TriggerAlert { splash_duration } => State::FullScreenAlert {
            start_time: now,
            duration: splash_duration,
        },
        Request::ShowCenterCard { duration } => State::CenterCountdown { start_time: now, duration },
        Request::ShrinkToCorner { duration } => State::ShrinkingToCorner {
            from_rect: layout.center,
            to_rect: layout.corner,
            start_time: now,
            duration,
        },
        Request::Finish => State::Finish,
    }
}

/// Whether the current phase is timed and its time has run out at `now`.
pub open spec fn phase_is_over<R>(s: State<R>, now: Instant) -> bool {
    match s {
        State::FullScreenAlert { start_time, duration } => is_due(now, start_time, duration),
        State::CenterCountdown { start_time, duration } => is_due(now, start_time, duration),
        State::ShrinkingToCorner { start_time, duration, .. } => is_due(now, start_time, duration),
        State::CornerBadge { .. } => false,
        State::Finish => false,
    }
}

/// What one tick at `now` makes of the state `old`: a phase whose time is not
/// over stays as it is; the alert gives way to the countdown card, shown for
/// three seconds; the card to the shrinking animation, from the centre to the
/// corner in one second; the animation to the badge at its end rectangle.
pub open spec fn ticked<R>(old: State<R>, new: State<R>, now: Instant, layout: OsdLayout<R>) -> bool {
    if !phase_is_over(old, now) {
        new == old
    } else {
        match old {
            State::FullScreenAlert { .. } => new matches State::CenterCountdown { duration, .. }
                && duration@ == 3_000_000_000,
            State::CenterCountdown { .. } => new matches State::ShrinkingToCorner {
                from_rect,
                to_rect,
                duration,
                ..
            } && from_rect == layout.center && to_rect == layout.corner && duration@
                == 1_000_000_000,
            State::ShrinkingToCorner { to_rect, .. } => new == (State::CornerBadge { rect: to_rect }),
            _ => new == old,
        }
    }
}

/// What one tick at `now` makes of the state `old`, where a new timed phase
/// starts at `fresh`: as `ticked` says, with the card starting at `fresh` and
/// lasting three seconds, and the shrinking animation starting at `fresh` and
/// lasting one second.
pub open spec fn ticked_at<R>(
    old: State<R>,
    new: State<R>,
    now: Instant,
    fresh: Instant,
    layout: OsdLayout<R>,
) -> bool {
    if !phase_is_over(old, now) {
        new == old
    } else {
        match old {
            State::FullScreenAlert { .. } => new == State::<R>::CenterCountdown {
                start_time: fresh,
                duration: Duration::secs_spec(3),
            },
            State::CenterCountdown { .. } => new == State::ShrinkingToCorner {
                from_rect: layout.center,
                to_rect: layout.corner,
                start_time: fresh,
                duration: Duration::millis_spec(1000),
            },
            State::ShrinkingToCorner { to_rect, .. } => new == (State::CornerBadge { rect: to_rect }),
            _ => new == old,
        }
    }
}

/// The position of a phase in the overlay's sequence.
pub open spec fn phase_rank<R>(s: State<R>) -> nat {
    match s {
        State::FullScreenAlert { .. } => 0,
        State::CenterCountdown { .. } => 1,
        State::ShrinkingToCorner { .. } => 2,
        State::CornerBadge { .. } => 3,
        State::Finish => 4,
    }
}

/// The overlay is finished.
pub open spec fn finished<R>(s: State<R>) -> bool {
    s is Finish
}

/// The overlay is in a phase that moves on every frame.
pub open spec fn animating<R>(s: State<R>) -> bool {
    s is FullScreenAlert || s is ShrinkingToCorner
}

/// The overlay rests as a badge in the corner.
pub open spec fn corner_badge<R>(s: State<R>) -> bool {
    s is CornerBadge
}

/// The rectangle of the badge, where the overlay is one.
pub open spec fn current_rect<R>(s: State<R>) -> Option<R> {
    match s {
        State::CornerBadge { rect } => Some(rect),
        _ => None,
    }
}

/// A tick moves the overlay at most one phase on, and never back.
pub proof fn lemma_tick_advances_at_most_one_phase<R>(
    old: State<R>,
    new: State<R>,
    now: Instant,
    layout: OsdLayout<R>,
)
    requires
        ticked(old, new, now, layout),
    ensures
        phase_rank(new) == phase_rank(old) || phase_rank(new) == phase_rank(old) + 1,
{
}

/// A phase whose time is not over is left as it is by a tick.
pub proof fn lemma_tick_waits_for_the_phase_to_end<R>(
    old: State<R>,
    new: State<R>,
    now: Instant,
    layout: OsdLayout<R>,
)
    requires
        ticked(old, new, now, layout),
        !phase_is_over(old, now),
    ensures
        new == old,
{
}

/// A phase whose time is over at `now` is over at every later time.
pub proof fn lemma_phase_stays_over<R>(s: State<R>, now: Instant, later: Instant)
    requires
        phase_is_over(s, now),
        now@ <= later@,
    ensures
        phase_is_over(s, later),
{
}

/// A tick that moves the overlay on at some time moves it on at every later
/// time too, into the same phase; from the shrinking animation, into the same
/// badge.
pub proof fn lemma_later_tick_moves_on_alike<R>(
    old: State<R>,
    first: State<R>,
    second: State<R>,
    now: Instant,
    later: Instant,
    layout: OsdLayout<R>,
)
    requires
        ticked(old, first, now, layout),
        ticked(old, second, later, layout),
        now@ <= later@,
        phase_rank(first) != phase_rank(old),
    ensures
        phase_rank(second) == phase_rank(first),
        old is ShrinkingToCorner ==> second == first,
{
    lemma_phase_stays_over(old, now, later);
}

/// Two ticks of the same state that take the same clock reading for a new
/// phase give the same state, where the earlier one moves the overlay on:
/// a transition that fires at some time fires alike at every later time.
pub proof fn lemma_later_tick_gives_the_same_state<R>(
    old: State<R>,
    first: State<R>,
    second: State<R>,
    now: Instant,
    later: Instant,
    fresh: Instant,
    layout: OsdLayout<R>,
)
    requires
        ticked_at(old, first, now, fresh, layout),
        ticked_at(old, second, later, fresh, layout),
        now@ <= later@,
        first != old,
    ensures
        second == first,
{
    lemma_phase_stays_over(old, now, later);
}

/// A requested phase starts when it is asked for and lasts as long as asked:
/// at every time from the request on, it is over exactly once the requested
/// duration has passed.  The alert and the card are those phases; the
/// shrinking animation runs from the layout's centre card and, once over,
/// a tick leaves the badge at the layout's corner; a request to finish
/// finishes.
pub proof fn lemma_requested_phase_lasts_as_asked<R>(
    req: Request,
    layout: OsdLayout<R>,
    now: Instant,
    later: Instant,
    after: State<R>,
    tick_layout: OsdLayout<R>,
)
    requires
        later@ >= now@,
    ensures
        ({
            let s = request_outcome(req, layout, now);
            match req {
                Request::TriggerAlert { splash_duration } => s is FullScreenAlert && (
                phase_is_over(s, later) <==> later@ - now@ >= splash_duration@),
                Request::ShowCenterCard { duration } => s is CenterCountdown && (phase_is_over(
                    s,
                    later,
                ) <==> later@ - now@ >= duration@),
                Request::ShrinkToCorner { duration } => {
                    &&& s matches State::ShrinkingToCorner { from_rect, .. } && from_rect
                        == layout.center
                    &&& phase_is_over(s, later) <==> later@ - now@ >= duration@
                    &&& phase_is_over(s, later) && ticked(s, after, later, tick_layout)
                        ==> current_rect(after) == Some(layout.corner)
                },
                Request::Finish => finished(s),
            }
        }),
{
}

/// The time left to a deadline never grows as time goes on, and it is gone
/// exactly once the deadline has come.
pub proof fn lemma_time_left_shrinks(deadline: Instant, now: Instant, later: Instant)
    requires
        now@ <= later@,
    ensures
        elapsed(deadline, later) <= elapsed(deadline, now),
        elapsed(deadline, later) == 0 <==> later@ >= deadline@,
{
}

/// Only a request finishes the overlay: a tick neither finishes it nor
/// takes a finished overlay out of that state.
pub proof fn lemma_tick_never_finishes<R>(
    old: State<R>,
    new: State<R>,
    now: Instant,
    layout: OsdLayout<R>,
)
    requires
        ticked(old, new, now, layout),
    ensures
        finished(new) == finished(old),
{
}

/// The badge in the corner is where ticking ends: it stays, whatever the time.
pub proof fn lemma_badge_stays<R>(old: State<R>, new: State<R>, now: Instant, layout: OsdLayout<R>)
    requires
        ticked(old, new, now, layout),
        corner_badge(old),
    ensures
        new == old,
{
}

/// The queries agree: the overlay has a rectangle exactly when it is a badge,
/// and a finished overlay neither animates nor shows a badge.
pub proof fn lemma_queries_agree<R>(s: State<R>)
    ensures
        corner_badge(s) <==> current_rect(s) is Some,
        finished(s) ==> !animating(s) && !corner_badge(s),
{
}

/// Asking the overlay to finish finishes it, whatever it was doing and
/// whenever it is asked.
pub proof fn lemma_finish_request_finishes<R>(layout: OsdLayout<R>, now: Instant)
    ensures
        finished(request_outcome(Request::Finish, layout, now)),
{
}

impl<R: Copy> OsdStateMachine<R> {
    /// The clock the machine's phases are timed on.
    pub closed spec fn clock(&self) -> Clock {
        self.clock
    }

    /// The latest reading the machine has taken of its clock.
    pub closed spec fn latest(&self) -> Instant {
        self.latest
    }

    /// A machine on a clock started now, showing the full-screen alert for
    /// two and a half seconds from now.
    pub fn new() -> (m: Self)
        ensures
            exists|clock: Clock, now: Instant|
                #![trigger Self::fresh(m, clock, now)]
                Self::fresh(m, clock, now),
            m@ matches State::FullScreenAlert { duration, .. } && duration@ == 2_500_000_000,
    {
        let clock = Clock::start();
        let now = clock.now();
        Self::new_at(clock, now)
    }

    /// The machine `m` is on `clock` and shows the full-screen alert from
    /// `now` for two and a half seconds.
    pub open spec fn fresh(m: Self, clock: Clock, now: Instant) -> bool {
        &&& m.clock() == clock
        &&& m.latest() == now
        &&& m@ == State::<R>::FullScreenAlert {
            start_time: now,
            duration: Duration::millis_spec(2500),
        }
    }

    /// A machine on `clock`, showing the full-screen alert for two and a half
    /// seconds from `now`.
    pub fn new_at(clock: Clock, now: Instant) -> (m: Self)
        ensures
            Self::fresh(m, clock, now),
            m@ matches State::FullScreenAlert { duration, .. } && duration@ == 2_500_000_000,
    {
        OsdStateMachine {
            clock,
            latest: now,
            state: State::FullScreenAlert { start_time: now, duration: Duration::from_millis(2500) },
        }
    }

    /// The current time on the machine's clock: a reading of it, at or after
    /// the latest reading the machine has taken.
    pub fn now(&self) -> (t: Instant)
        ensures
            t@ >= self.latest()@,
    {
        let reading = self.clock.now();
        if reading.later_than(&self.latest) {
            reading
        } else {
            self.latest
        }
    }

    /// Takes a reading of the machine's clock, at or after the latest one,
    /// and keeps it as the latest.
    pub(crate) fn take_reading(&mut self) -> (t: Instant)
        ensures
            t@ >= old(self).latest()@,
            final(self).latest() == t,
            final(self)@ == old(self)@,
            final(self).clock() == old(self).clock(),
    {
        let t = self.now();
        self.latest = t;
        t
    }

    /// Moves the overlay into the phase `req` asks for, starting now on the
    /// machine's clock.
    pub fn request(&mut self, req: Request, layout: OsdLayout<R>)
        ensures
            final(self).clock() == old(self).clock(),
            exists|t: Instant| final(self)@ == request_outcome(req, layout, t),
            exists|t: Instant|
                #![trigger request_outcome(req, layout, t)]
                final(self)@ == request_outcome(req, layout, t) && t@ >= old(self).latest()@
                    && final(self).latest() == t,
    {
        let now = self.take_reading();
        self.request_at(req, layout, now);
    }

    /// Moves the overlay into the phase `req` asks for, starting at `now`.
    pub fn request_at(&mut self, req: Request, layout: OsdLayout<R>, now: Instant)
        ensures
            final(self).clock() == old(self).clock(),
            final(self).latest() == old(self).latest(),
            final(self)@ == request_outcome(req, layout, now),
    {
        self.state = match req {
            Request::TriggerAlert { splash_duration } => State::FullScreenAlert {
                start_time: now,
                duration: splash_duration,
            },
            Request::ShowCenterCard { duration } => State::CenterCountdown {
                start_time: now,
                duration,
            },
            Request::ShrinkToCorner { duration } => State::ShrinkingToCorner {
                from_rect: layout.center,
                to_rect: layout.corner,
                start_time: now,
                duration,
            },
            Request::Finish => State::Finish,
        };
    }

    /// Moves the overlay on where the current phase's time is over at `now`.
    /// A new timed phase starts at a reading of the machine's clock.
    pub fn tick(&mut self, now: Instant, layout: OsdLayout<R>)
        ensures
            final(self).clock() == old(self).clock(),
            ticked(old(self)@, final(self)@, now, layout),
            exists|fresh: Instant|
                #![trigger ticked_at(old(self)@, final(self)@, now, fresh, layout)]
                ticked_at(old(self)@, final(self)@, now, fresh, layout),
            exists|fresh: Instant|
                #![trigger ticked_at(old(self)@, final(self)@, now, fresh, layout)]
                ticked_at(old(self)@, final(self)@, now, fresh, layout) && fresh@ >= old(
                    self,
                ).latest()@ && final(self).latest() == fresh,
    {
        let fresh = self.take_reading();
        self.tick_at(now, fresh, layout);
    }

    /// Moves the overlay on where the current phase's time is over at `now`;
    /// a new timed phase starts at `fresh`.
    pub fn tick_at(&mut self, now: Instant, fresh: Instant, layout: OsdLayout<R>)
        ensures
            final(self).clock() == old(self).clock(),
            final(self).latest() == old(self).latest(),
            ticked_at(old(self)@, final(self)@, now, fresh, layout),
            ticked(old(self)@, final(self)@, now, layout),
    {
        proof {
            Duration::lemma_secs_spec(3);
            Duration::lemma_millis_spec(1000);
        }
        match self.state {
            State::FullScreenAlert { start_time, duration } => {
                if now.duration_since(start_time).at_least(&duration) {
                    self.request_at(
                        Request::ShowCenterCard { duration: Duration::from_secs(3) },
                        layout,
                        fresh,
                    );
                }
            },
            State::CenterCountdown { start_time, duration } => {
                if now.duration_since(start_time).at_least(&duration) {
                    self.request_at(
                        Request::ShrinkToCorner { duration: Duration::from_millis(1000) },
                        layout,
                        fresh,
                    );
                }
            },
            State::ShrinkingToCorner { start_time, duration, to_rect, .. } => {
                if now.duration_since(start_time).at_least(&duration) {
                    self.state = State::CornerBadge { rect: to_rect };
                }
            },
            _ => {},
        }
    }

    /// Whether the overlay is finished.
    pub fn is_finished(&self) -> (b: bool)
        ensures
            b == finished(self@),
    {
        matches!(self.state, State::Finish)
    }

    /// Whether the overlay is in a phase that moves on every frame.
    pub fn is_animating(&self) -> (b: bool)
        ensures
            b == animating(self@),
    {
        matches!(self.state, State::FullScreenAlert { .. } | State::ShrinkingToCorner { .. })
    }

    /// Whether the overlay rests as a badge in the corner.
    pub fn is_corner_badge(&self) -> (b: bool)
        ensures
            b == corner_badge(self@),
    {
        matches!(self.state, State::CornerBadge { .. })
    }

    /// The badge's rectangle, where the overlay is one.
    pub fn get_current_rect(&self) -> (r: Option<R>)
        ensures
            r == current_rect(self@),
    {
        match &self.state {
            State::CornerBadge { rect } => Some(*rect),
            _ => None,
        }
    }

    /// The current state, for drawing it.
    pub fn state(&self) -> (s: &State<R>)
        ensures
            *s == self@,
    {
        &self.state
    }
}

} // verus!
