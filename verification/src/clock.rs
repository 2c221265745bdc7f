//! Monotonic time, as the display logic reads it: instants measured from the
//! moment a clock was started, and spans between them, both with the range and
//! nanosecond resolution of `std::time::Duration`.
use vstd::prelude::*;

verus! {

/// Nanoseconds in one second.
pub const NANOS_PER_SEC: u32 = 1_000_000_000;

/// The total number of nanoseconds in `secs` seconds and `nanos` nanoseconds.
pub open spec fn total_nanos(secs: u64, nanos: u32) -> nat {
    secs as nat * 1_000_000_000 + nanos as nat
}

/// One more than the largest number of nanoseconds a span or an instant can hold.
pub open spec fn nanos_limit() -> nat {
    (u64::MAX as nat + 1) * 1_000_000_000
}

/// A span of time.  Its view is its length in nanoseconds.
#[derive(Clone, Copy, Debug, PartialEq, Eq)]
pub struct Duration {
    secs: u64,
    nanos: u32,
}

impl Duration {
    #[verifier::type_invariant]
    spec fn well_formed(self) -> bool {
        self.nanos < NANOS_PER_SEC
    }
}

impl View for Duration {
    type V = nat;

    closed spec fn view(&self) -> nat {
        total_nanos(self.secs, self.nanos)
    }
}

impl Duration {
    /// The span of length zero.
    pub fn zero() -> (d: Duration)
        ensures
            d@ == 0,
    {
        Duration { secs: 0, nanos: 0 }
    }

    /// The span of `secs` whole seconds.
    pub closed spec fn secs_spec(secs: u64) -> Duration {
        Duration { secs, nanos: 0 }
    }

    /// The span of `millis` milliseconds.
    pub closed spec fn millis_spec(millis: u64) -> Duration {
        Duration { secs: millis / 1000, nanos: ((millis % 1000) * 1_000_000) as u32 }
    }

    /// `secs_spec(secs)` is `secs` seconds long.
    pub proof fn lemma_secs_spec(secs: u64)
        ensures
            Self::secs_spec(secs)@ == secs * 1_000_000_000,
    {
    }

    /// `millis_spec(millis)` is `millis` milliseconds long.
    pub proof fn lemma_millis_spec(millis: u64)
        ensures
            Self::millis_spec(millis)@ == millis * 1_000_000,
    {
        assert((millis % 1000) * 1_000_000 < 1_000_000_000);
    }

    /// A span of `secs` whole seconds.
    pub fn from_secs(secs: u64) -> (d: Duration)
        ensures
            d == Self::secs_spec(secs),
            d@ == secs * 1_000_000_000,
    {
        Duration { secs, nanos: 0 }
    }

    /// A span of `millis` milliseconds.
    pub fn from_millis(millis: u64) -> (d: Duration)
        ensures
            d == Self::millis_spec(millis),
            d@ == millis * 1_000_000,
    {
        let secs: u64 = millis / 1000;
        let rest: u32 = (millis % 1000) as u32;
        let nanos: u32 = rest * 1_000_000;
        Duration { secs, nanos }
    }

    /// A span of `secs` seconds and `nanos` nanoseconds; nanoseconds beyond a
    /// second carry into the seconds.
    pub fn new(secs: u64, nanos: u32) -> (d: Duration)
        requires
            secs + nanos / 1_000_000_000 <= u64::MAX,
        ensures
            d@ == total_nanos(secs, nanos),
    {
        let carry: u64 = (nanos / NANOS_PER_SEC) as u64;
        Duration { secs: secs + carry, nanos: nanos % NANOS_PER_SEC }
    }

    /// The whole seconds in this span.
    pub fn as_secs(&self) -> (s: u64)
        ensures
            s == self@ / 1_000_000_000,
    {
        proof {
            use_type_invariant(self);
        }
        self.secs
    }

    /// The nanoseconds beyond the whole seconds.
    pub fn subsec_nanos(&self) -> (n: u32)
        ensures
            n == self@ % 1_000_000_000,
    {
        proof {
            use_type_invariant(self);
        }
        self.nanos
    }

    /// Whether this span is at least as long as `other`.
    pub fn at_least(&self, other: &Duration) -> (b: bool)
        ensures
            b == (self@ >= other@),
    {
        proof {
            use_type_invariant(self);
            use_type_invariant(other);
        }
        self.secs > other.secs || (self.secs == other.secs && self.nanos >= other.nanos)
    }

    /// `self - other`, or zero where `other` is the longer.
    pub fn saturating_sub(&self, other: &Duration) -> (d: Duration)
        ensures
            d@ == (if self@ >= other@ { self@ - other@ } else { 0 }),
    {
        proof {
            use_type_invariant(self);
            use_type_invariant(other);
        }
        if self.secs > other.secs || (self.secs == other.secs && self.nanos >= other.nanos) {
            if self.nanos >= other.nanos {
                Duration { secs: self.secs - other.secs, nanos: self.nanos - other.nanos }
            } else {
                Duration {
                    secs: self.secs - other.secs - 1,
                    nanos: NANOS_PER_SEC - other.nanos + self.nanos,
                }
            }
        } else {
            Duration { secs: 0, nanos: 0 }
        }
    }
}

/// A point in time, measured from the moment its clock was started.  Its view
/// is that distance in nanoseconds.
#[derive(Clone, Copy, Debug, PartialEq, Eq)]
pub struct Instant {
    secs: u64,
    nanos: u32,
}

impl Instant {
    #[verifier::type_invariant]
    spec fn well_formed(self) -> bool {
        self.nanos < NANOS_PER_SEC
    }
}

impl View for Instant {
    type V = nat;

    closed spec fn view(&self) -> nat {
        total_nanos(self.secs, self.nanos)
    }
}

impl Instant {
    /// The instant `since_start` after the clock was started.
    pub fn from_start(since_start: Duration) -> (t: Instant)
        ensures
            t@ == since_start@,
    {
        proof {
            use_type_invariant(since_start);
        }
        Instant { secs: since_start.secs, nanos: since_start.nanos }
    }

    /// The time from `earlier` to this instant, or zero where `earlier` is the
    /// later of the two.
    pub fn duration_since(&self, earlier: Instant) -> (d: Duration)
        ensures
            d@ == (if self@ >= earlier@ { self@ - earlier@ } else { 0 }),
    {
        proof {
            use_type_invariant(self);
            use_type_invariant(earlier);
        }
        let here = Duration { secs: self.secs, nanos: self.nanos };
        let there = Duration { secs: earlier.secs, nanos: earlier.nanos };
        here.saturating_sub(&there)
    }

    /// The instant `span` after this one, or `None` where it cannot be represented.
    pub fn checked_add(&self, span: Duration) -> (t: Option<Instant>)
        ensures
            self@ < nanos_limit(),
            t is Some <==> self@ + span@ < nanos_limit(),
            t matches Some(t) ==> t@ == self@ + span@,
    {
        proof {
            use_type_invariant(self);
            use_type_invariant(span);
        }
        let nanos: u32 = self.nanos + span.nanos;
        let (carry, nanos): (u64, u32) = if nanos >= NANOS_PER_SEC {
            (1u64, nanos - NANOS_PER_SEC)
        } else {
            (0u64, nanos)
        };
        if self.secs > u64::MAX - span.secs {
            None
        } else if self.secs + span.secs > u64::MAX - carry {
            None
        } else {
            Some(Instant { secs: self.secs + span.secs + carry, nanos })
        }
    }

    /// Whether this instant comes strictly after `other`.
    pub fn later_than(&self, other: &Instant) -> (b: bool)
        ensures
            b == (self@ > other@),
    {
        proof {
            use_type_invariant(self);
            use_type_invariant(other);
        }
        self.secs > other.secs || (self.secs == other.secs && self.nanos > other.nanos)
    }
}

#[verifier::external_type_specification]
#[verifier::external_body]
pub struct ExStdInstant(std::time::Instant);

/// A monotonic clock.  The instants it gives are measured from the moment it
/// was started.
#[derive(Clone, Copy)]
pub struct Clock {
    origin: std::time::Instant,
}

impl Clock {
    /// Starts a clock at the current moment of `std::time::Instant::now`.
    /// Nothing is stated of the moment: it is the machine's time.
    #[verifier::external_body]
    pub(crate) fn start() -> (c: Clock) {
        Clock { origin: std::time::Instant::now() }
    }

    /// The time that has passed since the clock was started, as
    /// `std::time::Instant::elapsed` measures it on the clock's origin.  Nothing
    /// is stated of the value: it is the machine's time.
    #[verifier::external_body]
    pub(crate) fn now(&self) -> (t: Instant) {
        let elapsed = self.origin.elapsed();
        Instant { secs: elapsed.as_secs(), nanos: elapsed.subsec_nanos() }
    }
}

} // verus!
