//! The volume envelope of the alert sound: it fades in over the first five
//! seconds, plays at the base volume, fades out over the last five seconds of
//! its thirty, and stops.
use vstd::prelude::*;

use crate::clock::Duration;

verus! {

/// The longest the alert plays, in milliseconds.
pub const ALERT_MILLIS: u64 = 30_000;

/// How long each fade lasts, in milliseconds.
pub const FADE_MILLIS: u64 = 5_000;

/// What to do with the alert's volume after `elapsed` of playback.
pub enum VolumeStep {
    /// The alert has played its time: stop it.
    Stop,
    /// Leave the volume as it is.
    Keep,
    /// Set the volume to the base volume times `part / whole`.
    Scale { part: Duration, whole: Duration },
}

/// The alert's volume after `e` nanoseconds, in parts of the fade's length in
/// nanoseconds: rising over the fade-in, full in between, falling over the
/// fade-out, and silent once it has played its time.
pub open spec fn alert_gain(e: nat) -> nat {
    let total: int = ALERT_MILLIS * 1_000_000;
    let fade: int = FADE_MILLIS * 1_000_000;
    if e >= total {
        0
    } else if e + fade >= total {
        (total - e) as nat
    } else if e <= fade {
        e
    } else {
        fade as nat
    }
}

/// The volume step after `elapsed` of playback: stop after thirty seconds;
/// set the volume on the fade-in and on the fade-out, the fade-out taking
/// precedence; else leave it.
pub fn alert_volume_step(elapsed: Duration) -> (step: VolumeStep)
    ensures
        step is Stop <==> elapsed@ >= ALERT_MILLIS * 1_000_000,
        step is Keep <==> FADE_MILLIS * 1_000_000 < elapsed@ && elapsed@ + FADE_MILLIS * 1_000_000
            < ALERT_MILLIS * 1_000_000,
        step matches VolumeStep::Scale { part, whole } ==> part@ == alert_gain(elapsed@) && whole@
            == FADE_MILLIS * 1_000_000,
{
    let max_duration = Duration::from_millis(ALERT_MILLIS);
    let fade_duration = Duration::from_millis(FADE_MILLIS);
    if elapsed.at_least(&max_duration) {
        return VolumeStep::Stop;
    }
    let mut step = VolumeStep::Keep;
    if fade_duration.at_least(&elapsed) {
        step = VolumeStep::Scale { part: elapsed, whole: fade_duration };
    }
    if elapsed.at_least(&max_duration.saturating_sub(&fade_duration)) {
        step = VolumeStep::Scale { part: max_duration.saturating_sub(&elapsed), whole: fade_duration };
    }
    step
}

/// The alert is never louder than its base volume.
pub proof fn lemma_gain_at_most_full(e: nat)
    ensures
        alert_gain(e) <= FADE_MILLIS * 1_000_000,
{
}

/// The volume never falls while the alert fades in and plays, and never rises
/// while it fades out.
pub proof fn lemma_gain_rises_then_falls(e1: nat, e2: nat)
    requires
        e1 <= e2,
        e2 < ALERT_MILLIS * 1_000_000,
    ensures
        e2 + FADE_MILLIS * 1_000_000 <= ALERT_MILLIS * 1_000_000 ==> alert_gain(e1) <= alert_gain(e2),
        e1 >= FADE_MILLIS * 1_000_000 ==> alert_gain(e1) >= alert_gain(e2),
{
}

} // verus!
