//! Throttling of telemetry-triggered redraws.
//!
//! Telemetry can arrive far faster than the display can usefully refresh,
//! so redraws caused by telemetry are gated by [`FPSLimiter`].  Redraws
//! caused by operator input are never throttled and do not pass through
//! this gate.  The limiter is pure and deterministic: the clock is injected
//! as an argument, never read here.

use vstd::prelude::*;

verus! {

/// Number of microseconds in one second.
pub const MICROS_PER_SECOND: u64 = 1_000_000;

/// Gate that limits how often a redraw may be triggered.
///
/// The limiter keeps a single "next allowed" schedule.  The first call to
/// [`FPSLimiter::check_allowed`] always succeeds; each later call succeeds
/// only when the given instant lies strictly past the stored schedule.  A
/// successful call reschedules relative to the call time, so a long quiet
/// period never earns a burst of catch-up redraws.  All instants are
/// microseconds on a monotone injected clock.
pub struct FPSLimiter {
    /// Length of one frame, in microseconds.
    pub refresh_rate: u64,
    /// Instants up to and including this one are refused; `None` before the
    /// first successful call.
    pub allowed_at: Option<u64>,
}

impl FPSLimiter {
    /// The frame length configured for a given maximum frame rate.
    pub open spec fn spec_period(max_fps: u32) -> int {
        1_000_000int / (max_fps as int)
    }

    /// The limiter never schedules further ahead than one full second.
    pub open spec fn wf(self) -> bool {
        self.refresh_rate <= MICROS_PER_SECOND
    }

    /// Whether a call at instant `now` would currently be permitted.
    pub open spec fn permits(self, now: u64) -> bool {
        match self.allowed_at {
            None => true,
            Some(at) => at < now,
        }
    }

    /// The limiter state after a permitted call at instant `now`.
    pub open spec fn rescheduled(self, now: u64) -> FPSLimiter {
        FPSLimiter { allowed_at: Some((now + self.refresh_rate) as u64), ..self }
    }

    /// A fresh limiter for a maximum of `max_fps` redraws per second.
    pub fn default(max_fps: u32) -> (limiter: FPSLimiter)
        requires
            max_fps > 0,
        ensures
            limiter.wf(),
            limiter.refresh_rate == Self::spec_period(max_fps),
            limiter.allowed_at is None,
    {
        let refresh_rate: u64 = MICROS_PER_SECOND / (max_fps as u64);
        FPSLimiter { refresh_rate, allowed_at: None }
    }

    /// Decide whether a redraw at instant `now` is permitted, and on
    /// success reschedule to `now` plus one frame length.  Refused calls
    /// leave the schedule untouched.  The inequality at the schedule
    /// boundary is strict: a call at exactly the stored instant is refused.
    pub fn check_allowed(&mut self, now: u64) -> (allowed: bool)
        requires
            old(self).wf(),
            now + old(self).refresh_rate <= u64::MAX,
        ensures
            final(self).wf(),
            allowed == old(self).permits(now),
            allowed ==> *final(self) == old(self).rescheduled(now),
            !allowed ==> *final(self) == *old(self),
    {
        match self.allowed_at {
            Some(allowed_at) => {
                if allowed_at >= now {
                    false
                } else {
                    self.allowed_at = Some(now + self.refresh_rate);
                    true
                }
            },
            None => {
                self.allowed_at = Some(now + self.refresh_rate);
                true
            },
        }
    }
}

/// Law: from a fresh limiter, an acquisition at `t0` succeeds; a second
/// attempt strictly less than one frame length later is refused; an attempt
/// strictly past `t0` plus one frame length succeeds again.
pub proof fn lemma_rate_limiter_schedule(limiter: FPSLimiter, t0: u64, early: u64, late: u64)
    requires
        limiter.allowed_at is None,
        early < limiter.refresh_rate,
        late >= 1,
        t0 + limiter.refresh_rate + late <= u64::MAX,
    ensures
        limiter.permits(t0),
        !limiter.rescheduled(t0).permits((t0 + early) as u64),
        limiter.rescheduled(t0).permits((t0 + limiter.refresh_rate + late) as u64),
{
}

} // verus!
