//! Animation timing.
//!
//! Time is measured in nanoseconds of a monotonic clock.
use vstd::prelude::*;

verus! {

/// The share of an animation that has run: `elapsed / duration`.
#[derive(Clone, Copy, Debug, PartialEq, Eq, Structural)]
pub struct Progress {
    pub elapsed: u64,
    pub duration: u64,
}

impl Progress {
    /// A share between zero and one.
    pub open spec fn well_formed(self) -> bool {
        0 < self.duration && self.elapsed <= self.duration
    }

    /// Whether the share is one.
    pub open spec fn finished(self) -> bool {
        self.elapsed == self.duration
    }

    pub fn is_finished(&self) -> (finished: bool)
        ensures
            finished == self.finished(),
    {
        self.elapsed == self.duration
    }
}

/// How long an animation that began at `start_time` has been running at `now`.
/// A `now` before the start counts as no time at all.
pub open spec fn elapsed_at(start_time: u64, now: u64) -> int {
    if now >= start_time {
        now - start_time
    } else {
        0
    }
}

/// The share of an animation that has run at `now`. A finished animation (a
/// zero duration counts as finished at once) has run in full; one whose `now`
/// precedes its start has not run at all.
pub open spec fn progress_at(start_time: u64, duration: u64, now: u64) -> Progress {
    if elapsed_at(start_time, now) >= duration {
        Progress { elapsed: 1, duration: 1 }
    } else {
        Progress { elapsed: elapsed_at(start_time, now) as u64, duration }
    }
}

/// Calculates the animation progress at an explicit `now`.
///
/// Callers may supply a predicted timestamp, which on the first frame can
/// precede `start_time`.
pub fn animation_progress_at(start_time: u64, duration: u64, now: u64) -> (progress: Progress)
    ensures
        progress == progress_at(start_time, duration, now),
        progress.well_formed(),
        progress.finished() <==> elapsed_at(start_time, now) >= duration,
{
    let elapsed: u64 = now.saturating_sub(start_time);
    if elapsed >= duration {
        return Progress { elapsed: 1, duration: 1 };
    }
    Progress { elapsed, duration }
}

/// An animation never runs backwards: its share at a later instant is at least
/// its share at an earlier one.
pub proof fn law_progress_is_monotone(start_time: u64, duration: u64, earlier: u64, later: u64)
    requires
        earlier <= later,
    ensures
        ({
            let first = progress_at(start_time, duration, earlier);
            let second = progress_at(start_time, duration, later);
            first.elapsed * second.duration <= second.elapsed * first.duration
        }),
{
    let first = progress_at(start_time, duration, earlier);
    let second = progress_at(start_time, duration, later);
    if elapsed_at(start_time, later) < duration {
        assert(first.elapsed * second.duration <= second.elapsed * first.duration)
            by (nonlinear_arith)
            requires
                first.elapsed <= second.elapsed,
                first.duration == second.duration,
        ;
    } else {
        assert(first.elapsed * second.duration <= second.elapsed * first.duration)
            by (nonlinear_arith)
            requires
                first.elapsed <= first.duration,
                second.elapsed == second.duration,
        ;
    }
}

/// The share that has run is the time since the start over the duration. It is
/// one exactly once the duration is over.
pub proof fn law_progress_is_the_time_that_has_run(start_time: u64, duration: u64, now: u64)
    ensures
        ({
            let progress = progress_at(start_time, duration, now);
            &&& 0 < progress.duration
            &&& progress.elapsed == progress.duration <==> duration == 0 || now >= start_time
                + duration
            &&& start_time <= now < start_time + duration ==> progress.elapsed * duration == (now
                - start_time) * progress.duration
            &&& now < start_time && 0 < duration ==> progress.elapsed == 0
        }),
{
}

} // verus!
