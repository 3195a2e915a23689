//! Frame timing: what an effect learns about time on each tick, the pacing of
//! a fixed-rate loop, and the measurement of the rate actually reached.
//!
//! Time is a count of nanoseconds on a monotonic clock that the caller reads.

use vstd::prelude::*;
use crate::error::EffectError;

verus! {

/// Nanoseconds in a second.
pub const SECOND: u64 = 1_000_000_000;

/// The longest step in time that an effect is shown: a tick that follows a
/// stall advances the animation by no more than a tenth of a second.
pub const MAX_DELTA: u64 = 100_000_000;

/// The width of the window over which the rate is measured.
pub const RATE_WINDOW: u64 = 2_000_000_000;

/// The timing of one tick.
#[derive(Clone, Copy, Debug, PartialEq, Eq, Structural)]
pub struct TimeInfo {
    /// Time since the domain was mounted.
    pub elapsed: u64,
    /// Time since the previous tick, at most [`MAX_DELTA`].
    pub delta: u64,
}

/// The time from `earlier` to `later`, zero if the clock went backwards.
pub open spec fn span(earlier: u64, later: u64) -> u64 {
    if later >= earlier {
        (later - earlier) as u64
    } else {
        0
    }
}

/// The time from `earlier` to `later`, zero if the clock went backwards.
pub fn span_between(earlier: u64, later: u64) -> (d: u64)
    ensures
        d == span(earlier, later),
{
    if later >= earlier {
        later - earlier
    } else {
        0
    }
}

impl TimeInfo {
    /// The step is within the cap.
    pub open spec fn wf(&self) -> bool {
        self.delta <= MAX_DELTA
    }

    /// The timing of a tick at `now` for a domain mounted at `mounted_at`
    /// whose previous tick, or mount, was at `previous`.
    pub open spec fn measured(mounted_at: u64, previous: u64, now: u64) -> TimeInfo {
        TimeInfo {
            elapsed: span(mounted_at, now),
            delta: if span(previous, now) > MAX_DELTA {
                MAX_DELTA
            } else {
                span(previous, now)
            },
        }
    }

    /// Measures a tick at `now`.
    pub fn measure(mounted_at: u64, previous: u64, now: u64) -> (t: TimeInfo)
        ensures
            t == Self::measured(mounted_at, previous, now),
            t.wf(),
    {
        let since: u64 = span_between(previous, now);
        TimeInfo {
            elapsed: span_between(mounted_at, now),
            delta: if since > MAX_DELTA {
                MAX_DELTA
            } else {
                since
            },
        }
    }
}

/// What the loop does after a tick.
#[derive(Clone, Copy, Debug, PartialEq, Eq, Structural)]
pub enum Pace {
    /// Wait this many nanoseconds, then tick again.
    Wait(u64),
    /// The tick took the whole interval or more: tick again at once.
    Proceed,
    /// The tick failed: leave the loop with this error.
    Stop(EffectError),
}

/// Paces a loop at a fixed number of ticks per second.
#[derive(Clone, Copy, Debug, PartialEq, Eq, Structural)]
pub struct Scheduler {
    interval: u64,
}

impl Scheduler {
    /// The time from the start of one tick to the start of the next.
    pub closed spec fn period(&self) -> u64 {
        self.interval
    }

    /// A scheduler for `hertz` ticks per second. There is none for zero.
    pub fn new(hertz: u32) -> (r: Option<Scheduler>)
        ensures
            hertz == 0 ==> r is None,
            hertz > 0 ==> r is Some && r->Some_0.period() == SECOND / (hertz as u64),
    {
        if hertz == 0 {
            None
        } else {
            Some(Scheduler { interval: SECOND / (hertz as u64) })
        }
    }

    /// The time from the start of one tick to the start of the next.
    pub fn interval(&self) -> (i: u64)
        ensures
            i == self.period(),
    {
        self.interval
    }

    /// What follows a tick that took `spent` nanoseconds and ended in
    /// `outcome`.
    pub open spec fn paced(period: u64, outcome: Result<(), EffectError>, spent: u64) -> Pace {
        match outcome {
            Err(e) => Pace::Stop(e),
            Ok(_) => if spent < period {
                Pace::Wait((period - spent) as u64)
            } else {
                Pace::Proceed
            },
        }
    }

    /// Decides what follows a tick: a failed tick ends the loop, a short one
    /// is followed by a wait for the rest of the interval, and one that
    /// overran is followed by the next at once, with nothing made up for.
    pub fn after_tick(&self, outcome: Result<(), EffectError>, spent: u64) -> (p: Pace)
        ensures
            p == Self::paced(self.period(), outcome, spent),
    {
        match outcome {
            Err(e) => Pace::Stop(e),
            Ok(_) => if spent < self.interval {
                Pace::Wait(self.interval - spent)
            } else {
                Pace::Proceed
            },
        }
    }
}

/// Counts ticks and reports the rate once per [`RATE_WINDOW`].
#[derive(Clone, Copy, Debug, PartialEq, Eq, Structural)]
pub struct RateMeter {
    pub updates: u64,
    pub window_start: u64,
}

impl RateMeter {
    /// A meter whose first window starts at `now`.
    pub fn new(now: u64) -> (m: RateMeter)
        ensures
            m == (RateMeter { updates: 0, window_start: now }),
    {
        RateMeter { updates: 0, window_start: now }
    }

    /// The meter after a tick at `now`, and the rate to report, in tenths of
    /// a hertz, if the window has passed.
    pub open spec fn ticked(self, now: u64) -> (RateMeter, Option<u64>) {
        let counted: u64 = if self.updates == u64::MAX {
            u64::MAX
        } else {
            (self.updates + 1) as u64
        };
        if span(self.window_start, now) > RATE_WINDOW {
            (
                RateMeter { updates: 0, window_start: now },
                Some(
                    if counted * 5 > u64::MAX {
                        u64::MAX
                    } else {
                        (counted * 5) as u64
                    },
                ),
            )
        } else {
            (RateMeter { updates: counted, window_start: self.window_start }, None)
        }
    }

    /// Counts one tick at `now`. When more than the window has passed since
    /// the window began, returns the ticks counted divided by the window's two
    /// seconds, in tenths of a hertz, and begins a new window.
    pub fn tick(&mut self, now: u64) -> (rate: Option<u64>)
        ensures
            (*final(self), rate) == old(self).ticked(now),
    {
        let counted: u64 = if self.updates == u64::MAX {
            u64::MAX
        } else {
            self.updates + 1
        };
        if span_between(self.window_start, now) > RATE_WINDOW {
            self.updates = 0;
            self.window_start = now;
            if counted > u64::MAX / 5 {
                Some(u64::MAX)
            } else {
                Some(counted * 5)
            }
        } else {
            self.updates = counted;
            None
        }
    }
}

} // verus!
