//! Time in milliseconds, and a timer on it.

use vstd::prelude::*;

verus! {

/// A point in time, in milliseconds since the launcher started.
#[derive(Clone, Copy, Debug, PartialEq, Eq, Structural)]
pub struct TimeMilliseconds(pub u32);

impl TimeMilliseconds {
    /// The point in time `milliseconds` after the start.
    pub fn new(milliseconds: u32) -> (time: TimeMilliseconds)
        ensures
            time.0 == milliseconds,
    {
        TimeMilliseconds(milliseconds)
    }

    /// The milliseconds since the start.
    pub fn milliseconds(&self) -> (milliseconds: u32)
        ensures
            milliseconds == self.0,
    {
        self.0
    }
}

/// The milliseconds from `start` to `now`; none where `now` is not after
/// `start`.
pub open spec fn elapsed(start: u32, now: u32) -> int {
    if now >= start {
        now - start
    } else {
        0
    }
}

/// A timer that tells when a span of time has passed since it was last
/// reset.
#[derive(Clone, Copy, Debug)]
pub struct Timer {
    start: u32,
}

impl View for Timer {
    type V = u32;

    /// The time of the last reset.
    closed spec fn view(&self) -> u32 {
        self.start
    }
}

impl Timer {
    /// A timer that was reset at the start of time.
    pub fn new() -> (timer: Timer)
        ensures
            timer@ == 0,
    {
        Timer { start: 0 }
    }

    /// Resets the timer at `current_time`.
    pub fn reset(&mut self, current_time: &TimeMilliseconds)
        ensures
            final(self)@ == current_time.0,
    {
        self.start = current_time.0;
    }

    /// Tells whether at least `timer_reset_milliseconds` have passed since
    /// the last reset, and if so resets the timer at `current_time`.
    pub fn check(&mut self, current_time: &TimeMilliseconds, timer_reset_milliseconds: u32) -> (passed:
        bool)
        ensures
            passed == (elapsed(old(self)@, current_time.0) >= timer_reset_milliseconds),
            final(self)@ == (if passed {
                current_time.0
            } else {
                old(self)@
            }),
    {
        let now = current_time.0;
        let since: u32 = if now >= self.start {
            now - self.start
        } else {
            0
        };
        if since >= timer_reset_milliseconds {
            self.start = now;
            true
        } else {
            false
        }
    }
}

} // verus!
