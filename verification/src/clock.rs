//! Tick timing.
//!
//! Times are nanoseconds on a clock that never runs backwards. The library
//! does not read the clock: the caller hands each reading in.

use vstd::prelude::*;

verus! {

/// The time left of a tick interval of which `elapsed` has passed: the
/// difference, or nothing if the interval is over.
pub open spec fn time_left(interval: int, elapsed: int) -> int {
    if interval - elapsed > 0 {
        interval - elapsed
    } else {
        0
    }
}

/// How long to wait for input when `elapsed` of the tick interval has passed.
pub fn remaining(interval: u128, elapsed: u128) -> (wait: u128)
    ensures
        wait == time_left(interval as int, elapsed as int),
{
    match interval.checked_sub(elapsed) {
        Some(left) => left,
        None => 0,
    }
}

/// The fixed tick interval and the time of the last tick.
#[derive(Clone, Copy, Debug, PartialEq, Eq)]
pub struct TickClock {
    pub interval: u128,
    pub last_tick: u128,
}

impl TickClock {
    /// The time since the last tick, as seen at `now`. A reading from before
    /// the last tick counts as no time at all.
    pub open spec fn elapsed_at(self, now: u128) -> int {
        if now >= self.last_tick {
            now - self.last_tick
        } else {
            0
        }
    }

    /// How long a wait for input that starts at `now` may last.
    pub open spec fn timeout_at(self, now: u128) -> int {
        time_left(self.interval as int, self.elapsed_at(now))
    }

    /// Whether a whole interval has passed since the last tick.
    pub open spec fn due_at(self, now: u128) -> bool {
        self.elapsed_at(now) >= self.interval
    }

    /// A clock whose last tick was at `now`.
    pub fn started(interval: u128, now: u128) -> (clock: TickClock)
        ensures
            clock == (TickClock { interval, last_tick: now }),
    {
        TickClock { interval, last_tick: now }
    }

    pub fn elapsed(&self, now: u128) -> (passed: u128)
        ensures
            passed == self.elapsed_at(now),
    {
        now.saturating_sub(self.last_tick)
    }

    /// The longest wait for input that does not delay the next tick.
    pub fn poll_timeout(&self, now: u128) -> (wait: u128)
        ensures
            wait == self.timeout_at(now),
            wait == time_left(self.interval as int, self.elapsed_at(now)),
            wait <= self.interval,
    {
        remaining(self.interval, self.elapsed(now))
    }

    pub fn is_due(&self, now: u128) -> (due: bool)
        ensures
            due == self.due_at(now),
    {
        self.elapsed(now) >= self.interval
    }

    /// Records a tick at `now`.
    pub fn restart(&mut self, now: u128)
        ensures
            *final(self) == (TickClock { interval: old(self).interval, last_tick: now }),
    {
        self.last_tick = now;
    }
}

} // verus!
