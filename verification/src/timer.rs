//! Cooldowns: counters that add up the time of each tick until an interval
//! has passed.

use vstd::prelude::*;

verus! {

/// Counts time up to `duration`, and stays finished until it is reset.
#[derive(Clone, Copy, Debug, PartialEq, Eq, Structural)]
pub struct Timer {
    /// The time counted so far, never more than `duration`.
    pub elapsed: u32,
    /// The interval.
    pub duration: u32,
    /// The interval has passed.
    pub finished: bool,
}

impl Timer {
    /// This timer after `delta` more units of time.
    pub open spec fn ticked(self, delta: u32) -> Timer {
        let elapsed = if self.elapsed + delta >= self.duration {
            self.duration
        } else {
            (self.elapsed + delta) as u32
        };
        Timer { elapsed, duration: self.duration, finished: elapsed >= self.duration }
    }

    /// This timer, started anew.
    pub open spec fn restarted(self) -> Timer {
        Timer { elapsed: 0, duration: self.duration, finished: false }
    }

    /// A timer for the interval `duration` that has counted nothing yet.
    pub fn new(duration: u32) -> (timer: Timer)
        ensures
            timer == (Timer { elapsed: 0, duration, finished: false }),
    {
        Timer { elapsed: 0, duration, finished: false }
    }

    /// Counts `delta` more units of time. The timer is finished as soon as
    /// the time counted reaches the interval, and counts no further.
    pub fn tick(&mut self, delta: u32)
        ensures
            *final(self) == old(self).ticked(delta),
    {
        let sum: u64 = self.elapsed as u64 + delta as u64;
        if sum >= self.duration as u64 {
            self.elapsed = self.duration;
        } else {
            self.elapsed = sum as u32;
        }
        self.finished = self.elapsed >= self.duration;
    }

    /// Starts the timer anew.
    pub fn reset(&mut self)
        ensures
            *final(self) == old(self).restarted(),
    {
        self.finished = false;
        self.elapsed = 0;
    }
}

/// A timer is finished after a run of ticks as soon as the time they add up
/// to, on top of the time counted before, reaches the interval.
pub proof fn lemma_ticks_add_up(timer: Timer, first: u32, second: u32)
    requires
        timer.elapsed <= timer.duration,
    ensures
        timer.ticked(first).ticked(second).finished == (timer.elapsed + first + second
            >= timer.duration),
        timer.ticked(first).ticked(second).elapsed <= timer.duration,
        first + second <= u32::MAX ==> timer.ticked(first).ticked(second) == timer.ticked(
            (first + second) as u32,
        ),
{
}

} // verus!
