//! A one-shot countdown measured in nanoseconds.
use vstd::prelude::*;

verus! {

/// Tracks elapsed time against a fixed duration; finished once the elapsed
/// time reaches the duration, and stays there until reset.
#[derive(Clone, Copy, Debug, PartialEq, Eq, Structural)]
pub struct OneShotTimer {
    pub duration: u64,
    pub elapsed: u64,
}

impl OneShotTimer {
    /// The elapsed time never passes the duration.
    pub open spec fn wf(self) -> bool {
        self.elapsed <= self.duration
    }

    pub open spec fn is_finished(self) -> bool {
        self.elapsed >= self.duration
    }

    /// The timer after `delta` more nanoseconds: the elapsed time stops at the duration.
    pub open spec fn ticked(self, delta: u64) -> OneShotTimer {
        OneShotTimer {
            duration: self.duration,
            elapsed: if self.elapsed + delta >= self.duration {
                self.duration
            } else {
                (self.elapsed + delta) as u64
            },
        }
    }

    /// A timer of `duration` nanoseconds with nothing elapsed.
    pub fn from_nanos(duration: u64) -> (t: OneShotTimer)
        ensures
            t == (OneShotTimer { duration, elapsed: 0 }),
            t.wf(),
    {
        OneShotTimer { duration, elapsed: 0 }
    }

    pub fn finished(&self) -> (r: bool)
        ensures
            r == self.is_finished(),
    {
        self.elapsed >= self.duration
    }

    /// Advances the timer by `delta` nanoseconds.
    pub fn tick(&mut self, delta: u64)
        requires
            old(self).wf(),
        ensures
            *final(self) == old(self).ticked(delta),
            final(self).wf(),
    {
        if delta >= self.duration - self.elapsed {
            self.elapsed = self.duration;
        } else {
            self.elapsed = self.elapsed + delta;
        }
    }

    /// Sets the elapsed time back to zero; the duration is kept.
    pub fn reset(&mut self)
        ensures
            *final(self) == (OneShotTimer { duration: old(self).duration, elapsed: 0 }),
    {
        self.elapsed = 0;
    }
}

} // verus!
