//! The timer that gates how often an attack may be fired.

use vstd::prelude::*;
use bevy::time::{Timer, TimerMode};

verus! {

/// Lets a run-once `bevy::time::Timer` of the given duration, with `elapsed`
/// nanoseconds behind it and not yet finished, tick by `delta`, and returns
/// the time it has run and whether it has finished. The contract states
/// what `Timer::tick` does to such a timer: the time run grows by `delta`;
/// once it reaches the duration the timer is finished and holds exactly the
/// duration.
#[verifier::external_body]
fn run_once(duration: u64, elapsed: u64, delta: u64) -> (after: (u64, bool))
    ensures
        after.1 == (elapsed + delta >= duration),
        after.0 == if elapsed + delta >= duration {
            duration
        } else {
            (elapsed + delta) as u64
        },
{
    let mut timer = Timer::new(std::time::Duration::from_nanos(duration), TimerMode::Once);
    timer.set_elapsed(std::time::Duration::from_nanos(elapsed));
    timer.tick(std::time::Duration::from_nanos(delta));
    (timer.elapsed().as_nanos() as u64, timer.finished())
}

/// A timer that runs once from zero to its duration and then reports that it
/// has finished, until it is reset. All times are in nanoseconds.
#[derive(Clone, Copy, Debug, PartialEq, Eq, Structural)]
pub struct Cooldown {
    pub duration: u64,
    pub elapsed: u64,
    pub finished: bool,
}

impl Cooldown {
    /// The time run is within the duration, and a finished timer has run all
    /// of it.
    pub open spec fn wf(self) -> bool {
        &&& self.elapsed <= self.duration
        &&& self.finished ==> self.elapsed == self.duration
    }

    /// A timer of the given duration that has not run yet.
    pub open spec fn fresh(duration: u64) -> Cooldown {
        Cooldown { duration, elapsed: 0, finished: false }
    }

    /// The timer after `delta` more nanoseconds. A finished timer stays as it
    /// is. Another one finishes once the time run reaches the duration, and
    /// then holds exactly the duration.
    pub open spec fn ticked(self, delta: u64) -> Cooldown {
        if self.finished {
            self
        } else if self.elapsed + delta >= self.duration {
            Cooldown { duration: self.duration, elapsed: self.duration, finished: true }
        } else {
            Cooldown { duration: self.duration, elapsed: (self.elapsed + delta) as u64, finished: false }
        }
    }

    /// The timer set back to the start.
    pub open spec fn restarted(self) -> Cooldown {
        Cooldown { duration: self.duration, elapsed: 0, finished: false }
    }

    /// Makes a timer of the given duration that has not run yet.
    pub fn new(duration: u64) -> (timer: Self)
        ensures
            timer == Cooldown::fresh(duration),
            timer.wf(),
    {
        Cooldown { duration, elapsed: 0, finished: false }
    }

    /// Lets `delta` nanoseconds pass.
    pub fn tick(&mut self, delta: u64)
        ensures
            *final(self) == old(self).ticked(delta),
            old(self).wf() ==> final(self).wf(),
    {
        if self.finished {
            return ;
        }
        let (elapsed, finished) = run_once(self.duration, self.elapsed, delta);
        self.elapsed = elapsed;
        self.finished = finished;
    }

    /// Whether the timer has run its duration.
    pub fn finished(&self) -> (done: bool)
        ensures
            done == self.finished,
    {
        self.finished
    }

    /// Sets the timer back to the start.
    pub fn reset(&mut self)
        ensures
            *final(self) == old(self).restarted(),
            final(self).wf(),
    {
        self.elapsed = 0;
        self.finished = false;
    }

    /// The time still to run before the timer finishes.
    pub open spec fn remaining(self) -> int {
        if self.finished {
            0
        } else {
            self.duration - self.elapsed
        }
    }

    /// Ticks add up: as long as the timer is not reset, two ticks leave it as
    /// one tick of their sum does, also where that sum is past the `u64`
    /// range and by then past any duration.
    pub proof fn lemma_ticks_add(self, first: u64, second: u64)
        ensures
            first + second <= u64::MAX ==> self.ticked(first).ticked(second) == self.ticked((first + second) as u64),
            first + second > u64::MAX ==> self.ticked(first).ticked(second).finished,
    {
    }

    /// A timer that is not finished finishes with the tick that brings the
    /// time run up to the duration, and with no shorter one.
    pub proof fn lemma_finishes_in_time(self, delta: u64)
        requires
            !self.finished,
        ensures
            self.ticked(delta).finished <==> delta >= self.remaining(),
    {
    }

    /// After a reset the timer is not finished, whatever it was, and finishes
    /// exactly when its whole duration has passed. A timer of duration zero
    /// is finished by its first tick.
    pub proof fn lemma_reset_then_wait(self, delta: u64)
        ensures
            !self.restarted().finished,
            self.restarted().ticked(delta).finished <==> delta >= self.duration,
    {
    }
}

} // verus!
