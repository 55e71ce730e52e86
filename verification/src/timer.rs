//! Timers, held as plain nanosecond counts and advanced by the engine's own
//! timer.

use bevy::time::{Timer, TimerMode};
use std::time::Duration;
use vstd::prelude::*;

verus! {

/// The nanoseconds that one frame of the player's animation is shown for.
pub const ANIMATION_PERIOD_NS: u64 = 100_000_000;

/// What one tick of the engine's timer left behind.
#[derive(Clone, Copy, Debug, PartialEq, Eq, Structural)]
pub struct TickOutcome {
    pub elapsed_ns: u64,
    pub finished: bool,
    pub just_finished: bool,
}

/// The state of a running, unfinished timer after `delta_ns` more
/// nanoseconds.
///
/// A one-shot timer stops at its duration. A repeating timer keeps the
/// remainder of the elapsed time by its duration; it reports the number of
/// periods that ended within the tick as a 32-bit count, and has "just
/// finished" when that count is not zero.
pub open spec fn spec_tick(repeating: bool, duration_ns: u64, elapsed_ns: u64, delta_ns: u64) -> TickOutcome {
    let total = elapsed_ns as int + delta_ns as int;
    let finished = total >= duration_ns;
    if !finished {
        TickOutcome { elapsed_ns: total as u64, finished: false, just_finished: false }
    } else if !repeating {
        TickOutcome { elapsed_ns: duration_ns, finished: true, just_finished: true }
    } else if duration_ns == 0 {
        TickOutcome { elapsed_ns: 0, finished: true, just_finished: true }
    } else {
        TickOutcome {
            elapsed_ns: (total % duration_ns as int) as u64,
            finished: true,
            just_finished: (total / duration_ns as int) % 0x1_0000_0000 != 0,
        }
    }
}

/// Runs `bevy::time::Timer::tick` on a timer made by `Timer::new` with the
/// given mode and duration and put at `elapsed_ns` by `Timer::set_elapsed`,
/// then reads back `Timer::elapsed`, `Timer::finished` and
/// `Timer::just_finished`.
///
/// Not proved, but taken from the engine's source: the tick of a running,
/// unfinished timer adds the delta to the elapsed time, marks the timer
/// finished when that reaches the duration, and then stops a one-shot timer
/// at its duration or keeps a repeating timer's remainder, as `spec_tick`
/// says. Times are carried as whole nanoseconds, which a `Duration` holds
/// without loss.
#[verifier::external_body]
fn engine_tick(repeating: bool, duration_ns: u64, elapsed_ns: u64, delta_ns: u64) -> (outcome: TickOutcome)
    ensures
        outcome == spec_tick(repeating, duration_ns, elapsed_ns, delta_ns),
{
    let mode = if repeating { TimerMode::Repeating } else { TimerMode::Once };
    let mut timer = Timer::new(Duration::from_nanos(duration_ns), mode);
    timer.set_elapsed(Duration::from_nanos(elapsed_ns));
    timer.tick(Duration::from_nanos(delta_ns));
    TickOutcome {
        elapsed_ns: timer.elapsed().as_nanos() as u64,
        finished: timer.finished(),
        just_finished: timer.just_finished(),
    }
}

/// A one-shot countdown: it runs until its duration has elapsed and then
/// stays finished until it is reset.
#[derive(Clone, Copy, Debug, PartialEq, Eq, Structural)]
pub struct Cooldown {
    pub duration_ns: u64,
    pub elapsed_ns: u64,
    pub finished: bool,
}

impl Cooldown {
    /// The elapsed time never passes the duration, and a finished countdown
    /// stands exactly at its duration.
    pub open spec fn wf(self) -> bool {
        &&& self.elapsed_ns <= self.duration_ns
        &&& self.finished ==> self.elapsed_ns == self.duration_ns
    }

    /// The countdown after `delta_ns` more nanoseconds.
    pub open spec fn spec_tick(self, delta_ns: u64) -> Cooldown {
        if self.elapsed_ns + delta_ns >= self.duration_ns {
            Cooldown { duration_ns: self.duration_ns, elapsed_ns: self.duration_ns, finished: true }
        } else {
            Cooldown {
                duration_ns: self.duration_ns,
                elapsed_ns: (self.elapsed_ns + delta_ns) as u64,
                finished: false,
            }
        }
    }

    /// The countdown set back to its start.
    pub open spec fn spec_reset(self) -> Cooldown {
        Cooldown { duration_ns: self.duration_ns, elapsed_ns: 0, finished: false }
    }

    /// Tests the countdown's invariant.
    pub fn is_wf(&self) -> (ok: bool)
        ensures
            ok == self.wf(),
    {
        self.elapsed_ns <= self.duration_ns && (!self.finished || self.elapsed_ns == self.duration_ns)
    }

    /// A fresh countdown of `duration_ns` nanoseconds.
    pub fn new(duration_ns: u64) -> (cooldown: Cooldown)
        ensures
            cooldown == (Cooldown { duration_ns, elapsed_ns: 0, finished: false }),
            cooldown.wf(),
    {
        Cooldown { duration_ns, elapsed_ns: 0, finished: false }
    }

    /// Lets `delta_ns` nanoseconds pass.
    pub fn tick(&mut self, delta_ns: u64)
        requires
            old(self).wf(),
        ensures
            *final(self) == old(self).spec_tick(delta_ns),
            final(self).wf(),
    {
        let outcome = engine_tick(false, self.duration_ns, self.elapsed_ns, delta_ns);
        self.elapsed_ns = outcome.elapsed_ns;
        self.finished = outcome.finished;
    }

    /// Whether the duration has elapsed.
    pub fn finished(&self) -> (done: bool)
        ensures
            done == self.finished,
    {
        self.finished
    }

    /// Starts the countdown anew.
    pub fn reset(&mut self)
        ensures
            *final(self) == old(self).spec_reset(),
            final(self).wf(),
    {
        self.elapsed_ns = 0;
        self.finished = false;
    }
}

/// A repeating timer that paces the sprite animation: each time it has
/// just finished (the 32-bit count of the periods that ended within a tick
/// is not zero) the visible frame advances.
#[derive(Clone, Copy, Debug, PartialEq, Eq, Structural)]
pub struct AnimationTimer {
    pub period_ns: u64,
    pub elapsed_ns: u64,
    pub just_finished: bool,
}

impl AnimationTimer {
    /// The timer after `delta_ns` more nanoseconds.
    pub open spec fn spec_tick(self, delta_ns: u64) -> AnimationTimer {
        let outcome = spec_tick(true, self.period_ns, self.elapsed_ns, delta_ns);
        AnimationTimer {
            period_ns: self.period_ns,
            elapsed_ns: outcome.elapsed_ns,
            just_finished: outcome.just_finished,
        }
    }

    /// A fresh repeating timer with a period of `period_ns` nanoseconds.
    pub fn new(period_ns: u64) -> (timer: AnimationTimer)
        ensures
            timer == (AnimationTimer { period_ns, elapsed_ns: 0, just_finished: false }),
    {
        AnimationTimer { period_ns, elapsed_ns: 0, just_finished: false }
    }

    /// Lets `delta_ns` nanoseconds pass.
    pub fn tick(&mut self, delta_ns: u64)
        ensures
            *final(self) == old(self).spec_tick(delta_ns),
    {
        let outcome = engine_tick(true, self.period_ns, self.elapsed_ns, delta_ns);
        self.elapsed_ns = outcome.elapsed_ns;
        self.just_finished = outcome.just_finished;
    }

    /// Whether the timer finished during the last tick: the 32-bit count of
    /// the periods that ended within it is not zero.
    pub fn just_finished(&self) -> (done: bool)
        ensures
            done == self.just_finished,
    {
        self.just_finished
    }
}

} // verus!
