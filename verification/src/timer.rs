use vstd::prelude::*;

verus! {

/// How a timer behaves once its duration is reached.
#[derive(Clone, Copy, Debug, PartialEq, Eq, Structural)]
pub enum TimerMode {
    /// Stops at its duration and stays finished until reset.
    Once,
    /// Starts over, keeping the time past the duration.
    Repeating,
}

/// A tick of `delta` brings `elapsed` up to the duration.
pub open spec fn reaches(elapsed: u64, delta: u64, duration: u64) -> bool {
    elapsed + delta >= duration
}

/// Elapsed time after a tick of an engine timer, for a once-timer that was
/// not yet finished or for a repeating timer.
pub open spec fn ticked_elapsed(mode: TimerMode, duration: u64, elapsed: u64, delta: u64) -> u64 {
    match mode {
        TimerMode::Once => if elapsed + delta >= duration { duration } else { (elapsed + delta) as u64 },
        TimerMode::Repeating => if duration > 0 { ((elapsed + delta) % (duration as int)) as u64 } else { 0 },
    }
}

/// Whether an engine timer reports that it finished during the tick. A
/// repeating timer counts how many whole durations passed in a 32-bit
/// counter, and reports a finish when that counter is not zero.
pub open spec fn ticked_just_finished(mode: TimerMode, duration: u64, elapsed: u64, delta: u64) -> bool {
    match mode {
        TimerMode::Once => elapsed + delta >= duration,
        TimerMode::Repeating => if duration > 0 {
            ((elapsed + delta) / (duration as int)) % 0x1_0000_0000 != 0
        } else {
            true
        },
    }
}

/// Ticks a `bevy::time::Timer` of the given mode and duration, whose
/// elapsed time is `elapsed_nanos`, by `delta_nanos`, and returns its new
/// elapsed time and whether it just finished. The timer is not paused and,
/// in once mode, not yet finished. In bevy's source a once timer clamps its
/// elapsed time to the duration and finishes when it reaches it; a
/// repeating timer keeps the remainder of the elapsed time by the duration
/// (zero for a zero duration) and reports a finish when the quotient, cut
/// to 32 bits, is not zero (always for a zero duration).
#[verifier::external_body]
fn engine_timer_tick(mode: TimerMode, duration_nanos: u64, elapsed_nanos: u64, delta_nanos: u64) -> (r: (u64, bool))
    requires
        elapsed_nanos + delta_nanos <= u64::MAX,
    ensures
        r.0 == ticked_elapsed(mode, duration_nanos, elapsed_nanos, delta_nanos),
        r.1 == ticked_just_finished(mode, duration_nanos, elapsed_nanos, delta_nanos),
{
    let engine_mode = match mode {
        TimerMode::Once => bevy::time::TimerMode::Once,
        TimerMode::Repeating => bevy::time::TimerMode::Repeating,
    };
    let mut timer = bevy::time::Timer::new(std::time::Duration::from_nanos(duration_nanos), engine_mode);
    timer.set_elapsed(std::time::Duration::from_nanos(elapsed_nanos));
    timer.tick(std::time::Duration::from_nanos(delta_nanos));
    (timer.elapsed().as_nanos() as u64, timer.just_finished())
}

/// A countdown driven by frame times, in nanoseconds.
#[derive(Clone, Copy, Debug, PartialEq, Eq, Structural)]
pub struct GameTimer {
    pub mode: TimerMode,
    pub duration_nanos: u64,
    pub elapsed_nanos: u64,
    /// The duration was reached (for a repeating timer: in the last tick).
    pub finished: bool,
    /// The duration was reached in the last tick.
    pub just_finished: bool,
}

/// Nanoseconds in a millisecond.
pub const NANOS_PER_MILLI: u64 = 1_000_000;

impl GameTimer {
    /// A fresh timer of `duration_millis` milliseconds.
    pub fn from_millis(duration_millis: u64, mode: TimerMode) -> (t: GameTimer)
        requires
            duration_millis * NANOS_PER_MILLI <= u64::MAX,
        ensures
            t == (GameTimer {
                mode,
                duration_nanos: (duration_millis * NANOS_PER_MILLI) as u64,
                elapsed_nanos: 0,
                finished: false,
                just_finished: false,
            }),
    {
        GameTimer {
            mode,
            duration_nanos: duration_millis * NANOS_PER_MILLI,
            elapsed_nanos: 0,
            finished: false,
            just_finished: false,
        }
    }

    /// The timer after `delta` more nanoseconds: a finished once-timer
    /// stays as it is (and did not just finish); otherwise the engine's
    /// timer rule applies.
    pub open spec fn spec_tick(self, delta: u64) -> GameTimer {
        if self.mode == TimerMode::Once && self.finished {
            GameTimer { just_finished: false, ..self }
        } else {
            let just = ticked_just_finished(self.mode, self.duration_nanos, self.elapsed_nanos, delta);
            GameTimer {
                elapsed_nanos: ticked_elapsed(self.mode, self.duration_nanos, self.elapsed_nanos, delta),
                finished: reaches(self.elapsed_nanos, delta, self.duration_nanos),
                just_finished: just,
                ..self
            }
        }
    }

    /// A tick of `delta` nanoseconds keeps the elapsed time within the
    /// nanosecond counter; a finished once-timer does not count at all.
    pub open spec fn fits_tick(self, delta: u64) -> bool {
        !(self.mode == TimerMode::Once && self.finished) ==> self.elapsed_nanos + delta <= u64::MAX
    }

    /// Advances the timer by `delta_nanos`.
    pub fn tick(&mut self, delta_nanos: u64)
        requires
            old(self).fits_tick(delta_nanos),
        ensures
            *final(self) == old(self).spec_tick(delta_nanos),
    {
        if self.mode == TimerMode::Once && self.finished {
            self.just_finished = false;
            return;
        }
        let reached = self.elapsed_nanos + delta_nanos >= self.duration_nanos;
        let (elapsed, just) = engine_timer_tick(self.mode, self.duration_nanos, self.elapsed_nanos, delta_nanos);
        self.elapsed_nanos = elapsed;
        self.finished = reached;
        self.just_finished = just;
    }

    /// Starts the timer over.
    pub fn reset(&mut self)
        ensures
            *final(self) == (GameTimer { elapsed_nanos: 0, finished: false, just_finished: false, ..*old(self) }),
    {
        self.elapsed_nanos = 0;
        self.finished = false;
        self.just_finished = false;
    }
}

} // verus!
