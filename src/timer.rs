//! Countdown timers and stopwatches measured in whole nanoseconds.
use vstd::prelude::*;

verus! {

/// Whether a timer stops when it first runs out or starts over.
#[derive(Clone, Copy, Debug, PartialEq, Eq, Structural)]
pub enum TimerMode {
    Once,
    Repeating,
}

/// A fresh one-shot countdown of `duration` nanoseconds.
pub open spec fn once_timer(duration: u64) -> Timer {
    Timer { duration, elapsed: 0, mode: TimerMode::Once, finished: false }
}

/// A countdown of `duration` nanoseconds that is advanced frame by frame.
#[derive(Clone, Copy, Debug)]
pub struct Timer {
    pub duration: u64,
    pub elapsed: u64,
    pub mode: TimerMode,
    pub finished: bool,
}

impl Timer {
    /// Elapsed time never passes the duration, and a repeating timer with a
    /// duration stays below it.
    pub open spec fn wf(self) -> bool {
        &&& self.elapsed <= self.duration
        &&& self.mode == TimerMode::Repeating && self.duration > 0 ==> self.elapsed < self.duration
    }

    /// The timer after `delta` more nanoseconds: a finished one-shot timer
    /// stays as it is; otherwise the time is added, a one-shot timer stops at
    /// its duration and a repeating one wraps around it. A repeating timer of
    /// zero length finishes on every tick and stays at zero.
    pub open spec fn ticked(self, delta: u64) -> Timer {
        let total = self.elapsed + delta;
        if self.mode == TimerMode::Once && self.finished {
            self
        } else if self.mode == TimerMode::Once {
            Timer {
                elapsed: if total >= self.duration { self.duration } else { total as u64 },
                finished: total >= self.duration,
                ..self
            }
        } else {
            Timer {
                elapsed: if self.duration == 0 {
                    0
                } else {
                    (total % (self.duration as int)) as u64
                },
                finished: total >= self.duration,
                ..self
            }
        }
    }

    pub fn new(duration: u64, mode: TimerMode) -> (r: Timer)
        ensures
            r.wf(),
            r.duration == duration,
            r.mode == mode,
            r.elapsed == 0,
            !r.finished,
    {
        Timer { duration, elapsed: 0, mode, finished: false }
    }

    /// Advances the timer by `delta` nanoseconds.
    pub fn tick(&mut self, delta: u64)
        requires
            old(self).wf(),
        ensures
            final(self).wf(),
            *final(self) == old(self).ticked(delta),
    {
        if self.mode == TimerMode::Once && self.finished {
            return;
        }
        let total: u128 = self.elapsed as u128 + delta as u128;
        let duration: u128 = self.duration as u128;
        self.finished = total >= duration;
        match self.mode {
            TimerMode::Once => {
                if total >= duration {
                    self.elapsed = self.duration;
                } else {
                    self.elapsed = total as u64;
                }
            },
            TimerMode::Repeating => {
                if duration == 0 {
                    self.elapsed = 0;
                } else {
                    let rest: u128 = total % duration;
                    self.elapsed = rest as u64;
                }
            },
        }
    }

    pub fn finished(&self) -> (r: bool)
        ensures
            r == self.finished,
    {
        self.finished
    }

    pub fn elapsed(&self) -> (r: u64)
        ensures
            r == self.elapsed,
    {
        self.elapsed
    }
}

/// Counts the nanoseconds that pass while it is not paused.
#[derive(Clone, Copy, Debug)]
pub struct Stopwatch {
    pub elapsed: u64,
    pub paused: bool,
}

impl Stopwatch {
    pub fn new() -> (r: Stopwatch)
        ensures
            r.elapsed == 0,
            !r.paused,
    {
        Stopwatch { elapsed: 0, paused: false }
    }

    /// Adds `delta` nanoseconds unless the stopwatch is paused.
    pub fn tick(&mut self, delta: u64)
        requires
            old(self).elapsed + delta <= u64::MAX,
        ensures
            final(self).paused == old(self).paused,
            final(self).elapsed == if old(self).paused {
                old(self).elapsed as int
            } else {
                old(self).elapsed + delta
            },
    {
        if !self.paused {
            self.elapsed = self.elapsed + delta;
        }
    }

    pub fn pause(&mut self)
        ensures
            *final(self) == (Stopwatch { paused: true, ..*old(self) }),
    {
        self.paused = true;
    }

    pub fn unpause(&mut self)
        ensures
            *final(self) == (Stopwatch { paused: false, ..*old(self) }),
    {
        self.paused = false;
    }

    pub fn reset(&mut self)
        ensures
            *final(self) == (Stopwatch { elapsed: 0, ..*old(self) }),
    {
        self.elapsed = 0;
    }

    pub fn elapsed(&self) -> (r: u64)
        ensures
            r == self.elapsed,
    {
        self.elapsed
    }
}

/// Ticking keeps a timer well formed, and a one-shot timer that has run
/// out stays as it is.
pub proof fn lemma_ticked_wf(t: Timer, delta: u64)
    requires
        t.wf(),
    ensures
        t.ticked(delta).wf(),
        t.mode == TimerMode::Once && t.finished ==> t.ticked(delta) == t,
{
}

} // verus!
