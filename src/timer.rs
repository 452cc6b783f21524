//! A countdown timer advanced by the host's frame time.
//!
//! Times are whole milliseconds. A `Once` timer stops at its duration and
//! stays finished until it is reset; a `Repeating` timer wraps around and
//! reports how many times it completed during the last tick.
use vstd::prelude::*;

verus! {

#[derive(Debug, Clone, Copy, PartialEq, Eq, Structural)]
pub enum TimerMode {
    Once,
    Repeating,
}

#[derive(Debug, Clone, Copy)]
pub struct Timer {
    pub duration: u64,
    pub elapsed: u64,
    pub mode: TimerMode,
    pub finished: bool,
    pub times_finished_this_tick: u64,
}

/// The smaller of two integers.
pub open spec fn min_int(a: int, b: int) -> int {
    if a <= b {
        a
    } else {
        b
    }
}

impl Timer {
    pub open spec fn wf(&self) -> bool {
        &&& self.elapsed <= self.duration
        &&& self.mode == TimerMode::Repeating ==> self.elapsed < self.duration
        &&& (self.mode == TimerMode::Once && self.finished) ==> self.elapsed == self.duration
    }

    pub open spec fn remaining_spec(&self) -> nat {
        (self.duration - self.elapsed) as nat
    }

    /// The timer after `dt` more milliseconds have passed.
    pub open spec fn ticked(self, dt: nat) -> Timer {
        let e = self.elapsed + dt;
        match self.mode {
            TimerMode::Once => if self.finished {
                Timer { times_finished_this_tick: 0, ..self }
            } else if e >= self.duration {
                Timer { elapsed: self.duration, finished: true, times_finished_this_tick: 1, ..self }
            } else {
                Timer { elapsed: e as u64, finished: false, times_finished_this_tick: 0, ..self }
            },
            TimerMode::Repeating => if e >= self.duration {
                Timer {
                    elapsed: (e % (self.duration as int)) as u64,
                    finished: true,
                    times_finished_this_tick: min_int(e / (self.duration as int), u64::MAX as int) as u64,
                    ..self
                }
            } else {
                Timer { elapsed: e as u64, finished: false, times_finished_this_tick: 0, ..self }
            },
        }
    }

    pub open spec fn new_spec(duration: u64, mode: TimerMode) -> Timer {
        Timer { duration, elapsed: 0, mode, finished: false, times_finished_this_tick: 0 }
    }

    pub open spec fn reset_spec(self) -> Timer {
        Timer { elapsed: 0, finished: false, times_finished_this_tick: 0, ..self }
    }

    /// A stopped timer of `duration` milliseconds. A repeating timer needs a
    /// positive duration.
    pub fn new(duration: u64, mode: TimerMode) -> (r: Timer)
        requires
            mode == TimerMode::Repeating ==> duration > 0,
        ensures
            r.wf(),
            r == Timer::new_spec(duration, mode),
    {
        Timer { duration, elapsed: 0, mode, finished: false, times_finished_this_tick: 0 }
    }

    pub fn duration(&self) -> (r: u64)
        ensures
            r == self.duration,
    {
        self.duration
    }

    pub fn elapsed(&self) -> (r: u64)
        ensures
            r == self.elapsed,
    {
        self.elapsed
    }

    pub fn mode(&self) -> (r: TimerMode)
        ensures
            r == self.mode,
    {
        self.mode
    }

    pub fn finished(&self) -> (r: bool)
        ensures
            r == self.finished,
    {
        self.finished
    }

    pub fn times_finished_this_tick(&self) -> (r: u64)
        ensures
            r == self.times_finished_this_tick,
    {
        self.times_finished_this_tick
    }

    /// Milliseconds left before the timer finishes.
    pub fn remaining(&self) -> (r: u64)
        requires
            self.wf(),
        ensures
            r == self.remaining_spec(),
    {
        self.duration - self.elapsed
    }

    /// Advances the timer by `dt` milliseconds.
    pub fn tick(&mut self, dt: u64)
        requires
            old(self).wf(),
        ensures
            *final(self) == old(self).ticked(dt as nat),
            final(self).wf(),
    {
        let e: u128 = self.elapsed as u128 + dt as u128;
        match self.mode {
            TimerMode::Once => {
                if self.finished {
                    self.times_finished_this_tick = 0;
                } else if e >= self.duration as u128 {
                    self.elapsed = self.duration;
                    self.finished = true;
                    self.times_finished_this_tick = 1;
                } else {
                    self.elapsed = e as u64;
                    self.finished = false;
                    self.times_finished_this_tick = 0;
                }
            },
            TimerMode::Repeating => {
                if e >= self.duration as u128 {
                    let d: u128 = self.duration as u128;
                    let times: u128 = e / d;
                    self.elapsed = (e % d) as u64;
                    self.finished = true;
                    self.times_finished_this_tick = if times > u64::MAX as u128 {
                        u64::MAX
                    } else {
                        times as u64
                    };
                } else {
                    self.elapsed = e as u64;
                    self.finished = false;
                    self.times_finished_this_tick = 0;
                }
            },
        }
    }

    /// Restarts the timer from zero.
    pub fn reset(&mut self)
        requires
            old(self).wf(),
        ensures
            *final(self) == old(self).reset_spec(),
            final(self).wf(),
    {
        self.elapsed = 0;
        self.finished = false;
        self.times_finished_this_tick = 0;
    }

    /// Changes the duration; the elapsed time is kept, up to the new duration.
    pub fn set_duration(&mut self, duration: u64)
        requires
            old(self).wf(),
            old(self).mode == TimerMode::Once,
        ensures
            final(self).wf(),
            final(self).duration == duration,
            final(self).mode == TimerMode::Once,
            final(self).elapsed == min_int(old(self).elapsed as int, duration as int),
            final(self).finished == (old(self).finished && final(self).elapsed == duration),
            final(self).times_finished_this_tick == old(self).times_finished_this_tick,
    {
        self.duration = duration;
        if self.elapsed > duration {
            self.elapsed = duration;
        }
        if self.finished && self.elapsed != duration {
            self.finished = false;
        }
    }
}

} // verus!
