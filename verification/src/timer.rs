//! Repeating / one-shot countdown timers, the clock abstraction used by every
//! timed subsystem (spawn cadence, animation frames, transient effects, the
//! refire cooldown). Durations and deltas are in milliseconds.

use vstd::prelude::*;

verus! {

/// Longest duration and longest per-tick delta a timer accepts, in ms.
pub const MAX_TIMER_MS: u32 = 1_000_000_000;

#[derive(Clone, Copy, PartialEq, Eq, Structural, Debug)]
pub enum TimerMode {
    /// Runs to its duration once and stays finished until reset.
    Once,
    /// Fires each time the accumulated delta crosses the duration, keeping
    /// the overshoot.
    Repeating,
}

/// A countdown over milliseconds.
///
/// `elapsed_ms` accumulates ticked time; in `Once` mode it is clamped to the
/// duration, in `Repeating` mode it wraps modulo the duration each time the
/// timer fires. `just_finished` reports whether the most recent `tick` call
/// crossed the duration.
#[derive(Clone, Copy, PartialEq, Eq, Structural, Debug)]
pub struct Timer {
    pub mode: TimerMode,
    pub duration_ms: u32,
    pub elapsed_ms: u32,
    pub just_finished: bool,
}

impl Timer {
    /// Validity: a positive, bounded duration, and accumulated time within it.
    pub open spec fn wf(self) -> bool {
        &&& 0 < self.duration_ms <= MAX_TIMER_MS
        &&& self.elapsed_ms <= self.duration_ms
        &&& (self.mode is Repeating ==> self.elapsed_ms < self.duration_ms)
    }

    /// A one-shot timer is finished once it has accumulated its duration.
    pub open spec fn spec_finished(self) -> bool {
        self.elapsed_ms >= self.duration_ms
    }

    /// The timer after advancing by `delta` milliseconds; `tick` computes
    /// exactly this.
    pub open spec fn spec_tick(self, delta: int) -> Timer {
        match self.mode {
            TimerMode::Once => {
                let e = if self.elapsed_ms + delta <= self.duration_ms {
                    self.elapsed_ms + delta
                } else {
                    self.duration_ms as int
                };
                Timer {
                    elapsed_ms: e as u32,
                    just_finished: !self.spec_finished() && e >= self.duration_ms,
                    ..self
                }
            }
            TimerMode::Repeating => {
                let total = self.elapsed_ms + delta;
                Timer {
                    elapsed_ms: (total % (self.duration_ms as int)) as u32,
                    just_finished: total >= self.duration_ms,
                    ..self
                }
            }
        }
    }

    /// The timer wound back to the start; `reset` computes exactly this.
    pub open spec fn spec_reset(self) -> Timer {
        Timer { elapsed_ms: 0, just_finished: false, ..self }
    }

    pub fn new(duration_ms: u32, mode: TimerMode) -> (t: Timer)
        requires
            0 < duration_ms <= MAX_TIMER_MS,
        ensures
            t.wf(),
            t.mode == mode,
            t.duration_ms == duration_ms,
            t.elapsed_ms == 0,
            !t.just_finished,
    {
        Timer { mode, duration_ms, elapsed_ms: 0, just_finished: false }
    }

    /// A fresh repeating timer, for speaking about one in contracts.
    pub open spec fn repeating_spec(duration_ms: u32) -> Timer {
        Timer {
            mode: TimerMode::Repeating,
            duration_ms,
            elapsed_ms: 0,
            just_finished: false,
        }
    }

    /// A repeating timer, as every subsystem with a cadence uses one.
    pub fn repeating(duration_ms: u32) -> (t: Timer)
        requires
            0 < duration_ms <= MAX_TIMER_MS,
        ensures
            t == Timer::repeating_spec(duration_ms),
            t.wf(),
    {
        Timer::new(duration_ms, TimerMode::Repeating)
    }

    /// Advances the timer by `delta_ms`.
    ///
    /// In `Once` mode the accumulated time saturates at the duration and the
    /// timer reports `just_finished` only on the call that reaches it. In
    /// `Repeating` mode, crossing the duration fires the timer and keeps the
    /// overshoot modulo the duration, so at most one firing is reported per
    /// tick however large the delta.
    pub fn tick(&mut self, delta_ms: u32)
        requires
            old(self).wf(),
            delta_ms <= MAX_TIMER_MS,
        ensures
            final(self).wf(),
            *final(self) == old(self).spec_tick(delta_ms as int),
    {
        match self.mode {
            TimerMode::Once => {
                let was_finished = self.elapsed_ms >= self.duration_ms;
                if delta_ms <= self.duration_ms - self.elapsed_ms {
                    self.elapsed_ms = self.elapsed_ms + delta_ms;
                } else {
                    self.elapsed_ms = self.duration_ms;
                }
                self.just_finished = !was_finished && self.elapsed_ms >= self.duration_ms;
            }
            TimerMode::Repeating => {
                let total: u32 = self.elapsed_ms + delta_ms;
                if total >= self.duration_ms {
                    self.just_finished = true;
                    self.elapsed_ms = total % self.duration_ms;
                } else {
                    self.just_finished = false;
                    self.elapsed_ms = total;
                    proof {
                        vstd::arithmetic::div_mod::lemma_small_mod(
                            total as nat,
                            self.duration_ms as nat,
                        );
                    }
                }
            }
        }
    }

    /// Whether a one-shot timer has run out (for `Repeating` this is never
    /// observable: the accumulated time wraps below the duration).
    pub fn finished(&self) -> (r: bool)
        ensures
            r == self.spec_finished(),
    {
        self.elapsed_ms >= self.duration_ms
    }

    /// Starts the countdown over.
    pub fn reset(&mut self)
        requires
            old(self).wf(),
        ensures
            final(self).wf(),
            *final(self) == old(self).spec_reset(),
    {
        self.elapsed_ms = 0;
        self.just_finished = false;
    }
}

} // verus!
