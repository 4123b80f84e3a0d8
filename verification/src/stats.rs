//! The progression feedback loop: score rises on agent kills, hearts fall on
//! agent escapes, and a difficulty multiplier is recomputed from the score by
//! a step function. The multiplier is a fixed-point scalar in hundredths
//! (100 stands for 1.0).

use vstd::prelude::*;

verus! {

pub const INITIAL_HEART_COUNT: u8 = 5;

/// Score awarded per agent killed by a projectile.
pub const KILL_REWARD: u64 = 5;

/// Multiplier value at the start of a run: 1.0.
pub const DIFFICULTY_BASE: u32 = 100;

/// Multiplier gained per difficulty step: 0.15.
pub const DIFFICULTY_STEP: u32 = 15;

/// Score points per difficulty step.
pub const DIFFICULTY_STEP_DIVISOR: u64 = 50;

/// Upper bound of the multiplier: 4.0. Above it the recompute is skipped
/// entirely.
pub const DIFFICULTY_UPPER_LIMIT: u32 = 400;

/// The multiplier the step function assigns to a score:
/// `1.0 + floor(score / 50) * 0.15`, clamped to the upper bound.
pub open spec fn difficulty_of(score: u64) -> int {
    let raw = DIFFICULTY_BASE + (score as int / DIFFICULTY_STEP_DIVISOR as int)
        * DIFFICULTY_STEP;
    if raw <= DIFFICULTY_UPPER_LIMIT { raw } else { DIFFICULTY_UPPER_LIMIT as int }
}

/// Addition on the score counter: exact until the machine bound, then
/// saturated.
pub open spec fn sat_add(s: u64, p: int) -> int {
    if s + p <= u64::MAX {
        s + p
    } else {
        u64::MAX as int
    }
}

/// Score, hearts and difficulty of the current run.
#[derive(Clone, Copy, PartialEq, Eq, Structural, Debug)]
pub struct Stats {
    pub score: u64,
    pub hearts: u8,
    pub difficulty: u32,
}

impl Stats {
    /// Bounds that hold at every moment, mid-tick included.
    pub open spec fn wf(self) -> bool {
        &&& self.hearts <= INITIAL_HEART_COUNT
        &&& DIFFICULTY_BASE <= self.difficulty <= DIFFICULTY_UPPER_LIMIT
    }

    /// Between ticks the multiplier agrees with the step function of the
    /// score; a kill may break this within a tick until the recompute runs.
    pub open spec fn difficulty_current(self) -> bool {
        self.difficulty == difficulty_of(self.score)
    }

    /// The state every fresh run starts from.
    pub fn new() -> (s: Stats)
        ensures
            s.wf(),
            s.difficulty_current(),
            s.score == 0,
            s.hearts == INITIAL_HEART_COUNT,
            s.difficulty == DIFFICULTY_BASE,
    {
        Stats { score: 0, hearts: INITIAL_HEART_COUNT, difficulty: DIFFICULTY_BASE }
    }

    /// Resets score, hearts and difficulty for a fresh run.
    pub fn reset_stats(&mut self)
        ensures
            *final(self) == Stats::new_spec(),
            final(self).wf(),
            final(self).difficulty_current(),
    {
        *self = Stats::new();
    }

    /// The reset state, for speaking about it in contracts.
    pub open spec fn new_spec() -> Stats {
        Stats { score: 0, hearts: INITIAL_HEART_COUNT, difficulty: DIFFICULTY_BASE }
    }

    /// Adds points to the monotonic score counter, saturating at the machine
    /// bound. Leaves hearts and difficulty for the recompute step.
    pub fn add_score(&mut self, points: u64)
        ensures
            final(self).score == sat_add(old(self).score, points as int),
            final(self).score >= old(self).score,
            final(self).hearts == old(self).hearts,
            final(self).difficulty == old(self).difficulty,
    {
        if self.score <= u64::MAX - points {
            self.score = self.score + points;
        } else {
            self.score = u64::MAX;
        }
    }

    /// One agent escaped: one heart is lost, never dropping below zero.
    pub fn record_escape(&mut self)
        ensures
            final(self).hearts == if old(self).hearts > 0 {
                old(self).hearts - 1
            } else {
                0int
            },
            final(self).score == old(self).score,
            final(self).difficulty == old(self).difficulty,
    {
        if self.hearts > 0 {
            self.hearts = self.hearts - 1;
        }
    }

    /// Recomputes the multiplier from the score, except that a multiplier
    /// already at the upper bound is left alone (explicit early exit, not
    /// merely a clamp).
    pub fn step_difficulty(&mut self)
        ensures
            final(self).difficulty == if old(self).difficulty >= DIFFICULTY_UPPER_LIMIT {
                old(self).difficulty as int
            } else {
                difficulty_of(old(self).score)
            },
            final(self).score == old(self).score,
            final(self).hearts == old(self).hearts,
    {
        if self.difficulty >= DIFFICULTY_UPPER_LIMIT {
            return;
        }
        let steps: u64 = self.score / DIFFICULTY_STEP_DIVISOR;
        if steps >= ((DIFFICULTY_UPPER_LIMIT - DIFFICULTY_BASE) / DIFFICULTY_STEP) as u64 {
            self.difficulty = DIFFICULTY_UPPER_LIMIT;
        } else {
            self.difficulty = DIFFICULTY_BASE + (steps as u32) * DIFFICULTY_STEP;
        }
    }
}

/// The step function never leaves the band from the base to the upper bound.
pub proof fn lemma_difficulty_of_bounded(score: u64)
    ensures
        DIFFICULTY_BASE <= difficulty_of(score) <= DIFFICULTY_UPPER_LIMIT,
{
}

/// The step function is non-decreasing in the score, so a multiplier kept
/// current with a monotonic score never decreases over a run.
pub proof fn lemma_difficulty_of_monotone(s1: u64, s2: u64)
    requires
        s1 <= s2,
    ensures
        difficulty_of(s1) <= difficulty_of(s2),
{
    vstd::arithmetic::div_mod::lemma_div_is_ordered(
        s1 as int,
        s2 as int,
        DIFFICULTY_STEP_DIVISOR as int,
    );
}

/// Once the multiplier stands at the upper bound, further score increases do
/// not change it.
pub proof fn lemma_difficulty_saturates(s1: u64, s2: u64)
    requires
        s1 <= s2,
        difficulty_of(s1) == DIFFICULTY_UPPER_LIMIT,
    ensures
        difficulty_of(s2) == DIFFICULTY_UPPER_LIMIT,
{
    lemma_difficulty_of_monotone(s1, s2);
    lemma_difficulty_of_bounded(s2);
}

} // verus!
