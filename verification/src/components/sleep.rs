//! Waiting until a requested duration of simulated time has elapsed.

use vstd::prelude::*;

use crate::components::runtime::ComponentRuntime;
use crate::duration::saturating_sub;
use crate::duration::AvrDuration;

verus! {

/// Suspends a component until a requested duration has fully elapsed,
/// accounting for partial passes.
///
/// Each poll subtracts the duration of the current pass from the
/// remainder; the future completes on the poll that brings the remainder
/// to zero.  Because the subtraction saturates at zero cycles, overshoot
/// on the final pass never produces a negative remainder: completion is
/// exact or late by at most one instruction, never early.
pub struct SleepFuture {
    duration: AvrDuration,
}

/// The cycles still to be slept after the given per-pass elapsed cycle
/// counts have been observed, one saturating subtraction per pass.
pub open spec fn remaining_after(start: u64, steps: Seq<u64>) -> u64
    decreases steps.len(),
{
    if steps.len() == 0 {
        start
    } else {
        remaining_after(saturating_sub(start, steps[0]), steps.drop_first())
    }
}

/// The total number of cycles in a sequence of per-pass elapsed cycle
/// counts.
pub open spec fn total_cycles(steps: Seq<u64>) -> int
    decreases steps.len(),
{
    if steps.len() == 0 {
        0
    } else {
        steps[0] + total_cycles(steps.drop_first())
    }
}

proof fn lemma_total_cycles_nonneg(steps: Seq<u64>)
    ensures
        total_cycles(steps) >= 0,
    decreases steps.len(),
{
    if steps.len() > 0 {
        lemma_total_cycles_nonneg(steps.drop_first());
    }
}

/// Law: a sleep of `start` cycles, driven by any sequence of per-pass
/// elapsed cycle counts, has run out exactly when the cumulative elapsed
/// cycles reach or exceed `start` — so it completes on the first pass
/// where they do, and never earlier.
pub proof fn lemma_sleep_completion(start: u64, steps: Seq<u64>)
    ensures
        remaining_after(start, steps) == 0 <==> total_cycles(steps) >= start,
    decreases steps.len(),
{
    if steps.len() == 0 {
        lemma_total_cycles_nonneg(steps);
    } else {
        let rest = steps.drop_first();
        lemma_sleep_completion(saturating_sub(start, steps[0]), rest);
        lemma_total_cycles_nonneg(rest);
    }
}

impl SleepFuture {
    /// The duration still to be slept.
    pub closed spec fn remaining(self) -> AvrDuration {
        self.duration
    }

    /// Creates a future that sleeps for the given duration.
    pub fn new(duration: AvrDuration) -> (r: Self)
        ensures
            r.remaining() == duration,
    {
        Self { duration }
    }

    /// Advances the future by one poll: the duration of the current pass
    /// is deducted from the remainder, and the future completes exactly
    /// when the remainder reaches zero.
    pub fn poll<S>(&mut self, rt: &ComponentRuntime<S>) -> (done: bool)
        requires
            old(self).remaining().clock_frequency == rt.spec_tt().clock_frequency,
        ensures
            final(self).remaining() == old(self).remaining().spec_sub(rt.spec_tt()),
            final(self).remaining().cycles == saturating_sub(
                old(self).remaining().cycles,
                rt.spec_tt().cycles,
            ),
            done <==> final(self).remaining().cycles == 0,
    {
        self.duration = self.duration.sub(rt.tt());
        self.duration.is_zero()
    }
}

} // verus!
