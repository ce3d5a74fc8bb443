//! Bounding a test run in simulated time.

use vstd::prelude::*;

verus! {

/// A span of real time, stored with microsecond precision, used to
/// bound how long a test may run (in the simulated device's own time,
/// so the bound is the same on every host machine).
#[derive(Clone, Copy, Debug, PartialEq, Eq, Structural)]
pub struct Timeout {
    pub micros: u128,
}

impl Timeout {
    /// A timeout of `secs` seconds.
    pub fn from_secs(secs: u64) -> (r: Self)
        ensures
            r.micros == secs * 1_000_000,
    {
        Self { micros: (secs as u128) * 1_000_000 }
    }

    /// A timeout of `millis` milliseconds.
    pub fn from_millis(millis: u64) -> (r: Self)
        ensures
            r.micros == millis * 1000,
    {
        Self { micros: (millis as u128) * 1000 }
    }

    /// A timeout of `micros` microseconds.
    pub fn from_micros(micros: u64) -> (r: Self)
        ensures
            r.micros == micros,
    {
        Self { micros: micros as u128 }
    }

    /// This timeout expressed in microseconds.
    pub fn as_micros(self) -> (r: u128)
        ensures
            r == self.micros,
    {
        self.micros
    }
}

/// Deducts one instruction's worth of cycles from the optional
/// remaining-cycle budget of a run.
///
/// Returns the new budget together with a flag that reports the budget
/// has just run out; a run whose budget reaches zero must be aborted as
/// timed out, which protects against a driving loop that would
/// otherwise wait forever on a condition the firmware never satisfies.
/// A run without a budget never times out.
pub fn spend_budget(remaining_clock_cycles: Option<u64>, elapsed_cycles: u64) -> (r: (
    Option<u64>,
    bool,
))
    ensures
        remaining_clock_cycles is None ==> r.0 is None && r.1 == false,
        remaining_clock_cycles matches Some(n) ==> r.0 == Some(
            crate::duration::saturating_sub(n, elapsed_cycles),
        ) && (r.1 <==> crate::duration::saturating_sub(n, elapsed_cycles) == 0),
{
    match remaining_clock_cycles {
        None => (None, false),
        Some(n) => {
            let left: u64 = if n >= elapsed_cycles {
                n - elapsed_cycles
            } else {
                0
            };
            (Some(left), left == 0)
        },
    }
}

} // verus!
