//! What one simulator instruction reports back.

use vstd::prelude::*;

use crate::duration::AvrDuration;
use crate::state::AvrState;

verus! {

/// The outcome of advancing the simulator by one instruction: the
/// machine state afterwards and how long the instruction took.
#[derive(Clone, Copy, Debug, PartialEq, Eq, Structural)]
pub struct StepOutcome {
    /// The machine's state after the instruction.
    pub state: AvrState,
    /// How long the instruction took, in device cycles; approximate,
    /// but always greater than zero.
    pub tt: AvrDuration,
}

/// The number of cycles it took to execute one instruction; somewhat
/// approximate, but always at least one.
#[derive(Clone, Copy, Debug, PartialEq, Eq, PartialOrd, Ord, Hash)]
pub struct CpuCyclesTaken(u64);

impl CpuCyclesTaken {
    #[verifier::type_invariant]
    spec fn positive(self) -> bool {
        self.0 > 0
    }

    /// The cycle count carried by this value.
    pub closed spec fn spec_get(self) -> u64 {
        self.0
    }

    /// Wraps a cycle count, which must be positive: an instruction
    /// never takes zero cycles.
    pub fn new(value: u64) -> (r: Self)
        requires
            value > 0,
        ensures
            r.spec_get() == value,
    {
        Self(value)
    }

    /// Returns the cycle count, which is always positive.
    pub fn get(self) -> (r: u64)
        ensures
            r == self.spec_get(),
            r > 0,
    {
        proof {
            use_type_invariant(self);
        }
        self.0
    }
}

} // verus!
