//! The machine state the simulator reports after an instruction.

use vstd::prelude::*;

verus! {

/// The simulated processor's state after one instruction.
#[derive(Clone, Copy, Debug, PartialEq, Eq, Structural)]
pub enum AvrState {
    Limbo,
    Stopped,
    Running,
    Sleeping,
    Step,
    StepDone,
    Done,
    Crashed,
}

impl AvrState {
    /// Whether the driving loop must abort the run on this state:
    /// anything but a machine that keeps running (a crash, an
    /// unexpected sleep, and so on) invalidates the test.
    pub fn is_fatal(self) -> (r: bool)
        ensures
            r == !(self is Running),
    {
        match self {
            AvrState::Running => false,
            _ => true,
        }
    }
}

} // verus!
