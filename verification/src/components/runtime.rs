//! The context a component body runs in during one scheduling pass.

use vstd::prelude::*;

use crate::duration::AvrDuration;

verus! {

/// Everything a component may touch while it is being advanced: the
/// simulator handle, the clock frequency of the current run, and the
/// duration of the instruction that triggered this pass.
///
/// The runtime is built by the scheduler right before a pass
/// ([`ComponentRuntime::setup`] takes ownership of the simulator handle)
/// and torn down right after it ([`ComponentRuntime::destroy`] gives the
/// handle back).  Components only ever see it by reference, for exactly
/// one pass at a time, so the simulator has a single owner at every
/// instant.
pub struct ComponentRuntime<S> {
    sim: S,
    clock_frequency: u32,
    tt: AvrDuration,
}

impl<S> ComponentRuntime<S> {
    /// The simulator handle owned by this runtime.
    pub closed spec fn spec_sim(self) -> S {
        self.sim
    }

    /// The clock frequency of the current run.
    pub closed spec fn spec_clock_frequency(self) -> u32 {
        self.clock_frequency
    }

    /// The duration of the instruction that triggered the current pass.
    pub closed spec fn spec_tt(self) -> AvrDuration {
        self.tt
    }

    /// Installs the context for one scheduling pass, taking ownership of
    /// the simulator handle for the duration of the pass.
    pub fn setup(sim: S, clock_frequency: u32, tt: AvrDuration) -> (rt: Self)
        ensures
            rt.spec_sim() == sim,
            rt.spec_clock_frequency() == clock_frequency,
            rt.spec_tt() == tt,
    {
        Self { sim, clock_frequency, tt }
    }

    /// Tears the context down, returning ownership of the simulator
    /// handle to the caller.
    pub fn destroy(self) -> (sim: S)
        ensures
            sim == self.spec_sim(),
    {
        self.sim
    }

    /// Gives the running component access to the simulator.
    pub fn sim(&mut self) -> (r: &mut S)
        ensures
            *r == old(self).spec_sim(),
            final(self).spec_sim() == *final(r),
            final(self).spec_clock_frequency() == old(self).spec_clock_frequency(),
            final(self).spec_tt() == old(self).spec_tt(),
    {
        &mut self.sim
    }

    /// Returns the clock frequency of the current run.
    pub fn clock_frequency(&self) -> (r: u32)
        ensures
            r == self.spec_clock_frequency(),
    {
        self.clock_frequency
    }

    /// Returns the duration of the instruction that triggered the
    /// current pass.
    pub fn tt(&self) -> (r: AvrDuration)
        ensures
            r == self.spec_tt(),
    {
        self.tt
    }
}

} // verus!
