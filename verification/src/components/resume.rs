//! Waiting for a single simulator instruction.

use vstd::prelude::*;

use crate::components::runtime::ComponentRuntime;
use crate::duration::AvrDuration;

verus! {

/// Suspends a component for exactly one scheduling pass, then reports
/// the duration that pass represented.
///
/// The first poll always suspends (recording that the future has now
/// yielded); every later poll completes at once with the duration of the
/// instruction that triggered the current pass.
pub struct ResumeFuture {
    yielded: bool,
}

impl ResumeFuture {
    /// Whether this future has already given up control once.
    pub closed spec fn spec_yielded(self) -> bool {
        self.yielded
    }

    /// Creates a future that has not yielded yet.
    pub fn new() -> (r: Self)
        ensures
            !r.spec_yielded(),
    {
        Self { yielded: false }
    }

    /// Advances the future by one poll.  Returns `None` on the first
    /// poll (the component must give up control once) and the duration
    /// of the current pass on every later poll.
    pub fn poll<S>(&mut self, rt: &ComponentRuntime<S>) -> (r: Option<AvrDuration>)
        ensures
            old(self).spec_yielded() ==> r == Some(rt.spec_tt()) && *final(self) == *old(self),
            !old(self).spec_yielded() ==> r is None && final(self).spec_yielded(),
    {
        if self.yielded {
            Some(rt.tt())
        } else {
            self.yielded = true;
            None
        }
    }
}

} // verus!
