//! The lifecycle flag of a registered component.

use vstd::prelude::*;

verus! {

/// The single piece of state shared between a component's external
/// handle and the scheduler: the handle writes it, the scheduler reads it
/// on every pass.
#[derive(Copy, Clone, Debug, PartialEq, Eq, Structural)]
pub enum ComponentState {
    /// The component is eligible to run (the default).
    Working,
    /// The component is skipped by the scheduler but stays registered.
    Paused,
    /// The component will be evicted on the next scheduling pass and
    /// never runs again.
    Removed,
}

} // verus!
