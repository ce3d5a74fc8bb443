//! The external handle of a registered component.

use vstd::prelude::*;

use crate::components::state::ComponentState;
use crate::components::Components;

verus! {

/// The caller-side end of a registered component.
///
/// A handle names the lifecycle flag that it shares with the scheduler's
/// controller for the same component; pausing, resuming and removing all
/// go through that flag, and take effect the next time the scheduler
/// would advance the component.
pub struct ComponentHandle {
    state_id: usize,
}

impl ComponentHandle {
    /// The index of the lifecycle flag this handle shares with its
    /// controller.
    pub closed spec fn state_id(self) -> usize {
        self.state_id
    }

    pub(crate) fn new(state_id: usize) -> (r: Self)
        ensures
            r.state_id() == state_id,
    {
        Self { state_id }
    }

    /// Pauses the component until [`Self::resume()`] is called.
    pub fn pause<C>(&self, components: &mut Components<C>)
        requires
            self.state_id() < old(components).states().len(),
        ensures
            final(components).states() == old(components).states().update(
                self.state_id() as int,
                ComponentState::Paused,
            ),
            final(components).controllers() == old(components).controllers(),
    {
        components.set_state(self.state_id, ComponentState::Paused);
    }

    /// Resumes a component paused through [`Self::pause()`].
    pub fn resume<C>(&self, components: &mut Components<C>)
        requires
            self.state_id() < old(components).states().len(),
        ensures
            final(components).states() == old(components).states().update(
                self.state_id() as int,
                ComponentState::Working,
            ),
            final(components).controllers() == old(components).controllers(),
    {
        components.set_state(self.state_id, ComponentState::Working);
    }

    /// Removes the component, preventing it from ever running again: the
    /// scheduler evicts its controller on the next pass.
    pub fn remove<C>(self, components: &mut Components<C>)
        requires
            self.state_id() < old(components).states().len(),
        ensures
            final(components).states() == old(components).states().update(
                self.state_id() as int,
                ComponentState::Removed,
            ),
            final(components).controllers() == old(components).controllers(),
    {
        components.set_state(self.state_id, ComponentState::Removed);
    }

    /// Returns the component's lifecycle state.
    pub fn state<C>(&self, components: &Components<C>) -> (r: ComponentState)
        requires
            self.state_id() < components.states().len(),
        ensures
            r == components.states()[self.state_id() as int],
    {
        components.get_state(self.state_id)
    }
}

} // verus!
