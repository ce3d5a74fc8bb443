//! The scheduler-side end of a registered component.

use vstd::prelude::*;

use crate::components::handle::ComponentHandle;
use crate::components::runtime::ComponentRuntime;
use crate::components::state::ComponentState;
use crate::components::Component;

verus! {

/// Owns one component body together with the index of the lifecycle
/// flag it shares with the component's external handle.
pub struct ComponentController<C> {
    component: C,
    state_id: usize,
}

/// What the scheduler should do with a controller after advancing it.
#[derive(Copy, Clone, Debug, PartialEq, Eq, Structural)]
pub enum ComponentControllerResult {
    /// The component is still running (or merely paused): keep its
    /// controller registered.
    KeepComponent,
    /// The component finished or was removed: evict its controller.
    RemoveComponent,
}

impl<C> ComponentController<C> {
    /// The component body owned by this controller.
    pub closed spec fn component(self) -> C {
        self.component
    }

    /// The index of the lifecycle flag shared with the handle.
    pub closed spec fn state_id(self) -> usize {
        self.state_id
    }

    /// Wraps a component body, pairing the controller with the handle
    /// that shares its lifecycle flag.
    pub fn new(component: C, state_id: usize) -> (r: (Self, ComponentHandle))
        ensures
            r.0.component() == component,
            r.0.state_id() == state_id,
            r.1.state_id() == state_id,
    {
        (Self { component, state_id }, ComponentHandle::new(state_id))
    }

    /// Advances the component by one scheduling pass.
    ///
    /// A paused component is left untouched and kept; a removed one is
    /// left untouched and discarded, so a component flagged `Removed` is
    /// evicted without its body running again.  Only a working component
    /// is advanced, and it is discarded exactly when it reports that it
    /// finished.
    pub fn run<S>(
        &mut self,
        states: &Vec<ComponentState>,
        rt: &mut ComponentRuntime<S>,
    ) -> (r: ComponentControllerResult) where C: Component<S>
        requires
            old(self).state_id() < states@.len(),
        ensures
            final(self).state_id() == old(self).state_id(),
            states@[old(self).state_id() as int] is Paused ==> r is KeepComponent
                && *final(self) == *old(self) && *final(rt) == *old(rt),
            states@[old(self).state_id() as int] is Removed ==> r is RemoveComponent
                && *final(self) == *old(self) && *final(rt) == *old(rt),
    {
        let state: ComponentState = states[self.state_id];

        match state {
            ComponentState::Paused => ComponentControllerResult::KeepComponent,
            ComponentState::Removed => ComponentControllerResult::RemoveComponent,
            ComponentState::Working => {
                if self.component.advance(rt) {
                    ComponentControllerResult::RemoveComponent
                } else {
                    ComponentControllerResult::KeepComponent
                }
            },
        }
    }
}

} // verus!
