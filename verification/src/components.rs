//! The cooperative component scheduler.
//!
//! Components are peripherals attached to the simulated device — they
//! let a test describe background hardware behaviour ("toggle this pin
//! every 5 ms", "echo bytes while a chip-select pin is low") as
//! independent tasks that are advanced once after every simulator
//! instruction, without the test managing any timing bookkeeping.

pub mod controller;
pub mod handle;
pub mod resume;
pub mod runtime;
pub mod sleep;
pub mod state;

use vstd::prelude::*;

use crate::components::controller::ComponentController;
use crate::components::controller::ComponentControllerResult;
use crate::components::handle::ComponentHandle;
use crate::components::runtime::ComponentRuntime;
use crate::components::state::ComponentState;
use crate::duration::AvrDuration;

verus! {

/// One component body: a cooperative task that models background
/// hardware behaviour.
///
/// `advance` runs the body up to its next suspension point, reaching the
/// simulator and the elapsed duration through the runtime, and returns
/// `true` exactly when the body has finished for good.  The scheduler
/// re-advances every registered component once per pass,
/// unconditionally, so a body must not rely on any external wake-up.
pub trait Component<S> {
    /// Advances the component by one step; returns `true` when the
    /// component has completed and should be evicted.
    fn advance(&mut self, rt: &mut ComponentRuntime<S>) -> bool;
}

/// The flag ids of the given controllers, in order.
pub open spec fn controller_ids<C>(s: Seq<ComponentController<C>>) -> Seq<usize> {
    s.map_values(|c: ComponentController<C>| c.state_id())
}

/// Whether `a` lists some of `b`'s elements, in `b`'s order.
pub open spec fn subsequence_of(a: Seq<usize>, b: Seq<usize>) -> bool
    decreases a.len() + b.len(),
{
    if a.len() == 0 {
        true
    } else if b.len() == 0 {
        false
    } else {
        (a[0] == b[0] && subsequence_of(a.drop_first(), b.drop_first())) || subsequence_of(
            a,
            b.drop_first(),
        )
    }
}

/// A subsequence of `b` is still one of `b` extended by an element.
proof fn lemma_subsequence_push_right(a: Seq<usize>, b: Seq<usize>, x: usize)
    requires
        subsequence_of(a, b),
    ensures
        subsequence_of(a, b.push(x)),
    decreases a.len() + b.len(),
{
    if a.len() == 0 {
    } else if b.len() == 0 {
    } else {
        assert(b.push(x).drop_first() =~= b.drop_first().push(x));
        if a[0] == b[0] && subsequence_of(a.drop_first(), b.drop_first()) {
            lemma_subsequence_push_right(a.drop_first(), b.drop_first(), x);
        } else {
            lemma_subsequence_push_right(a, b.drop_first(), x);
        }
    }
}

/// Extending a subsequence and its supersequence by one and the same
/// element keeps the one a subsequence of the other.
proof fn lemma_subsequence_push_both(a: Seq<usize>, b: Seq<usize>, x: usize)
    requires
        subsequence_of(a, b),
    ensures
        subsequence_of(a.push(x), b.push(x)),
    decreases a.len() + b.len(),
{
    if a.len() == 0 {
        if b.len() == 0 {
            assert(a.push(x).drop_first() =~= a);
            assert(b.push(x).drop_first() =~= b);
            assert(subsequence_of(a.push(x).drop_first(), b.push(x).drop_first()));
        } else {
            assert(b.push(x).drop_first() =~= b.drop_first().push(x));
            lemma_subsequence_push_both(a, b.drop_first(), x);
            assert(subsequence_of(a.push(x), b.push(x).drop_first()));
        }
    } else {
        assert(a.push(x).drop_first() =~= a.drop_first().push(x));
        assert(b.push(x).drop_first() =~= b.drop_first().push(x));
        if a[0] == b[0] && subsequence_of(a.drop_first(), b.drop_first()) {
            lemma_subsequence_push_both(a.drop_first(), b.drop_first(), x);
            assert(subsequence_of(a.push(x).drop_first(), b.push(x).drop_first()));
        } else {
            lemma_subsequence_push_both(a, b.drop_first(), x);
            assert(subsequence_of(a.push(x), b.push(x).drop_first()));
        }
    }
}

/// Whether `controller` carries the same flag id as one of the given
/// controllers.
pub open spec fn id_registered<C>(
    controller: ComponentController<C>,
    entries: Seq<ComponentController<C>>,
) -> bool {
    exists|j: int|
        0 <= j < entries.len() && controller.state_id() == (#[trigger] entries[j]).state_id()
}

/// A flag id found among the first `k1` entries is also found among the
/// first `k2` of them.
proof fn lemma_id_registered_widen<C>(
    controller: ComponentController<C>,
    entries: Seq<ComponentController<C>>,
    k1: int,
    k2: int,
)
    requires
        0 <= k1 <= k2 <= entries.len(),
        id_registered(controller, entries.subrange(0, k1)),
    ensures
        id_registered(controller, entries.subrange(0, k2)),
{
    let prefix = entries.subrange(0, k1);
    let j0 = choose|j: int|
        0 <= j < prefix.len() && controller.state_id() == (#[trigger] prefix[j]).state_id();
    assert(entries.subrange(0, k2)[j0] == prefix[j0]);
}

/// Manages components: owns one controller per registered component, in
/// registration order, together with the lifecycle flags shared with the
/// components' handles.
pub struct Components<C> {
    controllers: Vec<ComponentController<C>>,
    states: Vec<ComponentState>,
}

impl<C> Components<C> {
    /// The registered controllers, in registration (and polling) order.
    pub closed spec fn controllers(self) -> Seq<ComponentController<C>> {
        self.controllers@
    }

    /// Every lifecycle flag ever handed out, indexed by the id shared
    /// between a controller and its handle.  A flag outlives its
    /// controller, so a handle stays valid after its component is gone.
    pub closed spec fn states(self) -> Seq<ComponentState> {
        self.states@
    }

    /// Every controller names an existing flag, and no two controllers
    /// share one.
    pub open spec fn wf(self) -> bool {
        &&& forall|i: int|
                0 <= i < self.controllers().len()
                ==> (#[trigger] self.controllers()[i]).state_id() < self.states().len()
        &&& forall|i: int, j: int|
                #![trigger self.controllers()[i].state_id(), self.controllers()[j].state_id()]
                0 <= i < j < self.controllers().len()
                ==> self.controllers()[i].state_id() != self.controllers()[j].state_id()
    }

    /// Creates a scheduler with no components.
    pub fn new() -> (r: Self)
        ensures
            r.controllers() == Seq::<ComponentController<C>>::empty(),
            r.states() == Seq::<ComponentState>::empty(),
            r.wf(),
    {
        Self { controllers: Vec::new(), states: Vec::new() }
    }

    /// Creates a new component and attaches it to the scheduler.
    ///
    /// The returned handle shares a freshly created `Working` flag with
    /// the component's controller.  The component does not run yet: it
    /// becomes eligible starting with the next scheduling pass.
    pub fn add(&mut self, component: C) -> (handle: ComponentHandle)
        requires
            old(self).wf(),
        ensures
            final(self).wf(),
            handle.state_id() == old(self).states().len(),
            final(self).states() == old(self).states().push(ComponentState::Working),
            final(self).controllers().len() == old(self).controllers().len() + 1,
            final(self).controllers().drop_last() == old(self).controllers(),
            final(self).controllers().last().component() == component,
            final(self).controllers().last().state_id() == old(self).states().len(),
    {
        let state_id: usize = self.states.len();
        self.states.push(ComponentState::Working);

        let (controller, handle) = ComponentController::new(component, state_id);
        self.controllers.push(controller);

        proof {
            assert(self.controllers@.drop_last() =~= old(self).controllers());
        }

        handle
    }

    pub(crate) fn set_state(&mut self, state_id: usize, state: ComponentState)
        requires
            state_id < old(self).states().len(),
        ensures
            final(self).states() == old(self).states().update(state_id as int, state),
            final(self).controllers() == old(self).controllers(),
    {
        self.states[state_id] = state;
    }

    pub(crate) fn get_state(&self, state_id: usize) -> (r: ComponentState)
        requires
            state_id < self.states().len(),
        ensures
            r == self.states()[state_id as int],
    {
        self.states[state_id]
    }

    /// Runs one scheduling pass: advances every registered controller
    /// exactly once, in registration order, and evicts those that report
    /// they are done.
    ///
    /// With no components registered this is a no-op — in particular the
    /// simulator slot is never touched.  Otherwise the simulator handle
    /// is taken out of its slot for the duration of the pass and put
    /// back afterwards.
    pub fn run<S>(
        &mut self,
        sim: &mut Option<S>,
        clock_frequency: u32,
        tt: AvrDuration,
    ) where C: Component<S>
        requires
            old(self).wf(),
            old(self).controllers().len() > 0 ==> (*old(sim)) is Some,
        ensures
            final(self).wf(),
            final(self).states() == old(self).states(),
            // an empty scheduler performs no simulator handoff at all
            old(self).controllers().len() == 0 ==> *final(self) == *old(self)
                && *final(sim) == *old(sim),
            old(self).controllers().len() > 0 ==> (*final(sim)) is Some,
            final(self).controllers().len() <= old(self).controllers().len(),
            // the survivors keep their registration order, so later
            // passes still poll them in the order they were added
            subsequence_of(
                controller_ids(final(self).controllers()),
                controller_ids(old(self).controllers()),
            ),
            // nothing survives a pass that was not registered when it began
            forall|i: int|
                0 <= i < final(self).controllers().len()
                ==> id_registered(
                    #[trigger] final(self).controllers()[i],
                    old(self).controllers(),
                ),
            // a paused component survives the pass entirely untouched
            forall|j: int|
                0 <= j < old(self).controllers().len()
                    && old(self).states()[(#[trigger] old(self).controllers()[j]).state_id() as int]
                        is Paused
                ==> final(self).controllers().contains(old(self).controllers()[j]),
            // a component flagged removed is evicted on this very pass
            forall|j: int|
                0 <= j < old(self).controllers().len()
                    && old(self).states()[(#[trigger] old(self).controllers()[j]).state_id() as int]
                        is Removed
                ==> forall|i: int|
                    0 <= i < final(self).controllers().len()
                    ==> (#[trigger] final(self).controllers()[i]).state_id()
                        != old(self).controllers()[j].state_id(),
    {
        if self.controllers.len() == 0 {
            return;
        }

        let sim_owned: S = sim.take().unwrap();
        let mut rt = ComponentRuntime::<S>::setup(sim_owned, clock_frequency, tt);

        let mut pending: Vec<ComponentController<C>> = Vec::new();
        core::mem::swap(&mut pending, &mut self.controllers);

        let ghost orig: Seq<ComponentController<C>> = pending@;
        let ghost mut k: int = 0;
        let mut kept: Vec<ComponentController<C>> = Vec::new();

        while pending.len() > 0
            invariant
                orig == old(self).controllers(),
                old(self).wf(),
                0 <= k <= orig.len(),
                k == orig.len() - pending@.len(),
                pending@ == orig.subrange(k, orig.len() as int),
                self.states@ == old(self).states(),
                kept@.len() <= k,
                forall|i: int|
                    0 <= i < kept@.len()
                    ==> (#[trigger] kept@[i]).state_id() < self.states@.len(),
                forall|i1: int, i2: int|
                    #![trigger kept@[i1].state_id(), kept@[i2].state_id()]
                    0 <= i1 < i2 < kept@.len()
                    ==> kept@[i1].state_id() != kept@[i2].state_id(),
                subsequence_of(controller_ids(kept@), controller_ids(orig.subrange(0, k))),
                forall|i: int|
                    0 <= i < kept@.len()
                    ==> id_registered(#[trigger] kept@[i], orig.subrange(0, k)),
                forall|j: int|
                    0 <= j < k
                        && self.states@[(#[trigger] orig[j]).state_id() as int] is Paused
                    ==> kept@.contains(orig[j]),
                forall|j: int|
                    0 <= j < k
                        && self.states@[(#[trigger] orig[j]).state_id() as int] is Removed
                    ==> forall|i: int|
                        0 <= i < kept@.len()
                        ==> (#[trigger] kept@[i]).state_id() != orig[j].state_id(),
            decreases pending@.len(),
        {
            broadcast use vstd::seq_lib::lemma_seq_contains_after_push;

            let ghost entry_state: ComponentState = self.states@[orig[k].state_id() as int];

            let mut current = pending.remove(0);
            proof {
                assert(current == orig[k]);
                assert(pending@ =~= orig.subrange(k + 1, orig.len() as int));
            }

            let ghost kept_before: Seq<ComponentController<C>> = kept@;
            let verdict = current.run(&self.states, &mut rt);

            match verdict {
                ComponentControllerResult::KeepComponent => {
                    kept.push(current);
                },
                ComponentControllerResult::RemoveComponent => {},
            }

            proof {
                // order: the prefix of processed entries grew by one id,
                // and the kept list either grew by that same id or not
                assert(controller_ids::<C>(orig.subrange(0, k + 1)) =~= controller_ids(
                    orig.subrange(0, k),
                ).push(orig[k].state_id()));
                if kept@.len() > kept_before.len() {
                    assert(controller_ids(kept@) =~= controller_ids(kept_before).push(
                        orig[k].state_id(),
                    ));
                    lemma_subsequence_push_both(
                        controller_ids(kept_before),
                        controller_ids(orig.subrange(0, k)),
                        orig[k].state_id(),
                    );
                } else {
                    lemma_subsequence_push_right(
                        controller_ids(kept@),
                        controller_ids(orig.subrange(0, k)),
                        orig[k].state_id(),
                    );
                }

                // every controller kept so far carries a flag id other than
                // the one just processed, since the ids at entry are distinct
                assert forall|i: int| 0 <= i < kept_before.len()
                    implies (#[trigger] kept_before[i]).state_id() != orig[k].state_id() by {
                    let prefix = orig.subrange(0, k);
                    let j0 = choose|j: int|
                        0 <= j < prefix.len()
                            && kept_before[i].state_id() == (#[trigger] prefix[j]).state_id();
                    assert(prefix[j0] == orig[j0]);
                    assert(old(self).controllers()[j0].state_id()
                        != old(self).controllers()[k].state_id());
                }

                assert forall|i: int| 0 <= i < kept@.len()
                    implies id_registered(#[trigger] kept@[i], orig.subrange(0, k + 1)) by {
                    if i < kept_before.len() {
                        assert(kept@[i] == kept_before[i]);
                        lemma_id_registered_widen(kept@[i], orig, k, k + 1);
                    } else {
                        assert(kept@[i].state_id() == orig[k].state_id());
                        assert(orig.subrange(0, k + 1)[k] == orig[k]);
                    }
                }

                assert forall|j: int|
                    0 <= j < k + 1
                        && self.states@[(#[trigger] orig[j]).state_id() as int] is Paused
                    implies kept@.contains(orig[j]) by {
                    if j < k {
                        let i0 = choose|i0: int|
                            0 <= i0 < kept_before.len() && kept_before[i0] == orig[j];
                        assert(kept@[i0] == orig[j]);
                    } else {
                        assert(entry_state is Paused);
                        assert(kept@.last() == orig[k]);
                    }
                }

                assert forall|j: int|
                    0 <= j < k + 1
                        && self.states@[(#[trigger] orig[j]).state_id() as int] is Removed
                    implies forall|i: int|
                        0 <= i < kept@.len()
                        ==> (#[trigger] kept@[i]).state_id() != orig[j].state_id() by {
                    if j < k {
                        assert forall|i: int| 0 <= i < kept@.len()
                            implies (#[trigger] kept@[i]).state_id() != orig[j].state_id() by {
                            if i < kept_before.len() {
                                assert(kept@[i] == kept_before[i]);
                            } else {
                                assert(kept@[i].state_id() == orig[k].state_id());
                                assert(old(self).controllers()[j].state_id()
                                    != old(self).controllers()[k].state_id());
                            }
                        }
                    } else {
                        assert(entry_state is Removed);
                        assert(kept@ == kept_before);
                    }
                }

                k = k + 1;
            }
        }

        proof {
            assert(k == orig.len());
            assert(orig.subrange(0, k) =~= orig);
        }

        self.controllers = kept;

        *sim = Some(rt.destroy());
    }
}

} // verus!
