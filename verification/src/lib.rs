//! Functional-testing toolkit for firmware driven by a cycle-stepped
//! simulator.
//!
//! The crate provides the pieces that make such tests deterministic:
//!
//! - [`AvrDuration`], a span of simulated time: a cycle count bound to a
//!   clock frequency;
//! - a cooperative scheduler that advances background tasks
//!   ("components", e.g. a pin toggler or a shift register) once per
//!   simulator instruction;
//! - the suspension primitives that let a component wait for one
//!   instruction or for a given duration;
//! - a builder, which collects the clock frequency and the optional test
//!   timeout before a run starts.
//!
//! The instruction-level simulator itself is an external collaborator: the
//! scheduler only hands its handle to the running components and takes it
//! back afterwards, so it is kept generic here.

mod builder;
mod components;
mod duration;
mod ioctl;
mod state;
mod step;
mod timeout;
mod twi;

pub use builder::AvrTesterBuilder;
pub use components::controller::ComponentController;
pub use components::controller::ComponentControllerResult;
pub use components::controller_ids;
pub use components::handle::ComponentHandle;
pub use components::id_registered;
pub use components::resume::ResumeFuture;
pub use components::runtime::ComponentRuntime;
pub use components::sleep::lemma_sleep_completion;
pub use components::sleep::remaining_after;
pub use components::sleep::total_cycles;
pub use components::sleep::SleepFuture;
pub use components::state::ComponentState;
pub use components::subsequence_of;
pub use components::Component;
pub use components::Components;
pub use duration::lemma_add_then_sub_is_exact;
pub use duration::lemma_millis_round_trip;
pub use duration::micros_to_cycles;
pub use duration::millis_to_cycles;
pub use duration::saturating_sub;
pub use duration::secs_to_cycles;
pub use duration::AvrDuration;
pub use ioctl::IoCtl;
pub use state::AvrState;
pub use step::CpuCyclesTaken;
pub use step::StepOutcome;
pub use timeout::spend_budget;
pub use timeout::Timeout;
pub use twi::TwiPacket;
pub use twi::TwiSlave;
