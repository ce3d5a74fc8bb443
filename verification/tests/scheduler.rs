use avr_tester::AvrDuration;
use avr_tester::Component;
use avr_tester::ComponentRuntime;
use avr_tester::ComponentState;
use avr_tester::Components;
use avr_tester::ResumeFuture;
use avr_tester::SleepFuture;

const CLOCK: u32 = 16_000_000;

/// The simulator stand-in the components act upon: it records which
/// step the run is at and what the components did.
#[derive(Debug, Default)]
struct Sim {
    step: u32,
    log_a: Vec<u32>,
    log_b: Vec<u32>,
    polls: Vec<u32>,
    observed: Option<(u32, u64)>,
}

enum Task {
    /// Awaits one pass, then records the duration that pass reported.
    ResumeOnce { fut: ResumeFuture },
    /// Sleeps `period` cycles, logs the toggle, and starts over.
    ToggleA { sleep: SleepFuture, period: u64 },
    /// Like `ToggleA`, on the other log.
    ToggleB { sleep: SleepFuture, period: u64 },
    /// Records every pass in which it was advanced.
    CountPolls,
}

impl Component<Sim> for Task {
    fn advance(&mut self, rt: &mut ComponentRuntime<Sim>) -> bool {
        match self {
            Task::ResumeOnce { fut } => match fut.poll(rt) {
                Some(tt) => {
                    rt.sim().observed = Some((tt.clock_frequency(), tt.as_cycles()));
                    true
                }
                None => false,
            },
            Task::ToggleA { sleep, period } => {
                if sleep.poll(rt) {
                    let step = rt.sim().step;
                    rt.sim().log_a.push(step);
                    *sleep = SleepFuture::new(AvrDuration::new(rt.clock_frequency(), *period));
                }
                false
            }
            Task::ToggleB { sleep, period } => {
                if sleep.poll(rt) {
                    let step = rt.sim().step;
                    rt.sim().log_b.push(step);
                    *sleep = SleepFuture::new(AvrDuration::new(rt.clock_frequency(), *period));
                }
                false
            }
            Task::CountPolls => {
                let step = rt.sim().step;
                rt.sim().polls.push(step);
                false
            }
        }
    }
}

fn toggler_a(period: u64) -> Task {
    Task::ToggleA { sleep: SleepFuture::new(AvrDuration::new(CLOCK, period)), period }
}

fn toggler_b(period: u64) -> Task {
    Task::ToggleB { sleep: SleepFuture::new(AvrDuration::new(CLOCK, period)), period }
}

/// Advances the stub simulator by one "instruction" of `cycles` cycles
/// and lets the scheduler run one pass over it.
fn step(components: &mut Components<Task>, slot: &mut Option<Sim>, cycles: u64) {
    if let Some(sim) = slot.as_mut() {
        sim.step += 1;
    }
    components.run(slot, CLOCK, AvrDuration::new(CLOCK, cycles));
}

#[test]
fn resume_task_completes_with_the_elapsed_duration() {
    let mut components: Components<Task> = Components::new();
    let mut slot = Some(Sim::default());

    components.add(Task::ResumeOnce { fut: ResumeFuture::new() });

    // The first pass enters the await; the next one completes it with
    // exactly the duration that this one step reported:
    step(&mut components, &mut slot, 3);
    assert_eq!(None, slot.as_ref().unwrap().observed);

    step(&mut components, &mut slot, 42);
    assert_eq!(Some((CLOCK, 42)), slot.as_ref().unwrap().observed);
}

#[test]
fn finished_component_is_evicted() {
    let mut components: Components<Task> = Components::new();
    let mut slot = Some(Sim::default());

    components.add(Task::ResumeOnce { fut: ResumeFuture::new() });

    step(&mut components, &mut slot, 1);
    step(&mut components, &mut slot, 5);
    assert_eq!(Some((CLOCK, 5)), slot.as_ref().unwrap().observed);

    // The component completed on step 2 and was evicted: later passes
    // never advance it again.
    step(&mut components, &mut slot, 7);
    step(&mut components, &mut slot, 9);
    assert_eq!(Some((CLOCK, 5)), slot.as_ref().unwrap().observed);
}

#[test]
fn removed_component_never_runs() {
    let mut components: Components<Task> = Components::new();
    let mut slot = Some(Sim::default());

    let handle = components.add(Task::CountPolls);
    handle.remove(&mut components);

    // Flagged `Removed` before ever being polled: the next pass evicts
    // the controller without its body running at all.
    step(&mut components, &mut slot, 1);
    assert!(slot.as_ref().unwrap().polls.is_empty());

    // Even many passes later nothing of it ever runs:
    for _ in 0..5 {
        step(&mut components, &mut slot, 1);
    }
    assert!(slot.as_ref().unwrap().polls.is_empty());
}

#[test]
fn paused_component_is_skipped_until_resumed() {
    let mut components: Components<Task> = Components::new();
    let mut slot = Some(Sim::default());

    let handle = components.add(Task::CountPolls);
    assert_eq!(ComponentState::Working, handle.state(&components));

    step(&mut components, &mut slot, 1);
    step(&mut components, &mut slot, 1);
    assert_eq!(vec![1, 2], slot.as_ref().unwrap().polls);

    handle.pause(&mut components);
    assert_eq!(ComponentState::Paused, handle.state(&components));

    // While paused, the component's side effects do not advance:
    for _ in 0..4 {
        step(&mut components, &mut slot, 1);
    }
    assert_eq!(vec![1, 2], slot.as_ref().unwrap().polls);

    // After resuming it picks up exactly where it left off:
    handle.resume(&mut components);
    assert_eq!(ComponentState::Working, handle.state(&components));

    step(&mut components, &mut slot, 1);
    assert_eq!(vec![1, 2, 7], slot.as_ref().unwrap().polls);
}

#[test]
fn empty_scheduler_touches_no_simulator() {
    let mut components: Components<Task> = Components::new();

    // With zero components the pass is a no-op; in particular it does
    // not try to take the simulator out of its slot, so even an empty
    // slot is fine:
    let mut empty: Option<Sim> = None;
    components.run(&mut empty, CLOCK, AvrDuration::new(CLOCK, 1));
    assert!(empty.is_none());

    let mut slot = Some(Sim { step: 7, ..Sim::default() });
    components.run(&mut slot, CLOCK, AvrDuration::new(CLOCK, 1));
    assert_eq!(7, slot.as_ref().unwrap().step);
}

#[test]
fn two_togglers_follow_the_cycle_count() {
    let mut components: Components<Task> = Components::new();
    let mut slot = Some(Sim::default());

    components.add(toggler_a(5));
    components.add(toggler_b(15));

    // 20 steps of one cycle each: the 5-cycle toggler fires after steps
    // 5, 10, 15 and 20, the 15-cycle one after step 15 - matching an
    // independent cycle count.
    for _ in 0..20 {
        step(&mut components, &mut slot, 1);
    }

    let sim = slot.as_ref().unwrap();
    assert_eq!(vec![5, 10, 15, 20], sim.log_a);
    assert_eq!(vec![15], sim.log_b);
}

#[test]
fn component_added_between_passes_waits_for_the_next_pass() {
    let mut components: Components<Task> = Components::new();
    let mut slot = Some(Sim::default());

    components.add(Task::CountPolls);
    step(&mut components, &mut slot, 1);

    // A component registered after a pass has run is only advanced from
    // the following pass on - it is never retrofitted into an earlier
    // one.
    components.add(toggler_a(1));
    assert!(slot.as_ref().unwrap().log_a.is_empty());

    step(&mut components, &mut slot, 1);
    assert_eq!(vec![2], slot.as_ref().unwrap().log_a);
}

#[test]
fn handle_outlives_its_component() {
    let mut components: Components<Task> = Components::new();
    let mut slot = Some(Sim::default());

    let handle = components.add(Task::ResumeOnce { fut: ResumeFuture::new() });

    step(&mut components, &mut slot, 1);
    step(&mut components, &mut slot, 1);

    // The component completed and was evicted, but its lifecycle flag
    // survives, so the handle can still be read:
    assert_eq!(ComponentState::Working, handle.state(&components));
}
