//! Admission control: the pause flag that follows the CPU load, the wait of
//! each task before it probes, and the count of concurrency slots.
//!
//! CPU load and ceiling are whole numbers of thousandths of a percent, so that
//! 50 % is 50000.

use vstd::prelude::*;

verus! {

/// The distance above the ceiling at which the run pauses: 4 %.
pub const HYSTERESIS_MILLI: u32 = 4000;

/// The time between two samples of the CPU load, in milliseconds.
pub const SAMPLE_PERIOD_MILLIS: u64 = 256;

/// The least and the greatest CPU ceiling: 1 % and 100 %.
pub const MIN_CPU_MILLI: u32 = 1000;

pub const MAX_CPU_MILLI: u32 = 100000;

/// Whether a load is above the ceiling by more than the margin.
pub open spec fn overloaded(usage_milli: u32, max_cpu_milli: u32) -> bool {
    usage_milli > max_cpu_milli + HYSTERESIS_MILLI
}

/// The pause flag shared by the controller, which alone writes it, and the
/// tasks, which read it.
#[derive(Clone, Copy, Debug, PartialEq, Eq, Structural)]
pub struct ThrottleState {
    pub paused: bool,
}

/// What the controller does after a sample.
#[derive(Clone, Copy, Debug, PartialEq, Eq, Structural)]
pub enum Signal {
    /// Nothing to tell the tasks.
    Quiet,
    /// Wake every task that waits for the pause to end.
    WakeAll,
}

/// The state after a sample: paused exactly when the load is over the margin.
pub open spec fn state_after(state: ThrottleState, usage_milli: u32, max_cpu_milli: u32)
    -> ThrottleState {
    ThrottleState { paused: overloaded(usage_milli, max_cpu_milli) }
}

/// The signal after a sample: the waiting tasks are woken when a pause ends,
/// and only then.
pub open spec fn signal_after(state: ThrottleState, usage_milli: u32, max_cpu_milli: u32)
    -> Signal {
    if state.paused && !overloaded(usage_milli, max_cpu_milli) {
        Signal::WakeAll
    } else {
        Signal::Quiet
    }
}

impl ThrottleState {
    /// A run starts unpaused.
    pub fn new() -> (s: ThrottleState)
        ensures
            !s.paused,
    {
        ThrottleState { paused: false }
    }

    /// Takes one sample of the CPU load into the state and says whether the
    /// waiting tasks are to be woken.
    pub fn sample(&mut self, usage_milli: u32, max_cpu_milli: u32) -> (signal: Signal)
        ensures
            *final(self) == state_after(*old(self), usage_milli, max_cpu_milli),
            signal == signal_after(*old(self), usage_milli, max_cpu_milli),
    {
        let over: bool = usage_milli as u64 > max_cpu_milli as u64 + HYSTERESIS_MILLI as u64;
        let was_paused: bool = self.paused;
        self.paused = over;
        if was_paused && !over {
            Signal::WakeAll
        } else {
            Signal::Quiet
        }
    }

    /// Whether a task that holds a slot may start its probe now. While the
    /// run is paused it may not: it waits for the wake-up and asks again.
    pub fn may_proceed(&self) -> (go: bool)
        ensures
            go == !self.paused,
    {
        !self.paused
    }
}

/// Where a task stands on its way to a probe.
#[derive(Clone, Copy, Debug, PartialEq, Eq, Structural)]
pub enum TaskPhase {
    /// It waits for a concurrency slot.
    Queued,
    /// It holds a slot and has not begun its probe: it waits while the run is paused.
    Admitted,
    /// It holds a slot and its probe runs.
    Probing,
    /// Its probe is over and its slot is given back.
    Done,
}

/// Whether a task in this phase holds a slot.
pub open spec fn holds_slot(phase: TaskPhase) -> bool {
    phase == TaskPhase::Admitted || phase == TaskPhase::Probing
}

/// How many of the tasks hold a slot.
pub open spec fn slots_held(phases: Seq<TaskPhase>) -> nat
    decreases phases.len(),
{
    if phases.len() == 0 {
        0
    } else {
        slots_held(phases.drop_last()) + if holds_slot(phases.last()) {
            1nat
        } else {
            0nat
        }
    }
}

/// Changing one task's phase changes the count by that task alone.
pub proof fn slots_held_update(phases: Seq<TaskPhase>, i: int, phase: TaskPhase)
    requires
        0 <= i < phases.len(),
    ensures
        slots_held(phases.update(i, phase)) + (if holds_slot(phases[i]) {
            1nat
        } else {
            0nat
        }) == slots_held(phases) + (if holds_slot(phase) {
            1nat
        } else {
            0nat
        }),
    decreases phases.len(),
{
    if i == phases.len() - 1 {
        assert(phases.update(i, phase).drop_last() =~= phases.drop_last());
    } else {
        assert(phases.update(i, phase).drop_last() =~= phases.drop_last().update(i, phase));
        slots_held_update(phases.drop_last(), i, phase);
    }
}

/// The tasks of a run with the limiter and the pause flag that hold them back.
pub struct Admission {
    limit: usize,
    held: usize,
    phases: Vec<TaskPhase>,
    throttle: ThrottleState,
}

impl Admission {
    /// The invariant: the slots held are counted right and never exceed the limit.
    pub closed spec fn wf(&self) -> bool {
        &&& self.held == slots_held(self.phases@)
        &&& self.held <= self.limit
    }

    /// The concurrency limit.
    pub closed spec fn limit_of(&self) -> nat {
        self.limit as nat
    }

    /// The phase of each task.
    pub closed spec fn phases_of(&self) -> Seq<TaskPhase> {
        self.phases@
    }

    /// Whether the run is paused.
    pub closed spec fn paused(&self) -> bool {
        self.throttle.paused
    }

    /// At no point do more tasks hold a slot than the limit allows, those that
    /// wait out a pause included.
    pub proof fn slots_never_exceed_limit(&self)
        requires
            self.wf(),
        ensures
            slots_held(self.phases_of()) <= self.limit_of(),
    {
    }

    /// While the run is paused no task can begin its probe; once the pause is
    /// over every task that holds a slot and waits can.
    pub proof fn pause_holds_every_waiting_task(&self, task: int)
        requires
            self.wf(),
            0 <= task < self.phases_of().len(),
            self.phases_of()[task] == TaskPhase::Admitted,
        ensures
            self.paused() ==> !self.can_begin(task),
            !self.paused() ==> self.can_begin(task),
    {
    }

    /// Whether `begin` lets task `task` start its probe.
    pub open spec fn can_begin(&self, task: int) -> bool {
        0 <= task < self.phases_of().len() && self.phases_of()[task] == TaskPhase::Admitted
            && !self.paused()
    }

    /// `tasks` queued tasks, no slot taken, not paused.
    pub fn new(limit: usize, tasks: usize) -> (a: Admission)
        ensures
            a.wf(),
            a.limit_of() == limit,
            a.phases_of() == Seq::new(tasks as nat, |i: int| TaskPhase::Queued),
            !a.paused(),
    {
        let mut phases: Vec<TaskPhase> = Vec::new();
        let mut i: usize = 0;
        while i < tasks
            invariant
                i <= tasks,
                phases@ == Seq::new(i as nat, |k: int| TaskPhase::Queued),
                slots_held(phases@) == 0,
            decreases tasks - i,
        {
            let ghost before = phases@;
            phases.push(TaskPhase::Queued);
            proof {
                assert(phases@.drop_last() =~= before);
                assert(phases@ =~= Seq::new((i + 1) as nat, |k: int| TaskPhase::Queued));
            }
            i += 1;
        }
        Admission { limit, held: 0, phases, throttle: ThrottleState { paused: false } }
    }

    /// How many slots are taken: never more than the limit.
    pub fn held(&self) -> (n: usize)
        requires
            self.wf(),
        ensures
            n == slots_held(self.phases_of()),
            n <= self.limit_of(),
    {
        self.held
    }

    /// The phase of task `task`.
    pub fn phase(&self, task: usize) -> (p: Option<TaskPhase>)
        ensures
            p == if task < self.phases_of().len() {
                Some(self.phases_of()[task as int])
            } else {
                None::<TaskPhase>
            },
    {
        if task < self.phases.len() {
            Some(self.phases[task])
        } else {
            None
        }
    }

    /// Gives task `task` a slot if it is queued and one is free. A pause does
    /// not keep a task from taking a slot.
    pub fn grant(&mut self, task: usize) -> (granted: bool)
        requires
            old(self).wf(),
        ensures
            final(self).wf(),
            final(self).limit_of() == old(self).limit_of(),
            final(self).paused() == old(self).paused(),
            granted == (task < old(self).phases_of().len() && old(self).phases_of()[task as int]
                == TaskPhase::Queued && slots_held(old(self).phases_of()) < old(self).limit_of()),
            final(self).phases_of() == if granted {
                old(self).phases_of().update(task as int, TaskPhase::Admitted)
            } else {
                old(self).phases_of()
            },
    {
        if task < self.phases.len() && self.phases[task] == TaskPhase::Queued && self.held
            < self.limit {
            proof {
                slots_held_update(self.phases@, task as int, TaskPhase::Admitted);
            }
            self.phases.set(task, TaskPhase::Admitted);
            self.held = self.held + 1;
            true
        } else {
            false
        }
    }

    /// Lets task `task` begin its probe if it holds a slot and the run is not
    /// paused. It keeps its slot either way.
    pub fn begin(&mut self, task: usize) -> (started: bool)
        requires
            old(self).wf(),
        ensures
            final(self).wf(),
            final(self).limit_of() == old(self).limit_of(),
            final(self).paused() == old(self).paused(),
            started == old(self).can_begin(task as int),
            final(self).phases_of() == if started {
                old(self).phases_of().update(task as int, TaskPhase::Probing)
            } else {
                old(self).phases_of()
            },
            slots_held(final(self).phases_of()) == slots_held(old(self).phases_of()),
    {
        if task < self.phases.len() && self.phases[task] == TaskPhase::Admitted
            && !self.throttle.paused {
            proof {
                slots_held_update(self.phases@, task as int, TaskPhase::Probing);
            }
            self.phases.set(task, TaskPhase::Probing);
            true
        } else {
            false
        }
    }

    /// Ends the probe of task `task` and gives its slot back.
    pub fn finish(&mut self, task: usize) -> (ended: bool)
        requires
            old(self).wf(),
        ensures
            final(self).wf(),
            final(self).limit_of() == old(self).limit_of(),
            final(self).paused() == old(self).paused(),
            ended == (task < old(self).phases_of().len() && old(self).phases_of()[task as int]
                == TaskPhase::Probing),
            final(self).phases_of() == if ended {
                old(self).phases_of().update(task as int, TaskPhase::Done)
            } else {
                old(self).phases_of()
            },
    {
        if task < self.phases.len() && self.phases[task] == TaskPhase::Probing {
            proof {
                slots_held_update(self.phases@, task as int, TaskPhase::Done);
            }
            self.phases.set(task, TaskPhase::Done);
            self.held = self.held - 1;
            true
        } else {
            false
        }
    }

    /// Takes one sample of the CPU load. No task changes its phase and no
    /// slot changes hands; only the pause flag follows the load.
    pub fn sample(&mut self, usage_milli: u32, max_cpu_milli: u32) -> (signal: Signal)
        requires
            old(self).wf(),
        ensures
            final(self).wf(),
            final(self).limit_of() == old(self).limit_of(),
            final(self).phases_of() == old(self).phases_of(),
            final(self).paused() == overloaded(usage_milli, max_cpu_milli),
            signal == if old(self).paused() && !overloaded(usage_milli, max_cpu_milli) {
                Signal::WakeAll
            } else {
                Signal::Quiet
            },
    {
        let mut throttle = self.throttle;
        let signal = throttle.sample(usage_milli, max_cpu_milli);
        self.throttle = throttle;
        signal
    }
}

} // verus!
