//! The dispatcher: one task per worklist pair, a ceiling on how many of
//! them run at once, and a place for each outcome.
//!
//! The dispatcher decides; it does not run anything. Its driver starts a
//! task when told to, and reports each arrival at the acquisition point and
//! each completion.

use vstd::prelude::*;
use crate::chance::random_between;
use crate::dispatch_model::{
    arrive_keeps_inv, count_phase, finish_keeps_inv, initial_is_valid, lemma_count_bounds,
    lemma_count_initial, lemma_count_update, Admission, DispatchModel, TaskPhase,
};

verus! {

/// The concurrency ceiling that is used where none is given.
pub const DEFAULT_CEILING: usize = 5;

/// The shortest startup delay, in seconds.
pub const JITTER_MIN_SECS: u64 = 2;

/// The bound below which every startup delay lies, in seconds.
pub const JITTER_END_SECS: u64 = 5;

/// The tasks of one worklist, their permits and their outcomes.
pub struct Dispatcher<T> {
    ceiling: usize,
    jitter_secs: u64,
    phases: Vec<TaskPhase>,
    waiting: Vec<usize>,
    outcomes: Vec<Option<T>>,
    active: usize,
    done: usize,
}

impl<T> View for Dispatcher<T> {
    type V = DispatchModel<T>;

    closed spec fn view(&self) -> DispatchModel<T> {
        DispatchModel {
            ceiling: self.ceiling as nat,
            phases: self.phases@,
            waiting: self.waiting@,
            outcomes: self.outcomes@,
        }
    }
}

impl<T> Dispatcher<T> {
    /// Whether the dispatcher is in a state that its own operations lead
    /// to. Every operation keeps it so.
    pub closed spec fn wf(&self) -> bool {
        &&& self@.inv()
        &&& self.active == self@.active()
        &&& self.done == count_phase(self.phases@, TaskPhase::Done)
    }

    /// The startup delay of this invocation, in seconds: one value, the
    /// same for every task.
    pub closed spec fn jitter(&self) -> nat {
        self.jitter_secs as nat
    }

    /// A valid dispatcher is in a valid state: in particular no more tasks
    /// are active than the ceiling allows.
    pub proof fn valid_state(&self)
        requires
            self.wf(),
        ensures
            self@.inv(),
            self@.active() <= self@.ceiling,
    {
    }

    /// A dispatcher for `tasks` tasks with `ceiling` permits and the given
    /// startup delay. Every task still sleeps through the delay.
    pub fn new(ceiling: usize, jitter_secs: u64, tasks: usize) -> (dispatcher: Dispatcher<T>)
        ensures
            dispatcher.wf(),
            dispatcher@ == DispatchModel::<T>::initial(ceiling as nat, tasks as nat),
            dispatcher@.active() == 0,
            dispatcher.jitter() == jitter_secs,
    {
        let mut phases: Vec<TaskPhase> = Vec::new();
        let mut outcomes: Vec<Option<T>> = Vec::new();
        let mut i: usize = 0;
        while i < tasks
            invariant
                i <= tasks,
                phases@ =~= Seq::new(i as nat, |k: int| TaskPhase::Delayed),
                outcomes@ =~= Seq::new(i as nat, |k: int| None::<T>),
            decreases tasks - i,
        {
            phases.push(TaskPhase::Delayed);
            outcomes.push(None);
            i = i + 1;
        }
        let dispatcher = Dispatcher {
            ceiling,
            jitter_secs,
            phases,
            waiting: Vec::new(),
            outcomes,
            active: 0,
            done: 0,
        };
        proof {
            initial_is_valid::<T>(ceiling as nat, tasks as nat);
            lemma_count_initial(tasks as nat, TaskPhase::Done);
            assert(dispatcher@.waiting =~= Seq::<usize>::empty());
            assert(dispatcher@ == DispatchModel::<T>::initial(ceiling as nat, tasks as nat));
        }
        dispatcher
    }

    /// A dispatcher for `tasks` tasks with `ceiling` permits, whose startup
    /// delay is drawn at random, once, from `JITTER_MIN_SECS` up to but not
    /// including `JITTER_END_SECS`.
    pub fn with_random_jitter(ceiling: usize, tasks: usize) -> (dispatcher: Dispatcher<T>)
        ensures
            dispatcher.wf(),
            dispatcher@ == DispatchModel::<T>::initial(ceiling as nat, tasks as nat),
            dispatcher@.active() == 0,
            JITTER_MIN_SECS <= dispatcher.jitter() < JITTER_END_SECS,
    {
        let jitter_secs = random_between(JITTER_MIN_SECS, JITTER_END_SECS);
        Dispatcher::new(ceiling, jitter_secs, tasks)
    }

    /// The number of permits.
    pub fn ceiling(&self) -> (ceiling: usize)
        ensures
            ceiling == self@.ceiling,
    {
        self.ceiling
    }

    /// The startup delay that every task sleeps before it arrives.
    pub fn jitter_secs(&self) -> (secs: u64)
        ensures
            secs == self.jitter(),
    {
        self.jitter_secs
    }

    /// The number of tasks.
    pub fn task_count(&self) -> (tasks: usize)
        ensures
            tasks == self@.phases.len(),
    {
        self.phases.len()
    }

    /// The number of tasks that hold a permit. It never exceeds the
    /// ceiling.
    pub fn active_count(&self) -> (active: usize)
        requires
            self.wf(),
        ensures
            active == self@.active(),
            active <= self@.ceiling,
    {
        self.active
    }

    /// The phase of `task`; `None` for a task that does not exist.
    pub fn phase(&self, task: usize) -> (phase: Option<TaskPhase>)
        ensures
            phase == if task < self@.phases.len() {
                Some(self@.phases[task as int])
            } else {
                None
            },
    {
        if task < self.phases.len() {
            Some(self.phases[task])
        } else {
            None
        }
    }

    /// Whether every task has completed.
    pub fn is_complete(&self) -> (complete: bool)
        requires
            self.wf(),
        ensures
            complete == self@.complete(),
    {
        proof {
            lemma_count_bounds(self.phases@, TaskPhase::Done);
        }
        self.done == self.phases.len()
    }

    /// Reports that the startup delay of `task` is over. The task gets a
    /// permit if one is free and else joins the queue.
    pub fn arrive(&mut self, task: usize) -> (admission: Admission)
        requires
            old(self).wf(),
        ensures
            final(self).wf(),
            final(self)@ == old(self)@.arrive(task).0,
            admission == old(self)@.arrive(task).1,
            final(self).jitter() == old(self).jitter(),
    {
        proof {
            arrive_keeps_inv(self@, task);
        }
        if task >= self.phases.len() {
            return Admission::Ignored;
        }
        match self.phases[task] {
            TaskPhase::Delayed => {},
            _ => {
                return Admission::Ignored;
            },
        }
        if self.active < self.ceiling {
            proof {
                lemma_count_update(self.phases@, task as int, TaskPhase::Active, TaskPhase::Active);
                lemma_count_update(self.phases@, task as int, TaskPhase::Active, TaskPhase::Done);
            }
            self.phases.set(task, TaskPhase::Active);
            self.active = self.active + 1;
            Admission::Start
        } else {
            proof {
                lemma_count_update(self.phases@, task as int, TaskPhase::Gated, TaskPhase::Active);
                lemma_count_update(self.phases@, task as int, TaskPhase::Gated, TaskPhase::Done);
            }
            self.phases.set(task, TaskPhase::Gated);
            self.waiting.push(task);
            Admission::Wait
        }
    }

    /// Reports that `task` has completed with `outcome`. The outcome is
    /// kept, and the permit passes to the task that has waited longest:
    /// the result names it, and the driver is to start it. Nothing is taken
    /// of a task that is not active.
    pub fn finish(&mut self, task: usize, outcome: T) -> (next: Option<usize>)
        requires
            old(self).wf(),
        ensures
            final(self).wf(),
            final(self)@ == old(self)@.finish(task, outcome).0,
            next == old(self)@.finish(task, outcome).1,
            final(self).jitter() == old(self).jitter(),
    {
        proof {
            finish_keeps_inv(self@, task, outcome);
            lemma_count_bounds(self.phases@, TaskPhase::Done);
        }
        if task >= self.phases.len() {
            return None;
        }
        match self.phases[task] {
            TaskPhase::Active => {},
            _ => {
                return None;
            },
        }
        proof {
            lemma_count_update(self.phases@, task as int, TaskPhase::Done, TaskPhase::Active);
            lemma_count_update(self.phases@, task as int, TaskPhase::Done, TaskPhase::Done);
        }
        self.phases.set(task, TaskPhase::Done);
        self.outcomes.set(task, Some(outcome));
        self.done = self.done + 1;
        if self.waiting.len() > 0 {
            let next = self.waiting.remove(0);
            proof {
                assert(self.waiting@ =~= old(self).waiting@.drop_first());
                lemma_count_update(self.phases@, next as int, TaskPhase::Active, TaskPhase::Active);
                lemma_count_update(self.phases@, next as int, TaskPhase::Active, TaskPhase::Done);
            }
            self.phases.set(next, TaskPhase::Active);
            Some(next)
        } else {
            self.active = self.active - 1;
            None
        }
    }

    /// The outcome of `task`, once it has completed.
    pub fn outcome(&self, task: usize) -> (outcome: Option<&T>)
        requires
            self.wf(),
        ensures
            outcome == if task < self@.outcomes.len() {
                match self@.outcomes[task as int] {
                    Some(o) => Some(&o),
                    None => None,
                }
            } else {
                None::<&T>
            },
    {
        if task < self.outcomes.len() {
            self.outcomes[task].as_ref()
        } else {
            None
        }
    }

    /// Gives up the dispatcher for the outcomes it has collected: one place
    /// for each task, in the order of the worklist.
    pub fn into_outcomes(self) -> (outcomes: Vec<Option<T>>)
        ensures
            outcomes@ == self@.outcomes,
    {
        self.outcomes
    }
}

} // verus!
