//! The rules of dispatching, as mathematics: which task may run when, and
//! what is known of every state that these rules can reach.

use vstd::prelude::*;

verus! {

/// Where one launched task stands with respect to its permit.
#[derive(Clone, Copy, Debug, PartialEq, Eq, Structural)]
pub enum TaskPhase {
    /// The task sleeps through the startup delay.
    Delayed,
    /// The task waits at the acquisition point for a permit.
    Gated,
    /// The task holds a permit and runs.
    Active,
    /// The task has completed and given its permit back.
    Done,
}

/// The answer to a task that arrives at the acquisition point.
#[derive(Clone, Copy, Debug, PartialEq, Eq, Structural)]
pub enum Admission {
    /// A permit was free: the task holds it now and is to run.
    Start,
    /// All permits are held: the task waits its turn.
    Wait,
    /// The task is unknown or has arrived before: nothing changed.
    Ignored,
}

/// What can happen to a dispatcher.
pub enum DispatchEvent<T> {
    /// The startup delay of the task with this index is over.
    Arrived(usize),
    /// The task with this index has completed, with this outcome.
    Finished(usize, T),
}

/// The state of a dispatcher: the tasks in the order of the worklist.
pub struct DispatchModel<T> {
    /// The number of permits.
    pub ceiling: nat,
    /// The phase of each task.
    pub phases: Seq<TaskPhase>,
    /// The tasks that wait for a permit, the one that came first in front.
    pub waiting: Seq<usize>,
    /// The outcome of each task that has completed.
    pub outcomes: Seq<Option<T>>,
}

/// The number of tasks in `phases` that are in phase `phase`.
pub open spec fn count_phase(phases: Seq<TaskPhase>, phase: TaskPhase) -> nat
    decreases phases.len(),
{
    if phases.len() == 0 {
        0
    } else {
        count_phase(phases.drop_last(), phase) + if phases.last() == phase { 1nat } else { 0nat }
    }
}

impl<T> DispatchModel<T> {
    /// `tasks` tasks that all sleep through the startup delay, and
    /// `ceiling` free permits.
    pub open spec fn initial(ceiling: nat, tasks: nat) -> DispatchModel<T> {
        DispatchModel {
            ceiling,
            phases: Seq::new(tasks, |i: int| TaskPhase::Delayed),
            waiting: Seq::empty(),
            outcomes: Seq::new(tasks, |i: int| None),
        }
    }

    /// The number of tasks that hold a permit.
    pub open spec fn active(self) -> nat {
        count_phase(self.phases, TaskPhase::Active)
    }

    /// Whether every task has completed.
    pub open spec fn complete(self) -> bool {
        forall|i: int| 0 <= i < self.phases.len() ==> self.phases[i] == TaskPhase::Done
    }

    /// What holds of every state that a dispatcher can reach: no more
    /// tasks are active than there are permits; exactly the gated tasks
    /// wait, each once, and only while no permit is free; exactly the
    /// completed tasks have an outcome.
    pub open spec fn inv(self) -> bool {
        &&& self.outcomes.len() == self.phases.len()
        &&& self.active() <= self.ceiling
        &&& forall|k: int|
            0 <= k < self.waiting.len() ==> (#[trigger] self.waiting[k]) < self.phases.len()
                && self.phases[self.waiting[k] as int] == TaskPhase::Gated
        &&& forall|t: usize|
            t < self.phases.len() && self.phases[t as int] == TaskPhase::Gated
                ==> #[trigger] self.waiting.contains(t)
        &&& self.waiting.no_duplicates()
        &&& self.waiting.len() > 0 ==> self.active() == self.ceiling
        &&& forall|i: int|
            0 <= i < self.phases.len() ==> (self.phases[i] == TaskPhase::Done) == (
            #[trigger] self.outcomes[i] is Some)
    }

    /// A task arrives at the acquisition point when its delay is over. It
    /// gets a permit if one is free, and else joins the end of the queue.
    pub open spec fn arrive(self, task: usize) -> (DispatchModel<T>, Admission) {
        if task < self.phases.len() && self.phases[task as int] == TaskPhase::Delayed {
            if self.active() < self.ceiling {
                (
                    DispatchModel {
                        phases: self.phases.update(task as int, TaskPhase::Active),
                        ..self
                    },
                    Admission::Start,
                )
            } else {
                (
                    DispatchModel {
                        phases: self.phases.update(task as int, TaskPhase::Gated),
                        waiting: self.waiting.push(task),
                        ..self
                    },
                    Admission::Wait,
                )
            }
        } else {
            (self, Admission::Ignored)
        }
    }

    /// An active task completes: its outcome is kept and its permit
    /// passes to the task that has waited longest, if any waits. The second
    /// component names that task. Of a task that is not active nothing is
    /// taken.
    pub open spec fn finish(self, task: usize, outcome: T) -> (DispatchModel<T>, Option<usize>) {
        if task < self.phases.len() && self.phases[task as int] == TaskPhase::Active {
            let outcomes = self.outcomes.update(task as int, Some(outcome));
            let phases = self.phases.update(task as int, TaskPhase::Done);
            if self.waiting.len() > 0 {
                let next = self.waiting[0];
                (
                    DispatchModel {
                        phases: phases.update(next as int, TaskPhase::Active),
                        waiting: self.waiting.drop_first(),
                        outcomes,
                        ..self
                    },
                    Some(next),
                )
            } else {
                (DispatchModel { phases, outcomes, ..self }, None)
            }
        } else {
            (self, None)
        }
    }

    /// The state after `event`.
    pub open spec fn apply(self, event: DispatchEvent<T>) -> DispatchModel<T> {
        match event {
            DispatchEvent::Arrived(task) => self.arrive(task).0,
            DispatchEvent::Finished(task, outcome) => self.finish(task, outcome).0,
        }
    }

    /// The state after `events`, taken one after another.
    pub open spec fn run(self, events: Seq<DispatchEvent<T>>) -> DispatchModel<T>
        decreases events.len(),
    {
        if events.len() == 0 {
            self
        } else {
            self.run(events.drop_last()).apply(events.last())
        }
    }
}

/// No more tasks are in a phase than there are tasks, and all are in it
/// exactly when the count says so.
pub proof fn lemma_count_bounds(phases: Seq<TaskPhase>, phase: TaskPhase)
    ensures
        count_phase(phases, phase) <= phases.len(),
        count_phase(phases, phase) == phases.len() <==> forall|i: int|
            0 <= i < phases.len() ==> phases[i] == phase,
    decreases phases.len(),
{
    if phases.len() > 0 {
        let front = phases.drop_last();
        lemma_count_bounds(front, phase);
        if count_phase(phases, phase) == phases.len() {
            assert forall|i: int| 0 <= i < phases.len() implies phases[i] == phase by {
                if i < front.len() {
                    assert(front[i] == phase);
                }
            }
        }
        if forall|i: int| 0 <= i < phases.len() ==> phases[i] == phase {
            assert forall|i: int| 0 <= i < front.len() implies front[i] == phase by {
                assert(phases[i] == phase);
            }
        }
    }
}

/// Changing the phase of one task moves one unit of the count from its old
/// phase to its new one.
pub proof fn lemma_count_update(
    phases: Seq<TaskPhase>,
    i: int,
    to: TaskPhase,
    phase: TaskPhase,
)
    requires
        0 <= i < phases.len(),
    ensures
        count_phase(phases.update(i, to), phase) == count_phase(phases, phase) - (if phases[i]
            == phase {
            1int
        } else {
            0int
        }) + (if to == phase {
            1int
        } else {
            0int
        }),
    decreases phases.len(),
{
    let after = phases.update(i, to);
    if i == phases.len() - 1 {
        assert(after.drop_last() =~= phases.drop_last());
    } else {
        lemma_count_update(phases.drop_last(), i, to, phase);
        assert(after.drop_last() =~= phases.drop_last().update(i, to));
    }
}

/// No task is in a phase when all are in another.
pub proof fn lemma_count_initial(tasks: nat, phase: TaskPhase)
    requires
        phase != TaskPhase::Delayed,
    ensures
        count_phase(Seq::new(tasks, |i: int| TaskPhase::Delayed), phase) == 0,
    decreases tasks,
{
    if tasks > 0 {
        lemma_count_initial((tasks - 1) as nat, phase);
        assert(Seq::new(tasks, |i: int| TaskPhase::Delayed).drop_last() =~= Seq::new(
            (tasks - 1) as nat,
            |i: int| TaskPhase::Delayed,
        ));
    }
}

/// The initial state is one that a dispatcher can be in.
pub proof fn initial_is_valid<T>(ceiling: nat, tasks: nat)
    ensures
        DispatchModel::<T>::initial(ceiling, tasks).inv(),
        DispatchModel::<T>::initial(ceiling, tasks).active() == 0,
{
    lemma_count_initial(tasks, TaskPhase::Active);
}

/// An arrival leads from a valid state to a valid state.
pub proof fn arrive_keeps_inv<T>(model: DispatchModel<T>, task: usize)
    requires
        model.inv(),
    ensures
        model.arrive(task).0.inv(),
{
    let after = model.arrive(task).0;
    if task < model.phases.len() && model.phases[task as int] == TaskPhase::Delayed {
        if model.active() < model.ceiling {
            lemma_count_update(model.phases, task as int, TaskPhase::Active, TaskPhase::Active);
            assert(model.waiting.len() == 0) by {
                if model.waiting.len() > 0 {
                    assert(model.active() == model.ceiling);
                }
            }
            assert forall|t: usize|
                t < after.phases.len() && after.phases[t as int]
                    == TaskPhase::Gated implies #[trigger] after.waiting.contains(t) by {
                assert(model.phases[t as int] == TaskPhase::Gated);
                assert(model.waiting.contains(t));
            }
        } else {
            lemma_count_update(model.phases, task as int, TaskPhase::Gated, TaskPhase::Active);
            assert forall|k: int| 0 <= k < after.waiting.len() implies (
            #[trigger] after.waiting[k]) < after.phases.len() && after.phases[after.waiting[k] as int]
                == TaskPhase::Gated by {
                if k < model.waiting.len() {
                    assert(model.waiting[k] == after.waiting[k]);
                    assert(model.phases[model.waiting[k] as int] == TaskPhase::Gated);
                }
            }
            assert forall|t: usize|
                t < after.phases.len() && after.phases[t as int]
                    == TaskPhase::Gated implies #[trigger] after.waiting.contains(t) by {
                if t == task {
                    assert(after.waiting[model.waiting.len() as int] == task);
                } else {
                    assert(model.phases[t as int] == TaskPhase::Gated);
                    assert(model.waiting.contains(t));
                    let k = choose|k: int| 0 <= k < model.waiting.len() && model.waiting[k] == t;
                    assert(after.waiting[k] == t);
                }
            }
            assert(after.waiting.no_duplicates()) by {
                assert forall|a: int, b: int|
                    0 <= a < after.waiting.len() && 0 <= b < after.waiting.len() && a
                        != b implies after.waiting[a] != after.waiting[b] by {
                    if a < model.waiting.len() {
                        assert(model.phases[model.waiting[a] as int] == TaskPhase::Gated);
                    }
                    if b < model.waiting.len() {
                        assert(model.phases[model.waiting[b] as int] == TaskPhase::Gated);
                    }
                }
            }
        }
    }
}

/// A completion leads from a valid state to a valid state.
pub proof fn finish_keeps_inv<T>(model: DispatchModel<T>, task: usize, outcome: T)
    requires
        model.inv(),
    ensures
        model.finish(task, outcome).0.inv(),
{
    let after = model.finish(task, outcome).0;
    if task < model.phases.len() && model.phases[task as int] == TaskPhase::Active {
        let phases = model.phases.update(task as int, TaskPhase::Done);
        lemma_count_update(model.phases, task as int, TaskPhase::Done, TaskPhase::Active);
        if model.waiting.len() > 0 {
            let next = model.waiting[0];
            assert(model.phases[next as int] == TaskPhase::Gated);
            lemma_count_update(phases, next as int, TaskPhase::Active, TaskPhase::Active);
            assert forall|k: int| 0 <= k < after.waiting.len() implies (
            #[trigger] after.waiting[k]) < after.phases.len() && after.phases[after.waiting[k] as int]
                == TaskPhase::Gated by {
                assert(after.waiting[k] == model.waiting[k + 1]);
                assert(model.phases[model.waiting[k + 1] as int] == TaskPhase::Gated);
            }
            assert forall|t: usize|
                t < after.phases.len() && after.phases[t as int]
                    == TaskPhase::Gated implies #[trigger] after.waiting.contains(t) by {
                assert(model.phases[t as int] == TaskPhase::Gated);
                assert(model.waiting.contains(t));
                let k = choose|k: int| 0 <= k < model.waiting.len() && model.waiting[k] == t;
                assert(after.waiting[k - 1] == t);
            }
            assert(after.waiting.no_duplicates()) by {
                assert forall|a: int, b: int|
                    0 <= a < after.waiting.len() && 0 <= b < after.waiting.len() && a
                        != b implies after.waiting[a] != after.waiting[b] by {
                    assert(after.waiting[a] == model.waiting[a + 1]);
                    assert(after.waiting[b] == model.waiting[b + 1]);
                }
            }
        } else {
            assert forall|t: usize|
                t < after.phases.len() && after.phases[t as int]
                    == TaskPhase::Gated implies #[trigger] after.waiting.contains(t) by {
                assert(model.phases[t as int] == TaskPhase::Gated);
                assert(model.waiting.contains(t));
            }
        }
    }
}

/// Whatever happens, in whatever order, a dispatcher stays valid.
pub proof fn run_keeps_inv<T>(model: DispatchModel<T>, events: Seq<DispatchEvent<T>>)
    requires
        model.inv(),
    ensures
        model.run(events).inv(),
        model.run(events).ceiling == model.ceiling,
        model.run(events).phases.len() == model.phases.len(),
    decreases events.len(),
{
    if events.len() > 0 {
        run_keeps_inv(model, events.drop_last());
        let before = model.run(events.drop_last());
        match events.last() {
            DispatchEvent::Arrived(task) => arrive_keeps_inv(before, task),
            DispatchEvent::Finished(task, outcome) => finish_keeps_inv(before, task, outcome),
        }
    }
}

/// However many tasks are dispatched and whatever happens to them, in
/// whatever order: at no instant do more tasks hold a permit than the
/// ceiling allows.
pub proof fn active_never_exceeds_ceiling<T>(
    ceiling: nat,
    tasks: nat,
    events: Seq<DispatchEvent<T>>,
)
    ensures
        DispatchModel::<T>::initial(ceiling, tasks).run(events).active() <= ceiling,
{
    initial_is_valid::<T>(ceiling, tasks);
    run_keeps_inv(DispatchModel::<T>::initial(ceiling, tasks), events);
}

/// Whether each completion among `events` reports, for its task, the
/// outcome that `expected` holds for that task.
pub open spec fn reports<T>(events: Seq<DispatchEvent<T>>, expected: Seq<T>) -> bool {
    forall|k: int|
        0 <= k < events.len() ==> match #[trigger] events[k] {
            DispatchEvent::Arrived(_) => true,
            DispatchEvent::Finished(task, outcome) => task < expected.len() ==> outcome
                == expected[task as int],
        }
}

/// Whether each outcome that `model` holds is the one that `expected`
/// holds for the same task.
pub open spec fn agrees<T>(model: DispatchModel<T>, expected: Seq<T>) -> bool {
    forall|i: int|
        0 <= i < model.outcomes.len() && i < expected.len() ==> match #[trigger] model.outcomes[i] {
            Some(outcome) => outcome == expected[i],
            None => true,
        }
}

/// A dispatcher keeps for each task the outcome that was reported for it,
/// and no other.
pub proof fn run_keeps_reported<T>(
    model: DispatchModel<T>,
    events: Seq<DispatchEvent<T>>,
    expected: Seq<T>,
)
    requires
        model.inv(),
        agrees(model, expected),
        reports(events, expected),
    ensures
        agrees(model.run(events), expected),
    decreases events.len(),
{
    if events.len() > 0 {
        let front = events.drop_last();
        assert forall|k: int| 0 <= k < front.len() implies match #[trigger] front[k] {
            DispatchEvent::Arrived(_) => true,
            DispatchEvent::Finished(task, outcome) => task < expected.len() ==> outcome
                == expected[task as int],
        } by {
            assert(front[k] == events[k]);
        }
        run_keeps_reported(model, front, expected);
        run_keeps_inv(model, front);
        let before = model.run(front);
        let after = before.apply(events.last());
        assert(events[events.len() - 1] == events.last());
        assert forall|i: int|
            0 <= i < after.outcomes.len() && i < expected.len() implies match #[trigger] after.outcomes[i] {
            Some(outcome) => outcome == expected[i],
            None => true,
        } by {
            match events.last() {
                DispatchEvent::Arrived(task) => {
                    assert(after.outcomes[i] == before.outcomes[i]);
                },
                DispatchEvent::Finished(task, outcome) => {
                    if !(task < before.phases.len() && before.phases[task as int]
                        == TaskPhase::Active && i == task) {
                        assert(after.outcomes[i] == before.outcomes[i]);
                    }
                },
            }
        }
    }
}

/// Running the same worklist twice gives each identity the same outcome:
/// when in both runs every task reports the outcome that its own replies
/// lead to, then, whatever the ceilings and in whatever order the tasks
/// arrived and completed, both runs hold the same outcomes once they are
/// complete, each at the place of its task in the worklist. The startup
/// delay has no part in this: it moves the arrivals in time and nothing
/// else.
pub proof fn outcomes_independent_of_schedule<T>(
    expected: Seq<T>,
    ceiling_a: nat,
    events_a: Seq<DispatchEvent<T>>,
    ceiling_b: nat,
    events_b: Seq<DispatchEvent<T>>,
)
    requires
        reports(events_a, expected),
        reports(events_b, expected),
        DispatchModel::<T>::initial(ceiling_a, expected.len()).run(events_a).complete(),
        DispatchModel::<T>::initial(ceiling_b, expected.len()).run(events_b).complete(),
    ensures
        DispatchModel::<T>::initial(ceiling_a, expected.len()).run(events_a).outcomes
            == DispatchModel::<T>::initial(ceiling_b, expected.len()).run(events_b).outcomes,
        DispatchModel::<T>::initial(ceiling_a, expected.len()).run(events_a).outcomes
            == Seq::new(expected.len(), |i: int| Some(expected[i])),
{
    let n = expected.len();
    let start_a = DispatchModel::<T>::initial(ceiling_a, n);
    let start_b = DispatchModel::<T>::initial(ceiling_b, n);
    initial_is_valid::<T>(ceiling_a, n);
    initial_is_valid::<T>(ceiling_b, n);
    run_keeps_inv(start_a, events_a);
    run_keeps_inv(start_b, events_b);
    run_keeps_reported(start_a, events_a, expected);
    run_keeps_reported(start_b, events_b, expected);
    let end_a = start_a.run(events_a);
    let end_b = start_b.run(events_b);
    let all = Seq::new(n, |i: int| Some(expected[i]));
    assert forall|i: int| 0 <= i < n implies end_a.outcomes[i] == all[i] by {
        assert(end_a.phases[i] == TaskPhase::Done);
        assert(end_a.outcomes[i] is Some);
    }
    assert forall|i: int| 0 <= i < n implies end_b.outcomes[i] == all[i] by {
        assert(end_b.phases[i] == TaskPhase::Done);
        assert(end_b.outcomes[i] is Some);
    }
    assert(end_a.outcomes =~= all);
    assert(end_b.outcomes =~= all);
}

/// The place of a phase in the life of a task.
pub open spec fn phase_rank(phase: TaskPhase) -> nat {
    match phase {
        TaskPhase::Delayed => 0,
        TaskPhase::Gated => 1,
        TaskPhase::Active => 2,
        TaskPhase::Done => 3,
    }
}

/// A dispatcher does not look at the outcome that it is handed: whether a
/// task succeeded or failed, its permit passes on in the same way, and no
/// other task is touched but the one that gets the permit.
pub proof fn outcome_is_not_inspected<T>(model: DispatchModel<T>, task: usize, one: T, other: T)
    requires
        model.inv(),
    ensures
        model.finish(task, one).1 == model.finish(task, other).1,
        model.finish(task, one).0.phases == model.finish(task, other).0.phases,
        model.finish(task, one).0.waiting == model.finish(task, other).0.waiting,
        forall|i: int|
            0 <= i < model.outcomes.len() && i != task ==> #[trigger] model.finish(
                task,
                one,
            ).0.outcomes[i] == model.outcomes[i],
{
}

/// Each task moves through its phases in one direction only, so that it
/// becomes active once at most: an event leaves the phase of a task as it
/// is or moves it to a later one, and only to `Done` from `Active`.
pub proof fn tasks_only_advance<T>(model: DispatchModel<T>, event: DispatchEvent<T>, i: int)
    requires
        model.inv(),
        0 <= i < model.phases.len(),
    ensures
        model.apply(event).phases.len() == model.phases.len(),
        phase_rank(model.phases[i]) <= phase_rank(model.apply(event).phases[i]),
        model.apply(event).phases[i] == TaskPhase::Done && model.phases[i] != TaskPhase::Done
            ==> model.phases[i] == TaskPhase::Active,
        model.apply(event).phases[i] == TaskPhase::Active && model.phases[i] != TaskPhase::Active
            ==> model.phases[i] == TaskPhase::Delayed || model.phases[i] == TaskPhase::Gated,
{
    match event {
        DispatchEvent::Arrived(task) => {},
        DispatchEvent::Finished(task, outcome) => {
            if task < model.phases.len() && model.phases[task as int] == TaskPhase::Active
                && model.waiting.len() > 0 {
                let next = model.waiting[0];
                assert(model.phases[next as int] == TaskPhase::Gated);
            }
        },
    }
}

} // verus!
