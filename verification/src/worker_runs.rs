//! Whole runs of a task worker, and what holds of every such run.

use vstd::prelude::*;
use crate::errors::TaskError;
use crate::solver::{ChallengeSolver, SolverEvent, SolverPhase, MAX_RETRIES};
use crate::solver_runs;
use crate::worker::{TaskWorker, Verdict, WorkerAction, WorkerEvent, WorkerStage};

verus! {

/// The state that `worker` reaches when it takes `events` one after another.
pub open spec fn run(worker: TaskWorker, events: Seq<WorkerEvent>) -> TaskWorker
    decreases events.len(),
{
    if events.len() == 0 {
        worker
    } else {
        run(worker, events.drop_last()).next_state(events.last())
    }
}

/// The actions with which `worker` answers `events`, one for each event.
pub open spec fn emitted(worker: TaskWorker, events: Seq<WorkerEvent>) -> Seq<WorkerAction>
    decreases events.len(),
{
    if events.len() == 0 {
        Seq::empty()
    } else {
        emitted(worker, events.drop_last()).push(
            run(worker, events.drop_last()).response(events.last()),
        )
    }
}

/// Whether `action` sends anything over the network.
pub open spec fn uses_network(action: WorkerAction) -> bool {
    action is Probe || action is CreateChallenge || action is PollChallenge || action is Submit
}

/// The place of a stage in the order of the workflow.
pub open spec fn rank(stage: WorkerStage) -> nat {
    match stage {
        WorkerStage::Pending => 0,
        WorkerStage::ClientBuilt => 1,
        WorkerStage::ProxyVerified => 2,
        WorkerStage::ChallengeSolved => 3,
        WorkerStage::Submitted => 4,
        WorkerStage::Failed(_) => 5,
    }
}

/// The number of polls among `actions`.
pub open spec fn polls_in(actions: Seq<WorkerAction>) -> nat
    decreases actions.len(),
{
    if actions.len() == 0 {
        0
    } else {
        polls_in(actions.drop_last()) + if actions.last() is PollChallenge { 1nat } else { 0nat }
    }
}

/// The steps are taken in order: one event leaves the stage as it is,
/// moves it to the stage that follows, or ends the task in a failure; and
/// each request is sent from the one stage that it belongs to.
pub proof fn steps_in_order(worker: TaskWorker, event: WorkerEvent)
    ensures
        ({
            let next = worker.next_state(event);
            let action = worker.response(event);
            &&& next.stage == worker.stage || rank(next.stage) == rank(worker.stage) + 1
                || (next.stage is Failed && !worker.is_over())
            &&& action is BuildClient ==> worker.stage == WorkerStage::Pending
            &&& action is Probe ==> worker.stage == WorkerStage::Pending && next.stage
                == WorkerStage::ClientBuilt
            &&& action is CreateChallenge ==> next.stage == WorkerStage::ProxyVerified
            &&& action is Sleep ==> worker.stage == WorkerStage::ProxyVerified && next.stage
                == WorkerStage::ProxyVerified
            &&& action is PollChallenge ==> worker.stage == WorkerStage::ProxyVerified
                && next.stage == WorkerStage::ProxyVerified
            &&& action is Submit ==> worker.stage == WorkerStage::ProxyVerified && next.stage
                == WorkerStage::ChallengeSolved
            &&& action is Finish <==> next.is_over() && !worker.is_over()
            &&& action == WorkerAction::Finish(Verdict::Success) <==> next.stage
                == WorkerStage::Submitted && worker.stage == WorkerStage::ChallengeSolved
        }),
{
}

/// Once a task has ended, no event changes it or makes it ask for
/// anything.
pub proof fn over_is_final(worker: TaskWorker, events: Seq<WorkerEvent>)
    requires
        worker.is_over(),
    ensures
        run(worker, events) == worker,
        emitted(worker, events).len() == events.len(),
        forall|i: int|
            0 <= i < events.len() ==> #[trigger] emitted(worker, events)[i]
                == WorkerAction::Nothing,
    decreases events.len(),
{
    if events.len() > 0 {
        over_is_final(worker, events.drop_last());
    }
}

/// A task whose client cannot be built ends there with
/// `ClientBuildFailure`: whatever is reported afterwards, it never sends
/// the probe, a request to the solving service or the submission.
pub proof fn client_failure_short_circuits(later: Seq<WorkerEvent>)
    ensures
        ({
            let begun = TaskWorker::pending().next_state(WorkerEvent::Launch);
            let failed = begun.next_state(WorkerEvent::ClientFailed);
            &&& TaskWorker::pending().response(WorkerEvent::Launch) == WorkerAction::BuildClient
            &&& begun.response(WorkerEvent::ClientFailed) == WorkerAction::Finish(
                Verdict::ClientBuildFailure,
            )
            &&& failed.stage == WorkerStage::Failed(TaskError::ClientBuild)
            &&& run(failed, later) == failed
            &&& emitted(failed, later).len() == later.len()
            &&& forall|i: int|
                0 <= i < later.len() ==> !uses_network(#[trigger] emitted(failed, later)[i])
        }),
{
    let failed = TaskWorker::pending().next_state(WorkerEvent::Launch).next_state(
        WorkerEvent::ClientFailed,
    );
    over_is_final(failed, later);
}

/// Whatever the events, a worker whose solver is within the retry ceiling
/// keeps it there, and its solver counts exactly the polls that the
/// worker asks for.
pub proof fn polls_are_counted(worker: TaskWorker, events: Seq<WorkerEvent>)
    requires
        worker.solver.polls <= MAX_RETRIES,
    ensures
        run(worker, events).solver.polls <= MAX_RETRIES,
        polls_in(emitted(worker, events)) == run(worker, events).solver.polls
            - worker.solver.polls,
    decreases events.len(),
{
    if events.len() > 0 {
        let before = events.drop_last();
        polls_are_counted(worker, before);
        assert(emitted(worker, events).drop_last() =~= emitted(worker, before));
    }
}

/// Whatever the events, one task never polls more than `MAX_RETRIES`
/// times.
pub proof fn never_more_than_max_retries(events: Seq<WorkerEvent>)
    ensures
        polls_in(emitted(TaskWorker::pending(), events)) <= MAX_RETRIES,
{
    polls_are_counted(TaskWorker::pending(), events);
}

/// The events of the solver, as the worker is told of them.
pub open spec fn challenge_events(events: Seq<SolverEvent>) -> Seq<WorkerEvent> {
    Seq::new(events.len(), |i: int| WorkerEvent::Challenge(events[i]))
}

/// The stage at which a worker stands whose proxy is verified and whose
/// solver is in phase `phase`.
pub open spec fn stage_while_solving(phase: SolverPhase) -> WorkerStage {
    match phase {
        SolverPhase::Solved => WorkerStage::ChallengeSolved,
        SolverPhase::Failed(error) => WorkerStage::Failed(error),
        _ => WorkerStage::ProxyVerified,
    }
}

/// While the challenge is being solved the worker follows its solver and
/// adds nothing of its own: whatever the events, its solver is where a
/// solver alone would be, and its stage says how the solver fared.
pub proof fn solving_follows_the_solver(worker: TaskWorker, events: Seq<SolverEvent>)
    requires
        worker.stage == WorkerStage::ProxyVerified,
        !worker.solver.is_over(),
    ensures
        run(worker, challenge_events(events)) == (TaskWorker {
            stage: stage_while_solving(solver_runs::run(worker.solver, events).phase),
            solver: solver_runs::run(worker.solver, events),
        }),
    decreases events.len(),
{
    if events.len() > 0 {
        let front = events.drop_last();
        solving_follows_the_solver(worker, front);
        assert(challenge_events(events).drop_last() =~= challenge_events(front));
        assert(challenge_events(events).last() == WorkerEvent::Challenge(events.last()));
        let solver = solver_runs::run(worker.solver, front);
        if solver.is_over() {
            solver_runs::over_is_final(solver, seq![events.last()]);
            assert(seq![events.last()].drop_last() =~= Seq::<SolverEvent>::empty());
        }
    }
}

/// A solver alone and a solver inside a worker agree from the moment at
/// which the proxy is verified: the worker starts its solver then.
pub proof fn probe_starts_the_solver()
    ensures
        ({
            let built = TaskWorker::pending().next_state(WorkerEvent::ClientReady);
            let verified = built.next_state(WorkerEvent::ProbeAnswered);
            &&& built.response(WorkerEvent::ProbeAnswered) == WorkerAction::CreateChallenge
            &&& verified.stage == WorkerStage::ProxyVerified
            &&& verified.solver == ChallengeSolver::fresh().next_state(SolverEvent::Start)
        }),
{
}

} // verus!
