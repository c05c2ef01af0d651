//! The workflow of one identity: build the client, verify the proxy, solve
//! the challenge, submit.
//!
//! Like the solver it contains, the worker is a state machine that is
//! driven from outside. Each step begins only when the step before it has
//! ended well; a failure ends the task and nothing else is attempted.

use vstd::prelude::*;
use crate::errors::TaskError;
use crate::solver::{ChallengeSolver, SolverAction, SolverEvent};

verus! {

/// How far the task of one identity has come.
#[derive(Clone, Copy, Debug, PartialEq, Eq, Structural)]
pub enum WorkerStage {
    /// No client exists yet.
    Pending,
    /// The client is built; the liveness probe is under way.
    ClientBuilt,
    /// The proxy answered; the challenge is being solved.
    ProxyVerified,
    /// The solution token is known; the submission is under way.
    ChallengeSolved,
    /// The submission was accepted.
    Submitted,
    /// The task has ended in a failure.
    Failed(TaskError),
}

/// How a task ended.
#[derive(Clone, Copy, Debug, PartialEq, Eq, Structural)]
pub enum Verdict {
    /// The submission was accepted.
    Success,
    /// The liveness probe failed.
    ProxyFailure,
    /// The challenge was not solved.
    ChallengeFailure,
    /// The submission was not accepted.
    SubmissionFailure,
    /// No client could be built.
    ClientBuildFailure,
}

/// What the driver reports to the worker.
#[derive(Clone, Copy, Debug, PartialEq, Eq, Structural)]
pub enum WorkerEvent {
    /// The task holds its permit and is to begin.
    Launch,
    /// The client was built.
    ClientReady,
    /// No client could be built.
    ClientFailed,
    /// The probe was answered, with whatever body.
    ProbeAnswered,
    /// The probe met a transport error.
    ProbeFailed,
    /// Something happened that concerns the solver.
    Challenge(SolverEvent),
    /// The submission was answered with a success status and a JSON body.
    SubmitAccepted,
    /// The submission met a transport error, a non-success status or a
    /// body that is not JSON.
    SubmitRejected,
}

/// What the worker asks its driver to do next.
#[derive(Clone, Copy, Debug, PartialEq, Eq, Structural)]
pub enum WorkerAction {
    /// Build the client for the task's proxy endpoint.
    BuildClient,
    /// Send the liveness probe through the client.
    Probe,
    /// Send the request that creates the challenge task.
    CreateChallenge,
    /// Sleep for this many seconds, then report `Challenge(Woke)`.
    Sleep(u64),
    /// Poll for the result of the challenge task with this identifier.
    PollChallenge(u64),
    /// Send the submission, with the token of the last poll answer.
    Submit,
    /// The task has ended; report this verdict.
    Finish(Verdict),
    /// The event does not fit the current stage and was ignored.
    Nothing,
}

/// The task of one identity.
#[derive(Clone, Copy, Debug, PartialEq, Eq, Structural)]
pub struct TaskWorker {
    /// How far the task has come.
    pub stage: WorkerStage,
    /// The solve attempt that belongs to the worker.
    pub solver: ChallengeSolver,
}

impl TaskWorker {
    /// The worker before anything has happened.
    pub open spec fn pending() -> TaskWorker {
        TaskWorker { stage: WorkerStage::Pending, solver: ChallengeSolver::fresh() }
    }

    /// The worker at stage `stage`, with the same solver.
    pub open spec fn moved_to(self, stage: WorkerStage) -> TaskWorker {
        TaskWorker { stage, ..self }
    }

    /// What becomes of the worker when its solver, now `solver`, has
    /// answered an event with `action`.
    pub open spec fn relay(self, solver: ChallengeSolver, action: SolverAction) -> (
        TaskWorker,
        WorkerAction,
    ) {
        match action {
            SolverAction::SendCreate => (
                TaskWorker { solver, ..self },
                WorkerAction::CreateChallenge,
            ),
            SolverAction::Sleep(secs) => (TaskWorker { solver, ..self }, WorkerAction::Sleep(secs)),
            SolverAction::SendPoll(id) => (
                TaskWorker { solver, ..self },
                WorkerAction::PollChallenge(id),
            ),
            SolverAction::Succeed => (
                TaskWorker { stage: WorkerStage::ChallengeSolved, solver },
                WorkerAction::Submit,
            ),
            SolverAction::Fail(error) => (
                TaskWorker { stage: WorkerStage::Failed(error), solver },
                WorkerAction::Finish(Verdict::ChallengeFailure),
            ),
            SolverAction::Nothing => (TaskWorker { solver, ..self }, WorkerAction::Nothing),
        }
    }

    /// The transition function: the state after `event`, and the action
    /// that answers it. An event that does not fit the stage changes
    /// nothing and is answered with `Nothing`.
    pub open spec fn advance(self, event: WorkerEvent) -> (TaskWorker, WorkerAction) {
        match (self.stage, event) {
            (WorkerStage::Pending, WorkerEvent::Launch) => (self, WorkerAction::BuildClient),
            (WorkerStage::Pending, WorkerEvent::ClientReady) => (
                self.moved_to(WorkerStage::ClientBuilt),
                WorkerAction::Probe,
            ),
            (WorkerStage::Pending, WorkerEvent::ClientFailed) => (
                self.moved_to(WorkerStage::Failed(TaskError::ClientBuild)),
                WorkerAction::Finish(Verdict::ClientBuildFailure),
            ),
            (WorkerStage::ClientBuilt, WorkerEvent::ProbeAnswered) => self.moved_to(
                WorkerStage::ProxyVerified,
            ).relay(
                self.solver.next_state(SolverEvent::Start),
                self.solver.response(SolverEvent::Start),
            ),
            (WorkerStage::ClientBuilt, WorkerEvent::ProbeFailed) => (
                self.moved_to(WorkerStage::Failed(TaskError::ProxyFailure)),
                WorkerAction::Finish(Verdict::ProxyFailure),
            ),
            (WorkerStage::ProxyVerified, WorkerEvent::Challenge(e)) => self.relay(
                self.solver.next_state(e),
                self.solver.response(e),
            ),
            (WorkerStage::ChallengeSolved, WorkerEvent::SubmitAccepted) => (
                self.moved_to(WorkerStage::Submitted),
                WorkerAction::Finish(Verdict::Success),
            ),
            (WorkerStage::ChallengeSolved, WorkerEvent::SubmitRejected) => (
                self.moved_to(WorkerStage::Failed(TaskError::SubmissionFailure)),
                WorkerAction::Finish(Verdict::SubmissionFailure),
            ),
            _ => (self, WorkerAction::Nothing),
        }
    }

    /// The state after `event`.
    pub open spec fn next_state(self, event: WorkerEvent) -> TaskWorker {
        self.advance(event).0
    }

    /// The action that answers `event`.
    pub open spec fn response(self, event: WorkerEvent) -> WorkerAction {
        self.advance(event).1
    }

    /// Whether the task has ended.
    pub open spec fn is_over(self) -> bool {
        self.stage is Submitted || self.stage is Failed
    }

    /// A worker for a task that has not begun.
    pub fn new() -> (worker: TaskWorker)
        ensures
            worker == TaskWorker::pending(),
    {
        TaskWorker { stage: WorkerStage::Pending, solver: ChallengeSolver::new() }
    }

    /// Whether the task has ended.
    pub fn finished(&self) -> (over: bool)
        ensures
            over == self.is_over(),
    {
        match self.stage {
            WorkerStage::Submitted => true,
            WorkerStage::Failed(_) => true,
            _ => false,
        }
    }

    fn forward(&mut self, event: SolverEvent) -> (action: WorkerAction)
        ensures
            (*final(self), action) == old(self).relay(
                old(self).solver.next_state(event),
                old(self).solver.response(event),
            ),
    {
        match self.solver.step(event) {
            SolverAction::SendCreate => WorkerAction::CreateChallenge,
            SolverAction::Sleep(secs) => WorkerAction::Sleep(secs),
            SolverAction::SendPoll(id) => WorkerAction::PollChallenge(id),
            SolverAction::Succeed => {
                self.stage = WorkerStage::ChallengeSolved;
                WorkerAction::Submit
            },
            SolverAction::Fail(error) => {
                self.stage = WorkerStage::Failed(error);
                WorkerAction::Finish(Verdict::ChallengeFailure)
            },
            SolverAction::Nothing => WorkerAction::Nothing,
        }
    }

    /// Takes one event and says what to do next.
    pub fn step(&mut self, event: WorkerEvent) -> (action: WorkerAction)
        ensures
            *final(self) == old(self).next_state(event),
            action == old(self).response(event),
    {
        match (self.stage, event) {
            (WorkerStage::Pending, WorkerEvent::Launch) => WorkerAction::BuildClient,
            (WorkerStage::Pending, WorkerEvent::ClientReady) => {
                self.stage = WorkerStage::ClientBuilt;
                WorkerAction::Probe
            },
            (WorkerStage::Pending, WorkerEvent::ClientFailed) => {
                self.stage = WorkerStage::Failed(TaskError::ClientBuild);
                WorkerAction::Finish(Verdict::ClientBuildFailure)
            },
            (WorkerStage::ClientBuilt, WorkerEvent::ProbeAnswered) => {
                self.stage = WorkerStage::ProxyVerified;
                self.forward(SolverEvent::Start)
            },
            (WorkerStage::ClientBuilt, WorkerEvent::ProbeFailed) => {
                self.stage = WorkerStage::Failed(TaskError::ProxyFailure);
                WorkerAction::Finish(Verdict::ProxyFailure)
            },
            (WorkerStage::ProxyVerified, WorkerEvent::Challenge(e)) => self.forward(e),
            (WorkerStage::ChallengeSolved, WorkerEvent::SubmitAccepted) => {
                self.stage = WorkerStage::Submitted;
                WorkerAction::Finish(Verdict::Success)
            },
            (WorkerStage::ChallengeSolved, WorkerEvent::SubmitRejected) => {
                self.stage = WorkerStage::Failed(TaskError::SubmissionFailure);
                WorkerAction::Finish(Verdict::SubmissionFailure)
            },
            _ => WorkerAction::Nothing,
        }
    }
}

} // verus!
