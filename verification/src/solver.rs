//! The two-phase create / poll protocol by which a challenge is solved.
//!
//! The solver is a state machine. It never performs a request or a sleep
//! itself: each event that its driver reports is answered with the next
//! thing to do. The driver sends what it is told to send, sleeps as long as
//! it is told to sleep, and reports what came back.

use vstd::prelude::*;
use crate::errors::TaskError;

verus! {

/// The largest number of polls that one solve attempt may issue.
pub const MAX_RETRIES: u32 = 30;

/// Seconds to wait between obtaining a task identifier and the first poll.
pub const SETTLE_SECS: u64 = 5;

/// Seconds to wait after a poll was answered with `processing`.
pub const BACKOFF_SECS: u64 = 3;

/// What the answer to one poll says, apart from the token it may carry.
#[derive(Clone, Copy, Debug, PartialEq, Eq, Structural)]
pub enum PollKind {
    /// The service is still working on the challenge.
    Processing,
    /// The challenge is solved and the answer carries the solution token.
    Ready,
    /// The answer carries any other status or none at all, or no answer
    /// could be had.
    Aborted,
    /// The answer claims `ready` and carries no token.
    MissingToken,
}

/// Where a solve attempt stands.
#[derive(Clone, Copy, Debug, PartialEq, Eq, Structural)]
pub enum SolverPhase {
    /// Nothing has been sent yet.
    Idle,
    /// The create request is under way.
    Creating,
    /// A task identifier is known; the initial delay is running.
    Settling,
    /// A poll is under way.
    Polling,
    /// The delay after a `processing` answer is running.
    BackingOff,
    /// The solution token has been received.
    Solved,
    /// The attempt has ended without a token.
    Failed(TaskError),
}

/// What the driver reports to the solver.
#[derive(Clone, Copy, Debug, PartialEq, Eq, Structural)]
pub enum SolverEvent {
    /// The attempt is to begin.
    Start,
    /// The create request was answered; `None` when no task identifier
    /// could be obtained, for whatever reason.
    Created(Option<u64>),
    /// The sleep that the solver asked for is over.
    Woke,
    /// The poll was answered.
    Polled(PollKind),
}

/// What the solver asks its driver to do next.
#[derive(Clone, Copy, Debug, PartialEq, Eq, Structural)]
pub enum SolverAction {
    /// Send the create request.
    SendCreate,
    /// Sleep for this many seconds, then report `Woke`.
    Sleep(u64),
    /// Poll for the result of the task with this identifier.
    SendPoll(u64),
    /// The attempt succeeded: the token is in the last answer.
    Succeed,
    /// The attempt failed.
    Fail(TaskError),
    /// The event does not fit the current phase and was ignored.
    Nothing,
}

/// One solve attempt.
#[derive(Clone, Copy, Debug, PartialEq, Eq, Structural)]
pub struct ChallengeSolver {
    /// Where the attempt stands.
    pub phase: SolverPhase,
    /// The identifier that the service gave the task; 0 until it is known.
    pub task_id: u64,
    /// The number of polls issued so far.
    pub polls: u32,
}

impl ChallengeSolver {
    /// The solver before anything has happened.
    pub open spec fn fresh() -> ChallengeSolver {
        ChallengeSolver { phase: SolverPhase::Idle, task_id: 0, polls: 0 }
    }

    /// The solver in phase `phase`, everything else kept.
    pub open spec fn moved_to(self, phase: SolverPhase) -> ChallengeSolver {
        ChallengeSolver { phase, ..self }
    }

    /// The state and the action that follow when one more poll is due:
    /// the poll itself while the ceiling is not reached, a timeout after.
    pub open spec fn poll_again(self) -> (ChallengeSolver, SolverAction) {
        if self.polls < MAX_RETRIES {
            (
                ChallengeSolver {
                    phase: SolverPhase::Polling,
                    polls: (self.polls + 1) as u32,
                    ..self
                },
                SolverAction::SendPoll(self.task_id),
            )
        } else {
            (
                self.moved_to(SolverPhase::Failed(TaskError::ChallengeTimeout)),
                SolverAction::Fail(TaskError::ChallengeTimeout),
            )
        }
    }

    /// The transition function: the state after `event`, and the action
    /// that answers it. A `ready` answer ends the attempt in success, a
    /// `processing` answer is followed by the fixed delay, and every other
    /// answer ends the attempt in `ChallengeAborted`; only a `ready` that
    /// misses its token is asked for again at once, and counts as a poll.
    /// An event that does not fit the phase changes nothing and is
    /// answered with `Nothing`.
    pub open spec fn advance(self, event: SolverEvent) -> (ChallengeSolver, SolverAction) {
        match (self.phase, event) {
            (SolverPhase::Idle, SolverEvent::Start) => (
                self.moved_to(SolverPhase::Creating),
                SolverAction::SendCreate,
            ),
            (SolverPhase::Creating, SolverEvent::Created(Some(id))) => (
                ChallengeSolver { phase: SolverPhase::Settling, task_id: id, ..self },
                SolverAction::Sleep(SETTLE_SECS),
            ),
            (SolverPhase::Creating, SolverEvent::Created(None)) => (
                self.moved_to(SolverPhase::Failed(TaskError::ChallengeCreateFailure)),
                SolverAction::Fail(TaskError::ChallengeCreateFailure),
            ),
            (SolverPhase::Settling, SolverEvent::Woke) => self.poll_again(),
            (SolverPhase::BackingOff, SolverEvent::Woke) => self.poll_again(),
            (SolverPhase::Polling, SolverEvent::Polled(PollKind::Ready)) => (
                self.moved_to(SolverPhase::Solved),
                SolverAction::Succeed,
            ),
            (SolverPhase::Polling, SolverEvent::Polled(PollKind::Processing)) => (
                self.moved_to(SolverPhase::BackingOff),
                SolverAction::Sleep(BACKOFF_SECS),
            ),
            (SolverPhase::Polling, SolverEvent::Polled(PollKind::Aborted)) => (
                self.moved_to(SolverPhase::Failed(TaskError::ChallengeAborted)),
                SolverAction::Fail(TaskError::ChallengeAborted),
            ),
            (SolverPhase::Polling, SolverEvent::Polled(PollKind::MissingToken)) => self.poll_again(),
            _ => (self, SolverAction::Nothing),
        }
    }

    /// The state after `event`.
    pub open spec fn next_state(self, event: SolverEvent) -> ChallengeSolver {
        self.advance(event).0
    }

    /// The action that answers `event`.
    pub open spec fn response(self, event: SolverEvent) -> SolverAction {
        self.advance(event).1
    }

    /// Whether the attempt has ended, with or without a token.
    pub open spec fn is_over(self) -> bool {
        self.phase is Solved || self.phase is Failed
    }

    /// A solver that has not started yet.
    pub fn new() -> (solver: ChallengeSolver)
        ensures
            solver == ChallengeSolver::fresh(),
    {
        ChallengeSolver { phase: SolverPhase::Idle, task_id: 0, polls: 0 }
    }

    /// Whether the attempt has ended.
    pub fn finished(&self) -> (over: bool)
        ensures
            over == self.is_over(),
    {
        match self.phase {
            SolverPhase::Solved => true,
            SolverPhase::Failed(_) => true,
            _ => false,
        }
    }

    fn retry(&mut self) -> (action: SolverAction)
        ensures
            (*final(self), action) == old(self).poll_again(),
    {
        if self.polls < MAX_RETRIES {
            self.polls = self.polls + 1;
            self.phase = SolverPhase::Polling;
            SolverAction::SendPoll(self.task_id)
        } else {
            self.phase = SolverPhase::Failed(TaskError::ChallengeTimeout);
            SolverAction::Fail(TaskError::ChallengeTimeout)
        }
    }

    /// Takes one event and says what to do next.
    pub fn step(&mut self, event: SolverEvent) -> (action: SolverAction)
        ensures
            *final(self) == old(self).next_state(event),
            action == old(self).response(event),
    {
        match (self.phase, event) {
            (SolverPhase::Idle, SolverEvent::Start) => {
                self.phase = SolverPhase::Creating;
                SolverAction::SendCreate
            },
            (SolverPhase::Creating, SolverEvent::Created(Some(id))) => {
                self.phase = SolverPhase::Settling;
                self.task_id = id;
                SolverAction::Sleep(SETTLE_SECS)
            },
            (SolverPhase::Creating, SolverEvent::Created(None)) => {
                self.phase = SolverPhase::Failed(TaskError::ChallengeCreateFailure);
                SolverAction::Fail(TaskError::ChallengeCreateFailure)
            },
            (SolverPhase::Settling, SolverEvent::Woke) => self.retry(),
            (SolverPhase::BackingOff, SolverEvent::Woke) => self.retry(),
            (SolverPhase::Polling, SolverEvent::Polled(PollKind::Ready)) => {
                self.phase = SolverPhase::Solved;
                SolverAction::Succeed
            },
            (SolverPhase::Polling, SolverEvent::Polled(PollKind::Processing)) => {
                self.phase = SolverPhase::BackingOff;
                SolverAction::Sleep(BACKOFF_SECS)
            },
            (SolverPhase::Polling, SolverEvent::Polled(PollKind::Aborted)) => {
                self.phase = SolverPhase::Failed(TaskError::ChallengeAborted);
                SolverAction::Fail(TaskError::ChallengeAborted)
            },
            (SolverPhase::Polling, SolverEvent::Polled(PollKind::MissingToken)) => self.retry(),
            _ => SolverAction::Nothing,
        }
    }
}

} // verus!
