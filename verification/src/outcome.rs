//! What is reported of a task once it has ended.

use vstd::prelude::*;
use vstd::string::StringExecFns;
use crate::replies::Receipt;
use crate::worker::Verdict;

verus! {

/// How a task ended, with what a success brought.
#[derive(Debug)]
pub enum TaskResult {
    /// The submission was accepted.
    Success { position: i64, referral_code: String },
    /// The liveness probe failed.
    ProxyFailure,
    /// The challenge was not solved.
    ChallengeFailure,
    /// The submission was not accepted.
    SubmissionFailure,
    /// No client could be built.
    ClientBuildFailure,
}

/// The outcome of the task of one identity. There is one for each identity,
/// and it is final.
#[derive(Debug)]
pub struct TaskOutcome {
    /// The identifier of the identity.
    pub identity: String,
    /// How its task ended.
    pub result: TaskResult,
}

/// How grave a line of the log is.
#[derive(Clone, Copy, Debug, PartialEq, Eq, Structural)]
pub enum Severity {
    Info,
    Error,
}

/// How a task ended, as mathematics.
pub enum ResultModel {
    Success { position: i64, referral_code: Seq<char> },
    ProxyFailure,
    ChallengeFailure,
    SubmissionFailure,
    ClientBuildFailure,
}

impl View for TaskResult {
    type V = ResultModel;

    open spec fn view(&self) -> ResultModel {
        match self {
            TaskResult::Success { position, referral_code } => ResultModel::Success {
                position: *position,
                referral_code: referral_code@,
            },
            TaskResult::ProxyFailure => ResultModel::ProxyFailure,
            TaskResult::ChallengeFailure => ResultModel::ChallengeFailure,
            TaskResult::SubmissionFailure => ResultModel::SubmissionFailure,
            TaskResult::ClientBuildFailure => ResultModel::ClientBuildFailure,
        }
    }
}

/// The result that goes with `verdict`. A success carries what the
/// receipt holds: the position and referral code `found`, and position 0
/// with an empty code where no receipt is at hand.
pub open spec fn result_for(verdict: Verdict, found: Option<(i64, Seq<char>)>) -> ResultModel {
    match verdict {
        Verdict::Success => match found {
            Some((position, referral_code)) => ResultModel::Success { position, referral_code },
            None => ResultModel::Success { position: 0, referral_code: Seq::empty() },
        },
        Verdict::ProxyFailure => ResultModel::ProxyFailure,
        Verdict::ChallengeFailure => ResultModel::ChallengeFailure,
        Verdict::SubmissionFailure => ResultModel::SubmissionFailure,
        Verdict::ClientBuildFailure => ResultModel::ClientBuildFailure,
    }
}

impl TaskOutcome {
    /// The outcome of the task of `identity` that ended with `verdict`.
    pub fn conclude(identity: &str, verdict: Verdict, receipt: Option<Receipt>) -> (outcome:
        TaskOutcome)
        ensures
            outcome.identity@ == identity@,
            outcome.result@ == result_for(
                verdict,
                match receipt {
                    Some(r) => Some((r.position, r.referral_code@)),
                    None => None,
                },
            ),
    {
        let result = match verdict {
            Verdict::Success => match receipt {
                Some(r) => TaskResult::Success {
                    position: r.position,
                    referral_code: r.referral_code,
                },
                None => TaskResult::Success { position: 0, referral_code: String::new() },
            },
            Verdict::ProxyFailure => TaskResult::ProxyFailure,
            Verdict::ChallengeFailure => TaskResult::ChallengeFailure,
            Verdict::SubmissionFailure => TaskResult::SubmissionFailure,
            Verdict::ClientBuildFailure => TaskResult::ClientBuildFailure,
        };
        TaskOutcome { identity: String::from_str(identity), result }
    }

    /// Whether the task succeeded.
    pub fn is_success(&self) -> (success: bool)
        ensures
            success == (self.result@ is Success),
    {
        match self.result {
            TaskResult::Success { .. } => true,
            _ => false,
        }
    }

    /// The severity with which the outcome is logged: a success is
    /// information, every failure an error.
    pub fn severity(&self) -> (severity: Severity)
        ensures
            severity == if self.result@ is Success {
                Severity::Info
            } else {
                Severity::Error
            },
    {
        if self.is_success() {
            Severity::Info
        } else {
            Severity::Error
        }
    }
}

} // verus!
