//! The ways in which one task can fail.

use vstd::prelude::*;
use vstd::string::StringExecFns;

verus! {

/// The words with which every shown error opens.
pub const ERROR_OPENING: &'static str = "Reqwest error: ";

/// Why a task, or one step of it, did not succeed. Every failure is local
/// to the task that met it.
#[derive(Clone, Copy, Debug, PartialEq, Eq, Structural)]
pub enum TaskError {
    /// No client could be built for the proxy endpoint.
    ClientBuild,
    /// The liveness probe through the proxy met a transport error.
    ProxyFailure,
    /// The solving service handed out no task identifier.
    ChallengeCreateFailure,
    /// The retry ceiling was reached without a `ready` status.
    ChallengeTimeout,
    /// A poll was answered with a status that is neither `ready` nor
    /// `processing`, or with none, or could not be answered at all.
    ChallengeAborted,
    /// The submission met a transport error, a non-success HTTP status or
    /// a body that is not JSON.
    SubmissionFailure,
    /// A worklist record has the wrong number of fields.
    MalformedInputRecord,
}

impl TaskError {
    /// What went wrong, in a few words.
    pub open spec fn detail_text(self) -> Seq<char> {
        match self {
            TaskError::ClientBuild => "Failed to build client"@,
            TaskError::ProxyFailure => "Proxy not working"@,
            TaskError::ChallengeCreateFailure => "Failed to solve the captcha."@,
            TaskError::ChallengeTimeout => "Failed to solve the captcha."@,
            TaskError::ChallengeAborted => "Failed to solve the captcha."@,
            TaskError::SubmissionFailure => "Failed to send invite"@,
            TaskError::MalformedInputRecord => "Malformed input record"@,
        }
    }

    /// The line that is shown for the error: the same opening words for
    /// every error, then what went wrong.
    pub open spec fn message_text(self) -> Seq<char> {
        ERROR_OPENING@ + self.detail_text()
    }

    /// What went wrong, in a few words.
    pub fn detail(&self) -> (text: &'static str)
        ensures
            text@ == self.detail_text(),
    {
        match self {
            TaskError::ClientBuild => "Failed to build client",
            TaskError::ProxyFailure => "Proxy not working",
            TaskError::ChallengeCreateFailure => "Failed to solve the captcha.",
            TaskError::ChallengeTimeout => "Failed to solve the captcha.",
            TaskError::ChallengeAborted => "Failed to solve the captcha.",
            TaskError::SubmissionFailure => "Failed to send invite",
            TaskError::MalformedInputRecord => "Malformed input record",
        }
    }

    /// The line that is shown for the error.
    pub fn message(&self) -> (text: String)
        ensures
            text@ == self.message_text(),
    {
        let mut text = String::from_str(ERROR_OPENING);
        text.append(self.detail());
        text
    }
}

} // verus!
