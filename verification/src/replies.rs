//! What the outside services answer, read from the bytes of their replies.

use vstd::prelude::*;
use vstd::string::StringExecFns;
use crate::errors::TaskError;
use crate::json::{json_document, json_i64, json_member, json_text, json_u64, member, parse_document};
use crate::solver::PollKind;
use crate::text::same_text;

verus! {

/// The answer to one poll.
#[derive(Debug)]
pub enum PollStatus {
    /// The service is still working on the challenge.
    Processing,
    /// The challenge is solved; this is the solution token.
    Ready(String),
    /// The answer carries any other status or none at all, or the reply
    /// is no JSON document.
    Aborted,
    /// The answer claims `ready` and carries no token.
    MissingToken,
}

/// The answer to one poll, as mathematics.
pub enum PollReading {
    Processing,
    Ready(Seq<char>),
    Aborted,
    MissingToken,
}

impl View for PollStatus {
    type V = PollReading;

    open spec fn view(&self) -> PollReading {
        match self {
            PollStatus::Processing => PollReading::Processing,
            PollStatus::Ready(token) => PollReading::Ready(token@),
            PollStatus::Aborted => PollReading::Aborted,
            PollStatus::MissingToken => PollReading::MissingToken,
        }
    }
}

impl PollReading {
    /// What the answer says, apart from the token.
    pub open spec fn kind(self) -> PollKind {
        match self {
            PollReading::Processing => PollKind::Processing,
            PollReading::Ready(_) => PollKind::Ready,
            PollReading::Aborted => PollKind::Aborted,
            PollReading::MissingToken => PollKind::MissingToken,
        }
    }
}

impl PollStatus {
    /// What the answer says, apart from the token.
    pub fn kind(&self) -> (kind: PollKind)
        ensures
            kind == self@.kind(),
    {
        match self {
            PollStatus::Processing => PollKind::Processing,
            PollStatus::Ready(_) => PollKind::Ready,
            PollStatus::Aborted => PollKind::Aborted,
            PollStatus::MissingToken => PollKind::MissingToken,
        }
    }
}

/// What a poll answer with the given status and token means. `ready`
/// with its token is the solution, and without it an answer that misses
/// its token; `processing` asks for patience; every other status ends the
/// attempt, and so does an answer without a status.
pub open spec fn poll_reading(status: Option<Seq<char>>, token: Option<Seq<char>>) -> PollReading {
    match status {
        None => PollReading::Aborted,
        Some(s) => if s == "ready"@ {
            match token {
                Some(t) => PollReading::Ready(t),
                None => PollReading::MissingToken,
            }
        } else if s == "processing"@ {
            PollReading::Processing
        } else {
            PollReading::Aborted
        },
    }
}

/// What the bytes of a poll reply mean: the reading of the members
/// `status` and `solution.gRecaptchaResponse` of the document, and an
/// abort where the bytes are no JSON document.
pub open spec fn poll_reply_reading(body: Seq<u8>) -> PollReading {
    match json_document(body) {
        None => PollReading::Aborted,
        Some(document) => poll_reading(
            json_text(json_member(document, "status"@)),
            json_text(json_member(json_member(document, "solution"@), "gRecaptchaResponse"@)),
        ),
    }
}

/// The task identifier in the bytes of a create reply: the member
/// `taskId` of the document, where it is an unsigned number.
pub open spec fn create_reply_task(body: Seq<u8>) -> Option<u64> {
    match json_document(body) {
        None => None,
        Some(document) => json_u64(json_member(document, "taskId"@)),
    }
}

/// Classifies a poll answer by the status and the token found in it.
pub fn classify_poll(status: Option<&str>, token: Option<&str>) -> (answer: PollStatus)
    ensures
        answer@ == poll_reading(
            match status {
                Some(s) => Some(s@),
                None => None,
            },
            match token {
                Some(t) => Some(t@),
                None => None,
            },
        ),
{
    match status {
        None => PollStatus::Aborted,
        Some(s) => {
            if same_text(s, "ready") {
                match token {
                    Some(t) => PollStatus::Ready(String::from_str(t)),
                    None => PollStatus::MissingToken,
                }
            } else if same_text(s, "processing") {
                PollStatus::Processing
            } else {
                PollStatus::Aborted
            }
        },
    }
}

/// Whether `body` is a JSON document.
pub fn is_json_document(body: &[u8]) -> (is_document: bool)
    ensures
        is_document == json_document(body@) is Some,
{
    match parse_document(body) {
        Ok(_) => true,
        Err(_) => false,
    }
}

/// Reads the reply to a poll.
pub fn read_poll_reply(body: &[u8]) -> (answer: PollStatus)
    ensures
        answer@ == poll_reply_reading(body@),
{
    match parse_document(body) {
        Err(_) => PollStatus::Aborted,
        Ok(document) => {
            let status = member(&document, "status").as_str();
            let token = member(member(&document, "solution"), "gRecaptchaResponse").as_str();
            classify_poll(status, token)
        },
    }
}

/// Reads the reply to a create request: the task identifier, if the reply
/// holds one.
pub fn read_create_reply(body: &[u8]) -> (task: Option<u64>)
    ensures
        task == create_reply_task(body@),
{
    match parse_document(body) {
        Err(_) => None,
        Ok(document) => member(&document, "taskId").as_u64(),
    }
}

/// What an accepted submission reports back.
#[derive(Debug)]
pub struct Receipt {
    /// The position in the waiting list; 0 where the reply names none.
    pub position: i64,
    /// The referral code handed out; empty where the reply names none.
    pub referral_code: String,
}

/// The position to record for what a reply holds under `position`: the
/// number itself, and 0 where there is none.
pub open spec fn position_or_zero(position: Option<i64>) -> i64 {
    match position {
        Some(p) => p,
        None => 0,
    }
}

/// The referral code to record for what a reply holds under
/// `referral_code`: the text itself, and the empty text where there is
/// none.
pub open spec fn code_or_empty(referral_code: Option<Seq<char>>) -> Seq<char> {
    match referral_code {
        Some(code) => code,
        None => Seq::empty(),
    }
}

/// Whether an HTTP status code reports success: 200 to 299.
pub open spec fn is_success(status: u16) -> bool {
    200 <= status < 300
}

/// The position and the referral code that a submission reply with this
/// status and these bytes stands for; `None` where the submission was not
/// accepted: the status reports no success, or the bytes are no JSON
/// document.
pub open spec fn accepted_receipt(status: u16, body: Seq<u8>) -> Option<(i64, Seq<char>)> {
    if !is_success(status) {
        None
    } else {
        match json_document(body) {
            None => None,
            Some(document) => Some(
                (
                    position_or_zero(json_i64(json_member(document, "position"@))),
                    code_or_empty(json_text(json_member(document, "referral_code"@))),
                ),
            ),
        }
    }
}

/// Whether an HTTP status code reports success.
pub fn status_is_success(status: u16) -> (success: bool)
    ensures
        success == is_success(status),
{
    200 <= status && status < 300
}

/// The receipt for the position and referral code found in a reply: a
/// missing position counts as 0, a missing code as the empty text.
pub fn receipt_from(position: Option<i64>, referral_code: Option<&str>) -> (receipt: Receipt)
    ensures
        receipt.position == position_or_zero(position),
        receipt.referral_code@ == code_or_empty(
            match referral_code {
                Some(code) => Some(code@),
                None => None,
            },
        ),
{
    let position = match position {
        Some(p) => p,
        None => 0,
    };
    let referral_code = match referral_code {
        Some(code) => String::from_str(code),
        None => String::new(),
    };
    Receipt { position, referral_code }
}

/// Reads the reply to a submission. It counts as accepted when the status
/// reports success and the body is a JSON document; what the document
/// lacks is filled in as `receipt_from` says.
pub fn read_submission(status: u16, body: &[u8]) -> (read: Result<Receipt, TaskError>)
    ensures
        match read {
            Ok(receipt) => accepted_receipt(status, body@) == Some(
                (receipt.position, receipt.referral_code@),
            ),
            Err(error) => error == TaskError::SubmissionFailure && accepted_receipt(status, body@)
                is None,
        },
{
    if !status_is_success(status) {
        return Err(TaskError::SubmissionFailure);
    }
    match parse_document(body) {
        Err(_) => Err(TaskError::SubmissionFailure),
        Ok(document) => {
            let position = member(&document, "position").as_i64();
            let referral_code = member(&document, "referral_code").as_str();
            Ok(receipt_from(position, referral_code))
        },
    }
}

} // verus!
