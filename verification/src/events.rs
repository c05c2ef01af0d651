//! From what the network gave back to what the worker is told.
//!
//! The driver of a task performs each request and hands the result to the
//! functions below: `None` stands for a request that met a transport
//! error, `Some` holds the bytes of the reply.

use vstd::prelude::*;
use crate::errors::TaskError;
use crate::replies::{
    accepted_receipt, create_reply_task, poll_reply_reading, read_create_reply, read_poll_reply,
    read_submission, PollReading, PollStatus, Receipt,
};
use crate::solver::SolverEvent;
use crate::worker::WorkerEvent;

verus! {

/// The event for an attempt to build the client.
pub fn after_client<C>(built: &Result<C, TaskError>) -> (event: WorkerEvent)
    ensures
        event == if built is Ok {
            WorkerEvent::ClientReady
        } else {
            WorkerEvent::ClientFailed
        },
{
    match built {
        Ok(_) => WorkerEvent::ClientReady,
        Err(_) => WorkerEvent::ClientFailed,
    }
}

/// The event for the liveness probe: any reply counts, whatever its body;
/// only a transport error is a failure.
pub fn after_probe(answered: bool) -> (event: WorkerEvent)
    ensures
        event == if answered {
            WorkerEvent::ProbeAnswered
        } else {
            WorkerEvent::ProbeFailed
        },
{
    if answered {
        WorkerEvent::ProbeAnswered
    } else {
        WorkerEvent::ProbeFailed
    }
}

/// The event for the create request: the task identifier that the reply
/// holds, and none where there is no reply or no identifier in it.
pub fn after_create(reply: Option<&[u8]>) -> (event: WorkerEvent)
    ensures
        event == WorkerEvent::Challenge(
            SolverEvent::Created(
                match reply {
                    Some(body) => create_reply_task(body@),
                    None => None,
                },
            ),
        ),
{
    let task = match reply {
        Some(body) => read_create_reply(body),
        None => None,
    };
    WorkerEvent::Challenge(SolverEvent::Created(task))
}

/// The event for a sleep that is over.
pub fn after_sleep() -> (event: WorkerEvent)
    ensures
        event == WorkerEvent::Challenge(SolverEvent::Woke),
{
    WorkerEvent::Challenge(SolverEvent::Woke)
}

/// The answer to a poll: what the reply says, and an abort where there is
/// no reply.
pub fn read_poll(reply: Option<&[u8]>) -> (answer: PollStatus)
    ensures
        answer@ == match reply {
            Some(body) => poll_reply_reading(body@),
            None => PollReading::Aborted,
        },
{
    match reply {
        Some(body) => read_poll_reply(body),
        None => PollStatus::Aborted,
    }
}

/// The event for an answer to a poll.
pub fn after_poll(answer: &PollStatus) -> (event: WorkerEvent)
    ensures
        event == WorkerEvent::Challenge(SolverEvent::Polled(answer@.kind())),
{
    WorkerEvent::Challenge(SolverEvent::Polled(answer.kind()))
}

/// What a submission brought: the receipt where it was accepted, and
/// `SubmissionFailure` where there is no reply, the status reports no
/// success or the body is no JSON document.
pub fn read_submit(reply: Option<(u16, &[u8])>) -> (read: Result<Receipt, TaskError>)
    ensures
        match read {
            Ok(receipt) => reply matches Some(r) && accepted_receipt(r.0, r.1@) == Some(
                (receipt.position, receipt.referral_code@),
            ),
            Err(error) => error == TaskError::SubmissionFailure && (match reply {
                Some(r) => accepted_receipt(r.0, r.1@) is None,
                None => true,
            }),
        },
{
    match reply {
        Some((status, body)) => read_submission(status, body),
        None => Err(TaskError::SubmissionFailure),
    }
}

/// The event for what a submission brought.
pub fn after_submit(read: &Result<Receipt, TaskError>) -> (event: WorkerEvent)
    ensures
        event == if read is Ok {
            WorkerEvent::SubmitAccepted
        } else {
            WorkerEvent::SubmitRejected
        },
{
    match read {
        Ok(_) => WorkerEvent::SubmitAccepted,
        Err(_) => WorkerEvent::SubmitRejected,
    }
}

} // verus!
