//! One task from launch to outcome: the worker that decides, the session
//! that holds what was learnt, and the receipt of an accepted submission.
//!
//! The driver performs what the task asks for and hands back what the
//! network gave: `None` stands for a request that met a transport error,
//! `Some` holds the bytes of the reply.

use vstd::prelude::*;
use crate::agent::is_user_agent;
use crate::client::{describe_failure, is_client_for, proxy_address_accepted, try_client_for};
use crate::errors::{TaskError, ERROR_OPENING};
use crate::headers::{header_entries, kept_entries, wanted_headers};
use crate::events::{
    after_client, after_create, after_poll, after_probe, after_sleep, after_submit, read_poll,
    read_submit,
};
use crate::outcome::{result_for, TaskOutcome};
use crate::records::WorkItem;
use crate::replies::{
    accepted_receipt, create_reply_task, poll_reply_reading, PollReading, Receipt,
};
use crate::session::Robinhood;
use crate::solver::SolverEvent;
use crate::worker::{TaskWorker, Verdict, WorkerAction, WorkerEvent};

verus! {

/// The task of one identity.
pub struct Task {
    /// The identifier of the identity.
    pub email: String,
    /// Where the task stands.
    pub worker: TaskWorker,
    /// The session; `None` where no client could be built.
    pub session: Option<Robinhood>,
    /// Why no client could be built, in the words of the outside library;
    /// `None` where there is a session.
    pub build_error: Option<String>,
    /// What the accepted submission reported back.
    pub receipt: Option<Receipt>,
}

/// The reading of a poll reply that may be missing.
pub open spec fn poll_reading_of(reply: Option<&[u8]>) -> PollReading {
    match reply {
        Some(body) => poll_reply_reading(body@),
        None => PollReading::Aborted,
    }
}

/// The position and referral code of a submission reply that may be
/// missing.
pub open spec fn receipt_of(reply: Option<(u16, &[u8])>) -> Option<(i64, Seq<char>)> {
    match reply {
        Some(r) => accepted_receipt(r.0, r.1@),
        None => None,
    }
}

impl Task {
    /// The token that the session holds; empty where there is no session.
    pub open spec fn token(self) -> Seq<char> {
        match self.session {
            Some(robinhood) => robinhood.captcha@,
            None => Seq::empty(),
        }
    }

    /// What the receipt holds.
    pub open spec fn found(self) -> Option<(i64, Seq<char>)> {
        match self.receipt {
            Some(receipt) => Some((receipt.position, receipt.referral_code@)),
            None => None,
        }
    }

    /// Launches the task of `item`: builds the client for its proxy and,
    /// with it, the session. The task then asks for the probe; where no
    /// client could be built it has ended already and asks for nothing
    /// but to be reported.
    pub fn launch(item: &WorkItem, cap_key: &String) -> (launched: (Task, WorkerAction))
        ensures
            launched.0.email@ == item.identity.email@,
            launched.0.receipt is None,
            (launched.0.worker, launched.1) == TaskWorker::pending().next_state(
                WorkerEvent::Launch,
            ).advance(
                if launched.0.session is Some {
                    WorkerEvent::ClientReady
                } else {
                    WorkerEvent::ClientFailed
                },
            ),
            !proxy_address_accepted(item.endpoint.host@, item.endpoint.port@)
                ==> launched.0.session is None,
            launched.0.session matches Some(robinhood) ==> is_client_for(
                robinhood.session,
                item.endpoint.host@,
                item.endpoint.port@,
                item.endpoint.username@,
                item.endpoint.password@,
            ),
            launched.0.session matches Some(robinhood) ==> robinhood.email@
                == item.identity.email@ && robinhood.invite_code@ == item.identity.invite_code@
                && robinhood.cap_key@ == cap_key@ && robinhood.captcha@ == Seq::<char>::empty(),
            launched.0.session matches Some(robinhood) ==> exists|user_agent: Seq<char>|
                is_user_agent(user_agent) && header_entries(robinhood.headers)
                    == #[trigger] kept_entries(wanted_headers(user_agent)),
            launched.0.build_error is Some == launched.0.session is None,
            launched.0.build_error matches Some(text) ==> exists|detail: Seq<char>|
                text@ == ERROR_OPENING@ + detail,
    {
        let mut worker = TaskWorker::new();
        worker.step(WorkerEvent::Launch);
        let mut build_error: Option<String> = None;
        let made = match try_client_for(&item.endpoint) {
            Ok(client) => Robinhood::new(
                client,
                &item.identity.email,
                &item.identity.invite_code,
                cap_key,
            ),
            Err(error) => {
                build_error = Some(describe_failure(&error));
                Err(TaskError::ClientBuild)
            },
        };
        let action = worker.step(after_client(&made));
        let session = match made {
            Ok(robinhood) => Some(robinhood),
            Err(_) => None,
        };
        (
            Task {
                email: item.identity.email.clone(),
                worker,
                session,
                build_error,
                receipt: None,
            },
            action,
        )
    }

    /// Takes in the result of the probe: whether it was answered at all.
    pub fn on_probe(&mut self, answered: bool) -> (action: WorkerAction)
        ensures
            (final(self).worker, action) == old(self).worker.advance(
                if answered {
                    WorkerEvent::ProbeAnswered
                } else {
                    WorkerEvent::ProbeFailed
                },
            ),
            final(self).email == old(self).email,
            final(self).session == old(self).session,
            final(self).build_error == old(self).build_error,
            final(self).receipt == old(self).receipt,
    {
        self.worker.step(after_probe(answered))
    }

    /// Takes in the reply to the create request.
    pub fn on_create(&mut self, reply: Option<&[u8]>) -> (action: WorkerAction)
        ensures
            (final(self).worker, action) == old(self).worker.advance(
                WorkerEvent::Challenge(
                    SolverEvent::Created(
                        match reply {
                            Some(body) => create_reply_task(body@),
                            None => None,
                        },
                    ),
                ),
            ),
            final(self).email == old(self).email,
            final(self).session == old(self).session,
            final(self).build_error == old(self).build_error,
            final(self).receipt == old(self).receipt,
    {
        self.worker.step(after_create(reply))
    }

    /// Takes in the end of a sleep.
    pub fn on_wake(&mut self) -> (action: WorkerAction)
        ensures
            (final(self).worker, action) == old(self).worker.advance(
                WorkerEvent::Challenge(SolverEvent::Woke),
            ),
            final(self).email == old(self).email,
            final(self).session == old(self).session,
            final(self).build_error == old(self).build_error,
            final(self).receipt == old(self).receipt,
    {
        self.worker.step(after_sleep())
    }

    /// Takes in the reply to a poll. The token of a `ready` answer is kept
    /// in the session if the answer was awaited, that is if the task now
    /// asks for the submission.
    pub fn on_poll(&mut self, reply: Option<&[u8]>) -> (action: WorkerAction)
        ensures
            (final(self).worker, action) == old(self).worker.advance(
                WorkerEvent::Challenge(SolverEvent::Polled(poll_reading_of(reply).kind())),
            ),
            final(self).token() == match (action, poll_reading_of(reply), old(self).session) {
                (WorkerAction::Submit, PollReading::Ready(token), Some(_)) => token,
                _ => old(self).token(),
            },
            final(self).session is Some == old(self).session is Some,
            final(self).session matches Some(after) ==> old(self).session matches Some(before)
                && after.email == before.email && after.invite_code == before.invite_code
                && after.cap_key == before.cap_key && after.session == before.session
                && after.headers == before.headers,
            final(self).email == old(self).email,
            final(self).build_error == old(self).build_error,
            final(self).receipt == old(self).receipt,
    {
        let answer = read_poll(reply);
        let action = self.worker.step(after_poll(&answer));
        match action {
            WorkerAction::Submit => {
                match &mut self.session {
                    Some(robinhood) => {
                        robinhood.accept_answer(answer);
                    },
                    None => {},
                }
            },
            _ => {},
        }
        action
    }

    /// Takes in the reply to the submission. The receipt is kept if the
    /// submission was awaited and accepted, that is if the task now ends
    /// in success.
    pub fn on_submit(&mut self, reply: Option<(u16, &[u8])>) -> (action: WorkerAction)
        ensures
            (final(self).worker, action) == old(self).worker.advance(
                if receipt_of(reply) is Some {
                    WorkerEvent::SubmitAccepted
                } else {
                    WorkerEvent::SubmitRejected
                },
            ),
            final(self).found() == if action == WorkerAction::Finish(Verdict::Success) {
                receipt_of(reply)
            } else {
                old(self).found()
            },
            final(self).email == old(self).email,
            final(self).session == old(self).session,
            final(self).build_error == old(self).build_error,
    {
        let read = read_submit(reply);
        let action = self.worker.step(after_submit(&read));
        match action {
            WorkerAction::Finish(Verdict::Success) => {
                match read {
                    Ok(receipt) => {
                        self.receipt = Some(receipt);
                    },
                    Err(_) => {},
                }
            },
            _ => {},
        }
        action
    }

    /// The outcome of the task, once it has ended with `verdict`.
    pub fn conclude(self, verdict: Verdict) -> (outcome: TaskOutcome)
        ensures
            outcome.identity@ == self.email@,
            outcome.result@ == result_for(verdict, self.found()),
    {
        TaskOutcome::conclude(self.email.as_str(), verdict, self.receipt)
    }
}

} // verus!
