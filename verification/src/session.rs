//! The session of one identity: who it is, the client it sends through,
//! the headers it presents and the token it has obtained.

use vstd::prelude::*;
use vstd::string::StringExecFns;
use reqwest::header::HeaderMap;
use reqwest::Client;
use crate::agent::is_user_agent;
use crate::errors::TaskError;
use crate::headers::{generate_headers, header_entries, kept_entries, wanted_headers};
use crate::replies::{PollReading, PollStatus};
use crate::solver::PollKind;

verus! {

/// Where the liveness probe is sent.
pub const IP_CHECK_URL: &'static str = "https://ip.beget.ru/";

/// Where a challenge task is created.
pub const CREATE_TASK_URL: &'static str = "https://api.capmonster.cloud/createTask";

/// Where the result of a challenge task is polled.
pub const TASK_RESULT_URL: &'static str = "https://api.capmonster.cloud/getTaskResult/";

/// Where the submission is sent.
pub const SUBMIT_URL: &'static str =
    "https://bonfire.robinhood.com/waitlist/web3_wallet/email/spot";

/// The kind of challenge that is to be solved.
pub const TASK_TYPE: &'static str = "RecaptchaV2EnterpriseTaskProxyless";

/// The page that shows the challenge.
pub const WEBSITE_URL: &'static str = "https://robinhood.com/web3-wallet/";

/// The key under which that page shows it.
pub const WEBSITE_KEY: &'static str = "6LcNCM0fAAAAAJLML8tBF-AMvjkws6z4bfar9VFF";

/// What is sent to create a challenge task.
#[derive(Debug)]
pub struct CreateRequest {
    pub client_key: String,
    pub task_type: String,
    pub website_url: String,
    pub website_key: String,
}

/// What is sent to poll for the result of a challenge task.
#[derive(Debug)]
pub struct PollRequest {
    pub client_key: String,
    pub task_id: u64,
}

/// What is submitted once the challenge is solved.
#[derive(Debug)]
pub struct SubmitRequest {
    pub email: String,
    pub token: String,
    pub referred_by: String,
}

/// The session of one identity.
pub struct Robinhood {
    /// The identifier of the identity.
    pub email: String,
    /// The referral code that is submitted with it.
    pub invite_code: String,
    /// The client, bound to the proxy of this identity.
    pub session: Client,
    /// The headers sent with the submission.
    pub headers: HeaderMap,
    /// The solution token; empty until the challenge is solved.
    pub captcha: String,
    /// The credential for the solving service.
    pub cap_key: String,
}

impl Robinhood {
    /// A session for `email` that sends through `client`. Its headers are
    /// made for it, with a user agent of its own; it has no token yet.
    /// This never fails.
    pub fn new(client: Client, email: &String, invite_code: &String, cap_key: &String) -> (made:
        Result<Robinhood, TaskError>)
        ensures
            made matches Ok(robinhood) && robinhood.email@ == email@ && robinhood.invite_code@
                == invite_code@ && robinhood.cap_key@ == cap_key@ && robinhood.captcha@
                == Seq::<char>::empty() && robinhood.session == client && exists|
                user_agent: Seq<char>,
            |
                is_user_agent(user_agent) && header_entries(robinhood.headers)
                    == #[trigger] kept_entries(wanted_headers(user_agent)),
    {
        let headers = generate_headers();
        Ok(
            Robinhood {
                email: email.clone(),
                invite_code: invite_code.clone(),
                session: client,
                headers,
                captcha: String::new(),
                cap_key: cap_key.clone(),
            },
        )
    }

    /// The request that creates the challenge task.
    pub fn create_request(&self) -> (request: CreateRequest)
        ensures
            request.client_key@ == self.cap_key@,
            request.task_type@ == TASK_TYPE@,
            request.website_url@ == WEBSITE_URL@,
            request.website_key@ == WEBSITE_KEY@,
    {
        CreateRequest {
            client_key: self.cap_key.clone(),
            task_type: String::from_str(TASK_TYPE),
            website_url: String::from_str(WEBSITE_URL),
            website_key: String::from_str(WEBSITE_KEY),
        }
    }

    /// The request that polls for the result of the task `task_id`.
    pub fn poll_request(&self, task_id: u64) -> (request: PollRequest)
        ensures
            request.client_key@ == self.cap_key@,
            request.task_id == task_id,
    {
        PollRequest { client_key: self.cap_key.clone(), task_id }
    }

    /// Takes in the answer to a poll: a token that it carries is kept, and
    /// the kind of the answer is handed on for the solver.
    pub fn accept_answer(&mut self, answer: PollStatus) -> (kind: PollKind)
        ensures
            kind == answer@.kind(),
            final(self).captcha@ == match answer@ {
                PollReading::Ready(token) => token,
                _ => old(self).captcha@,
            },
            final(self).email == old(self).email,
            final(self).invite_code == old(self).invite_code,
            final(self).cap_key == old(self).cap_key,
            final(self).session == old(self).session,
            final(self).headers == old(self).headers,
    {
        match answer {
            PollStatus::Ready(token) => {
                self.captcha = token;
                PollKind::Ready
            },
            PollStatus::Processing => PollKind::Processing,
            PollStatus::Aborted => PollKind::Aborted,
            PollStatus::MissingToken => PollKind::MissingToken,
        }
    }

    /// The submission: the identifier, the token and the referral code.
    pub fn submit_request(&self) -> (request: SubmitRequest)
        ensures
            request.email@ == self.email@,
            request.token@ == self.captcha@,
            request.referred_by@ == self.invite_code@,
    {
        SubmitRequest {
            email: self.email.clone(),
            token: self.captcha.clone(),
            referred_by: self.invite_code.clone(),
        }
    }
}

} // verus!
