use invite_runner::errors::TaskError;
use invite_runner::events::{
    after_client, after_create, after_poll, after_probe, after_sleep, after_submit, read_poll,
    read_submit,
};
use invite_runner::outcome::{Severity, TaskOutcome, TaskResult};
use invite_runner::solver::{PollKind, SolverEvent, BACKOFF_SECS, MAX_RETRIES, SETTLE_SECS};
use invite_runner::worker::{TaskWorker, Verdict, WorkerAction, WorkerEvent, WorkerStage};

fn uses_network(action: WorkerAction) -> bool {
    matches!(
        action,
        WorkerAction::Probe
            | WorkerAction::CreateChallenge
            | WorkerAction::PollChallenge(_)
            | WorkerAction::Submit
    )
}

fn ready_to_poll(id: u64) -> TaskWorker {
    let mut worker = TaskWorker::new();
    assert_eq!(worker.step(WorkerEvent::Launch), WorkerAction::BuildClient);
    assert_eq!(worker.step(WorkerEvent::ClientReady), WorkerAction::Probe);
    assert_eq!(
        worker.step(WorkerEvent::ProbeAnswered),
        WorkerAction::CreateChallenge
    );
    assert_eq!(
        worker.step(WorkerEvent::Challenge(SolverEvent::Created(Some(id)))),
        WorkerAction::Sleep(SETTLE_SECS)
    );
    assert_eq!(
        worker.step(WorkerEvent::Challenge(SolverEvent::Woke)),
        WorkerAction::PollChallenge(id)
    );
    worker
}

#[test]
fn happy_path_walks_every_stage_in_order() {
    let mut worker = TaskWorker::new();
    assert_eq!(worker.stage, WorkerStage::Pending);
    worker.step(WorkerEvent::Launch);
    assert_eq!(worker.stage, WorkerStage::Pending);
    worker.step(WorkerEvent::ClientReady);
    assert_eq!(worker.stage, WorkerStage::ClientBuilt);
    worker.step(WorkerEvent::ProbeAnswered);
    assert_eq!(worker.stage, WorkerStage::ProxyVerified);
    worker.step(WorkerEvent::Challenge(SolverEvent::Created(Some(1))));
    worker.step(WorkerEvent::Challenge(SolverEvent::Woke));
    assert_eq!(
        worker.step(WorkerEvent::Challenge(SolverEvent::Polled(PollKind::Ready))),
        WorkerAction::Submit
    );
    assert_eq!(worker.stage, WorkerStage::ChallengeSolved);
    assert!(!worker.finished());
    assert_eq!(
        worker.step(WorkerEvent::SubmitAccepted),
        WorkerAction::Finish(Verdict::Success)
    );
    assert_eq!(worker.stage, WorkerStage::Submitted);
    assert!(worker.finished());
}

#[test]
fn client_build_failure_never_touches_the_network() {
    let mut worker = TaskWorker::new();
    assert_eq!(worker.step(WorkerEvent::Launch), WorkerAction::BuildClient);
    assert_eq!(
        worker.step(WorkerEvent::ClientFailed),
        WorkerAction::Finish(Verdict::ClientBuildFailure)
    );
    assert_eq!(worker.stage, WorkerStage::Failed(TaskError::ClientBuild));
    let later = [
        WorkerEvent::Launch,
        WorkerEvent::ClientReady,
        WorkerEvent::ProbeAnswered,
        WorkerEvent::ProbeFailed,
        WorkerEvent::Challenge(SolverEvent::Start),
        WorkerEvent::Challenge(SolverEvent::Created(Some(4))),
        WorkerEvent::Challenge(SolverEvent::Woke),
        WorkerEvent::Challenge(SolverEvent::Polled(PollKind::Ready)),
        WorkerEvent::SubmitAccepted,
        WorkerEvent::SubmitRejected,
    ];
    for event in later {
        let action = worker.step(event);
        assert!(!uses_network(action));
        assert_eq!(action, WorkerAction::Nothing);
    }
    assert_eq!(worker.stage, WorkerStage::Failed(TaskError::ClientBuild));
}

#[test]
fn probe_failure_is_a_proxy_failure() {
    let mut worker = TaskWorker::new();
    worker.step(WorkerEvent::Launch);
    worker.step(WorkerEvent::ClientReady);
    assert_eq!(
        worker.step(WorkerEvent::ProbeFailed),
        WorkerAction::Finish(Verdict::ProxyFailure)
    );
    assert_eq!(worker.stage, WorkerStage::Failed(TaskError::ProxyFailure));
    assert_eq!(
        worker.step(WorkerEvent::Challenge(SolverEvent::Start)),
        WorkerAction::Nothing
    );
}

#[test]
fn challenge_failures_end_the_task() {
    let mut worker = ready_to_poll(2);
    assert_eq!(
        worker.step(WorkerEvent::Challenge(SolverEvent::Polled(PollKind::Aborted))),
        WorkerAction::Finish(Verdict::ChallengeFailure)
    );
    assert_eq!(worker.stage, WorkerStage::Failed(TaskError::ChallengeAborted));
    assert_eq!(worker.step(WorkerEvent::SubmitAccepted), WorkerAction::Nothing);

    let mut worker = TaskWorker::new();
    worker.step(WorkerEvent::Launch);
    worker.step(WorkerEvent::ClientReady);
    worker.step(WorkerEvent::ProbeAnswered);
    assert_eq!(
        worker.step(WorkerEvent::Challenge(SolverEvent::Created(None))),
        WorkerAction::Finish(Verdict::ChallengeFailure)
    );
    assert_eq!(
        worker.stage,
        WorkerStage::Failed(TaskError::ChallengeCreateFailure)
    );
}

#[test]
fn worker_times_out_after_max_retries_polls() {
    let mut worker = ready_to_poll(8);
    let mut polls = 1;
    loop {
        assert_eq!(
            worker.step(WorkerEvent::Challenge(SolverEvent::Polled(
                PollKind::Processing
            ))),
            WorkerAction::Sleep(BACKOFF_SECS)
        );
        match worker.step(after_sleep()) {
            WorkerAction::PollChallenge(8) => polls += 1,
            WorkerAction::Finish(Verdict::ChallengeFailure) => break,
            other => panic!("unexpected action {:?}", other),
        }
    }
    assert_eq!(polls, MAX_RETRIES);
    assert_eq!(worker.stage, WorkerStage::Failed(TaskError::ChallengeTimeout));
}

#[test]
fn rejected_submission_is_a_submission_failure() {
    let mut worker = ready_to_poll(2);
    worker.step(WorkerEvent::Challenge(SolverEvent::Polled(PollKind::Ready)));
    assert_eq!(
        worker.step(WorkerEvent::SubmitRejected),
        WorkerAction::Finish(Verdict::SubmissionFailure)
    );
    assert_eq!(
        worker.stage,
        WorkerStage::Failed(TaskError::SubmissionFailure)
    );
}

#[test]
fn steps_cannot_be_skipped() {
    let mut worker = TaskWorker::new();
    assert_eq!(worker.step(WorkerEvent::ProbeAnswered), WorkerAction::Nothing);
    assert_eq!(worker.step(WorkerEvent::SubmitAccepted), WorkerAction::Nothing);
    assert_eq!(
        worker.step(WorkerEvent::Challenge(SolverEvent::Start)),
        WorkerAction::Nothing
    );
    assert_eq!(worker, TaskWorker::new());
    worker.step(WorkerEvent::ClientReady);
    assert_eq!(worker.step(WorkerEvent::SubmitAccepted), WorkerAction::Nothing);
    assert_eq!(worker.stage, WorkerStage::ClientBuilt);
}

#[test]
fn submission_without_position_succeeds_with_defaults() {
    let mut worker = ready_to_poll(2);
    worker.step(WorkerEvent::Challenge(SolverEvent::Polled(PollKind::Ready)));
    let read = read_submit(Some((200, b"{}")));
    let action = worker.step(after_submit(&read));
    assert_eq!(action, WorkerAction::Finish(Verdict::Success));
    let outcome = TaskOutcome::conclude("a@example.com", Verdict::Success, read.ok());
    assert_eq!(outcome.identity, "a@example.com");
    match outcome.result {
        TaskResult::Success {
            position,
            referral_code,
        } => {
            assert_eq!(position, 0);
            assert_eq!(referral_code, "");
        }
        other => panic!("unexpected result {:?}", other),
    }
}

#[test]
fn events_follow_what_the_network_gave() {
    let built: Result<u8, TaskError> = Ok(1);
    assert_eq!(after_client(&built), WorkerEvent::ClientReady);
    let failed: Result<u8, TaskError> = Err(TaskError::ClientBuild);
    assert_eq!(after_client(&failed), WorkerEvent::ClientFailed);
    assert_eq!(after_probe(true), WorkerEvent::ProbeAnswered);
    assert_eq!(after_probe(false), WorkerEvent::ProbeFailed);
    assert_eq!(
        after_create(Some(b"{\"taskId\": 77}")),
        WorkerEvent::Challenge(SolverEvent::Created(Some(77)))
    );
    assert_eq!(
        after_create(Some(b"{\"errorId\": 1}")),
        WorkerEvent::Challenge(SolverEvent::Created(None))
    );
    assert_eq!(
        after_create(None),
        WorkerEvent::Challenge(SolverEvent::Created(None))
    );
    assert_eq!(after_sleep(), WorkerEvent::Challenge(SolverEvent::Woke));
    assert_eq!(
        after_poll(&read_poll(None)),
        WorkerEvent::Challenge(SolverEvent::Polled(PollKind::Aborted))
    );
    assert_eq!(
        after_poll(&read_poll(Some(b"{\"status\":\"processing\"}"))),
        WorkerEvent::Challenge(SolverEvent::Polled(PollKind::Processing))
    );
    assert_eq!(after_submit(&read_submit(None)), WorkerEvent::SubmitRejected);
    assert_eq!(
        after_submit(&read_submit(Some((500, b"{}")))),
        WorkerEvent::SubmitRejected
    );
    assert_eq!(
        after_submit(&read_submit(Some((200, b"{\"position\": 3}")))),
        WorkerEvent::SubmitAccepted
    );
}

#[test]
fn outcomes_carry_verdict_and_severity() {
    let failure = TaskOutcome::conclude("x", Verdict::ProxyFailure, None);
    assert!(matches!(failure.result, TaskResult::ProxyFailure));
    assert!(!failure.is_success());
    assert_eq!(failure.severity(), Severity::Error);
    let failure = TaskOutcome::conclude("x", Verdict::ChallengeFailure, None);
    assert!(matches!(failure.result, TaskResult::ChallengeFailure));
    let failure = TaskOutcome::conclude("x", Verdict::SubmissionFailure, None);
    assert!(matches!(failure.result, TaskResult::SubmissionFailure));
    let failure = TaskOutcome::conclude("x", Verdict::ClientBuildFailure, None);
    assert!(matches!(failure.result, TaskResult::ClientBuildFailure));
    let read = read_submit(Some((
        201,
        b"{\"position\": 1234, \"referral_code\": \"abc-9\"}",
    )));
    let success = TaskOutcome::conclude("y", Verdict::Success, read.ok());
    assert!(success.is_success());
    assert_eq!(success.severity(), Severity::Info);
    match success.result {
        TaskResult::Success {
            position,
            referral_code,
        } => {
            assert_eq!(position, 1234);
            assert_eq!(referral_code, "abc-9");
        }
        other => panic!("unexpected result {:?}", other),
    }
}
