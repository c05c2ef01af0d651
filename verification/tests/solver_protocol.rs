use invite_runner::errors::TaskError;
use invite_runner::solver::{
    ChallengeSolver, PollKind, SolverAction, SolverEvent, SolverPhase, BACKOFF_SECS, MAX_RETRIES,
    SETTLE_SECS,
};

fn started(id: u64) -> ChallengeSolver {
    let mut solver = ChallengeSolver::new();
    assert_eq!(solver.step(SolverEvent::Start), SolverAction::SendCreate);
    assert_eq!(
        solver.step(SolverEvent::Created(Some(id))),
        SolverAction::Sleep(SETTLE_SECS)
    );
    assert_eq!(solver.step(SolverEvent::Woke), SolverAction::SendPoll(id));
    solver
}

#[test]
fn protocol_constants_are_fixed() {
    assert_eq!(MAX_RETRIES, 30);
    assert_eq!(SETTLE_SECS, 5);
    assert_eq!(BACKOFF_SECS, 3);
}

#[test]
fn ready_on_first_poll_succeeds() {
    let mut solver = started(7);
    assert_eq!(solver.polls, 1);
    assert_eq!(
        solver.step(SolverEvent::Polled(PollKind::Ready)),
        SolverAction::Succeed
    );
    assert_eq!(solver.phase, SolverPhase::Solved);
    assert!(solver.finished());
}

#[test]
fn create_without_identifier_fails_at_once() {
    let mut solver = ChallengeSolver::new();
    solver.step(SolverEvent::Start);
    assert_eq!(
        solver.step(SolverEvent::Created(None)),
        SolverAction::Fail(TaskError::ChallengeCreateFailure)
    );
    assert_eq!(solver.polls, 0);
    assert_eq!(solver.step(SolverEvent::Woke), SolverAction::Nothing);
}

#[test]
fn processing_k_times_then_ready_polls_k_plus_one_times() {
    for k in 0..MAX_RETRIES {
        let mut solver = ChallengeSolver::new();
        let mut creates = 0;
        let mut polls = 0;
        let mut backoffs = 0;
        if solver.step(SolverEvent::Start) == SolverAction::SendCreate {
            creates += 1;
        }
        solver.step(SolverEvent::Created(Some(11)));
        let mut action = solver.step(SolverEvent::Woke);
        for _ in 0..k {
            assert_eq!(action, SolverAction::SendPoll(11));
            polls += 1;
            assert_eq!(
                solver.step(SolverEvent::Polled(PollKind::Processing)),
                SolverAction::Sleep(BACKOFF_SECS)
            );
            backoffs += 1;
            action = solver.step(SolverEvent::Woke);
        }
        assert_eq!(action, SolverAction::SendPoll(11));
        polls += 1;
        assert_eq!(
            solver.step(SolverEvent::Polled(PollKind::Ready)),
            SolverAction::Succeed
        );
        assert_eq!(creates, 1);
        assert_eq!(polls, k + 1);
        assert_eq!(backoffs, k);
        assert_eq!(solver.polls, k + 1);
    }
}

#[test]
fn always_processing_times_out_after_max_retries() {
    let mut solver = started(3);
    let mut polls = 1;
    loop {
        assert_eq!(
            solver.step(SolverEvent::Polled(PollKind::Processing)),
            SolverAction::Sleep(BACKOFF_SECS)
        );
        match solver.step(SolverEvent::Woke) {
            SolverAction::SendPoll(3) => polls += 1,
            SolverAction::Fail(error) => {
                assert_eq!(error, TaskError::ChallengeTimeout);
                break;
            }
            other => panic!("unexpected action {:?}", other),
        }
    }
    assert_eq!(polls, 30);
    assert_eq!(polls, MAX_RETRIES);
    assert_eq!(solver.phase, SolverPhase::Failed(TaskError::ChallengeTimeout));
    assert_eq!(
        solver.step(SolverEvent::Polled(PollKind::Ready)),
        SolverAction::Nothing
    );
}

#[test]
fn unrecognised_status_aborts_without_exhausting_retries() {
    let mut solver = started(5);
    assert_eq!(
        solver.step(SolverEvent::Polled(PollKind::Aborted)),
        SolverAction::Fail(TaskError::ChallengeAborted)
    );
    assert_eq!(solver.polls, 1);
    assert_eq!(solver.step(SolverEvent::Woke), SolverAction::Nothing);
    assert_eq!(solver.phase, SolverPhase::Failed(TaskError::ChallengeAborted));
}

#[test]
fn ready_without_token_is_polled_again_without_delay() {
    let mut solver = started(9);
    assert_eq!(
        solver.step(SolverEvent::Polled(PollKind::MissingToken)),
        SolverAction::SendPoll(9)
    );
    assert_eq!(solver.polls, 2);
}

#[test]
fn ready_without_token_also_stops_at_the_ceiling() {
    let mut solver = started(9);
    let mut polls = 1;
    loop {
        match solver.step(SolverEvent::Polled(PollKind::MissingToken)) {
            SolverAction::SendPoll(9) => polls += 1,
            SolverAction::Fail(TaskError::ChallengeTimeout) => break,
            other => panic!("unexpected action {:?}", other),
        }
    }
    assert_eq!(polls, MAX_RETRIES);
}

#[test]
fn aborting_answer_is_not_healed_by_a_later_ready() {
    let mut solver = started(9);
    assert_eq!(
        solver.step(SolverEvent::Polled(PollKind::Aborted)),
        SolverAction::Fail(TaskError::ChallengeAborted)
    );
    assert_eq!(solver.step(SolverEvent::Woke), SolverAction::Nothing);
    assert_eq!(
        solver.step(SolverEvent::Polled(PollKind::Ready)),
        SolverAction::Nothing
    );
    assert_eq!(solver.phase, SolverPhase::Failed(TaskError::ChallengeAborted));
    assert_eq!(solver.polls, 1);
}

#[test]
fn create_request_is_sent_once() {
    let mut solver = ChallengeSolver::new();
    let mut creates = 0;
    let events = [
        SolverEvent::Start,
        SolverEvent::Start,
        SolverEvent::Created(Some(1)),
        SolverEvent::Start,
        SolverEvent::Woke,
        SolverEvent::Start,
        SolverEvent::Polled(PollKind::Processing),
        SolverEvent::Start,
        SolverEvent::Woke,
        SolverEvent::Polled(PollKind::Ready),
        SolverEvent::Start,
    ];
    for event in events {
        if solver.step(event) == SolverAction::SendCreate {
            creates += 1;
        }
    }
    assert_eq!(creates, 1);
    assert_eq!(solver.phase, SolverPhase::Solved);
}

#[test]
fn events_out_of_turn_change_nothing() {
    let mut solver = ChallengeSolver::new();
    assert_eq!(solver.step(SolverEvent::Woke), SolverAction::Nothing);
    assert_eq!(
        solver.step(SolverEvent::Polled(PollKind::Ready)),
        SolverAction::Nothing
    );
    assert_eq!(solver, ChallengeSolver::new());
    assert!(!solver.finished());
}
