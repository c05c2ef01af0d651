//! Whole runs of the challenge solver: what it does over a sequence of
//! events, and what holds of every such run.

use vstd::prelude::*;
use crate::errors::TaskError;
use crate::solver::{
    ChallengeSolver, PollKind, SolverAction, SolverEvent, SolverPhase, BACKOFF_SECS,
    MAX_RETRIES,
};

verus! {

/// The state that `solver` reaches when it takes `events` one after another.
pub open spec fn run(solver: ChallengeSolver, events: Seq<SolverEvent>) -> ChallengeSolver
    decreases events.len(),
{
    if events.len() == 0 {
        solver
    } else {
        run(solver, events.drop_last()).next_state(events.last())
    }
}

/// The actions with which `solver` answers `events`, one for each event.
pub open spec fn emitted(solver: ChallengeSolver, events: Seq<SolverEvent>) -> Seq<SolverAction>
    decreases events.len(),
{
    if events.len() == 0 {
        Seq::empty()
    } else {
        emitted(solver, events.drop_last()).push(
            run(solver, events.drop_last()).response(events.last()),
        )
    }
}

/// The number of polls among `actions`.
pub open spec fn polls_in(actions: Seq<SolverAction>) -> nat
    decreases actions.len(),
{
    if actions.len() == 0 {
        0
    } else {
        polls_in(actions.drop_last()) + if actions.last() is SendPoll { 1nat } else { 0nat }
    }
}

/// The number of create requests among `actions`.
pub open spec fn creates_in(actions: Seq<SolverAction>) -> nat
    decreases actions.len(),
{
    if actions.len() == 0 {
        0
    } else {
        creates_in(actions.drop_last()) + if actions.last() is SendCreate { 1nat } else { 0nat }
    }
}

/// The events of a run in which the service hands out the identifier `id`
/// and answers each of the first `k` polls with `processing`: the start,
/// the identifier and the end of the initial delay, then `k` times a
/// `processing` answer and the end of the delay that follows it.
pub open spec fn processing_script(id: u64, k: nat) -> Seq<SolverEvent>
    decreases k,
{
    if k == 0 {
        seq![SolverEvent::Start, SolverEvent::Created(Some(id)), SolverEvent::Woke]
    } else {
        processing_script(id, (k - 1) as nat).push(
            SolverEvent::Polled(PollKind::Processing),
        ).push(SolverEvent::Woke)
    }
}

/// Whether each `processing` answer among `events` was answered with the
/// fixed delay.
pub open spec fn backs_off_after_processing(
    events: Seq<SolverEvent>,
    actions: Seq<SolverAction>,
) -> bool {
    forall|i: int|
        0 <= i < events.len() && events[i] == SolverEvent::Polled(PollKind::Processing)
            ==> #[trigger] actions[i] == SolverAction::Sleep(BACKOFF_SECS)
}

/// Taking one more event is one more step from where the run stood.
pub proof fn lemma_run_push(solver: ChallengeSolver, events: Seq<SolverEvent>, event: SolverEvent)
    ensures
        run(solver, events.push(event)) == run(solver, events).next_state(event),
        emitted(solver, events.push(event)) == emitted(solver, events).push(
            run(solver, events).response(event),
        ),
        emitted(solver, events).len() == events.len(),
    decreases events.len(),
{
    assert(events.push(event).drop_last() =~= events);
    if events.len() > 0 {
        lemma_run_push(solver, events.drop_last(), events.last());
        assert(events.drop_last().push(events.last()) =~= events);
    }
}

/// Appending one action adds one to the count if it is a poll.
pub proof fn lemma_count_push(actions: Seq<SolverAction>, action: SolverAction)
    ensures
        polls_in(actions.push(action)) == polls_in(actions) + if action is SendPoll {
            1nat
        } else {
            0nat
        },
        creates_in(actions.push(action)) == creates_in(actions) + if action is SendCreate {
            1nat
        } else {
            0nat
        },
{
    assert(actions.push(action).drop_last() =~= actions);
}

/// While the service keeps answering `processing` and the ceiling is not
/// reached, the solver polls once for each answer and once more.
proof fn lemma_processing_script(id: u64, k: nat)
    requires
        k < MAX_RETRIES,
    ensures
        run(ChallengeSolver::fresh(), processing_script(id, k)) == (ChallengeSolver {
            phase: SolverPhase::Polling,
            task_id: id,
            polls: (k + 1) as u32,
        }),
        polls_in(emitted(ChallengeSolver::fresh(), processing_script(id, k))) == k + 1,
        creates_in(emitted(ChallengeSolver::fresh(), processing_script(id, k))) == 1,
        backs_off_after_processing(
            processing_script(id, k),
            emitted(ChallengeSolver::fresh(), processing_script(id, k)),
        ),
    decreases k,
{
    let fresh = ChallengeSolver::fresh();
    if k == 0 {
        let e0: Seq<SolverEvent> = Seq::empty();
        let e1 = e0.push(SolverEvent::Start);
        let e2 = e1.push(SolverEvent::Created(Some(id)));
        let e3 = e2.push(SolverEvent::Woke);
        assert(processing_script(id, 0) =~= e3);
        lemma_run_push(fresh, e0, SolverEvent::Start);
        lemma_run_push(fresh, e1, SolverEvent::Created(Some(id)));
        lemma_run_push(fresh, e2, SolverEvent::Woke);
        lemma_count_push(emitted(fresh, e0), SolverAction::SendCreate);
        lemma_count_push(emitted(fresh, e1), SolverAction::Sleep(crate::solver::SETTLE_SECS));
        lemma_count_push(emitted(fresh, e2), SolverAction::SendPoll(id));
    } else {
        let before = processing_script(id, (k - 1) as nat);
        let mid = before.push(SolverEvent::Polled(PollKind::Processing));
        lemma_processing_script(id, (k - 1) as nat);
        lemma_run_push(fresh, before, SolverEvent::Polled(PollKind::Processing));
        lemma_run_push(fresh, mid, SolverEvent::Woke);
        lemma_count_push(emitted(fresh, before), SolverAction::Sleep(BACKOFF_SECS));
        lemma_count_push(emitted(fresh, mid), SolverAction::SendPoll(id));
    }
}

/// A service that answers `processing` exactly `k` times, with `k` below
/// the retry ceiling, and then `ready`: the solver succeeds, having sent
/// one create request and exactly `k + 1` polls, and having answered each
/// `processing` with the fixed delay.
pub proof fn ready_after_processing(id: u64, k: nat)
    requires
        k < MAX_RETRIES,
    ensures
        ({
            let events = processing_script(id, k).push(SolverEvent::Polled(PollKind::Ready));
            let end = run(ChallengeSolver::fresh(), events);
            let actions = emitted(ChallengeSolver::fresh(), events);
            &&& end.phase == SolverPhase::Solved
            &&& end.task_id == id
            &&& actions.last() == SolverAction::Succeed
            &&& creates_in(actions) == 1
            &&& polls_in(actions) == k + 1
            &&& backs_off_after_processing(events, actions)
        }),
{
    let fresh = ChallengeSolver::fresh();
    let script = processing_script(id, k);
    lemma_processing_script(id, k);
    lemma_run_push(fresh, script, SolverEvent::Polled(PollKind::Ready));
    lemma_count_push(emitted(fresh, script), SolverAction::Succeed);
}

/// A service that always answers `processing`: the solver fails with
/// `ChallengeTimeout` after exactly `MAX_RETRIES` polls.
pub proof fn always_processing_times_out(id: u64)
    ensures
        ({
            let events = processing_script(id, MAX_RETRIES as nat);
            let end = run(ChallengeSolver::fresh(), events);
            let actions = emitted(ChallengeSolver::fresh(), events);
            &&& end.phase == SolverPhase::Failed(TaskError::ChallengeTimeout)
            &&& actions.last() == SolverAction::Fail(TaskError::ChallengeTimeout)
            &&& polls_in(actions) == MAX_RETRIES
            &&& backs_off_after_processing(events, actions)
        }),
{
    let fresh = ChallengeSolver::fresh();
    let before = processing_script(id, (MAX_RETRIES - 1) as nat);
    let mid = before.push(SolverEvent::Polled(PollKind::Processing));
    lemma_processing_script(id, (MAX_RETRIES - 1) as nat);
    lemma_run_push(fresh, before, SolverEvent::Polled(PollKind::Processing));
    lemma_run_push(fresh, mid, SolverEvent::Woke);
    lemma_count_push(emitted(fresh, before), SolverAction::Sleep(BACKOFF_SECS));
    lemma_count_push(emitted(fresh, mid), SolverAction::Fail(TaskError::ChallengeTimeout));
}

/// Whatever the events, a solver whose poll count is within the ceiling
/// keeps it there, and it counts exactly the polls that it asks for.
pub proof fn polls_are_counted(solver: ChallengeSolver, events: Seq<SolverEvent>)
    requires
        solver.polls <= MAX_RETRIES,
    ensures
        run(solver, events).polls <= MAX_RETRIES,
        polls_in(emitted(solver, events)) == run(solver, events).polls - solver.polls,
    decreases events.len(),
{
    if events.len() > 0 {
        polls_are_counted(solver, events.drop_last());
        lemma_count_push(
            emitted(solver, events.drop_last()),
            run(solver, events.drop_last()).response(events.last()),
        );
    }
}

/// Whatever the events, a solve attempt never sends more than
/// `MAX_RETRIES` polls.
pub proof fn never_more_than_max_retries(events: Seq<SolverEvent>)
    ensures
        polls_in(emitted(ChallengeSolver::fresh(), events)) <= MAX_RETRIES,
{
    polls_are_counted(ChallengeSolver::fresh(), events);
}

/// Once an attempt is over, no event changes it or makes it ask for
/// anything.
pub proof fn over_is_final(solver: ChallengeSolver, events: Seq<SolverEvent>)
    requires
        solver.is_over(),
    ensures
        run(solver, events) == solver,
        forall|i: int| 0 <= i < events.len() ==> emitted(solver, events)[i] == SolverAction::Nothing,
        emitted(solver, events).len() == events.len(),
        polls_in(emitted(solver, events)) == 0,
    decreases events.len(),
{
    if events.len() > 0 {
        over_is_final(solver, events.drop_last());
        lemma_count_push(emitted(solver, events.drop_last()), SolverAction::Nothing);
    }
}

/// A poll answered with a status that is neither `ready` nor `processing`
/// ends the attempt at once with `ChallengeAborted`: whatever is reported
/// afterwards, no further poll is sent, however many retries were left.
pub proof fn unrecognised_status_aborts(solver: ChallengeSolver, later: Seq<SolverEvent>)
    requires
        solver.phase == SolverPhase::Polling,
    ensures
        ({
            let stopped = solver.next_state(SolverEvent::Polled(PollKind::Aborted));
            &&& stopped.phase == SolverPhase::Failed(TaskError::ChallengeAborted)
            &&& stopped.polls == solver.polls
            &&& solver.response(SolverEvent::Polled(PollKind::Aborted)) == SolverAction::Fail(
                TaskError::ChallengeAborted,
            )
            &&& run(stopped, later) == stopped
            &&& polls_in(emitted(stopped, later)) == 0
        }),
{
    over_is_final(solver.next_state(SolverEvent::Polled(PollKind::Aborted)), later);
}

/// The number of create requests still to come from a solver in phase
/// `phase`: one before the start, none after.
pub open spec fn creates_ahead(phase: SolverPhase) -> nat {
    if phase is Idle {
        1
    } else {
        0
    }
}

/// Whatever the events, a solver asks for a create request when it starts
/// and never again.
pub proof fn creates_are_counted(solver: ChallengeSolver, events: Seq<SolverEvent>)
    ensures
        creates_in(emitted(solver, events)) + creates_ahead(run(solver, events).phase)
            == creates_ahead(solver.phase),
    decreases events.len(),
{
    if events.len() > 0 {
        creates_are_counted(solver, events.drop_last());
        lemma_count_push(
            emitted(solver, events.drop_last()),
            run(solver, events.drop_last()).response(events.last()),
        );
    }
}

/// Whatever the events, a solve attempt sends one create request at most.
pub proof fn never_more_than_one_create(events: Seq<SolverEvent>)
    ensures
        creates_in(emitted(ChallengeSolver::fresh(), events)) <= 1,
{
    creates_are_counted(ChallengeSolver::fresh(), events);
}

/// An answer that ends the attempt ends the whole run: if the `at`-th
/// event is an aborting answer to a poll that was under way, the run ends
/// in `ChallengeAborted`, whatever was reported after it.
pub proof fn aborting_answer_ends_the_run(
    solver: ChallengeSolver,
    events: Seq<SolverEvent>,
    at: int,
)
    requires
        0 <= at < events.len(),
        run(solver, events.take(at)).phase == SolverPhase::Polling,
        events[at] == SolverEvent::Polled(PollKind::Aborted),
    ensures
        run(solver, events).phase == SolverPhase::Failed(TaskError::ChallengeAborted),
        run(solver, events).polls == run(solver, events.take(at)).polls,
    decreases events.len(),
{
    let front = events.drop_last();
    if at == events.len() - 1 {
        assert(events.take(at) =~= front);
    } else {
        assert(front.take(at) =~= events.take(at));
        aborting_answer_ends_the_run(solver, front, at);
    }
}

/// Whether the `at`-th of `events` is the answer that solved the attempt:
/// a `ready` answer to a poll that was under way.
pub open spec fn solved_at(solver: ChallengeSolver, events: Seq<SolverEvent>, at: int) -> bool {
    &&& 0 <= at < events.len()
    &&& events[at] == SolverEvent::Polled(PollKind::Ready)
    &&& run(solver, events.take(at)).phase == SolverPhase::Polling
    &&& run(solver, events.take(at + 1)).phase == SolverPhase::Solved
}

/// An attempt succeeds only by a `ready` answer to a poll that was under
/// way: a run that ends solved holds such an answer, and with it the
/// attempt was solved.
pub proof fn solved_only_by_ready(solver: ChallengeSolver, events: Seq<SolverEvent>)
    requires
        solver.phase != SolverPhase::Solved,
        run(solver, events).phase == SolverPhase::Solved,
    ensures
        exists|at: int| solved_at(solver, events, at),
    decreases events.len(),
{
    let front = events.drop_last();
    if events.len() > 0 {
        if run(solver, front).phase == SolverPhase::Solved {
            solved_only_by_ready(solver, front);
            let at = choose|at: int| solved_at(solver, front, at);
            assert(events.take(at) =~= front.take(at));
            assert(events.take(at + 1) =~= front.take(at + 1));
            assert(solved_at(solver, events, at));
        } else {
            let at = events.len() - 1;
            assert(events.take(at) =~= front);
            assert(events.take(at + 1) =~= events);
            assert(solved_at(solver, events, at));
        }
    }
}

/// Before the answer that solved it, an attempt took in no answer that
/// ends it: every answer to a poll that was under way before a run ended
/// solved was `ready`, `processing`, or a `ready` without its token.
pub proof fn solved_without_abort(solver: ChallengeSolver, events: Seq<SolverEvent>, at: int)
    requires
        run(solver, events).phase == SolverPhase::Solved,
        0 <= at < events.len(),
        run(solver, events.take(at)).phase == SolverPhase::Polling,
    ensures
        events[at] != SolverEvent::Polled(PollKind::Aborted),
{
    if events[at] == SolverEvent::Polled(PollKind::Aborted) {
        aborting_answer_ends_the_run(solver, events, at);
    }
}

} // verus!
