use invite_runner::dispatch::{Dispatcher, DEFAULT_CEILING, JITTER_END_SECS, JITTER_MIN_SECS};
use invite_runner::dispatch_model::{Admission, TaskPhase};
use invite_runner::events::{
    after_client, after_create, after_poll, after_probe, after_sleep, after_submit, read_poll,
    read_submit,
};
use invite_runner::errors::TaskError;
use invite_runner::outcome::{TaskOutcome, TaskResult};
use invite_runner::worker::{TaskWorker, WorkerAction, WorkerEvent};

#[test]
fn new_dispatcher_has_every_task_delayed() {
    let dispatcher: Dispatcher<u32> = Dispatcher::new(2, 3, 4);
    assert_eq!(dispatcher.ceiling(), 2);
    assert_eq!(dispatcher.jitter_secs(), 3);
    assert_eq!(dispatcher.task_count(), 4);
    assert_eq!(dispatcher.active_count(), 0);
    for task in 0..4 {
        assert_eq!(dispatcher.phase(task), Some(TaskPhase::Delayed));
        assert_eq!(dispatcher.outcome(task), None);
    }
    assert_eq!(dispatcher.phase(4), None);
    assert!(!dispatcher.is_complete());
}

#[test]
fn empty_worklist_is_complete_at_once() {
    let dispatcher: Dispatcher<u32> = Dispatcher::new(5, 2, 0);
    assert!(dispatcher.is_complete());
    assert_eq!(dispatcher.into_outcomes().len(), 0);
}

#[test]
fn default_ceiling_is_five() {
    assert_eq!(DEFAULT_CEILING, 5);
}

#[test]
fn random_jitter_lies_between_two_and_five() {
    for _ in 0..200 {
        let dispatcher: Dispatcher<u32> = Dispatcher::with_random_jitter(5, 3);
        let jitter = dispatcher.jitter_secs();
        assert!(JITTER_MIN_SECS <= jitter && jitter < JITTER_END_SECS);
        assert!(2 <= jitter && jitter < 5);
        assert_eq!(dispatcher.task_count(), 3);
        assert_eq!(dispatcher.ceiling(), 5);
    }
}

#[test]
fn random_jitter_is_not_always_the_same() {
    let first: Dispatcher<u32> = Dispatcher::with_random_jitter(5, 1);
    let mut differs = false;
    for _ in 0..400 {
        let next: Dispatcher<u32> = Dispatcher::with_random_jitter(5, 1);
        if next.jitter_secs() != first.jitter_secs() {
            differs = true;
        }
    }
    assert!(differs);
}

#[test]
fn permits_are_granted_up_to_the_ceiling() {
    let mut dispatcher: Dispatcher<u32> = Dispatcher::new(2, 2, 5);
    assert_eq!(dispatcher.arrive(0), Admission::Start);
    assert_eq!(dispatcher.arrive(1), Admission::Start);
    assert_eq!(dispatcher.arrive(2), Admission::Wait);
    assert_eq!(dispatcher.arrive(3), Admission::Wait);
    assert_eq!(dispatcher.active_count(), 2);
    assert_eq!(dispatcher.phase(2), Some(TaskPhase::Gated));
    assert_eq!(dispatcher.phase(4), Some(TaskPhase::Delayed));
}

#[test]
fn permit_passes_to_the_task_that_waited_longest() {
    let mut dispatcher: Dispatcher<u32> = Dispatcher::new(1, 2, 4);
    assert_eq!(dispatcher.arrive(3), Admission::Start);
    assert_eq!(dispatcher.arrive(1), Admission::Wait);
    assert_eq!(dispatcher.arrive(0), Admission::Wait);
    assert_eq!(dispatcher.arrive(2), Admission::Wait);
    assert_eq!(dispatcher.finish(3, 30), Some(1));
    assert_eq!(dispatcher.active_count(), 1);
    assert_eq!(dispatcher.finish(1, 10), Some(0));
    assert_eq!(dispatcher.finish(0, 0), Some(2));
    assert!(!dispatcher.is_complete());
    assert_eq!(dispatcher.finish(2, 20), None);
    assert_eq!(dispatcher.active_count(), 0);
    assert!(dispatcher.is_complete());
    assert_eq!(
        dispatcher.into_outcomes(),
        vec![Some(0), Some(10), Some(20), Some(30)]
    );
}

#[test]
fn events_that_do_not_fit_are_ignored() {
    let mut dispatcher: Dispatcher<u32> = Dispatcher::new(2, 2, 2);
    assert_eq!(dispatcher.arrive(7), Admission::Ignored);
    assert_eq!(dispatcher.finish(0, 1), None);
    assert_eq!(dispatcher.outcome(0), None);
    assert_eq!(dispatcher.arrive(0), Admission::Start);
    assert_eq!(dispatcher.arrive(0), Admission::Ignored);
    assert_eq!(dispatcher.active_count(), 1);
    assert_eq!(dispatcher.finish(0, 5), None);
    assert_eq!(dispatcher.finish(0, 6), None);
    assert_eq!(dispatcher.outcome(0), Some(&5));
    assert_eq!(dispatcher.arrive(0), Admission::Ignored);
    assert_eq!(dispatcher.finish(9, 6), None);
    assert_eq!(dispatcher.phase(0), Some(TaskPhase::Done));
}

#[test]
fn ceiling_of_zero_lets_nothing_run() {
    let mut dispatcher: Dispatcher<u32> = Dispatcher::new(0, 2, 2);
    assert_eq!(dispatcher.arrive(0), Admission::Wait);
    assert_eq!(dispatcher.arrive(1), Admission::Wait);
    assert_eq!(dispatcher.active_count(), 0);
    assert!(!dispatcher.is_complete());
}

#[test]
fn active_count_never_exceeds_the_ceiling() {
    for ceiling in 0..5usize {
        for tasks in 0..9usize {
            let mut dispatcher: Dispatcher<usize> = Dispatcher::new(ceiling, 2, tasks);
            let mut high = 0;
            let mut running = Vec::new();
            for task in 0..tasks {
                if dispatcher.arrive(task) == Admission::Start {
                    running.push(task);
                }
                high = high.max(dispatcher.active_count());
                assert!(dispatcher.active_count() <= ceiling);
                if task % 2 == 1 {
                    if let Some(done) = running.pop() {
                        if let Some(next) = dispatcher.finish(done, done) {
                            running.push(next);
                        }
                        assert!(dispatcher.active_count() <= ceiling);
                    }
                }
            }
            while let Some(done) = running.pop() {
                if let Some(next) = dispatcher.finish(done, done) {
                    running.push(next);
                }
                assert!(dispatcher.active_count() <= ceiling);
            }
            assert!(high <= ceiling);
            if ceiling > 0 {
                assert!(dispatcher.is_complete());
                let outcomes = dispatcher.into_outcomes();
                for task in 0..tasks {
                    assert_eq!(outcomes[task], Some(task));
                }
            }
        }
    }
}

fn run_task(identity: &str, position: i64) -> TaskOutcome {
    let mut worker = TaskWorker::new();
    let mut action = worker.step(WorkerEvent::Launch);
    let mut polls = 0;
    let mut receipt = None;
    let mut answer_ready = false;
    loop {
        let event = match action {
            WorkerAction::BuildClient => {
                let built: Result<(), TaskError> = Ok(());
                after_client(&built)
            }
            WorkerAction::Probe => after_probe(true),
            WorkerAction::CreateChallenge => after_create(Some(b"{\"taskId\": 5}")),
            WorkerAction::Sleep(_) => after_sleep(),
            WorkerAction::PollChallenge(id) => {
                assert_eq!(id, 5);
                polls += 1;
                let answer = if polls == 1 {
                    read_poll(Some(b"{\"status\":\"processing\"}"))
                } else {
                    read_poll(Some(
                        b"{\"status\":\"ready\",\"solution\":{\"gRecaptchaResponse\":\"t\"}}",
                    ))
                };
                answer_ready = polls > 1;
                after_poll(&answer)
            }
            WorkerAction::Submit => {
                assert!(answer_ready);
                let body = format!(
                    "{{\"position\": {}, \"referral_code\": \"ref-{}\"}}",
                    position, identity
                );
                let read = read_submit(Some((200, body.as_bytes())));
                let event = after_submit(&read);
                receipt = read.ok();
                event
            }
            WorkerAction::Finish(verdict) => {
                assert_eq!(polls, 2);
                return TaskOutcome::conclude(identity, verdict, receipt);
            }
            WorkerAction::Nothing => panic!("the worker is stuck"),
        };
        action = worker.step(event);
    }
}

fn run_all(ceiling: usize, jitter: u64, order: &[usize]) -> (Vec<Option<TaskOutcome>>, usize) {
    let identities = ["a@x.io", "b@x.io", "c@x.io"];
    let mut dispatcher: Dispatcher<TaskOutcome> = Dispatcher::new(ceiling, jitter, 3);
    let mut running = Vec::new();
    let mut high = 0;
    for &task in order {
        if dispatcher.arrive(task) == Admission::Start {
            running.push(task);
        }
        high = high.max(dispatcher.active_count());
    }
    while !running.is_empty() {
        let task = running.remove(0);
        let outcome = run_task(identities[task], 100 + task as i64);
        if let Some(next) = dispatcher.finish(task, outcome) {
            running.push(next);
        }
        high = high.max(dispatcher.active_count());
    }
    assert!(dispatcher.is_complete());
    (dispatcher.into_outcomes(), high)
}

#[test]
fn three_pairs_under_ceiling_two_all_succeed() {
    let (outcomes, high) = run_all(2, 3, &[0, 1, 2]);
    assert_eq!(outcomes.len(), 3);
    assert!(high <= 2);
    assert_eq!(high, 2);
    let mut successes = 0;
    for outcome in &outcomes {
        let outcome = outcome.as_ref().unwrap();
        if outcome.is_success() {
            successes += 1;
        }
    }
    assert_eq!(successes, 3);
}

#[test]
fn rerun_yields_the_same_outcome_for_each_identity() {
    let (first, _) = run_all(2, 2, &[0, 1, 2]);
    let (second, _) = run_all(1, 4, &[2, 0, 1]);
    let (third, _) = run_all(5, 3, &[1, 2, 0]);
    for run in [&second, &third] {
        for task in 0..3 {
            let a = first[task].as_ref().unwrap();
            let b = run[task].as_ref().unwrap();
            assert_eq!(a.identity, b.identity);
            match (&a.result, &b.result) {
                (
                    TaskResult::Success {
                        position: pa,
                        referral_code: ra,
                    },
                    TaskResult::Success {
                        position: pb,
                        referral_code: rb,
                    },
                ) => {
                    assert_eq!(pa, pb);
                    assert_eq!(ra, rb);
                    assert_eq!(*pa, 100 + task as i64);
                }
                other => panic!("unexpected results {:?}", other),
            }
        }
    }
}
