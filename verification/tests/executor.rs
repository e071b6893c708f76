//! Executors: sharing out continuations among workers.

use stage_core::cell::{CellSched, Grant};
use stage_core::deque::Attempt;
use stage_core::executor::{
    find_task, worker_loop, Executor, Found, Search, Source, WorkerAction, WorkerEvent,
    FALLBACK_WORKERS, PARK_MILLIS,
};

/// The token of an actor that nobody else has called.
fn grant(task: u64) -> Grant {
    CellSched::new().arrive(task).unwrap()
}

#[test]
fn number_of_workers() {
    assert_eq!(Executor::with_threads(0).0.workers(), 1);
    assert_eq!(Executor::with_threads(0).1.len(), 1);
    assert_eq!(Executor::with_threads(5).0.workers(), 5);
    assert_eq!(Executor::new(Some(3)).1.len(), 3);
    assert_eq!(Executor::new(Some(0)).1.len(), 1);
    assert_eq!(Executor::new(None).1.len(), 4);
    assert_eq!(FALLBACK_WORKERS, 4);
    assert_eq!(PARK_MILLIS, 1);
}

#[test]
fn nudges_go_round() {
    let (executor, _locals) = Executor::with_threads(3);
    let nudged: Vec<_> = (10..16).map(|ticket| executor.inject(grant(1), ticket)).collect();
    assert_eq!(nudged, vec![Some(1), Some(2), Some(0), Some(1), Some(2), Some(0)]);
    assert_eq!(executor.inject(grant(1), usize::MAX), Some(usize::MAX % 3));
}

fn search(executor: &Executor, local: &crossbeam_deque::Worker<u64>, own: usize) -> Option<u64> {
    let mut search = Search::new(own, executor.workers());
    loop {
        match find_task(local, executor, &mut search, 1) {
            Found::Task(id) => return Some(id),
            Found::Nothing => return None,
            Found::Unfinished => {}
        }
    }
}

#[test]
fn worker_queues_are_first_in_first_out() {
    let (executor, locals) = Executor::with_threads(1);
    for id in 0..40 {
        executor.inject(grant(id), 0);
    }
    for id in 0..40 {
        assert_eq!(search(&executor, &locals[0], 0), Some(id));
    }
    assert_eq!(search(&executor, &locals[0], 0), None);
}

#[test]
fn own_queue_comes_first() {
    let (executor, locals) = Executor::with_threads(2);
    executor.inject(grant(1), 0);
    locals[1].push(3);
    locals[0].push(2);
    assert_eq!(search(&executor, &locals[0], 0), Some(2));
    assert_eq!(search(&executor, &locals[0], 0), Some(1));
    // Then its sibling's.
    assert_eq!(search(&executor, &locals[0], 0), Some(3));
    assert_eq!(search(&executor, &locals[0], 0), None);
}

#[test]
fn idle_worker_steals_from_every_sibling() {
    for owner in 0..4 {
        let (executor, locals) = Executor::with_threads(4);
        locals[owner].push(9);
        let thief = (owner + 1) % 4;
        assert_eq!(search(&executor, &locals[thief], thief), Some(9));
        assert_eq!(search(&executor, &locals[owner], owner), None);
    }
}

#[test]
fn search_order() {
    let mut search = Search::new(1, 4);
    let mut seen = Vec::new();
    loop {
        seen.push(search.source());
        match search.judge(Attempt::Empty) {
            Found::Nothing => break,
            found => assert_eq!(found, Found::Unfinished),
        }
    }
    assert_eq!(
        seen,
        vec![
            Source::Local,
            Source::Shared,
            Source::Sibling(0),
            Source::Sibling(2),
            Source::Sibling(3)
        ]
    );
    assert_eq!(search.source(), Source::Exhausted);
}

#[test]
fn interference_repeats_the_attempt() {
    let mut search = Search::new(0, 2);
    assert_eq!(search.judge(Attempt::Empty), Found::Unfinished);
    assert_eq!(search.source(), Source::Shared);
    assert_eq!(search.judge(Attempt::Retry), Found::Unfinished);
    assert_eq!(search.source(), Source::Shared);
    assert_eq!(search.judge(Attempt::Success(8)), Found::Task(8));
    assert_eq!(search.source(), Source::Shared);
}

#[test]
fn impatient_search_goes_on_where_it_stopped() {
    let (executor, locals) = Executor::with_threads(2);
    locals[1].push(6);
    let mut search = Search::new(0, 2);
    assert_eq!(find_task(&locals[0], &executor, &mut search, 0), Found::Unfinished);
    assert_eq!(search.source(), Source::Local);
    assert_eq!(find_task(&locals[0], &executor, &mut search, 2), Found::Unfinished);
    assert_eq!(search.source(), Source::Sibling(1));
    assert_eq!(find_task(&locals[0], &executor, &mut search, 100), Found::Task(6));
}

#[test]
fn worker_thread() {
    assert_eq!(worker_loop(WorkerEvent::Orphaned), WorkerAction::Exit);
    assert_eq!(worker_loop(WorkerEvent::Awake { shutdown: true }), WorkerAction::Exit);
    assert_eq!(worker_loop(WorkerEvent::Awake { shutdown: false }), WorkerAction::Search);
    assert_eq!(worker_loop(WorkerEvent::Searched(Found::Task(4))), WorkerAction::Run(4));
    assert_eq!(worker_loop(WorkerEvent::Searched(Found::Nothing)), WorkerAction::Park);
    assert_eq!(worker_loop(WorkerEvent::Searched(Found::Unfinished)), WorkerAction::Search);
}
