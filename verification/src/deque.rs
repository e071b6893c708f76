//! The queues of an executor: `crossbeam_deque`'s injector, worker queues and
//! stealers.
//!
//! Worker threads push to and steal from these queues through shared references,
//! all at the same time. What a queue holds when a thread gets to it depends on
//! the other threads, so that is left unsaid. What comes out of a queue is one of
//! the continuations that went into it.

use crate::cell::TaskId;
use crate::turns::Turn;
use crossbeam_deque::{Injector, Steal, Stealer, Worker};
use vstd::prelude::*;

verus! {

/// The queue that all workers of an executor share.
#[verifier::external_type_specification]
#[verifier::external_body]
#[verifier::reject_recursive_types(T)]
pub struct ExInjector<T>(Injector<T>);

/// The queue that one worker owns.
#[verifier::external_type_specification]
#[verifier::external_body]
#[verifier::reject_recursive_types(T)]
pub struct ExWorker<T>(Worker<T>);

/// The end of a worker's queue that the other workers steal from.
#[verifier::external_type_specification]
#[verifier::external_body]
#[verifier::reject_recursive_types(T)]
pub struct ExStealer<T>(Stealer<T>);

/// Whether a worker's queue was made as a first-in first-out queue.
pub uninterp spec fn is_fifo(worker: Worker<TaskId>) -> bool;

/// The stealer of a worker's queue.
pub uninterp spec fn stealer_of(worker: Worker<TaskId>) -> Stealer<TaskId>;

/// Every continuation that goes into a shared queue, at any time.
pub uninterp spec fn pushed(injector: Injector<TaskId>) -> Set<TaskId>;

/// Every continuation that goes into the worker's queue behind a stealer, at any
/// time.
pub uninterp spec fn entered(stealer: Stealer<TaskId>) -> Set<TaskId>;

/// How one attempt to get a continuation out of a queue came out.
#[derive(Clone, Copy, Debug, PartialEq, Eq, Structural)]
pub enum Attempt {
    /// The queue was empty.
    Empty,
    /// It gave this continuation.
    Success(TaskId),
    /// Another thread interfered; the attempt is to be repeated.
    Retry,
}

/// `Injector::new`: a queue with nothing in it. Nothing is said of what it holds
/// later.
#[verifier::external_body]
pub(crate) fn new_injector() -> Injector<TaskId> {
    Injector::new()
}

/// `Worker::new_fifo`: a worker's queue with nothing in it, which gives first what
/// it got first.
#[verifier::external_body]
pub(crate) fn new_worker() -> (worker: Worker<TaskId>)
    ensures
        is_fifo(worker),
{
    Worker::new_fifo()
}

/// `Worker::stealer`: a handle to this very queue. Any two stealers of one queue
/// are alike.
#[verifier::external_body]
pub(crate) fn stealer(worker: &Worker<TaskId>) -> (stealer: Stealer<TaskId>)
    ensures
        stealer == stealer_of(*worker),
{
    worker.stealer()
}

/// `Worker::pop`: takes a continuation from the worker's own queue, if the other
/// workers have left one. What it gives went into this queue before.
#[verifier::external_body]
pub(crate) fn pop(worker: &Worker<TaskId>, _turn: Turn) -> (taken: Option<TaskId>)
    ensures
        taken matches Some(task) ==> entered(stealer_of(*worker)).contains(task),
    opens_invariants none
{
    worker.pop()
}

/// `Injector::steal_batch_and_pop`: moves some continuations from the shared queue
/// to the worker's own, and gives another one. What it gives went into the shared
/// queue before. Which ones are moved is left unsaid.
#[verifier::external_body]
pub(crate) fn steal_shared(
    injector: &Injector<TaskId>,
    local: &Worker<TaskId>,
    _turn: Turn,
) -> (attempt: Attempt)
    ensures
        attempt matches Attempt::Success(task) ==> pushed(*injector).contains(task),
    opens_invariants none
{
    match injector.steal_batch_and_pop(local) {
        Steal::Empty => Attempt::Empty,
        Steal::Success(task) => Attempt::Success(task),
        Steal::Retry => Attempt::Retry,
    }
}

/// `Stealer::steal_batch_and_pop`, of stealer number `i`: moves some continuations from another worker's
/// queue to the worker's own, and gives another one. What it gives went into that
/// worker's queue before. Which ones are moved is left unsaid.
#[verifier::external_body]
pub(crate) fn steal_sibling(
    stealers: &Vec<Stealer<TaskId>>,
    i: usize,
    local: &Worker<TaskId>,
    _turn: Turn,
) -> (attempt: Attempt)
    requires
        i < stealers@.len(),
    ensures
        attempt matches Attempt::Success(task) ==> entered(stealers@[i as int]).contains(task),
    opens_invariants none
{
    match stealers[i].steal_batch_and_pop(local) {
        Steal::Empty => Attempt::Empty,
        Steal::Success(task) => Attempt::Success(task),
        Steal::Retry => Attempt::Retry,
    }
}

} // verus!
