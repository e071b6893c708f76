//! Waiting for invocations, and cancelling them.

use crate::cell::{grantee, Grant, TaskId};
use crate::lock::{lock_of, SchedGuard};
use crate::task::{schedule, schedule_grant, scheduled, ContinuationTask};
use tokio::sync::oneshot::error::RecvError;
use tokio::sync::oneshot::{Receiver, Sender};
use vstd::prelude::*;

verus! {

/// The end of a one-shot channel that a caller waits at.
#[verifier::external_type_specification]
#[verifier::external_body]
#[verifier::reject_recursive_types(T)]
pub struct ExReceiver<T>(Receiver<T>);

/// The end of a one-shot channel that a body sends its result through.
#[verifier::external_type_specification]
#[verifier::external_body]
#[verifier::reject_recursive_types(T)]
pub struct ExSender<T>(Sender<T>);

/// What a receiver gives once its sender is gone without having sent.
#[verifier::external_type_specification]
#[verifier::external_body]
pub struct ExRecvError(RecvError);

/// `tokio::sync::oneshot::channel`: two ends of one channel. What the receiver
/// gives depends on what is done with the sender, so nothing is said of it.
#[verifier::external_body]
pub(crate) fn channel<R>() -> (Sender<R>, Receiver<R>) {
    tokio::sync::oneshot::channel()
}

/// `Sender::send`: sends a value, or gives it back if nobody waits for it any more.
/// Whether somebody does depends on the receiver.
#[verifier::external_body]
pub(crate) fn send<R>(tx: Sender<R>, value: R) -> (sent: Result<(), R>)
    ensures
        sent matches Err(back) ==> back == value,
{
    tx.send(value)
}

/// Delivers the result of a body that has run to its end. Returned is the result
/// if nobody waits for it any more.
pub fn deliver<R>(tx: Sender<R>, value: R) -> (unclaimed: Option<R>)
    ensures
        exists|sent: Result<(), R>| #[trigger]
            sent_as(tx, value, sent) && unclaimed == returned(sent),
        unclaimed matches Some(back) ==> back == value,
{
    let sent: Result<(), R> = send(tx, value);
    assert(sent_as(tx, value, sent));
    undelivered(sent)
}

/// What is left of a result after the attempt to send it: the result itself if it
/// came back. Whether it does is up to the receiver, so [`deliver`] leaves that
/// unsaid.
pub fn undelivered<R>(sent: Result<(), R>) -> (unclaimed: Option<R>)
    ensures
        unclaimed == returned(sent),
{
    match sent {
        Ok(()) => None,
        Err(back) => Some(back),
    }
}

/// Whether `value` was sent through `tx`, with this outcome.
pub open(crate) spec fn sent_as<R>(tx: Sender<R>, value: R, sent: Result<(), R>) -> bool {
    call_ensures(send::<R>, (tx, value), sent)
}

/// What is left of a result after the attempt to send it.
pub open spec fn returned<R>(sent: Result<(), R>) -> Option<R> {
    match sent {
        Ok(()) => None,
        Err(back) => Some(back),
    }
}

/// Whether these are the two ends of one channel.
pub open(crate) spec fn ends_of_one<R>(tx: Sender<R>, rx: Receiver<R>) -> bool {
    call_ensures(channel::<R>, (), (tx, rx))
}

/// Requests cancellation of one in-flight invocation. `H` leads to its
/// continuation without keeping it alive.
pub struct AbortHandle<H> {
    pub task: H,
}

impl<H: Clone> Clone for AbortHandle<H> {
    fn clone(&self) -> (handle: AbortHandle<H>)
        ensures
            cloned(self.task, handle.task),
    {
        AbortHandle { task: self.task.clone() }
    }
}

impl<H> AbortHandle<H> {
    /// A handle to the invocation that `task` leads to.
    pub fn new(task: H) -> (handle: AbortHandle<H>)
        ensures
            handle.task == task,
    {
        AbortHandle { task }
    }

    /// Requests cancellation of `task`, the invocation that the handle leads to:
    /// marks it as cancelled and makes it runnable, so that a worker drops its
    /// suspended body. Where the invocation is over this changes nothing for its
    /// caller. Returned is what is to be handed to the executor, as in
    /// [`schedule`].
    pub fn abort(&self, task: &mut ContinuationTask, sched: &mut SchedGuard<'_>) -> (granted: Option<Grant>)
        ensures
            *final(task) == old(task).aborted(),
            grantee(granted) == schedule_grant(*old(task), old(sched)@),
            final(sched)@ == scheduled(*old(task), old(sched)@),
            lock_of(*final(sched)) == lock_of(*old(sched)),
    {
        task.cancelled = true;
        schedule(task, sched)
    }
}

/// An invocation did not produce a value: it was cancelled or panicked.
#[derive(Clone, Copy, Debug, PartialEq, Eq, Structural)]
pub struct Cancelled;

impl Cancelled {
    /// What the error says.
    pub fn message(&self) -> (text: &'static str)
        ensures
            text@ == "stage: actor invocation was cancelled or panicked"@,
    {
        "stage: actor invocation was cancelled or panicked"
    }
}

/// Handle to a running invocation, at which its caller waits for the result.
///
/// An invocation runs from the time of the call on, whether or not somebody
/// waits. Dropping the handle detaches it.
#[verifier::reject_recursive_types(R)]
pub struct JoinHandle<R, H> {
    pub rx: Receiver<R>,
    pub abort: AbortHandle<H>,
}

impl<R, H> JoinHandle<R, H> {
    /// A handle to the invocation that `abort` cancels and whose result comes
    /// through `rx`.
    pub fn new(rx: Receiver<R>, abort: AbortHandle<H>) -> (handle: JoinHandle<R, H>)
        ensures
            handle.rx == rx,
            handle.abort == abort,
    {
        JoinHandle { rx, abort }
    }

    /// Requests cancellation without giving up the handle.
    pub fn abort(&self, task: &mut ContinuationTask, sched: &mut SchedGuard<'_>) -> (granted: Option<Grant>)
        ensures
            *final(task) == old(task).aborted(),
            grantee(granted) == schedule_grant(*old(task), old(sched)@),
            final(sched)@ == scheduled(*old(task), old(sched)@),
            lock_of(*final(sched)) == lock_of(*old(sched)),
    {
        self.abort.abort(task, sched)
    }

    /// Cancels the invocation, giving up the handle.
    pub fn cancel(self, task: &mut ContinuationTask, sched: &mut SchedGuard<'_>) -> (granted: Option<Grant>)
        ensures
            *final(task) == old(task).aborted(),
            grantee(granted) == schedule_grant(*old(task), old(sched)@),
            final(sched)@ == scheduled(*old(task), old(sched)@),
            lock_of(*final(sched)) == lock_of(*old(sched)),
    {
        self.abort.abort(task, sched)
    }

    /// A standalone handle that cancels the same invocation.
    pub fn abort_handle(&self) -> (abort: AbortHandle<H>) where H: Clone
        ensures
            cloned(self.abort.task, abort.task),
    {
        self.abort.clone()
    }

    /// What the caller gets for what came through the channel: the result, or
    /// [`Cancelled`] if the sender went away without one.
    pub fn try_join(received: Result<R, RecvError>) -> (outcome: Result<R, Cancelled>)
        ensures
            outcome == (match received {
                Ok(value) => Ok::<R, Cancelled>(value),
                Err(_) => Err::<R, Cancelled>(Cancelled),
            }),
    {
        match received {
            Ok(value) => Ok(value),
            Err(_) => Err(Cancelled),
        }
    }

    /// What a caller that waits gets for what polling the channel gave: the
    /// result, or nothing while nothing has come through. It must not be asked
    /// once the sender went away without a result.
    pub fn poll(received: Option<Result<R, RecvError>>) -> (value: Option<R>)
        requires
            !(received matches Some(Err(_))),
        ensures
            value == (match received {
                Some(Ok(value)) => Some(value),
                _ => None,
            }),
    {
        match received {
            Some(Ok(value)) => Some(value),
            _ => None,
        }
    }
}

/// An invocation that is being set up: its continuation, and the end of the
/// channel at which its caller is to wait.
#[verifier::reject_recursive_types(R)]
pub struct Invocation<R> {
    pub task: ContinuationTask,
    pub rx: Receiver<R>,
}

impl<R> Invocation<R> {
    /// Opens the channel of an invocation. The body is to send its result through
    /// the sender.
    pub fn open(id: TaskId) -> (opened: (Sender<R>, Invocation<R>))
        ensures
            opened.1.task == ContinuationTask::fresh(id),
            ends_of_one(opened.0, opened.1.rx),
    {
        let (tx, rx) = channel();
        (tx, Invocation { task: ContinuationTask::new(id), rx })
    }
}

/// Starts an invocation: makes its continuation runnable at once and gives the
/// handle at which its caller waits. Returned with it is what is to be handed to
/// the executor, as in [`schedule`].
pub fn spawn_method<R, H>(
    task: &mut ContinuationTask,
    sched: &mut SchedGuard<'_>,
    rx: Receiver<R>,
    leads_to: H,
) -> (started: (JoinHandle<R, H>, Option<Grant>))
    ensures
        *final(task) == old(task).woken(),
        final(sched)@ == scheduled(*old(task), old(sched)@),
        lock_of(*final(sched)) == lock_of(*old(sched)),
        started.0.rx == rx,
        started.0.abort.task == leads_to,
        grantee(started.1) == schedule_grant(*old(task), old(sched)@),
{
    let abort: AbortHandle<H> = AbortHandle::new(leads_to);
    let granted: Option<Grant> = schedule(task, sched);
    (JoinHandle::new(rx, abort), granted)
}

/// A result that could not be sent comes back as it is, and only then does one.
pub proof fn unsent_results_come_back<R>(sent: Result<(), R>)
    ensures
        sent matches Err(value) ==> returned(sent) == Some(value),
        sent is Ok ==> returned(sent) is None,
{
}

} // verus!
