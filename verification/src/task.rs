//! Continuations: one in-flight invocation of an actor method each.

use crate::cell::{grantee, Grant, SchedView, TaskId};
use crate::lock::{lock_of, SchedGuard};
use vstd::prelude::*;

verus! {

/// The bookkeeping of one in-flight invocation.
#[derive(Clone, Copy, Debug, PartialEq, Eq, Structural)]
pub struct ContinuationTask {
    pub id: TaskId,
    /// Set while the continuation sits in some queue, to coalesce redundant wakes.
    pub queued: bool,
    /// Set once cancellation has been requested.
    pub cancelled: bool,
    /// Set while there is a body left to run.
    pub live: bool,
}

/// How one poll of a body came out.
#[derive(Clone, Copy, Debug, PartialEq, Eq, Structural)]
pub enum PollOutcome {
    /// The body ran to its end and delivered its result.
    Ready,
    /// The body suspended.
    Pending,
    /// The body panicked.
    Panicked,
}

/// What a worker learns of a continuation that it runs.
#[derive(Clone, Copy, Debug, PartialEq, Eq, Structural)]
pub enum RunEvent {
    /// The continuation was taken from a queue.
    Taken,
    /// Its body was polled once.
    Polled(PollOutcome),
    /// Its body was dropped.
    Dropped,
}

/// What a worker does next with a continuation that it runs.
#[derive(Clone, Copy, Debug, PartialEq, Eq, Structural)]
pub enum RunAction {
    /// Poll the body once, with the actor's state published.
    Poll,
    /// Drop the body, and with it what it holds while suspended.
    Discard,
    /// Release the actor's token; the run is over.
    Release,
}

impl ContinuationTask {
    /// A continuation that has been made and not yet been scheduled.
    pub open spec fn fresh(id: TaskId) -> ContinuationTask {
        ContinuationTask { id, queued: false, cancelled: false, live: true }
    }

    /// After a wake.
    pub open spec fn woken(self) -> ContinuationTask {
        ContinuationTask { queued: true, ..self }
    }

    /// After a cancellation request and the wake that goes with it.
    pub open spec fn aborted(self) -> ContinuationTask {
        ContinuationTask { queued: true, cancelled: true, ..self }
    }

    /// What a worker that runs the continuation does after `event`. A body that has
    /// ended before is not there to be run, one that was cancelled is dropped, and so
    /// is one that has come to its end or panicked. One that suspended is kept.
    pub open spec fn reaction(self, event: RunEvent) -> RunAction {
        match event {
            RunEvent::Taken => if !self.live {
                RunAction::Release
            } else if self.cancelled {
                RunAction::Discard
            } else {
                RunAction::Poll
            },
            RunEvent::Polled(outcome) => if outcome == PollOutcome::Pending {
                RunAction::Release
            } else {
                RunAction::Discard
            },
            RunEvent::Dropped => RunAction::Release,
        }
    }

    /// After a worker has started to run it. From here on a wake queues it again.
    pub open spec fn begun(self) -> ContinuationTask {
        ContinuationTask { queued: false, live: self.live && !self.cancelled, ..self }
    }

    /// After a poll: the body is kept only if it suspended.
    pub open spec fn polled(self, outcome: PollOutcome) -> ContinuationTask {
        ContinuationTask { live: outcome == PollOutcome::Pending, ..self }
    }

    /// After a worker that runs it has learnt of `event`.
    pub open spec fn after(self, event: RunEvent) -> ContinuationTask {
        match event {
            RunEvent::Taken => self.begun(),
            RunEvent::Polled(outcome) => self.polled(outcome),
            RunEvent::Dropped => self,
        }
    }

    /// All that a worker does with the continuation in one run, in order, if a poll
    /// comes out as `outcome`.
    pub open spec fn run(self, outcome: PollOutcome) -> Seq<RunAction> {
        let begun = self.after(RunEvent::Taken);
        match self.reaction(RunEvent::Taken) {
            RunAction::Release => seq![RunAction::Release],
            RunAction::Discard => seq![RunAction::Discard, begun.reaction(RunEvent::Dropped)],
            RunAction::Poll => {
                let polled = begun.after(RunEvent::Polled(outcome));
                match begun.reaction(RunEvent::Polled(outcome)) {
                    RunAction::Discard => seq![
                        RunAction::Poll,
                        RunAction::Discard,
                        polled.reaction(RunEvent::Dropped),
                    ],
                    next => seq![RunAction::Poll, next],
                }
            },
        }
    }

    /// A continuation with a body to run, in no queue yet.
    pub fn new(id: TaskId) -> (task: ContinuationTask)
        ensures
            task == ContinuationTask::fresh(id),
    {
        ContinuationTask { id, queued: false, cancelled: false, live: true }
    }

    /// A leaf became ready: makes the continuation runnable, as [`schedule`] does.
    pub fn wake(&mut self, sched: &mut SchedGuard<'_>) -> (granted: Option<Grant>)
        ensures
            *final(self) == old(self).woken(),
            grantee(granted) == schedule_grant(*old(self), old(sched)@),
            final(sched)@ == scheduled(*old(self), old(sched)@),
            lock_of(*final(sched)) == lock_of(*old(sched)),
    {
        schedule(self, sched)
    }
}

/// The actor's scheduling state after `task` was made runnable: a continuation
/// that sits in a queue already is not queued twice.
pub open spec fn scheduled(task: ContinuationTask, sched: SchedView) -> SchedView {
    if task.queued {
        sched
    } else {
        sched.arrive(task.id)
    }
}

/// The continuation to hand to the executor after `task` was made runnable.
pub open spec fn schedule_grant(task: ContinuationTask, sched: SchedView) -> Option<TaskId> {
    if task.queued {
        None
    } else {
        sched.arrive_grant(task.id)
    }
}

/// Makes a continuation runnable, respecting its actor's token.
///
/// If the actor is idle, the continuation claims the token and is returned: the
/// caller unlocks and hands it to the actor's executor. Otherwise it waits in the
/// actor's queue until the holders before it have released the token. Redundant
/// wakes are coalesced.
pub fn schedule(task: &mut ContinuationTask, sched: &mut SchedGuard<'_>) -> (granted: Option<Grant>)
    ensures
        *final(task) == old(task).woken(),
        grantee(granted) == schedule_grant(*old(task), old(sched)@),
        final(sched)@ == scheduled(*old(task), old(sched)@),
        lock_of(*final(sched)) == lock_of(*old(sched)),
{
    if task.queued {
        return None;
    }
    task.queued = true;
    sched.arrive(task.id)
}

/// Releases the token of an actor whose running continuation just suspended or
/// ended, handing it to the next one that waits. That one is returned: the caller
/// unlocks and hands it to the actor's executor.
pub fn release_token(sched: &mut SchedGuard<'_>) -> (next: Option<Grant>)
    ensures
        final(sched)@ == old(sched)@.release(),
        grantee(next) == old(sched)@.release_grant(),
        lock_of(*final(sched)) == lock_of(*old(sched)),
{
    sched.release()
}

/// Runs a continuation that holds its actor's token, step by step: from what the
/// worker just learnt to what it does next. As soon as the continuation has been
/// taken, wakes queue it again. A cancelled body is given up before it is polled
/// again.
pub fn run_task(task: &mut ContinuationTask, event: RunEvent) -> (action: RunAction)
    requires
        event is Polled ==> old(task).live,
    ensures
        action == old(task).reaction(event),
        *final(task) == old(task).after(event),
{
    match event {
        RunEvent::Taken => {
            task.queued = false;
            if !task.live {
                return RunAction::Release;
            }
            if task.cancelled {
                task.live = false;
                return RunAction::Discard;
            }
            RunAction::Poll
        },
        RunEvent::Polled(PollOutcome::Ready) => {
            task.live = false;
            RunAction::Discard
        },
        RunEvent::Polled(PollOutcome::Pending) => RunAction::Release,
        RunEvent::Polled(PollOutcome::Panicked) => {
            task.live = false;
            RunAction::Discard
        },
        RunEvent::Dropped => RunAction::Release,
    }
}

/// Whatever a poll comes out as, a run releases the token exactly once, at its end.
/// It polls at most once, and not after cancellation; a body that is over by then is
/// dropped before the token is released, and one that suspended is kept.
pub proof fn run_releases_the_token_once(task: ContinuationTask, outcome: PollOutcome)
    ensures
        task.run(outcome).last() == RunAction::Release,
        task.run(outcome).no_duplicates(),
        task.run(outcome).contains(RunAction::Poll) <==> task.live && !task.cancelled,
        task.run(outcome).contains(RunAction::Discard) <==> task.live && (task.cancelled || outcome
            != PollOutcome::Pending),
{
    let run = task.run(outcome);
    assert(run[run.len() - 1] == RunAction::Release);
    if task.live {
        assert(run[0] == RunAction::Poll || run[0] == RunAction::Discard);
        assert(run[run.len() - 2] == run[0] || run[run.len() - 2] == RunAction::Discard);
    }
}

/// Running a continuation never changes its number nor takes back a cancellation request.
/// It is marked as in no queue from when it is taken on, and only then. Its body is given
/// up exactly if the invocation is cancelled before it is polled, or its poll does not
/// suspend.
pub proof fn marks_change_only_as_they_must(task: ContinuationTask, event: RunEvent)
    requires
        event is Polled ==> task.live,
    ensures
        task.after(event).id == task.id,
        task.after(event).cancelled == task.cancelled,
        task.after(event).queued == (task.queued && !(event is Taken)),
        task.after(event).live <==> task.live && !(event is Taken && task.cancelled) && !(
        event matches RunEvent::Polled(outcome) && !(outcome is Pending)),
{
}

/// A new continuation has its body, is in no queue and is not cancelled. A wake marks it as
/// queued and nothing else; a cancellation request marks it as queued and cancelled.
pub proof fn wakes_and_requests_mark_just_that(task: ContinuationTask, id: TaskId)
    ensures
        ({
            let new = ContinuationTask::fresh(id);
            new.id == id && new.live && !new.queued && !new.cancelled
        }),
        ({
            let woken = task.woken();
            woken.queued && woken.id == task.id && woken.cancelled == task.cancelled && woken.live
                == task.live
        }),
        ({
            let aborted = task.aborted();
            aborted.queued && aborted.cancelled && aborted.id == task.id && aborted.live
                == task.live
        }),
{
}

/// A continuation that is in a queue already is not queued a second time, and any other
/// gets the token or a place in the queue, whatever its other marks are.
pub proof fn scheduling_queues_once(task: ContinuationTask, sched: SchedView)
    requires
        sched.wf(),
    ensures
        task.queued ==> scheduled(task, sched) == sched && schedule_grant(task, sched) is None,
        !task.queued && sched.active ==> scheduled(task, sched).pending == sched.pending.push(
            task.id,
        ) && schedule_grant(task, sched) is None,
        !task.queued && !sched.active ==> scheduled(task, sched).pending == sched.pending
            && schedule_grant(task, sched) == Some(task.id),
        scheduled(task, sched).active <==> sched.active || !task.queued,
{
}

} // verus!
