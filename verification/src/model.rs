//! A model of the whole runtime: any number of actors and executors, with
//! continuations that threads wake, cancel, steal and poll in any order.
//!
//! Each [`Step`] is one thing that one thread does at once, and is stated with
//! the functions that the contracts of [`crate::cell`], [`crate::task`] and
//! [`crate::handle`] use. A [`World`] that any sequence of steps leads to satisfies
//! [`World::inv`], from which the promises of the runtime follow.
//!
//! Two things are taken as given: that the lock of an actor lets one thread in at a
//! time, and that the queues of an executor hand each continuation that was pushed
//! to one of its workers, once.

use crate::cell::{SchedView, TaskId};
use crate::task::{schedule_grant, scheduled, ContinuationTask, PollOutcome, RunAction, RunEvent};
use vstd::prelude::*;

verus! {

/// How far a continuation that holds its actor's token has come.
pub enum Stage {
    /// It was given the token; a thread is about to hand it to an executor.
    Granted,
    /// It sits in a queue of an executor.
    Injected,
    /// A worker has taken it from a queue.
    Taken,
    /// A worker polls its body.
    Polling,
    /// The poll is over; the token is about to be released.
    Settled,
}

impl Stage {
    /// Whether the continuation has yet to start running.
    pub open spec fn waits(self) -> bool {
        self is Granted || self is Injected || self is Taken
    }
}

/// A continuation that holds its actor's token.
pub struct Flight {
    pub task: TaskId,
    pub stage: Stage,
    /// The executor whose queue or worker has it.
    pub executor: Option<int>,
}

/// What has become of the result that a caller waits for.
pub enum Reply {
    /// The body has not ended.
    Awaited,
    /// The body ended and sent its result. If the handle is gone by then the result
    /// is discarded.
    Delivered,
    /// The body was dropped without a result.
    Lost,
}

/// An actor, and the history of its token.
pub struct Actor {
    pub executor: int,
    pub sched: SchedView,
    /// The continuations that became runnable, in order.
    pub arrivals: Seq<TaskId>,
    /// The continuations that were given the token, in order.
    pub grants: Seq<TaskId>,
}

/// An invocation of a method of an actor.
pub struct Invocation {
    pub actor: int,
    pub task: ContinuationTask,
    pub reply: Reply,
    /// Whether the handle at which a caller can wait for the result is still there.
    pub attached: bool,
}

/// The state of the whole runtime.
#[verifier::ext_equal]
pub struct World {
    pub actors: Map<int, Actor>,
    pub invocations: Map<TaskId, Invocation>,
    /// One entry for each continuation in the hands of an executor or a worker.
    pub flights: Seq<Flight>,
}

/// What one thread does at once.
pub enum Step {
    /// An actor is spawned on an executor: [`crate::actor::ActorCell::new`].
    Spawn { actor: int, executor: int },
    /// A method of an actor is invoked; its continuation is not scheduled yet:
    /// [`crate::handle::Invocation::open`].
    Invoke { actor: int, task: TaskId },
    /// A continuation is made runnable, by its caller or by a leaf it waits for:
    /// [`crate::task::schedule`].
    Wake { task: TaskId },
    /// Cancellation of an invocation is requested:
    /// [`crate::handle::AbortHandle::abort`].
    Abort { task: TaskId },
    /// The handle to an invocation is dropped.
    Detach { task: TaskId },
    /// A continuation that was given the token is pushed onto its executor:
    /// [`crate::actor::ActorCell::hand_over`].
    Inject { at: int },
    /// A worker of the executor takes the continuation:
    /// [`crate::executor::find_task`].
    Take { at: int },
    /// The worker starts to run it: [`crate::task::run_task`].
    Begin { at: int },
    /// The poll of its body comes out: [`crate::task::run_task`].
    Finish { at: int, outcome: PollOutcome },
    /// Its worker releases the token: [`crate::task::release_token`].
    Release { at: int },
}

impl World {
    /// Nothing has been spawned.
    pub open spec fn init() -> World {
        World { actors: Map::empty(), invocations: Map::empty(), flights: Seq::empty() }
    }

    /// The actor that a continuation belongs to.
    pub open spec fn actor_of(self, task: TaskId) -> int {
        self.invocations[task].actor
    }

    /// The actor of the continuation in flight at `at`.
    pub open spec fn flight_actor(self, at: int) -> int {
        self.actor_of(self.flights[at].task)
    }

    /// Whether some continuation of the actor holds its token.
    pub open spec fn occupied(self, actor: int) -> bool {
        exists|at: int|
            0 <= at < self.flights.len() && self.actor_of((#[trigger] self.flights[at]).task)
                == actor
    }

    /// Whether the continuation has the token and has yet to start running.
    pub open spec fn takes_off(self, task: TaskId) -> bool {
        exists|at: int|
            0 <= at < self.flights.len() && (#[trigger] self.flights[at]).task == task
                && self.flights[at].stage.waits()
    }

    /// Whether the continuation waits for its actor's token.
    pub open spec fn lines_up(self, task: TaskId) -> bool {
        self.actors[self.actor_of(task)].sched.pending.contains(task)
    }

    /// Whether `step` can be taken.
    pub open spec fn enabled(self, step: Step) -> bool {
        match step {
            Step::Spawn { actor, executor } => !self.actors.dom().contains(actor),
            Step::Invoke { actor, task } => {
                &&& self.actors.dom().contains(actor)
                &&& !self.invocations.dom().contains(task)
            },
            Step::Wake { task } => self.invocations.dom().contains(task),
            Step::Abort { task } => self.invocations.dom().contains(task),
            Step::Detach { task } => self.invocations.dom().contains(task),
            Step::Inject { at } => self.at_stage(at, Stage::Granted),
            Step::Take { at } => self.at_stage(at, Stage::Injected),
            Step::Begin { at } => self.at_stage(at, Stage::Taken),
            Step::Finish { at, outcome } => self.at_stage(at, Stage::Polling),
            Step::Release { at } => self.at_stage(at, Stage::Settled),
        }
    }

    /// Whether there is a continuation in flight at `at`, and at that stage.
    pub open spec fn at_stage(self, at: int, stage: Stage) -> bool {
        0 <= at < self.flights.len() && self.flights[at].stage == stage
    }

    /// The state after `step`.
    pub open spec fn next(self, step: Step) -> World {
        match step {
            Step::Spawn { actor, executor } => World {
                actors: self.actors.insert(
                    actor,
                    Actor {
                        executor,
                        sched: SchedView::idle(),
                        arrivals: Seq::empty(),
                        grants: Seq::empty(),
                    },
                ),
                ..self
            },
            Step::Invoke { actor, task } => World {
                invocations: self.invocations.insert(
                    task,
                    Invocation {
                        actor,
                        task: ContinuationTask::fresh(task),
                        reply: Reply::Awaited,
                        attached: true,
                    },
                ),
                ..self
            },
            Step::Wake { task } => self.schedule(task, self.invocations[task].task.woken()),
            Step::Abort { task } => self.schedule(task, self.invocations[task].task.aborted()),
            Step::Detach { task } => self.detached(task),
            Step::Inject { at } => self.advance(
                at,
                Flight {
                    stage: Stage::Injected,
                    executor: Some(self.actors[self.flight_actor(at)].executor),
                    ..self.flights[at]
                },
            ),
            Step::Take { at } => self.advance(
                at,
                Flight { stage: Stage::Taken, ..self.flights[at] },
            ),
            Step::Begin { at } => self.begin(at),
            Step::Finish { at, outcome } => self.finish(at, outcome),
            Step::Release { at } => self.release(at),
        }
    }

    /// Whether `steps` can be taken one after the other.
    pub open spec fn legal(self, steps: Seq<Step>) -> bool
        decreases steps.len(),
    {
        steps.len() == 0 || {
            &&& self.enabled(steps.first())
            &&& self.next(steps.first()).legal(steps.drop_first())
        }
    }

    /// The state after `steps`.
    pub open spec fn run(self, steps: Seq<Step>) -> World
        decreases steps.len(),
    {
        if steps.len() == 0 {
            self
        } else {
            self.next(steps.first()).run(steps.drop_first())
        }
    }

    /// Whether the runtime can get into this state.
    pub open spec fn reachable(self) -> bool {
        exists|steps: Seq<Step>|
            World::init().legal(steps) && #[trigger] World::init().run(steps) == self
    }

    /// The continuation in flight at `at` becomes `flight`.
    pub open spec fn advance(self, at: int, flight: Flight) -> World {
        World { flights: self.flights.update(at, flight), ..self }
    }

    /// The bookkeeping of `task` becomes `after`, and its reply `reply`.
    pub open spec fn record(self, task: TaskId, after: ContinuationTask, reply: Reply) -> World {
        World {
            invocations: self.invocations.insert(
                task,
                Invocation { task: after, reply, ..self.invocations[task] },
            ),
            ..self
        }
    }

    /// The handle to `task` is gone.
    pub open spec fn detached(self, task: TaskId) -> World {
        World {
            invocations: self.invocations.insert(
                task,
                Invocation { attached: false, ..self.invocations[task] },
            ),
            ..self
        }
    }

    /// `task` is made runnable under the lock of its actor; `after` is its
    /// bookkeeping from then on.
    pub open spec fn schedule(self, task: TaskId, after: ContinuationTask) -> World {
        let before = self.invocations[task].task;
        let id = self.actor_of(task);
        let actor = self.actors[id];
        let granted = schedule_grant(before, actor.sched);
        World {
            actors: self.actors.insert(
                id,
                Actor {
                    executor: actor.executor,
                    sched: scheduled(before, actor.sched),
                    arrivals: if before.queued {
                        actor.arrivals
                    } else {
                        actor.arrivals.push(task)
                    },
                    grants: match granted {
                        Some(granted) => actor.grants.push(granted),
                        None => actor.grants,
                    },
                },
            ),
            flights: match granted {
                Some(granted) => self.flights.push(
                    Flight { task: granted, stage: Stage::Granted, executor: None },
                ),
                None => self.flights,
            },
            ..self.record(task, after, self.invocations[task].reply)
        }
    }

    /// A worker starts to run the continuation at `at`.
    pub open spec fn begin(self, at: int) -> World {
        let flight = self.flights[at];
        let before = self.invocations[flight.task];
        self.record(
            flight.task,
            before.task.after(RunEvent::Taken),
            if before.task.reaction(RunEvent::Taken) == RunAction::Discard {
                Reply::Lost
            } else {
                before.reply
            },
        ).advance(
            at,
            Flight {
                stage: if before.task.reaction(RunEvent::Taken) == RunAction::Poll {
                    Stage::Polling
                } else {
                    Stage::Settled
                },
                ..flight
            },
        )
    }

    /// The poll of the continuation at `at` comes out.
    pub open spec fn finish(self, at: int, outcome: PollOutcome) -> World {
        let flight = self.flights[at];
        let before = self.invocations[flight.task];
        self.record(
            flight.task,
            before.task.after(RunEvent::Polled(outcome)),
            match outcome {
                PollOutcome::Ready => Reply::Delivered,
                PollOutcome::Pending => before.reply,
                PollOutcome::Panicked => Reply::Lost,
            },
        ).advance(at, Flight { stage: Stage::Settled, ..flight })
    }

    /// The token of the continuation at `at` is released: the next in line is in
    /// flight in its place, or nobody.
    pub open spec fn release(self, at: int) -> World {
        let id = self.flight_actor(at);
        let actor = self.actors[id];
        let granted = actor.sched.release_grant();
        World {
            actors: self.actors.insert(
                id,
                Actor {
                    sched: actor.sched.release(),
                    grants: match granted {
                        Some(granted) => actor.grants.push(granted),
                        None => actor.grants,
                    },
                    ..actor
                },
            ),
            flights: match granted {
                Some(granted) => self.flights.update(
                    at,
                    Flight { task: granted, stage: Stage::Granted, executor: None },
                ),
                None => self.flights.remove(at),
            },
            ..self
        }
    }

    /// Every invocation belongs to an actor; everything in a queue or in flight
    /// is an invocation.
    pub open spec fn closed(self) -> bool {
        &&& forall|task: TaskId| #[trigger]
            self.invocations.dom().contains(task) ==> {
                &&& self.invocations[task].task.id == task
                &&& self.actors.dom().contains(self.actor_of(task))
            }
        &&& forall|at: int|
            0 <= at < self.flights.len() ==> self.invocations.dom().contains(
                (#[trigger] self.flights[at]).task,
            )
        &&& forall|actor: int, task: TaskId|
            self.actors.dom().contains(actor)
                && #[trigger] self.actors[actor].sched.pending.contains(task) ==> {
                &&& self.invocations.dom().contains(task)
                &&& self.actor_of(task) == actor
            }
    }

    /// No two continuations of one actor are in flight, and the token of an actor
    /// is out exactly while one is.
    pub open spec fn exclusive(self) -> bool {
        &&& forall|i: int, j: int|
            0 <= i < self.flights.len() && 0 <= j < self.flights.len() && i != j
                ==> self.actor_of((#[trigger] self.flights[i]).task) != self.actor_of(
                (#[trigger] self.flights[j]).task,
            )
        &&& forall|actor: int| #[trigger]
            self.actors.dom().contains(actor) ==> (self.actors[actor].sched.active
                <==> self.occupied(actor))
    }

    /// A queue holds nobody twice, and nobody while the token is free.
    pub open spec fn orderly(self) -> bool {
        forall|actor: int| #[trigger]
            self.actors.dom().contains(actor) ==> {
                &&& self.actors[actor].sched.wf()
                &&& self.actors[actor].sched.pending.no_duplicates()
            }
    }

    /// A continuation is marked as queued exactly while it is in one queue.
    pub open spec fn accounted(self) -> bool {
        &&& forall|task: TaskId| #[trigger]
            self.invocations.dom().contains(task) ==> (self.invocations[task].task.queued
                <==> self.lines_up(task) || self.takes_off(task))
        &&& forall|task: TaskId| #[trigger]
            self.invocations.dom().contains(task) ==> !(self.lines_up(task) && self.takes_off(
                task,
            ))
    }

    /// The token goes to the continuations of an actor in the order in which they
    /// became runnable.
    pub open spec fn fifo(self) -> bool {
        forall|actor: int| #[trigger]
            self.actors.dom().contains(actor) ==> self.actors[actor].arrivals
                == self.actors[actor].grants + self.actors[actor].sched.pending
    }

    /// A continuation is only ever on the executor of its actor.
    pub open spec fn affine(self) -> bool {
        forall|at: int|
            0 <= at < self.flights.len() ==> (#[trigger] self.flights[at]).executor == (
            if self.flights[at].stage is Granted {
                None::<int>
            } else {
                Some(self.actors[self.flight_actor(at)].executor)
            })
    }

    /// A body that is polled is there; a reply is awaited exactly while there is a body.
    pub open spec fn answered(self) -> bool {
        &&& forall|at: int|
            0 <= at < self.flights.len() && (#[trigger] self.flights[at]).stage is Polling
                ==> self.invocations[self.flights[at].task].task.live
        &&& forall|task: TaskId| #[trigger]
            self.invocations.dom().contains(task) ==> (self.invocations[task].task.live
                <==> self.invocations[task].reply is Awaited)
    }

    /// What holds of every state that the runtime can get into.
    pub open spec fn inv(self) -> bool {
        &&& self.closed()
        &&& self.exclusive()
        &&& self.orderly()
        &&& self.accounted()
        &&& self.fifo()
        &&& self.affine()
        &&& self.answered()
    }
}

proof fn lemma_spawn(w: World, actor: int, executor: int)
    requires
        w.inv(),
        w.enabled(Step::Spawn { actor, executor }),
    ensures
        w.next(Step::Spawn { actor, executor }).inv(),
{
}

proof fn lemma_invoke(w: World, actor: int, task: TaskId)
    requires
        w.inv(),
        w.enabled(Step::Invoke { actor, task }),
    ensures
        w.next(Step::Invoke { actor, task }).inv(),
{
}

/// What a queue holds after a push.
proof fn lemma_push(pending: Seq<TaskId>, task: TaskId)
    ensures
        forall|t: TaskId| #[trigger]
            pending.push(task).contains(t) <==> (pending.contains(t) || t == task),
        pending.no_duplicates() && !pending.contains(task) ==> pending.push(task).no_duplicates(),
{
    let after = pending.push(task);
    assert forall|t: TaskId| #[trigger] after.contains(t) <==> (pending.contains(t) || t == task) by {
        if pending.contains(t) {
            let i = choose|i: int| 0 <= i < pending.len() && pending[i] == t;
            assert(after[i] == t);
        }
        assert(after[pending.len() as int] == task);
        if after.contains(t) && t != task {
            let i = choose|i: int| 0 <= i < after.len() && after[i] == t;
            assert(pending[i] == t);
        }
    }
}

/// What a queue holds after its first entry has left.
proof fn lemma_pop(pending: Seq<TaskId>)
    requires
        pending.len() > 0,
        pending.no_duplicates(),
    ensures
        forall|t: TaskId| #[trigger]
            pending.drop_first().contains(t) <==> (pending.contains(t) && t != pending.first()),
        pending.contains(pending.first()),
        pending.drop_first().no_duplicates(),
{
    let after = pending.drop_first();
    assert(pending[0] == pending.first());
    assert forall|t: TaskId| #[trigger] after.contains(t) <==> (pending.contains(t) && t
        != pending.first()) by {
        if after.contains(t) {
            let i = choose|i: int| 0 <= i < after.len() && after[i] == t;
            assert(pending[i + 1] == t);
        }
        if pending.contains(t) && t != pending.first() {
            let i = choose|i: int| 0 <= i < pending.len() && pending[i] == t;
            assert(after[i - 1] == t);
        }
    }
}

/// If all that is in flight in `w` is in flight in `n` too, those of an actor that
/// hold its token and those that have yet to start running do so in `n` too.
proof fn lemma_kept(w: World, n: World, except: int)
    requires
        forall|t: TaskId| #[trigger] n.actor_of(t) == w.actor_of(t),
        forall|i: int|
            0 <= i < w.flights.len() && i != except ==> n.flights.contains(
                #[trigger] w.flights[i],
            ),
    ensures
        forall|actor: int|
            w.occupied(actor) && (0 <= except < w.flights.len() ==> w.flight_actor(except)
                != actor) ==> #[trigger] n.occupied(actor),
        forall|t: TaskId|
            w.takes_off(t) && (0 <= except < w.flights.len() ==> w.flights[except].task != t)
                ==> #[trigger] n.takes_off(t),
{
    assert forall|actor: int|
        w.occupied(actor) && (0 <= except < w.flights.len() ==> w.flight_actor(except)
            != actor) implies #[trigger] n.occupied(actor) by {
        let i = choose|i: int|
            0 <= i < w.flights.len() && w.actor_of((#[trigger] w.flights[i]).task) == actor;
        let k = choose|k: int| 0 <= k < n.flights.len() && n.flights[k] == w.flights[i];
        assert(n.actor_of(n.flights[k].task) == actor);
    }
    assert forall|t: TaskId|
        w.takes_off(t) && (0 <= except < w.flights.len() ==> w.flights[except].task
            != t) implies #[trigger] n.takes_off(t) by {
        let i = choose|i: int|
            0 <= i < w.flights.len() && (#[trigger] w.flights[i]).task == t
                && w.flights[i].stage.waits();
        let k = choose|k: int| 0 <= k < n.flights.len() && n.flights[k] == w.flights[i];
        assert(n.flights[k].task == t && n.flights[k].stage.waits());
    }
}

/// What it means for all tokens and marks that only the continuation in flight at
/// `at` has moved on.
proof fn lemma_moved(w: World, n: World, at: int)
    requires
        w.closed(),
        w.exclusive(),
        0 <= at < w.flights.len(),
        n.flights.len() == w.flights.len(),
        n.flights[at].task == w.flights[at].task,
        forall|i: int|
            0 <= i < w.flights.len() && i != at ==> #[trigger] n.flights[i] == w.flights[i],
        forall|t: TaskId| #[trigger] n.actor_of(t) == w.actor_of(t),
    ensures
        forall|actor: int| #[trigger] n.occupied(actor) == w.occupied(actor),
        forall|t: TaskId|
            #[trigger] n.takes_off(t) == (if t == w.flights[at].task {
                n.flights[at].stage.waits()
            } else {
                w.takes_off(t)
            }),
{
    let task = w.flights[at].task;
    assert forall|i: int| 0 <= i < w.flights.len() && i != at implies n.flights.contains(
        #[trigger] w.flights[i],
    ) && w.flights[i].task != task by {
        assert(n.flights[i] == w.flights[i]);
    }
    assert forall|i: int| 0 <= i < n.flights.len() && i != at implies w.flights.contains(
        #[trigger] n.flights[i],
    ) && n.flights[i].task != task by {
        assert(w.flights[i] == n.flights[i]);
    }
    lemma_kept(w, n, at);
    lemma_kept(n, w, at);
    assert(n.occupied(w.flight_actor(at)));
    assert(w.occupied(w.flight_actor(at)));
}

proof fn lemma_schedule(w: World, task: TaskId, after: ContinuationTask)
    requires
        w.inv(),
        w.invocations.dom().contains(task),
        after == w.invocations[task].task.woken() || after == w.invocations[task].task.aborted(),
    ensures
        w.schedule(task, after).inv(),
{
    let n = w.schedule(task, after);
    let id = w.actor_of(task);
    let before = w.invocations[task].task;
    lemma_push(w.actors[id].sched.pending, task);
    assert(forall|t: TaskId| #[trigger] n.actor_of(t) == w.actor_of(t));
    assert forall|at: int| 0 <= at < w.flights.len() implies n.flights.contains(
        #[trigger] w.flights[at],
    ) by {
        assert(n.flights[at] == w.flights[at]);
    }
    lemma_kept(w, n, -1);
    if !before.queued && !w.actors[id].sched.active {
        assert(n.flights[w.flights.len() as int].task == task);
    }
    assert forall|actor: int| #[trigger] n.actors.dom().contains(actor) implies {
        &&& n.actors[actor].sched.active <==> n.occupied(actor)
        &&& n.actors[actor].arrivals == n.actors[actor].grants + n.actors[actor].sched.pending
    } by {
        assert(w.actors.dom().contains(actor));
    }
    assert forall|t: TaskId| #[trigger] n.invocations.dom().contains(t) implies {
        &&& n.invocations[t].task.queued <==> n.lines_up(t) || n.takes_off(t)
        &&& !(n.lines_up(t) && n.takes_off(t))
    } by {
        assert(w.invocations.dom().contains(t));
    }
}

/// A continuation in flight moves on while its actor and everything in a queue
/// stay as they are.
proof fn lemma_advance(w: World, at: int, flight: Flight)
    requires
        w.inv(),
        0 <= at < w.flights.len(),
        flight.task == w.flights[at].task,
        flight.stage.waits() == w.flights[at].stage.waits(),
        flight.executor == Some(w.actors[w.flight_actor(at)].executor),
        !(flight.stage is Granted),
        flight.stage is Polling ==> w.invocations[flight.task].task.live,
    ensures
        w.advance(at, flight).inv(),
{
    let n = w.advance(at, flight);
    lemma_moved(w, n, at);
    lemma_moved(w, w, at);
}

proof fn lemma_begin(w: World, at: int)
    requires
        w.inv(),
        w.enabled(Step::Begin { at }),
    ensures
        w.next(Step::Begin { at }).inv(),
{
    let n = w.begin(at);
    lemma_moved(w, n, at);
    lemma_moved(w, w, at);
}

proof fn lemma_finish(w: World, at: int, outcome: PollOutcome)
    requires
        w.inv(),
        w.enabled(Step::Finish { at, outcome }),
    ensures
        w.next(Step::Finish { at, outcome }).inv(),
{
    let n = w.finish(at, outcome);
    lemma_moved(w, n, at);
    lemma_moved(w, w, at);
}

proof fn lemma_release(w: World, at: int)
    requires
        w.inv(),
        w.enabled(Step::Release { at }),
    ensures
        w.next(Step::Release { at }).inv(),
{
    let n = w.release(at);
    let id = w.flight_actor(at);
    let pending = w.actors[id].sched.pending;
    assert(w.actors.dom().contains(id));
    assert(w.occupied(id));
    assert(forall|t: TaskId| #[trigger] n.actor_of(t) == w.actor_of(t));
    lemma_moved(w, w, at);
    if pending.len() > 0 {
        lemma_pop(pending);
        assert(n.flights[at].task == pending.first());
        assert(w.actors[id].sched.pending.contains(pending.first()));
    }
    assert forall|i: int| 0 <= i < w.flights.len() && i != at implies n.flights.contains(
        #[trigger] w.flights[i],
    ) by {
        assert(n.flights[if pending.len() > 0 || i < at {
            i
        } else {
            i - 1
        }] == w.flights[i]);
    }
    lemma_kept(w, n, at);
    let new = if pending.len() > 0 {
        at
    } else {
        -1
    };
    assert forall|i: int| 0 <= i < n.flights.len() && i != new implies w.flights.contains(
        #[trigger] n.flights[i],
    ) by {
        assert(w.flights[if pending.len() > 0 || i < at {
            i
        } else {
            i + 1
        }] == n.flights[i]);
    }
    lemma_kept(n, w, new);
    assert forall|actor: int| #[trigger] n.actors.dom().contains(actor) implies {
        &&& n.actors[actor].sched.active <==> n.occupied(actor)
        &&& n.actors[actor].arrivals == n.actors[actor].grants + n.actors[actor].sched.pending
    } by {
        assert(w.actors.dom().contains(actor));
    }
    assert forall|t: TaskId| #[trigger] n.invocations.dom().contains(t) implies {
        &&& n.invocations[t].task.queued <==> n.lines_up(t) || n.takes_off(t)
        &&& !(n.lines_up(t) && n.takes_off(t))
    } by {
        assert(w.invocations.dom().contains(t));
    }
}

proof fn lemma_detach(w: World, task: TaskId)
    requires
        w.inv(),
        w.enabled(Step::Detach { task }),
    ensures
        w.next(Step::Detach { task }).inv(),
{
    let n = w.detached(task);
    assert(forall|t: TaskId| #[trigger] n.actor_of(t) == w.actor_of(t));
    lemma_kept(w, n, -1);
    lemma_kept(n, w, -1);
}

/// Every step keeps the invariant.
pub proof fn step_keeps_invariant(w: World, step: Step)
    requires
        w.inv(),
        w.enabled(step),
    ensures
        w.next(step).inv(),
{
    match step {
        Step::Spawn { actor, executor } => lemma_spawn(w, actor, executor),
        Step::Invoke { actor, task } => lemma_invoke(w, actor, task),
        Step::Wake { task } => lemma_schedule(w, task, w.invocations[task].task.woken()),
        Step::Abort { task } => lemma_schedule(w, task, w.invocations[task].task.aborted()),
        Step::Detach { task } => lemma_detach(w, task),
        Step::Inject { at } => lemma_advance(
            w,
            at,
            Flight {
                stage: Stage::Injected,
                executor: Some(w.actors[w.flight_actor(at)].executor),
                ..w.flights[at]
            },
        ),
        Step::Take { at } => lemma_advance(
            w,
            at,
            Flight { stage: Stage::Taken, ..w.flights[at] },
        ),
        Step::Begin { at } => lemma_begin(w, at),
        Step::Finish { at, outcome } => lemma_finish(w, at, outcome),
        Step::Release { at } => lemma_release(w, at),
    }
}

/// Any sequence of steps keeps the invariant.
proof fn lemma_run(w: World, steps: Seq<Step>)
    requires
        w.inv(),
        w.legal(steps),
    ensures
        w.run(steps).inv(),
    decreases steps.len(),
{
    if steps.len() > 0 {
        step_keeps_invariant(w, steps.first());
        lemma_run(w.next(steps.first()), steps.drop_first());
    }
}

/// Every state that the runtime can get into satisfies the invariant, whatever
/// the threads did and in whatever order.
pub proof fn reachable_satisfies_invariant(w: World)
    requires
        w.reachable(),
    ensures
        w.inv(),
{
    let steps = choose|steps: Seq<Step>|
        World::init().legal(steps) && #[trigger] World::init().run(steps) == w;
    lemma_run(World::init(), steps);
}

} // verus!
