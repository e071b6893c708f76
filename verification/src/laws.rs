//! What the runtime promises, for every state that it can get into.

use crate::cell::TaskId;
use crate::model::{
    reachable_satisfies_invariant, step_keeps_invariant, Flight, Reply, Stage, Step, World,
};
use crate::task::PollOutcome;
use vstd::prelude::*;

verus! {

/// Isolation: no two continuations of one actor run at the same time, be they
/// polled, about to be polled or just polled, on one worker thread or on two.
pub proof fn isolation(w: World, i: int, j: int)
    requires
        w.reachable(),
        0 <= i < w.flights.len(),
        0 <= j < w.flights.len(),
        w.flight_actor(i) == w.flight_actor(j),
    ensures
        i == j,
{
    reachable_satisfies_invariant(w);
    assert(w.actor_of(w.flights[i].task) == w.actor_of(w.flights[j].task));
}

/// First in, first out: the continuations of an actor get its token in the order
/// in which they became runnable, and those that have not had it yet are in the
/// queue, in that order.
pub proof fn first_in_first_out(w: World, actor: int)
    requires
        w.reachable(),
        w.actors.dom().contains(actor),
    ensures
        w.actors[actor].arrivals == w.actors[actor].grants + w.actors[actor].sched.pending,
{
    reachable_satisfies_invariant(w);
}

/// Executor affinity: a continuation is only ever in a queue or on a worker of
/// the executor that its actor was spawned on.
pub proof fn executor_affinity(w: World, at: int)
    requires
        w.reachable(),
        0 <= at < w.flights.len(),
        !(w.flights[at].stage is Granted),
    ensures
        w.flights[at].executor == Some(w.actors[w.flight_actor(at)].executor),
{
    reachable_satisfies_invariant(w);
}

/// An actor stays on the executor that it was spawned on.
pub proof fn executor_is_fixed(w: World, step: Step, actor: int)
    requires
        w.reachable(),
        w.enabled(step),
        w.actors.dom().contains(actor),
    ensures
        w.next(step).actors.dom().contains(actor),
        w.next(step).actors[actor].executor == w.actors[actor].executor,
{
    reachable_satisfies_invariant(w);
}

/// No wake is lost and none counts twice: a continuation that was woken is in
/// exactly one queue, that of its actor or that of its executor, until it runs.
pub proof fn woken_continuation_is_queued_once(w: World, task: TaskId)
    requires
        w.reachable(),
        w.enabled(Step::Wake { task }),
    ensures
        w.next(Step::Wake { task }).lines_up(task) != w.next(Step::Wake { task }).takes_off(task),
{
    reachable_satisfies_invariant(w);
    step_keeps_invariant(w, Step::Wake { task });
    assert(w.next(Step::Wake { task }).invocations.dom().contains(task));
}

/// Redundant wakes are coalesced: a second wake changes nothing.
pub proof fn redundant_wake_changes_nothing(w: World, task: TaskId)
    requires
        w.reachable(),
        w.enabled(Step::Wake { task }),
    ensures
        w.next(Step::Wake { task }).next(Step::Wake { task }) == w.next(Step::Wake { task }),
{
    reachable_satisfies_invariant(w);
    let once = w.next(Step::Wake { task });
    let twice = once.next(Step::Wake { task });
    assert(twice.actors =~= once.actors);
    assert(twice.invocations =~= once.invocations);
}

/// The next thing that happens to the continuation in flight at `at`; a poll may
/// come out as `outcome`.
pub open spec fn next_of_flight(w: World, at: int, outcome: PollOutcome) -> Step {
    match w.flights[at].stage {
        Stage::Granted => Step::Inject { at },
        Stage::Injected => Step::Take { at },
        Stage::Taken => Step::Begin { at },
        Stage::Polling => Step::Finish { at, outcome },
        Stage::Settled => Step::Release { at },
    }
}

/// Nothing blocks a queued continuation but the continuation of the same actor
/// that holds the token, and nothing blocks that one: whatever other actors wait
/// for, its next step can be taken. So actors that call each other do not
/// deadlock.
pub proof fn queued_continuation_is_not_stuck(w: World, task: TaskId, outcome: PollOutcome)
    requires
        w.reachable(),
        w.invocations.dom().contains(task),
        w.invocations[task].task.queued,
    ensures
        exists|at: int|
            0 <= at < w.flights.len() && w.actor_of((#[trigger] w.flights[at]).task) == w.actor_of(
                task,
            ) && w.enabled(next_of_flight(w, at, outcome)),
{
    reachable_satisfies_invariant(w);
    let actor = w.actor_of(task);
    if w.lines_up(task) {
        assert(w.actors.dom().contains(actor));
        assert(w.actors[actor].sched.pending.len() > 0);
        assert(w.occupied(actor));
        let at = choose|at: int|
            0 <= at < w.flights.len() && w.actor_of((#[trigger] w.flights[at]).task) == actor;
        assert(w.enabled(next_of_flight(w, at, outcome)));
    } else {
        assert(w.takes_off(task));
        let at = choose|at: int|
            0 <= at < w.flights.len() && (#[trigger] w.flights[at]).task == task
                && w.flights[at].stage.waits();
        assert(w.enabled(next_of_flight(w, at, outcome)));
    }
}

/// Whether `step` concerns an actor other than `actor`.
pub open spec fn elsewhere(w: World, step: Step, actor: int) -> bool {
    match step {
        Step::Spawn { actor: other, executor } => other != actor,
        Step::Invoke { actor: other, task } => other != actor,
        Step::Wake { task } => w.actor_of(task) != actor,
        Step::Abort { task } => w.actor_of(task) != actor,
        Step::Detach { task } => w.actor_of(task) != actor,
        Step::Inject { at } => w.flight_actor(at) != actor,
        Step::Take { at } => w.flight_actor(at) != actor,
        Step::Begin { at } => w.flight_actor(at) != actor,
        Step::Finish { at, outcome } => w.flight_actor(at) != actor,
        Step::Release { at } => w.flight_actor(at) != actor,
    }
}

/// Actors are independent: what happens to one touches neither the token and the
/// queue of another nor its invocations.
pub proof fn actors_are_independent(w: World, step: Step, actor: int, task: TaskId)
    requires
        w.reachable(),
        w.enabled(step),
        elsewhere(w, step, actor),
        w.actors.dom().contains(actor),
        w.invocations.dom().contains(task),
        w.actor_of(task) == actor,
    ensures
        w.next(step).actors[actor] == w.actors[actor],
        w.next(step).invocations[task] == w.invocations[task],
{
    reachable_satisfies_invariant(w);
}

/// Reentrancy: when a poll of a body suspends and the token is released, the
/// actor runs on: the first continuation in the queue gets the token, and if
/// there is none the token is free. The suspended continuation keeps its body and
/// holds no token.
pub proof fn suspension_releases_the_actor(w: World, at: int)
    requires
        w.reachable(),
        w.at_stage(at, Stage::Polling),
    ensures
        ({
            let task = w.flights[at].task;
            let actor = w.flight_actor(at);
            let pending = w.actors[actor].sched.pending;
            let n = w.next(Step::Finish { at, outcome: PollOutcome::Pending }).next(
                Step::Release { at },
            );
            &&& n.invocations[task].task.live
            &&& n.invocations[task].reply == w.invocations[task].reply
            &&& pending.len() == 0 ==> !n.actors[actor].sched.active && !n.occupied(actor)
            &&& pending.len() > 0 ==> {
                &&& n.flights[at] == (Flight {
                    task: pending.first(),
                    stage: Stage::Granted,
                    executor: None,
                })
                &&& n.actors[actor].sched.pending == pending.drop_first()
                &&& n.actors[actor].grants == w.actors[actor].grants.push(pending.first())
            }
        }),
{
    reachable_satisfies_invariant(w);
    let f = w.next(Step::Finish { at, outcome: PollOutcome::Pending });
    step_keeps_invariant(w, Step::Finish { at, outcome: PollOutcome::Pending });
    step_keeps_invariant(f, Step::Release { at });
    let n = f.next(Step::Release { at });
    let actor = w.flight_actor(at);
    assert(f.flight_actor(at) == actor);
    assert(n.actors.dom().contains(actor));
}

/// Resumption: a suspended invocation that was woken and not cancelled is polled
/// again when a worker gets to it, and while it is, no other continuation of its
/// actor runs.
pub proof fn resumption_is_exclusive(w: World, at: int, other: int)
    requires
        w.reachable(),
        w.enabled(Step::Begin { at }),
        w.invocations[w.flights[at].task].task.live,
        !w.invocations[w.flights[at].task].task.cancelled,
    ensures
        w.next(Step::Begin { at }).at_stage(at, Stage::Polling),
        0 <= other < w.flights.len() && other != at ==> w.next(
            Step::Begin { at },
        ).flight_actor(other) != w.next(Step::Begin { at }).flight_actor(at),
{
    reachable_satisfies_invariant(w);
    let n = w.next(Step::Begin { at });
    step_keeps_invariant(w, Step::Begin { at });
    if 0 <= other < w.flights.len() && other != at {
        assert(n.actor_of(n.flights[other].task) != n.actor_of(n.flights[at].task));
    }
}

/// Cancellation reaches the executor: an invocation whose cancellation was
/// requested is in exactly one queue from then on until a worker gets to it.
pub proof fn aborted_invocation_is_queued(w: World, task: TaskId)
    requires
        w.reachable(),
        w.enabled(Step::Abort { task }),
    ensures
        w.next(Step::Abort { task }).invocations[task].task.cancelled,
        w.next(Step::Abort { task }).lines_up(task) != w.next(Step::Abort { task }).takes_off(
            task,
        ),
{
    reachable_satisfies_invariant(w);
    step_keeps_invariant(w, Step::Abort { task });
    assert(w.next(Step::Abort { task }).invocations.dom().contains(task));
}

/// A cancelled invocation is never polled again: the worker that gets to it drops
/// its body, the caller gets no result, and the token is released next.
pub proof fn cancelled_invocation_is_dropped(w: World, at: int)
    requires
        w.reachable(),
        w.enabled(Step::Begin { at }),
        w.invocations[w.flights[at].task].task.cancelled,
    ensures
        w.next(Step::Begin { at }).at_stage(at, Stage::Settled),
        !w.next(Step::Begin { at }).invocations[w.flights[at].task].task.live,
        w.invocations[w.flights[at].task].task.live ==> w.next(Step::Begin { at }).invocations[
            w.flights[at].task
        ].reply == Reply::Lost,
{
    reachable_satisfies_invariant(w);
}

/// What is over stays over: a cancellation request is never taken back, a body
/// that has ended is never there again, and the caller's answer does not change.
pub proof fn endings_are_final(w: World, step: Step, task: TaskId)
    requires
        w.reachable(),
        w.enabled(step),
        w.invocations.dom().contains(task),
    ensures
        w.invocations[task].task.cancelled ==> w.next(step).invocations[task].task.cancelled,
        !w.invocations[task].task.live ==> {
            &&& !w.next(step).invocations[task].task.live
            &&& w.next(step).invocations[task].reply == w.invocations[task].reply
        },
{
    if let Step::Finish { at, outcome } = step {
        assert(w.invocations[w.flights[at].task].task.live) by {
            reachable_satisfies_invariant(w);
        }
    }
}

/// A caller waits for an answer exactly while there is a body: an invocation that
/// is over has delivered its result or lost it.
pub proof fn ended_invocation_is_answered(w: World, task: TaskId)
    requires
        w.reachable(),
        w.invocations.dom().contains(task),
    ensures
        w.invocations[task].task.live <==> w.invocations[task].reply == Reply::Awaited,
{
    reachable_satisfies_invariant(w);
}

/// A stray wake of an invocation that is over does no harm: nothing is polled,
/// and the token is released next.
pub proof fn stray_wake_polls_nothing(w: World, at: int)
    requires
        w.reachable(),
        w.enabled(Step::Begin { at }),
        !w.invocations[w.flights[at].task].task.live,
    ensures
        w.next(Step::Begin { at }).at_stage(at, Stage::Settled),
        w.next(Step::Begin { at }).actors == w.actors,
        w.next(Step::Begin { at }).invocations[w.flights[at].task].reply
            == w.invocations[w.flights[at].task].reply,
{
    reachable_satisfies_invariant(w);
}

/// Panic isolation: a body that panics leaves the runtime exactly as one that
/// ends does, but for the answer, which is lost. The token is handed on, and the
/// actor serves later invocations.
pub proof fn panic_is_isolated(w: World, at: int)
    requires
        w.reachable(),
        w.at_stage(at, Stage::Polling),
    ensures
        ({
            let task = w.flights[at].task;
            let ended = w.next(Step::Finish { at, outcome: PollOutcome::Ready }).next(
                Step::Release { at },
            );
            let panicked = w.next(Step::Finish { at, outcome: PollOutcome::Panicked }).next(
                Step::Release { at },
            );
            &&& panicked.actors == ended.actors
            &&& panicked.flights == ended.flights
            &&& panicked.invocations == ended.invocations.insert(
                task,
                crate::model::Invocation { reply: Reply::Lost, ..ended.invocations[task] },
            )
        }),
{
    reachable_satisfies_invariant(w);
    let task = w.flights[at].task;
    let ended = w.next(Step::Finish { at, outcome: PollOutcome::Ready }).next(Step::Release { at });
    let panicked = w.next(Step::Finish { at, outcome: PollOutcome::Panicked }).next(
        Step::Release { at },
    );
    assert(panicked.actors =~= ended.actors);
    assert(panicked.flights =~= ended.flights);
    assert(panicked.invocations =~= ended.invocations.insert(
        task,
        crate::model::Invocation { reply: Reply::Lost, ..ended.invocations[task] },
    ));
}

/// Dropping the handle to an invocation detaches it: whatever could happen still can,
/// and leads to the same state, but for the handle. So the body runs on with the same
/// effects, its result is sent or lost as it would have been, and the token is
/// released as usual.
pub proof fn dropping_the_handle_detaches(w: World, task: TaskId, steps: Seq<Step>)
    requires
        w.enabled(Step::Detach { task }),
    ensures
        w.next(Step::Detach { task }).legal(steps) == w.legal(steps),
        w.legal(steps) ==> w.next(Step::Detach { task }).run(steps) == w.run(steps).next(
            Step::Detach { task },
        ),
{
    lemma_detached_run(w, task, steps);
}

proof fn lemma_detached_run(w: World, task: TaskId, steps: Seq<Step>)
    requires
        w.invocations.dom().contains(task),
    ensures
        w.detached(task).legal(steps) == w.legal(steps),
        w.legal(steps) ==> w.detached(task).run(steps) == w.run(steps).detached(task),
    decreases steps.len(),
{
    if steps.len() > 0 {
        let step = steps.first();
        assert(w.detached(task).enabled(step) == w.enabled(step));
        if w.enabled(step) {
            lemma_detached_step(w, task, step);
            lemma_detached_run(w.next(step), task, steps.drop_first());
        }
    }
}

proof fn lemma_detached_step(w: World, task: TaskId, step: Step)
    requires
        w.invocations.dom().contains(task),
        w.enabled(step),
    ensures
        w.next(step).invocations.dom().contains(task),
        w.detached(task).next(step) == w.next(step).detached(task),
{
    let left = w.detached(task).next(step);
    let right = w.next(step).detached(task);
    assert(forall|t: TaskId| #[trigger] w.detached(task).actor_of(t) == w.actor_of(t));
    assert(left.actors =~= right.actors);
    assert(left.invocations =~= right.invocations);
    assert(left.flights =~= right.flights);
}

/// The actor stays usable: whatever has happened to its earlier invocations, a
/// new one that is woken gets the token or a place at the end of the queue.
pub proof fn new_invocation_is_served(w: World, actor: int, task: TaskId)
    requires
        w.reachable(),
        w.enabled(Step::Invoke { actor, task }),
    ensures
        ({
            let n = w.next(Step::Invoke { actor, task }).next(Step::Wake { task });
            if w.actors[actor].sched.active {
                n.actors[actor].sched.pending == w.actors[actor].sched.pending.push(task)
            } else {
                n.flights == w.flights.push(
                    Flight { task, stage: Stage::Granted, executor: None },
                )
            }
        }),
{
    reachable_satisfies_invariant(w);
}

/// An invocation is cancelled only by a request to cancel it: neither being invoked nor
/// waking, suspending, resuming or anything that happens to others does.
pub proof fn only_requests_cancel(w: World, step: Step, task: TaskId)
    requires
        w.reachable(),
        w.enabled(step),
        w.next(step).invocations.dom().contains(task),
        w.next(step).invocations[task].task.cancelled,
        !w.invocations.dom().contains(task) || !w.invocations[task].task.cancelled,
    ensures
        step == (Step::Abort { task }),
{
    assert(w.closed()) by {
        reachable_satisfies_invariant(w);
    }
}

/// A continuation that is in a queue stays in one, its actor's or its executor's, until a
/// worker starts to run it: nothing else takes it out. So one that was handed to an
/// executor is run.
pub proof fn queued_continuation_stays_until_it_runs(w: World, step: Step, task: TaskId)
    requires
        w.reachable(),
        w.enabled(step),
        w.invocations.dom().contains(task),
        w.invocations[task].task.queued,
    ensures
        w.next(step).lines_up(task) || w.next(step).takes_off(task) || (step matches Step::Begin {
            at,
        } && w.flights[at].task == task),
{
    reachable_satisfies_invariant(w);
    step_keeps_invariant(w, step);
    let n = w.next(step);
    assert(n.invocations.dom().contains(task));
    if !(step matches Step::Begin { at } && w.flights[at].task == task) {
        assert(n.invocations[task].task.queued);
    }
}

} // verus!
