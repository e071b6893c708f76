//! The runtime, driven step by step on one thread. The queues, the locks and the
//! channels are the real ones; a sleep is a suspension that the test ends.

use stage_core::actor::ActorRef;
use stage_core::cell::{CellSched, Grant, TaskId};
use stage_core::context::{ActorContext, ActorScope, CurrentActor};
use stage_core::executor::{find_task, Executor, Found, Pool, Search};
use stage_core::handle::{deliver, spawn_method, undelivered, Cancelled, Invocation, JoinHandle};
use stage_core::task::{
    release_token, run_task, schedule, ContinuationTask, PollOutcome, RunAction, RunEvent,
};
use stage_core::codegen::body::Expr;
use stage_core::codegen::source::{actor, actor_fn};
use stage_core::codegen::syntax::Name;
use stage_core::codegen::tokens::Piece;
use std::any::TypeId;
use std::cell::RefCell;
use std::sync::Arc;
use tokio::sync::oneshot::Sender;

/// The state of every actor in these tests.
#[derive(Default)]
struct State {
    value: usize,
    log: Vec<&'static str>,
}

/// What a body does at the end of a poll.
enum Turn {
    Done(usize),
    /// Suspends until the test wakes it.
    Sleep,
    /// Suspends until the call of a method of another actor is over.
    Call(usize, Body),
    Panic,
}

/// A body: gets the actor's state, the number of polls before, and the result of
/// the last call.
type Body = Box<dyn FnMut(&RefCell<State>, usize, usize) -> Turn>;

type Cell = ActorRef<RefCell<State>, usize>;

struct Task {
    flags: ContinuationTask,
    actor: usize,
    body: Option<Body>,
    tx: Option<Sender<usize>>,
    polls: usize,
    received: usize,
    caller: Option<usize>,
    executors: Vec<usize>,
}

struct Stage {
    executors: Vec<(Executor, Vec<crossbeam_deque::Worker<TaskId>>)>,
    tickets: Vec<usize>,
    actors: Vec<Cell>,
    tasks: Vec<Task>,
    order: Vec<usize>,
}

impl Stage {
    fn new(threads: &[usize]) -> Stage {
        Stage {
            executors: threads.iter().map(|n| Executor::with_threads(*n)).collect(),
            tickets: vec![0; threads.len()],
            actors: Vec::new(),
            tasks: Vec::new(),
            order: Vec::new(),
        }
    }

    fn spawn_on(&mut self, executor: usize) -> usize {
        self.actors.push(ActorRef::__spawn_default(&Arc::new(executor), TypeId::of::<State>()));
        self.actors.len() - 1
    }

    fn inject(&mut self, granted: Option<Grant>) {
        if let Some(grant) = granted {
            let id = grant.task();
            let actor = self.tasks[id as usize].actor;
            let executor = **self.actors[actor].__cell().executor();
            let ticket = self.tickets[executor];
            self.tickets[executor] = ticket.wrapping_add(1);
            let workers = self.executors[executor].0.workers();
            assert_eq!(self.executors[executor].0.inject(grant, ticket), Some(ticket % workers));
        }
    }

    fn invoke(&mut self, actor: usize, body: Body, caller: Option<usize>) -> JoinHandle<usize, usize> {
        let id = self.tasks.len();
        let (tx, invocation) = Invocation::open(id as TaskId);
        let mut flags = invocation.task;
        let cell = self.actors[actor].__cell();
        let mut sched = cell.sched();
        let (handle, granted) = spawn_method(&mut flags, &mut sched, invocation.rx, id);
        drop(sched);
        self.tasks.push(Task {
            flags,
            actor,
            body: Some(body),
            tx: Some(tx),
            polls: 0,
            received: 0,
            caller,
            executors: Vec::new(),
        });
        self.inject(granted);
        handle
    }

    fn call(&mut self, actor: usize, body: Body) -> JoinHandle<usize, usize> {
        self.invoke(actor, body, None)
    }

    fn wake(&mut self, task: usize) {
        let cell = self.actors[self.tasks[task].actor].__cell();
        let mut sched = cell.sched();
        let granted = self.tasks[task].flags.wake(&mut sched);
        drop(sched);
        self.inject(granted);
    }

    fn cancel(&mut self, handle: JoinHandle<usize, usize>) {
        let task = handle.abort.task;
        let cell = self.actors[self.tasks[task].actor].__cell();
        let mut sched = cell.sched();
        let granted = handle.cancel(&mut self.tasks[task].flags, &mut sched);
        drop(sched);
        self.inject(granted);
    }

    fn release(&mut self, actor: usize) {
        let cell = self.actors[actor].__cell();
        let mut sched = cell.sched();
        let next = release_token(&mut sched);
        drop(sched);
        self.inject(next);
    }

    fn run(&mut self, task: usize, executor: usize) {
        self.tasks[task].executors.push(executor);
        let actor = self.tasks[task].actor;
        let mut event = RunEvent::Taken;
        loop {
            event = match run_task(&mut self.tasks[task].flags, event) {
                RunAction::Poll => RunEvent::Polled(self.poll(task)),
                RunAction::Discard => {
                    self.tasks[task].body = None;
                    self.tasks[task].tx = None;
                    RunEvent::Dropped
                }
                RunAction::Release => break,
            };
        }
        self.release(actor);
    }

    fn poll(&mut self, task: usize) -> PollOutcome {
        self.order.push(task);
        let cell = self.actors[self.tasks[task].actor].__cell();
        let mut body = self.tasks[task].body.take().unwrap();
        let turn = body(cell.state(), self.tasks[task].polls, self.tasks[task].received);
        self.tasks[task].body = Some(body);
        self.tasks[task].polls += 1;
        match turn {
            Turn::Done(value) => {
                let tx = self.tasks[task].tx.take().unwrap();
                let _ = deliver(tx, value);
                if let Some(caller) = self.tasks[task].caller {
                    self.tasks[caller].received = value;
                    self.wake(caller);
                }
                PollOutcome::Ready
            }
            Turn::Sleep => PollOutcome::Pending,
            Turn::Call(other, method) => {
                self.invoke(other, method, Some(task));
                PollOutcome::Pending
            }
            Turn::Panic => PollOutcome::Panicked,
        }
    }

    /// Lets the workers of an executor take turns until nothing is left to run.
    fn settle(&mut self) {
        loop {
            let mut ran = false;
            for e in 0..self.executors.len() {
                for w in 0..self.executors[e].1.len() {
                    let mut search = Search::new(w, self.executors[e].1.len());
                    let found = loop {
                        let (executor, locals) = &self.executors[e];
                        match find_task(&locals[w], executor, &mut search, 3) {
                            Found::Unfinished => continue,
                            Found::Task(id) => break Some(id),
                            Found::Nothing => break None,
                        }
                    };
                    if let Some(id) = found {
                        ran = true;
                        self.run(id as usize, e);
                    }
                }
            }
            if !ran {
                return;
            }
        }
    }

    fn join(&mut self, handle: JoinHandle<usize, usize>) -> Result<usize, Cancelled> {
        self.settle();
        JoinHandle::<usize, usize>::try_join(handle.rx.blocking_recv())
    }

    fn value(&mut self, actor: usize) -> usize {
        let handle = self.call(actor, get());
        self.join(handle).unwrap()
    }
}

/// Checks that a function can be annotated as a helper, and that what takes its place
/// calls its body once, as the continuation that these tests run.
fn helper(source: &str, lowered: &str) {
    let annotated = actor_fn(proc_macro2::TokenStream::new(), source.parse().unwrap()).unwrap();
    let tokens = annotated.expanded.unwrap_or_else(|error| panic!("{:?}", error));
    let names = tokens.pieces.iter().filter(|piece| matches!(piece, Piece::Name(n) if n == lowered));
    assert_eq!(names.count(), 2);
}

/// `self.method()`, in the body of a method of `Calc`.
fn call_on_self(method: &str) -> Expr {
    let calc = "impl Calc {
        async fn compute(&mut self) -> usize { self.double().await }
        async fn double(&mut self) -> usize { self.value * 2 }
        fn sync_bump(&mut self) { self.value += 1; }
        async fn via_sync_helper(&mut self) -> usize { self.sync_bump(); self.value }
    }";
    let annotated = actor(proc_macro2::TokenStream::new(), calc.parse().unwrap()).unwrap();
    let expansion = annotated.expanded.unwrap_or_else(|error| panic!("{:?}", error));
    let call = Expr::MethodCall {
        shape: 0,
        before: vec![],
        receiver: Box::new(Expr::SelfValue { shape: 1 }),
        method: Name::written(method),
        between: vec![],
        args: vec![],
    };
    expansion.rewrite(&vec![call]).pop().unwrap()
}

/// The continuation that was given a token.
fn id(grant: Option<Grant>) -> Option<TaskId> {
    grant.map(|grant| grant.task())
}

fn done(f: impl Fn(&mut State) -> usize + 'static) -> Body {
    Box::new(move |state, _, _| Turn::Done(f(&mut state.borrow_mut())))
}

fn get() -> Body {
    done(|s| s.value)
}

fn bump() -> Body {
    done(|s| {
        s.value += 1;
        0
    })
}

/// Adds `amount`, sleeps, adds `amount` again.
fn increment_by(amount: usize) -> Body {
    Box::new(move |state, polls, _| {
        let mut s = state.borrow_mut();
        s.value += amount;
        if polls == 0 {
            Turn::Sleep
        } else {
            Turn::Done(s.value)
        }
    })
}

/// Sleeps, then gives `value`, and never looks at the actor.
fn after_sleep(value: usize) -> Body {
    Box::new(move |_, polls, _| if polls == 0 { Turn::Sleep } else { Turn::Done(value) })
}

#[test]
fn simple_invocation() {
    let mut stage = Stage::new(&[2]);
    let counter = stage.spawn_on(0);
    let t = stage.call(counter, increment_by(1));
    stage.settle();
    stage.wake(0);
    stage.join(t).unwrap();
    assert_eq!(stage.value(counter), 2);
}

#[test]
fn sequential_execution() {
    let mut stage = Stage::new(&[2]);
    let counter = stage.spawn_on(0);
    let t1 = stage.call(counter, increment_by(1));
    let t2 = stage.call(counter, increment_by(1));
    stage.settle();
    stage.wake(0);
    stage.wake(1);
    stage.join(t1).unwrap();
    stage.join(t2).unwrap();
    assert_eq!(stage.value(counter), 4);
}

#[test]
fn reentrancy() {
    let mut stage = Stage::new(&[2]);
    let counter = stage.spawn_on(0);
    let task = stage.call(counter, increment_by(1));
    assert_eq!(stage.value(counter), 1);
    stage.wake(0);
    stage.join(task).unwrap();
    assert_eq!(stage.value(counter), 2);
}

#[test]
fn multiple_suspended_continuations() {
    let mut stage = Stage::new(&[2]);
    let counter = stage.spawn_on(0);
    let tasks: Vec<_> = (0..3).map(|_| stage.call(counter, increment_by(1))).collect();
    stage.settle();
    for t in 0..3 {
        stage.wake(t);
    }
    for t in tasks {
        stage.join(t).unwrap();
    }
    assert_eq!(stage.value(counter), 6);
}

#[test]
fn exclusive_execution() {
    let mut stage = Stage::new(&[4]);
    let counter = stage.spawn_on(0);
    let tasks: Vec<_> = (0..1000).map(|_| stage.call(counter, bump())).collect();
    for t in tasks {
        stage.join(t).unwrap();
    }
    assert_eq!(stage.value(counter), 1000);
}

#[test]
fn large_queue() {
    let mut stage = Stage::new(&[4]);
    let counter = stage.spawn_on(0);
    const N: usize = 100_000;
    let tasks: Vec<_> = (0..N).map(|_| stage.call(counter, bump())).collect();
    for t in tasks {
        stage.join(t).unwrap();
    }
    assert_eq!(stage.value(counter), N);
    // First in, first out.
    assert!(stage.order.windows(2).all(|w| w[0] < w[1]));
}

#[test]
fn cancellation() {
    let mut stage = Stage::new(&[2]);
    let w = stage.spawn_on(0);
    let task = stage.call(w, increment_by(1));
    assert_eq!(stage.value(w), 1);
    stage.cancel(task);
    stage.settle();
    assert!(stage.tasks[0].body.is_none());
    // The sleep that was cancelled ends: nothing runs.
    stage.wake(0);
    assert_eq!(stage.value(w), 1);
    let inc = stage.call(w, bump());
    stage.join(inc).unwrap();
    assert_eq!(stage.value(w), 2);
}

#[test]
fn cancelled_invocation_yields_no_value() {
    let mut stage = Stage::new(&[1]);
    let w = stage.spawn_on(0);
    let task = stage.call(w, increment_by(1));
    stage.settle();
    let cell = stage.actors[w].__cell();
    let mut sched = cell.sched();
    let standalone = task.abort_handle();
    assert_eq!(standalone.task, 0);
    let granted = task.abort(&mut stage.tasks[0].flags, &mut sched);
    assert_eq!(granted.as_ref().map(Grant::task), Some(0));
    // A second request is coalesced with the first.
    assert_eq!(standalone.abort(&mut stage.tasks[0].flags, &mut sched), None);
    drop(sched);
    stage.inject(granted);
    assert_eq!(stage.join(task), Err(Cancelled));
    assert_eq!(Cancelled.message(), "stage: actor invocation was cancelled or panicked");
}

#[test]
fn cancellation_before_the_first_poll() {
    let mut stage = Stage::new(&[1]);
    let w = stage.spawn_on(0);
    let task = stage.call(w, bump());
    stage.cancel(task);
    assert_eq!(stage.value(w), 0);
    assert!(!stage.tasks[0].flags.live);
}

#[test]
fn cancelling_an_ended_invocation_changes_nothing() {
    let mut stage = Stage::new(&[1]);
    let w = stage.spawn_on(0);
    let task = stage.call(w, bump());
    stage.settle();
    let cell = stage.actors[w].__cell();
    let mut sched = cell.sched();
    let granted = task.abort(&mut stage.tasks[0].flags, &mut sched);
    drop(sched);
    stage.inject(granted);
    stage.settle();
    assert_eq!(stage.join(task), Ok(0));
    assert_eq!(stage.value(w), 1);
}

#[test]
fn panic_isolation() {
    let mut stage = Stage::new(&[2]);
    let w = stage.spawn_on(0);
    let boom = stage.call(
        w,
        Box::new(|state, _, _| {
            state.borrow_mut().value += 1;
            Turn::Panic
        }),
    );
    let outcome = stage.join(boom);
    assert!(outcome.is_err(), "panicked invocation yields no value");
    assert_eq!(stage.value(w), 1);
    let inc = stage.call(w, bump());
    stage.join(inc).unwrap();
    assert_eq!(stage.value(w), 2);
    for _ in 0..100 {
        let inc = stage.call(w, bump());
        stage.join(inc).unwrap();
    }
    assert_eq!(stage.value(w), 102);
}

fn fetch() -> Body {
    Box::new(|state, polls, _| {
        if polls == 0 {
            state.borrow_mut().value += 1;
            Turn::Sleep
        } else {
            Turn::Done(state.borrow().value)
        }
    })
}

fn query(db: usize) -> Body {
    Box::new(move |state, polls, received| {
        if polls == 0 {
            Turn::Call(db, fetch())
        } else {
            state.borrow_mut().log.push("answered");
            Turn::Done(received)
        }
    })
}

#[test]
fn cross_actor_call() {
    let mut stage = Stage::new(&[2]);
    let db = stage.spawn_on(0);
    let svc = stage.spawn_on(0);
    let q = stage.call(svc, query(db));
    stage.settle();
    // The service is free while its query is suspended.
    let tick = stage.call(svc, bump());
    stage.join(tick).unwrap();
    assert_eq!(stage.value(svc), 1);
    // The sleep inside the database's method ends.
    stage.wake(1);
    assert_eq!(stage.join(q), Ok(1));
}

#[test]
fn mutual_calls() {
    let mut stage = Stage::new(&[2]);
    let a = stage.spawn_on(0);
    let b = stage.spawn_on(0);
    let start = stage.call(
        a,
        Box::new(move |state, polls, received| {
            if polls == 0 {
                state.borrow_mut().value = 10;
                Turn::Call(
                    b,
                    Box::new(move |state, polls, received| {
                        if polls == 0 {
                            state.borrow_mut().value = 5;
                            Turn::Call(a, get())
                        } else {
                            Turn::Done(state.borrow().value + received)
                        }
                    }),
                )
            } else {
                Turn::Done(state.borrow().value + received)
            }
        }),
    );
    assert_eq!(stage.join(start), Ok(25));
}

#[test]
fn multiple_executors() {
    let mut stage = Stage::new(&[4, 4]);
    let db = stage.spawn_on(0);
    let svc = stage.spawn_on(1);
    let q = stage.call(svc, query(db));
    stage.settle();
    stage.wake(1);
    assert_eq!(stage.join(q), Ok(1));
    let q = stage.call(svc, query(db));
    stage.settle();
    stage.wake(3);
    assert_eq!(stage.join(q), Ok(2));
    // Every continuation ran on its actor's executor only.
    assert!(stage.tasks.iter().all(|t| t.executors.iter().all(|e| *e == t.actor)));
    assert!(stage.tasks.iter().all(|t| t.executors.len() == 2));
}

#[test]
fn create_and_drop_many_executors() {
    for _ in 0..50 {
        let mut stage = Stage::new(&[4]);
        let c = stage.spawn_on(0);
        for _ in 0..100 {
            let t = stage.call(c, bump());
            stage.join(t).unwrap();
        }
        assert_eq!(stage.value(c), 100);
    }
}

#[test]
fn actor_keeps_executor_alive() {
    let executor = Arc::new(7usize);
    let actor: Cell = ActorRef::__spawn_default(&executor, TypeId::of::<State>());
    assert_eq!(Arc::strong_count(&executor), 2);
    let weak = Arc::downgrade(&executor);
    drop(executor);
    assert_eq!(weak.upgrade().as_deref(), Some(&7));
    let other = actor.clone();
    assert!(Arc::ptr_eq(&actor.__cell(), &other.__cell()));
    drop(actor);
    assert_eq!(**other.__cell().executor(), 7);
    drop(other);
    assert!(weak.upgrade().is_none());

    let mut stage = Stage::new(&[2]);
    let c = stage.spawn_on(0);
    for _ in 0..100 {
        let t = stage.call(c, bump());
        stage.join(t).unwrap();
    }
    assert_eq!(stage.value(c), 100);
}

#[test]
fn work_stealing() {
    const ACTORS: usize = 64;
    const PER_ACTOR: usize = 50;
    let mut stage = Stage::new(&[8]);
    let cells: Vec<_> = (0..ACTORS).map(|_| stage.spawn_on(0)).collect();
    let mut tasks = Vec::new();
    for c in &cells {
        for _ in 0..PER_ACTOR {
            tasks.push(stage.call(*c, increment_by(1)));
        }
    }
    stage.settle();
    for t in 0..tasks.len() {
        stage.wake(t);
    }
    for t in tasks {
        stage.join(t).unwrap();
    }
    for c in cells {
        assert_eq!(stage.value(c), 2 * PER_ACTOR);
    }
}

#[test]
fn actor_fn_reentrancy() {
    helper(
        "async fn increment_by(ctx: ActorContext<'_, Counter>, amount: usize) {
            ctx.value += amount;
            sleep(Duration::from_millis(100)).await;
            ctx.value += amount;
        }",
        "__stage_fn_increment_by",
    );
    let mut stage = Stage::new(&[2]);
    let counter = stage.spawn_on(0);
    let task = stage.call(counter, increment_by(5));
    assert_eq!(stage.value(counter), 5);
    stage.wake(0);
    stage.join(task).unwrap();
    assert_eq!(stage.value(counter), 10);
}

#[test]
fn actor_fn_sequential() {
    helper(
        "async fn increment_by(ctx: ActorContext<'_, Counter>, amount: usize) {
            ctx.value += amount;
            sleep(Duration::from_millis(100)).await;
            ctx.value += amount;
        }",
        "__stage_fn_increment_by",
    );
    let mut stage = Stage::new(&[2]);
    let counter = stage.spawn_on(0);
    let a = stage.call(counter, increment_by(1));
    let b = stage.call(counter, increment_by(1));
    stage.settle();
    stage.wake(0);
    stage.wake(1);
    stage.join(a).unwrap();
    stage.join(b).unwrap();
    assert_eq!(stage.value(counter), 4);
}

#[test]
fn actor_fn_with_no_extra_args() {
    helper(
        "async fn tick(ctx: ActorContext<'_, Counter>) { ctx.value += 1; }",
        "__stage_fn_tick",
    );
    let mut stage = Stage::new(&[2]);
    let c = stage.spawn_on(0);
    for _ in 0..2 {
        let tick = stage.call(c, bump());
        stage.join(tick).unwrap();
    }
    assert_eq!(stage.value(c), 2);
}

#[test]
fn generic_helper_runs_on_distinct_actors() {
    helper(
        "async fn bump_twice<T: Tally>(ctx: ActorContext<'_, T>) -> usize {
            ctx.bump();
            sleep(Duration::from_millis(50)).await;
            ctx.bump();
            ctx.total()
        }",
        "__stage_fn_bump_twice",
    );
    let mut stage = Stage::new(&[2]);
    let apples = stage.spawn_on(0);
    let oranges = stage.spawn_on(0);
    for actor in [apples, oranges] {
        let task = stage.call(actor, increment_by(1));
        stage.settle();
        let id = task.abort.task;
        stage.wake(id);
        assert_eq!(stage.join(task), Ok(2));
    }
    assert_eq!(stage.value(apples), 2);
    assert_eq!(stage.value(oranges), 2);
}

#[test]
fn generic_helper_is_reentrant() {
    helper(
        "async fn bump_twice<T: Tally>(ctx: ActorContext<'_, T>) -> usize {
            ctx.bump();
            sleep(Duration::from_millis(50)).await;
            ctx.bump();
            ctx.total()
        }",
        "__stage_fn_bump_twice",
    );
    let mut stage = Stage::new(&[2]);
    let apples = stage.spawn_on(0);
    let task = stage.call(apples, increment_by(1));
    assert_eq!(stage.value(apples), 1);
    stage.wake(0);
    assert_eq!(stage.join(task), Ok(2));
    assert_eq!(stage.value(apples), 2);
}

#[test]
fn runs_on_any_actor_type() {
    helper(
        "async fn compute(a: usize, b: usize) -> usize {
            sleep(Duration::from_millis(5)).await;
            a + b
        }",
        "__stage_fn_compute",
    );
    let mut stage = Stage::new(&[2]);
    let w = stage.spawn_on(0);
    let o = stage.spawn_on(0);
    for actor in [w, o] {
        let work = stage.call(actor, after_sleep(0));
        stage.settle();
        let id = work.abort.task;
        stage.wake(id);
        assert_eq!(stage.join(work), Ok(0));
    }
    for (actor, a, b, sum) in [(w, 20, 22, 42), (o, 1, 2, 3)] {
        let compute = stage.call(actor, after_sleep(a + b));
        stage.settle();
        let id = compute.abort.task;
        stage.wake(id);
        assert_eq!(stage.join(compute), Ok(sum));
    }
}

#[test]
fn no_ctx_helper_is_reentrant() {
    helper(
        "async fn park(rx: oneshot::Receiver<()>) { rx.await.unwrap(); }",
        "__stage_fn_park",
    );
    let mut stage = Stage::new(&[2]);
    let w = stage.spawn_on(0);
    let park = stage.call(w, after_sleep(0));
    let b = stage.call(w, bump());
    assert!(stage.join(b).is_ok(), "actor blocked: no-ctx helper held the token across .await");
    assert_eq!(stage.value(w), 1);
    stage.wake(0);
    assert_eq!(stage.join(park), Ok(0));
}

#[test]
fn actor_fn_suspension_is_interleave_point() {
    helper(
        "async fn park(ctx: ActorContext<'_, X>, rx: oneshot::Receiver<()>) -> usize {
            rx.await.unwrap();
            ctx.v
        }",
        "__stage_fn_park",
    );
    let mut stage = Stage::new(&[2]);
    let x = stage.spawn_on(0);
    let task = stage.call(
        x,
        Box::new(|state, polls, _| {
            if polls == 0 {
                Turn::Sleep
            } else {
                Turn::Done(state.borrow().value)
            }
        }),
    );
    let b = stage.call(x, bump());
    assert!(stage.join(b).is_ok(), "X blocked: actor_fn did not release its token at .await");
    assert_eq!(stage.value(x), 1);
    stage.wake(0);
    assert_eq!(stage.join(task), Ok(1));
}

#[test]
fn nested_actor_fns_interleave_recursively() {
    helper(
        "async fn x_calls_y(ctx: ActorContext<'_, X>, y: ActorRef<Y>, rx: oneshot::Receiver<()>) {
            ctx.v += 1;
            y_wait(&y, rx).await;
            ctx.v += 1;
        }",
        "__stage_fn_x_calls_y",
    );
    let mut stage = Stage::new(&[2]);
    let x = stage.spawn_on(0);
    let y = stage.spawn_on(0);
    let task = stage.call(
        x,
        Box::new(move |state, polls, _| {
            state.borrow_mut().value += 1;
            if polls == 0 {
                Turn::Call(
                    y,
                    Box::new(|state, polls, _| {
                        if polls == 0 {
                            Turn::Sleep
                        } else {
                            state.borrow_mut().value += 1;
                            Turn::Done(0)
                        }
                    }),
                )
            } else {
                Turn::Done(0)
            }
        }),
    );
    stage.settle();
    let b = stage.call(x, bump());
    assert!(stage.join(b).is_ok(), "X blocked: outer actor_fn held X's token across .await");
    assert_eq!(stage.value(x), 2);
    let b = stage.call(y, bump());
    assert!(stage.join(b).is_ok(), "Y blocked: inner actor_fn held Y's token across .await");
    assert_eq!(stage.value(y), 1);
    stage.wake(1);
    stage.join(task).unwrap();
    assert_eq!(stage.value(x), 3);
    assert_eq!(stage.value(y), 2);
}

#[test]
fn runs_on_actor_or_inline() {
    let mut stage = Stage::new(&[2]);
    let w = stage.spawn_on(0);
    let task = stage.call(w, after_sleep(21 * 2));
    stage.settle();
    stage.wake(0);
    assert_eq!(stage.join(task), Ok(42));
}

#[test]
fn run_on_is_reentrant() {
    let mut stage = Stage::new(&[2]);
    let w = stage.spawn_on(0);
    let task = stage.call(w, after_sleep(10 * 2));
    let b = stage.call(w, bump());
    stage.join(b).unwrap();
    assert_eq!(stage.value(w), 1);
    stage.wake(0);
    assert_eq!(stage.join(task), Ok(20));
}

#[test]
fn run_on_releases_token_at_suspension() {
    let mut stage = Stage::new(&[2]);
    let w = stage.spawn_on(0);
    let task = stage.call(w, after_sleep(99));
    let b = stage.call(w, bump());
    assert!(
        stage.join(b).is_ok(),
        "actor was blocked: the plain future did not release the token"
    );
    assert_eq!(stage.value(w), 1);
    stage.wake(0);
    assert_eq!(stage.join(task), Ok(99));
}

#[test]
fn run_on_accepts_inline_async_block() {
    let mut stage = Stage::new(&[2]);
    let w = stage.spawn_on(0);
    let task = stage.call(w, after_sleep(7 * 6));
    stage.settle();
    stage.wake(0);
    assert_eq!(stage.join(task), Ok(42));
}

/// Sets the value to 10, doubles it in a call of its own method that sleeps, and
/// stores that. The call is part of the same continuation.
fn compute() -> Body {
    Box::new(|state, polls, _| {
        let mut s = state.borrow_mut();
        if polls == 0 {
            s.log.push("compute:start");
            s.value = 10;
            s.log.push("double:start");
            Turn::Sleep
        } else {
            s.log.push("double:end");
            let doubled = s.value * 2;
            s.value = doubled;
            s.log.push("compute:end");
            Turn::Done(doubled)
        }
    })
}

#[test]
fn self_call_runs_inline() {
    assert!(
        matches!(call_on_self("double"), Expr::Inline { lowered, .. } if lowered == "__stage_method_double")
    );
    let mut stage = Stage::new(&[2]);
    let calc = stage.spawn_on(0);
    let task = stage.call(calc, compute());
    stage.settle();
    stage.wake(0);
    assert_eq!(stage.join(task), Ok(20));
    assert_eq!(stage.value(calc), 20);
    let len = stage.call(calc, done(|s| s.log.len()));
    assert_eq!(stage.join(len), Ok(4));
}

#[test]
fn sync_helper_through_context() {
    match call_on_self("sync_bump") {
        Expr::MethodCall { receiver, .. } => {
            assert!(matches!(*receiver, Expr::Context { shape: 1 }))
        }
        _ => panic!("not called through the context"),
    }
    let mut stage = Stage::new(&[2]);
    let calc = stage.spawn_on(0);
    let via_sync_helper = || {
        done(|s| {
            s.value += 1;
            s.value
        })
    };
    let a = stage.call(calc, via_sync_helper());
    assert_eq!(stage.join(a), Ok(1));
    let b = stage.call(calc, via_sync_helper());
    assert_eq!(stage.join(b), Ok(2));
}

#[test]
fn reentrancy_across_self_call() {
    assert!(
        matches!(call_on_self("double"), Expr::Inline { lowered, .. } if lowered == "__stage_method_double")
    );
    let mut stage = Stage::new(&[2]);
    let calc = stage.spawn_on(0);
    let task = stage.call(calc, compute());
    assert_eq!(stage.value(calc), 10);
    stage.wake(0);
    assert_eq!(stage.join(task), Ok(20));
    assert_eq!(stage.value(calc), 20);
}

#[test]
fn wake_while_polled_runs_again() {
    let mut stage = Stage::new(&[1]);
    let c = stage.spawn_on(0);
    let mut task = ContinuationTask::new(41);
    let cell = stage.actors[c].__cell();
    let mut sched = cell.sched();
    assert_eq!(id(schedule(&mut task, &mut sched)), Some(41));
    assert_eq!(schedule(&mut task, &mut sched), None);
    assert_eq!(run_task(&mut task, RunEvent::Taken), RunAction::Poll);
    // It wakes itself: it waits for the token that it still holds.
    assert_eq!(schedule(&mut task, &mut sched), None);
    assert!(task.queued);
    assert_eq!(run_task(&mut task, RunEvent::Polled(PollOutcome::Pending)), RunAction::Release);
    assert!(task.live);
    assert_eq!(id(release_token(&mut sched)), Some(41));
    assert_eq!(run_task(&mut task, RunEvent::Taken), RunAction::Poll);
    assert_eq!(run_task(&mut task, RunEvent::Polled(PollOutcome::Ready)), RunAction::Discard);
    assert_eq!(run_task(&mut task, RunEvent::Dropped), RunAction::Release);
    assert!(!task.live);
    assert_eq!(release_token(&mut sched), None);
    // A stray wake after the end.
    assert_eq!(id(schedule(&mut task, &mut sched)), Some(41));
    assert_eq!(run_task(&mut task, RunEvent::Taken), RunAction::Release);
    assert_eq!(release_token(&mut sched), None);
}

#[test]
fn cancelled_and_panicked_bodies_are_dropped_before_the_token_is_released() {
    let mut task = ContinuationTask::new(1);
    task.cancelled = true;
    assert_eq!(run_task(&mut task, RunEvent::Taken), RunAction::Discard);
    assert_eq!(run_task(&mut task, RunEvent::Dropped), RunAction::Release);
    assert!(!task.live);
    let mut task = ContinuationTask::new(2);
    assert_eq!(run_task(&mut task, RunEvent::Taken), RunAction::Poll);
    let panicked = RunEvent::Polled(PollOutcome::Panicked);
    assert_eq!(run_task(&mut task, panicked), RunAction::Discard);
    assert!(!task.live);
}

#[test]
fn lock_guards_the_state_it_was_made_with() {
    let actor: Cell = ActorRef::__spawn_with(&Arc::new(0), TypeId::of::<State>(), RefCell::default());
    let cell = actor.__cell();
    let mut sched = cell.sched();
    assert_eq!(id(sched.arrive(1)), Some(1));
    assert_eq!(sched.arrive(2), None);
    drop(sched);
    // What was done under the lock is there when it is taken again.
    let mut sched = cell.sched();
    assert_eq!(id(sched.release()), Some(2));
    assert_eq!(sched.release(), None);
    assert_eq!(id(sched.arrive(3)), Some(3));
}

#[test]
fn dropped_handle_detaches() {
    let mut stage = Stage::new(&[1]);
    let c = stage.spawn_on(0);
    let task = stage.call(c, increment_by(1));
    drop(task);
    stage.settle();
    stage.wake(0);
    stage.settle();
    assert!(stage.tasks[0].body.is_none());
    assert_eq!(stage.value(c), 2);
}

#[test]
fn granted_continuation_goes_to_the_executor_of_its_actor() {
    let (mine, locals) = Executor::with_threads(1);
    let (other, other_locals) = Executor::with_threads(1);
    let pool = Arc::new(Pool { queues: mine, host: "mine" });
    let actor: ActorRef<RefCell<State>, Pool<&str>> =
        ActorRef::__spawn_default(&pool, TypeId::of::<State>());
    assert_eq!(actor.__cell().hand_over(CellSched::new().arrive(31).unwrap(), 5), Some(0));
    let mut search = Search::new(0, 1);
    assert_eq!(find_task(&other_locals[0], &other, &mut search, 9), Found::Nothing);
    let mut search = Search::new(0, 1);
    assert_eq!(find_task(&locals[0], &pool.queues, &mut search, 9), Found::Task(31));
    assert_eq!(pool.host, "mine");
}

#[test]
fn undelivered_result_comes_back() {
    let (tx, invocation) = Invocation::<usize>::open(5);
    assert_eq!(invocation.task, ContinuationTask::new(5));
    drop(invocation.rx);
    assert_eq!(deliver(tx, 12), Some(12));
    let (tx, invocation) = Invocation::<usize>::open(6);
    assert_eq!(deliver(tx, 12), None);
    assert_eq!(invocation.rx.blocking_recv(), Ok(12));
    assert_eq!(undelivered(Err(12)), Some(12));
    assert_eq!(undelivered::<usize>(Ok(())), None);
}

#[test]
fn waiting_caller_gets_nothing_until_the_result_is_there() {
    assert_eq!(JoinHandle::<usize, ()>::poll(None), None);
    assert_eq!(JoinHandle::<usize, ()>::poll(Some(Ok(3))), Some(3));
}

#[test]
fn context_finds_the_actor_that_is_polled() {
    let mut current: CurrentActor<usize> = CurrentActor::none();
    let ctx = stage_core::context::__ctx::<u8>();
    let byte = TypeId::of::<u8>();
    let word = TypeId::of::<u16>();
    assert!(!ctx.is_current(byte, &current));
    let outer = ActorScope::enter(&mut current, byte, 100);
    assert!(ctx.is_current(byte, &current));
    assert_eq!(ctx.actor_ptr(byte, &current), 100);
    // Another actor is polled inside: the context is stray there.
    let inner = ActorScope::enter(&mut current, word, 200);
    assert!(!ctx.is_current(byte, &current));
    assert!(ctx.is_current(word, &current));
    inner.leave(&mut current);
    assert_eq!(ctx.actor_ptr(byte, &current), 100);
    outer.leave(&mut current);
    assert!(current.actor.is_none());
}

#[test]
fn context_holds_no_data() {
    assert_eq!(std::mem::size_of::<ActorContext<'static, [u64; 32]>>(), 0);
    let ctx = stage_core::context::__ctx::<State>();
    assert!(!ctx.is_current::<usize>(TypeId::of::<State>(), &CurrentActor::none()));
}
