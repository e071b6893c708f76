//! Executors: a pool of workers that share out runnable continuations.
//!
//! Each executor has one queue that all its workers share and one queue per
//! worker. A continuation that was given its actor's token is pushed onto the
//! shared queue. An idle worker looks into its own queue first, then into the
//! shared one, then into those of its siblings, so continuations migrate between
//! the workers of one executor.

use crate::cell::{Grant, TaskId};
use crate::deque::{
    entered, is_fifo, new_injector, new_worker, pop, pushed, steal_shared, steal_sibling,
    stealer, stealer_of, Attempt,
};
use crate::turns::{a_turn, Turn, Turns};
use crossbeam_deque::{Injector, Stealer, Worker};
use vstd::prelude::*;

verus! {

/// The number of workers where the number of cores cannot be told.
pub const FALLBACK_WORKERS: usize = 4;

/// How long a worker with nothing to run sleeps before it looks again, in
/// milliseconds, should a nudge be missed.
pub const PARK_MILLIS: u64 = 1;

/// The queues of one executor.
pub struct Executor {
    injector: Injector<TaskId>,
    stealers: Vec<Stealer<TaskId>>,
    /// The number of stealers.
    count: usize,
}

impl Executor {
    #[verifier::type_invariant]
    spec fn inv(self) -> bool {
        self.count == self.stealers@.len()
    }

    /// The stealers of the workers' queues, as they are kept.
    pub closed spec fn stealer_list(self) -> Vec<Stealer<TaskId>> {
        self.stealers
    }

    /// The stealers of the workers' queues, in the order of the workers.
    pub closed spec fn stealers(self) -> Seq<Stealer<TaskId>> {
        self.stealers@
    }

    /// The queue that the workers share.
    pub closed spec fn shared(self) -> Injector<TaskId> {
        self.injector
    }

    /// Every continuation that is handed to the executor, at any time.
    pub closed spec fn pushed(self) -> Set<TaskId> {
        pushed(self.injector)
    }

    /// Whether `task` goes through the queue that `source` names, at any time; `local`
    /// is the searching worker's own.
    pub open spec fn gives(self, local: Worker<TaskId>, source: Source, task: TaskId) -> bool {
        match source {
            Source::Local => entered(stealer_of(local)).contains(task),
            Source::Shared => self.pushed().contains(task),
            Source::Sibling(i) => entered(self.stealers()[i as int]).contains(task),
            Source::Exhausted => false,
        }
    }

    /// How many workers the executor has.
    pub open spec fn worker_count(self) -> nat {
        self.stealers().len()
    }

    /// Whether `locals` are the queues of the executor's workers.
    pub open spec fn runs(self, locals: Seq<Worker<TaskId>>) -> bool {
        &&& locals.len() == self.worker_count()
        &&& forall|i: int|
            0 <= i < locals.len() ==> {
                &&& is_fifo(#[trigger] locals[i])
                &&& self.stealers()[i] == stealer_of(locals[i])
            }
    }

    /// Whether the shared queue and the workers' queues `locals` are new ones.
    pub open(crate) spec fn is_new(self, locals: Seq<Worker<TaskId>>) -> bool {
        &&& call_ensures(new_injector, (), self.shared())
        &&& forall|i: int|
            0 <= i < locals.len() ==> call_ensures(new_worker, (), #[trigger] locals[i])
    }

    /// An executor with one worker per core. `cores` is the number of cores, where
    /// it can be told. Returned with it are its workers' queues, one for each
    /// thread to be started.
    pub fn new(cores: Option<usize>) -> (executor: (Executor, Vec<Worker<TaskId>>))
        ensures
            executor.0.runs(executor.1@),
            executor.0.is_new(executor.1@),
            executor.1@.len() == worker_total(
                match cores {
                    Some(cores) => cores,
                    None => FALLBACK_WORKERS,
                },
            ),
            cores matches Some(n) ==> executor.1@.len() == (if n == 0 {
                1
            } else {
                n as nat
            }),
            cores is None ==> executor.1@.len() == 4,
    {
        let workers: usize = match cores {
            Some(cores) => cores,
            None => FALLBACK_WORKERS,
        };
        Executor::with_threads(workers)
    }

    /// An executor with `n` workers, and with one if `n` is zero. Returned with it
    /// are its workers' queues, one for each thread to be started.
    pub fn with_threads(n: usize) -> (executor: (Executor, Vec<Worker<TaskId>>))
        ensures
            executor.0.runs(executor.1@),
            executor.0.is_new(executor.1@),
            executor.1@.len() == worker_total(n),
            executor.1@.len() == (if n == 0 {
                1
            } else {
                n as nat
            }),
    {
        let n: usize = if n == 0 {
            1
        } else {
            n
        };
        let mut locals: Vec<Worker<TaskId>> = Vec::new();
        let mut stealers: Vec<Stealer<TaskId>> = Vec::new();
        let mut i: usize = 0;
        while i < n
            invariant
                i <= n,
                locals@.len() == i,
                stealers@.len() == i,
                forall|k: int|
                    0 <= k < i ==> call_ensures(new_worker, (), #[trigger] locals@[k]),
                forall|k: int|
                    0 <= k < i ==> is_fifo(#[trigger] locals@[k]) && stealers@[k] == stealer_of(
                        locals@[k],
                    ),
            decreases n - i,
        {
            let local: Worker<TaskId> = new_worker();
            stealers.push(stealer(&local));
            locals.push(local);
            i = i + 1;
        }
        (Executor { injector: new_injector(), stealers, count: n }, locals)
    }

    /// How many workers the executor has.
    pub fn workers(&self) -> (n: usize)
        ensures
            n == self.worker_count(),
        opens_invariants none
    {
        proof {
            use_type_invariant(self);
        }
        self.count
    }

    /// Pushes a continuation that was given its actor's token onto the shared queue,
    /// which uses the grant up. `ticket` counts the pushes onto this executor. Returned
    /// is the worker to nudge: each in turn.
    ///
    /// Nothing is taken out of a queue here: that takes a turn of a search, and a search
    /// is begun by a function that may open invariants, which this one does not. What
    /// the queue holds afterwards is left unsaid: any worker may have taken the
    /// continuation by then.
    pub fn inject(&self, grant: Grant, ticket: usize) -> (nudge: Option<usize>)
        ensures
            self.pushed().contains(grant@),
            nudge == nudged(ticket, self.worker_count()),
        opens_invariants none
    {
        proof {
            use_type_invariant(self);
        }
        let _sent: TaskId = grant.push(&self.injector);
        let n: usize = self.count;
        if n > 0 {
            Some(ticket % n)
        } else {
            None
        }
    }
}

/// An executor with what the program around it keeps beside the queues, such as its
/// threads.
pub struct Pool<X> {
    pub queues: Executor,
    pub host: X,
}

/// The number of workers of an executor that was asked for `n`.
pub open spec fn worker_total(n: usize) -> nat {
    if n == 0 {
        1
    } else {
        n as nat
    }
}

/// The worker to nudge after the push with number `ticket`, out of `workers`.
pub open spec fn nudged(ticket: usize, workers: nat) -> Option<usize> {
    if workers > 0 {
        Some((ticket as nat % workers) as usize)
    } else {
        None
    }
}

/// A queue that a worker looks into.
#[derive(Clone, Copy, Debug, PartialEq, Eq, Structural)]
pub enum Source {
    /// Its own.
    Local,
    /// The one that all workers of the executor share.
    Shared,
    /// That of the worker with this number.
    Sibling(usize),
    /// None is left.
    Exhausted,
}

/// The siblings of worker `own`, out of `workers`, from number `from` on.
pub open spec fn siblings(own: usize, from: int, workers: int) -> Seq<Source>
    decreases workers - from,
{
    if from >= workers {
        Seq::empty()
    } else if from == own {
        siblings(own, from + 1, workers)
    } else {
        seq![Source::Sibling(from as usize)] + siblings(own, from + 1, workers)
    }
}

/// The queues that worker `own`, out of `workers`, looks into, in order.
pub open spec fn search_order(own: usize, workers: usize) -> Seq<Source> {
    seq![Source::Local, Source::Shared] + siblings(own, 0, workers as int)
}

/// A worker's search for something to run.
pub struct Search {
    own: usize,
    workers: usize,
    at: Source,
    turns: Turns,
}

/// What a worker's search gave.
#[derive(Clone, Copy, Debug, PartialEq, Eq, Structural)]
pub enum Found {
    /// This continuation is to be run.
    Task(TaskId),
    /// All queues were empty.
    Nothing,
    /// Nothing yet: the search goes on.
    Unfinished,
}

impl Search {
    /// The worker that searches.
    pub closed spec fn own(self) -> usize {
        self.own
    }

    /// How many workers there are.
    pub closed spec fn workers(self) -> usize {
        self.workers
    }

    /// How many attempts at a queue the search has made.
    pub closed spec fn turns(self) -> nat {
        self.turns.taken()
    }

    /// The queues that have yet to be looked into, in order. The first is the one
    /// to try next.
    pub closed spec fn remaining(self) -> Seq<Source> {
        match self.at {
            Source::Local => search_order(self.own, self.workers),
            Source::Shared => seq![Source::Shared] + siblings(self.own, 0, self.workers as int),
            Source::Sibling(i) => siblings(self.own, i as int, self.workers as int),
            Source::Exhausted => Seq::empty(),
        }
    }

    #[verifier::type_invariant]
    spec fn inv(self) -> bool {
        self.at matches Source::Sibling(i) ==> i < self.workers && i != self.own
    }

    /// The search of worker `own`, out of `workers`.
    pub fn new(own: usize, workers: usize) -> (search: Search)
        ensures
            search.own() == own,
            search.workers() == workers,
            search.remaining() == search_order(own, workers),
            search.turns() == 0,
    {
        Search { own, workers, at: Source::Local, turns: Turns::new() }
    }

    /// Takes a turn, for one attempt at a queue.
    fn turn(&mut self) -> (turn: Turn)
        ensures
            turn == a_turn(),
            final(self).turns() == old(self).turns() + 1,
            final(self).own() == old(self).own(),
            final(self).workers() == old(self).workers(),
            final(self).remaining() == old(self).remaining(),
        opens_invariants none
    {
        proof {
            use_type_invariant(&*self);
        }
        self.turns.take()
    }

    /// The queue to look into next.
    pub fn source(&self) -> (source: Source)
        ensures
            self.remaining().len() == 0 <==> source == Source::Exhausted,
            self.remaining().len() > 0 ==> source == self.remaining().first(),
            source matches Source::Sibling(i) ==> i < self.workers() && i != self.own(),
        opens_invariants none
    {
        proof {
            use_type_invariant(self);
        }
        self.at
    }

    /// The first sibling from number `from` on.
    fn sibling(own: usize, from: usize, workers: usize) -> (source: Source)
        ensures
            source matches Source::Sibling(i) ==> i < workers && i != own,
            source is Sibling || source is Exhausted,
            siblings(own, from as int, workers as int) == (match source {
                Source::Sibling(i) => siblings(own, i as int, workers as int),
                _ => Seq::<Source>::empty(),
            }),
        opens_invariants none
    {
        proof {
            reveal_with_fuel(siblings, 2);
        }
        if from >= workers {
            Source::Exhausted
        } else if from == own {
            if from + 1 < workers {
                Source::Sibling(from + 1)
            } else {
                Source::Exhausted
            }
        } else {
            Source::Sibling(from)
        }
    }

    /// Goes on to the next queue.
    fn advance(&mut self)
        requires
            old(self).remaining().len() > 0,
        ensures
            final(self).remaining() == old(self).remaining().drop_first(),
            final(self).own() == old(self).own(),
            final(self).workers() == old(self).workers(),
            final(self).turns() == old(self).turns(),
        opens_invariants none
    {
        proof {
            use_type_invariant(&*self);
        }
        let next: Source = match self.at {
            Source::Local => Source::Shared,
            Source::Shared => Search::sibling(self.own, 0, self.workers),
            Source::Sibling(i) => Search::sibling(self.own, i + 1, self.workers),
            Source::Exhausted => Source::Exhausted,
        };
        self.at = next;
        assert(self.remaining() =~= old(self).remaining().drop_first());
    }

    /// Decides what follows from an attempt at the queue that was to be tried
    /// next. A success ends the search, an empty queue leads on to the next one,
    /// and where another thread interfered the same queue is tried again.
    pub fn judge(&mut self, attempt: Attempt) -> (found: Found)
        requires
            old(self).remaining().len() > 0,
        ensures
            final(self).own() == old(self).own(),
            final(self).workers() == old(self).workers(),
            final(self).turns() == old(self).turns(),
            final(self).remaining() == match attempt {
                Attempt::Empty => old(self).remaining().drop_first(),
                _ => old(self).remaining(),
            },
            found == match attempt {
                Attempt::Success(task) => Found::Task(task),
                Attempt::Retry => Found::Unfinished,
                Attempt::Empty => if old(self).remaining().len() == 1 {
                    Found::Nothing
                } else {
                    Found::Unfinished
                },
            },
        opens_invariants none
    {
        match attempt {
            Attempt::Success(task) => Found::Task(task),
            Attempt::Retry => Found::Unfinished,
            Attempt::Empty => {
                self.advance();
                match self.source() {
                    Source::Exhausted => Found::Nothing,
                    _ => Found::Unfinished,
                }
            },
        }
    }
}

/// Whether the queue that `source` names was tried, with this outcome: a worker's own
/// is popped, and the others are stolen from into it.
pub open(crate) spec fn tried(
    executor: Executor,
    local: Worker<TaskId>,
    source: Source,
    attempt: Attempt,
) -> bool {
    match source {
        Source::Local => exists|taken: Option<TaskId>| #[trigger]
            call_ensures(pop, (&local, a_turn()), taken) && attempt == popped(taken),
        Source::Shared => call_ensures(
            steal_shared,
            (&executor.shared(), &local, a_turn()),
            attempt,
        ),
        Source::Sibling(i) => call_ensures(
            steal_sibling,
            (&executor.stealer_list(), i, &local, a_turn()),
            attempt,
        ),
        Source::Exhausted => false,
    }
}

/// How an attempt at the worker's own queue came out.
pub open spec fn popped(taken: Option<TaskId>) -> Attempt {
    match taken {
        Some(task) => Attempt::Success(task),
        None => Attempt::Empty,
    }
}

/// The queues that are left of `order` after these attempts, each at the first of
/// those left before it.
pub open spec fn left_after(order: Seq<Source>, attempts: Seq<Attempt>) -> Seq<Source>
    decreases attempts.len(),
{
    if attempts.len() == 0 {
        order
    } else {
        let before = left_after(order, attempts.drop_last());
        if attempts.last() is Empty {
            before.drop_first()
        } else {
            before
        }
    }
}

/// What a search through the queues `order` has given after these attempts.
pub open spec fn found_after(order: Seq<Source>, attempts: Seq<Attempt>) -> Found {
    if attempts.len() > 0 && attempts.last() is Success {
        Found::Task(attempts.last()->Success_0)
    } else if left_after(order, attempts).len() == 0 {
        Found::Nothing
    } else {
        Found::Unfinished
    }
}

/// Whether attempt number `k` was at the first of the queues that were left, and was no
/// success unless it was the last.
pub open spec fn attempted(
    executor: Executor,
    local: Worker<TaskId>,
    order: Seq<Source>,
    attempts: Seq<Attempt>,
    k: int,
) -> bool {
    let left = left_after(order, attempts.take(k));
    &&& left.len() > 0
    &&& tried(executor, local, left.first(), attempts[k])
    &&& k < attempts.len() - 1 ==> !(attempts[k] is Success)
}

/// Whether these attempts were made one after the other, each at the first of the
/// queues that were left, and none after a success.
pub open spec fn all_tried(
    executor: Executor,
    local: Worker<TaskId>,
    order: Seq<Source>,
    attempts: Seq<Attempt>,
) -> bool {
    forall|k: int|
        0 <= k < attempts.len() ==> #[trigger] attempted(executor, local, order, attempts, k)
}

/// One attempt more.
proof fn lemma_one_more(
    executor: Executor,
    local: Worker<TaskId>,
    order: Seq<Source>,
    attempts: Seq<Attempt>,
    attempt: Attempt,
)
    requires
        all_tried(executor, local, order, attempts),
        found_after(order, attempts) is Unfinished,
        tried(executor, local, left_after(order, attempts).first(), attempt),
    ensures
        all_tried(executor, local, order, attempts.push(attempt)),
        left_after(order, attempts.push(attempt)) == (if attempt is Empty {
            left_after(order, attempts).drop_first()
        } else {
            left_after(order, attempts)
        }),
{
    let more = attempts.push(attempt);
    assert(more.drop_last() =~= attempts);
    assert forall|k: int| 0 <= k < more.len() implies #[trigger] attempted(
        executor,
        local,
        order,
        more,
        k,
    ) by {
        assert(more.take(k) =~= attempts.take(k));
        if k < attempts.len() {
            assert(attempted(executor, local, order, attempts, k));
            assert(more[k] == attempts[k]);
        } else {
            assert(attempts.take(k) =~= attempts);
        }
    }
}

/// A search goes on to a queue only after every queue before it has answered that it
/// was empty. So nothing is found only if all queues of the order have, and what is
/// found is from the first that has not.
pub proof fn queues_before_answered_empty(
    executor: Executor,
    local: Worker<TaskId>,
    order: Seq<Source>,
    attempts: Seq<Attempt>,
    i: int,
)
    requires
        all_tried(executor, local, order, attempts),
        0 <= i < order.len() - left_after(order, attempts).len(),
    ensures
        tried(executor, local, order[i], Attempt::Empty),
{
    lemma_before(executor, local, order, attempts);
}

proof fn lemma_before(
    executor: Executor,
    local: Worker<TaskId>,
    order: Seq<Source>,
    attempts: Seq<Attempt>,
)
    requires
        all_tried(executor, local, order, attempts),
    ensures
        left_after(order, attempts).len() <= order.len(),
        left_after(order, attempts) == order.skip(
            order.len() - left_after(order, attempts).len(),
        ),
        forall|i: int|
            0 <= i < order.len() - left_after(order, attempts).len() ==> tried(
                executor,
                local,
                #[trigger] order[i],
                Attempt::Empty,
            ),
    decreases attempts.len(),
{
    if attempts.len() == 0 {
        assert(order.skip(0) =~= order);
    } else {
        let before = attempts.drop_last();
        assert forall|k: int| 0 <= k < before.len() implies #[trigger] attempted(
            executor,
            local,
            order,
            before,
            k,
        ) by {
            assert(attempted(executor, local, order, attempts, k));
            assert(before.take(k) =~= attempts.take(k));
            assert(before[k] == attempts[k]);
        }
        lemma_before(executor, local, order, before);
        let last = attempts.len() - 1;
        assert(attempted(executor, local, order, attempts, last));
        assert(attempts.take(last) =~= before);
        assert(attempts[last] == attempts.last());
        let left = left_after(order, before);
        assert(left.drop_first() =~= order.skip(order.len() - left.len() + 1));
    }
}

/// Whether `later` is what is left of the search `earlier` after some of its
/// queues.
pub open spec fn continues(earlier: Seq<Source>, later: Seq<Source>) -> bool {
    exists|k: int| 0 <= k <= earlier.len() && later == #[trigger] earlier.skip(k)
}

/// Looks for something to run, in the queues of `executor` and in the worker's
/// own queue `local`, in the order of [`search_order`].
///
/// At most `patience` attempts are made. Where these do not suffice, the answer is
/// [`Found::Unfinished`], and the next call takes up `search` where this one left
/// it. Each attempt uses up a turn of `search`, so no queue is tried but in these
/// attempts. What the queues hold at each attempt is up to the other threads;
/// [`Search::judge`] says what follows from each outcome. What is found came out of
/// the queue whose turn it was.
pub fn find_task(
    local: &Worker<TaskId>,
    executor: &Executor,
    search: &mut Search,
    patience: usize,
) -> (found: Found)
    requires
        old(search).workers() == executor.worker_count(),
    ensures
        exists|attempts: Seq<Attempt>|
            {
                &&& #[trigger] all_tried(*executor, *local, old(search).remaining(), attempts)
                &&& final(search).remaining() == left_after(old(search).remaining(), attempts)
                &&& found == found_after(old(search).remaining(), attempts)
                &&& attempts.len() <= patience
                &&& found is Unfinished ==> attempts.len() == patience
                &&& final(search).turns() == old(search).turns() + attempts.len()
            },
        final(search).own() == old(search).own(),
        final(search).workers() == old(search).workers(),
        continues(old(search).remaining(), final(search).remaining()),
        old(search).remaining().len() - final(search).remaining().len() <= patience,
        found is Nothing <==> final(search).remaining().len() == 0,
        found matches Found::Task(task) ==> final(search).remaining().len() > 0 && executor.gives(
            *local,
            final(search).remaining().first(),
            task,
        ),
        patience == 0 && old(search).remaining().len() > 0 ==> found is Unfinished,
    opens_invariants none
{
    proof {
        use_type_invariant(executor);
    }
    let ghost all = search.remaining();
    let ghost mut attempts = Seq::<Attempt>::empty();
    assert(all.skip(0) =~= all);
    let mut left: usize = patience;
    let mut done: Found = match search.source() {
        Source::Exhausted => Found::Nothing,
        _ => Found::Unfinished,
    };
    while left > 0 && done == Found::Unfinished
        invariant
            search.own() == old(search).own(),
            search.workers() == old(search).workers(),
            search.workers() == executor.worker_count(),
            executor.inv(),
            all == old(search).remaining(),
            all_tried(*executor, *local, all, attempts),
            search.remaining() == left_after(all, attempts),
            done == found_after(all, attempts),
            attempts.len() == patience - left,
            search.turns() == old(search).turns() + attempts.len(),
            continues(all, search.remaining()),
            left <= patience,
            all.len() - search.remaining().len() <= patience - left,
            done is Nothing <==> search.remaining().len() == 0,
            done matches Found::Task(task) ==> search.remaining().len() > 0 && executor.gives(
                *local,
                search.remaining().first(),
                task,
            ),
        decreases left,
    {
        let source: Source = search.source();
        let turn: Turn = search.turn();
        let attempt: Attempt = match source {
            Source::Local => {
                let taken: Option<TaskId> = pop(local, turn);
                assert(call_ensures(pop, (local, a_turn()), taken));
                match taken {
                    Some(task) => Attempt::Success(task),
                    None => Attempt::Empty,
                }
            },
            Source::Shared => steal_shared(&executor.injector, local, turn),
            Source::Sibling(i) => steal_sibling(&executor.stealers, i, local, turn),
            Source::Exhausted => Attempt::Empty,
        };
        proof {
            let k = choose|k: int| 0 <= k <= all.len() && search.remaining() == #[trigger] all.skip(k);
            assert(all.skip(k).drop_first() =~= all.skip(k + 1));
            assert(tried(*executor, *local, source, attempt));
            lemma_one_more(*executor, *local, all, attempts, attempt);
            attempts = attempts.push(attempt);
        }
        done = search.judge(attempt);
        left = left - 1;
    }
    assert(all_tried(*executor, *local, all, attempts));
    done
}

/// What a worker thread learns.
#[derive(Clone, Copy, Debug, PartialEq, Eq, Structural)]
pub enum WorkerEvent {
    /// The last handle to the executor is gone.
    Orphaned,
    /// The executor is there; `shutdown` tells whether it is shutting down.
    Awake { shutdown: bool },
    /// Its search for something to run came out like this.
    Searched(Found),
}

/// What a worker thread does next.
#[derive(Clone, Copy, Debug, PartialEq, Eq, Structural)]
pub enum WorkerAction {
    /// End.
    Exit,
    /// Look for something to run, or go on looking.
    Search,
    /// Run this continuation, then see whether the executor is still there.
    Run(TaskId),
    /// Sleep until it is nudged or some time has passed, then see whether the
    /// executor is still there.
    Park,
}

/// What a worker thread does after `event`.
pub open spec fn worker_reaction(event: WorkerEvent) -> WorkerAction {
    match event {
        WorkerEvent::Orphaned => WorkerAction::Exit,
        WorkerEvent::Awake { shutdown } => if shutdown {
            WorkerAction::Exit
        } else {
            WorkerAction::Search
        },
        WorkerEvent::Searched(Found::Task(task)) => WorkerAction::Run(task),
        WorkerEvent::Searched(Found::Nothing) => WorkerAction::Park,
        WorkerEvent::Searched(Found::Unfinished) => WorkerAction::Search,
    }
}

/// One turn of a worker thread: from what it just learnt to what it does next.
pub fn worker_loop(event: WorkerEvent) -> (action: WorkerAction)
    ensures
        action == worker_reaction(event),
{
    match event {
        WorkerEvent::Orphaned => WorkerAction::Exit,
        WorkerEvent::Awake { shutdown } => if shutdown {
            WorkerAction::Exit
        } else {
            WorkerAction::Search
        },
        WorkerEvent::Searched(Found::Task(task)) => WorkerAction::Run(task),
        WorkerEvent::Searched(Found::Nothing) => WorkerAction::Park,
        WorkerEvent::Searched(Found::Unfinished) => WorkerAction::Search,
    }
}

/// The siblings from number `from` on are those workers, each once, in order, and
/// never the searching worker itself.
proof fn lemma_siblings(own: usize, from: int, workers: int)
    requires
        0 <= from,
        workers <= usize::MAX,
    ensures
        forall|k: int|
            0 <= k < siblings(own, from, workers).len() ==> {
                &&& (#[trigger] siblings(own, from, workers)[k]) matches Source::Sibling(i)
                &&& from <= i < workers
                &&& i != own
            },
        forall|i: usize|
            from <= i < workers && i != own ==> #[trigger] siblings(own, from, workers).contains(
                Source::Sibling(i),
            ),
        siblings(own, from, workers).no_duplicates(),
    decreases workers - from,
{
    if from < workers {
        let rest = siblings(own, from + 1, workers);
        lemma_siblings(own, from + 1, workers);
        if from != own {
            let all = siblings(own, from, workers);
            assert(forall|k: int| 0 < k < all.len() ==> #[trigger] all[k] == rest[k - 1]);
            assert(all[0] == Source::Sibling(from as usize));
            assert forall|i: usize| from <= i < workers && i != own implies #[trigger] all.contains(
                Source::Sibling(i),
            ) by {
                if i != from {
                    assert(rest.contains(Source::Sibling(i)));
                    let k = choose|k: int| 0 <= k < rest.len() && rest[k] == Source::Sibling(i);
                    assert(all[k + 1] == Source::Sibling(i));
                }
            }
        }
    }
}

/// A search looks into the worker's own queue first, into the shared queue next,
/// and then into the queue of every other worker, each exactly once.
pub proof fn search_covers_every_queue_once(own: usize, workers: usize)
    ensures
        search_order(own, workers)[0] == Source::Local,
        search_order(own, workers)[1] == Source::Shared,
        search_order(own, workers).no_duplicates(),
        forall|i: usize|
            #![trigger search_order(own, workers).contains(Source::Sibling(i))]
            search_order(own, workers).contains(Source::Sibling(i)) <==> i < workers && i != own,
        !search_order(own, workers).contains(Source::Exhausted),
{
    let rest = siblings(own, 0, workers as int);
    let all = search_order(own, workers);
    lemma_siblings(own, 0, workers as int);
    assert(forall|k: int| 2 <= k < all.len() ==> #[trigger] all[k] == rest[k - 2]);
    assert forall|i: usize|
        #![trigger all.contains(Source::Sibling(i))]
        all.contains(Source::Sibling(i)) <==> i < workers && i != own by {
        if i < workers && i != own {
            assert(rest.contains(Source::Sibling(i)));
            let k = choose|k: int| 0 <= k < rest.len() && rest[k] == Source::Sibling(i);
            assert(all[k + 2] == Source::Sibling(i));
        }
    }
}

/// Nudges go round: any worker is nudged by exactly one out of as many pushes in a
/// row as there are workers, unless the count of the pushes overflows in between.
pub proof fn every_worker_is_nudged_in_turn(ticket: usize, workers: usize, worker: usize)
    requires
        worker < workers,
        ticket + workers <= usize::MAX,
    ensures
        exists|k: usize|
            #![trigger nudged(k, workers as nat)]
            ticket <= k < ticket + workers && nudged(k, workers as nat) == Some(worker),
        forall|j: usize, k: usize|
            #![trigger nudged(j, workers as nat), nudged(k, workers as nat)]
            ticket <= j < ticket + workers && ticket <= k < ticket + workers && nudged(
                j,
                workers as nat,
            ) == nudged(k, workers as nat) ==> j == k,
{
    let n = workers as int;
    let base = ticket as int % n;
    let k = if base <= worker {
        ticket + (worker - base)
    } else {
        ticket + (worker + n - base)
    };
    assert(k % n == worker) by (nonlinear_arith)
        requires
            n > 0,
            0 <= worker < n,
            base == ticket as int % n,
            k == ticket + (worker - base) || k == ticket + (worker + n - base),
    {
        let q = ticket as int / n;
        assert(ticket as int == q * n + base);
        if k == ticket + (worker - base) {
            assert(k == q * n + worker);
        } else {
            assert(k == (q + 1) * n + worker);
        }
        vstd::arithmetic::div_mod::lemma_mod_multiples_vanish(q, worker as int, n);
        vstd::arithmetic::div_mod::lemma_mod_multiples_vanish(q + 1, worker as int, n);
    }
    assert(0 <= base < n);
    assert(nudged(k as usize, workers as nat) == Some(worker));
    assert forall|j: usize, k: usize|
        #![trigger nudged(j, workers as nat), nudged(k, workers as nat)]
        ticket <= j < ticket + workers && ticket <= k < ticket + workers && nudged(
            j,
            workers as nat,
        ) == nudged(k, workers as nat) implies j == k by {
        assert(j as int % n == k as int % n);
        let a = j as int / n;
        let b = k as int / n;
        assert(j as int == a * n + j as int % n) by {
            vstd::arithmetic::div_mod::lemma_fundamental_div_mod(j as int, n);
            vstd::arithmetic::mul::lemma_mul_is_commutative(a, n);
        }
        assert(k as int == b * n + k as int % n) by {
            vstd::arithmetic::div_mod::lemma_fundamental_div_mod(k as int, n);
            vstd::arithmetic::mul::lemma_mul_is_commutative(b, n);
        }
        assert(a == b) by (nonlinear_arith)
            requires
                n > 0,
                a * n - b * n < n,
                b * n - a * n < n,
        ;
    }
}

/// An executor has as many workers as it was asked for, however many that are, and one
/// if it was asked for none. Each worker has a first-in first-out queue of its own, and
/// what the others steal from under its number is that queue.
pub proof fn executor_has_the_workers_it_was_asked_for(
    n: usize,
    made: (Executor, Vec<Worker<TaskId>>),
    i: int,
)
    requires
        call_ensures(Executor::with_threads, (n,), made),
    ensures
        n >= 1 ==> made.1@.len() == n,
        n == 0 ==> made.1@.len() == 1,
        made.0.worker_count() == made.1@.len(),
        0 <= i < made.1@.len() ==> is_fifo(made.1@[i]) && made.0.stealers()[i] == stealer_of(
            made.1@[i],
        ),
{
}

/// An executor has one worker per core, and four where the number of cores cannot be
/// told.
pub proof fn executor_has_one_worker_per_core(
    cores: Option<usize>,
    made: (Executor, Vec<Worker<TaskId>>),
)
    requires
        call_ensures(Executor::new, (cores,), made),
    ensures
        cores matches Some(n) ==> n >= 1 ==> made.1@.len() == n,
        cores is None ==> made.1@.len() == 4,
        made.0.worker_count() == made.1@.len(),
{
}

/// The first push nudges the first worker, and each further push the next one; after the
/// last comes the first again.
pub proof fn nudges_go_from_worker_to_worker(ticket: usize, workers: usize)
    requires
        ticket < usize::MAX,
    ensures
        workers == 0 ==> nudged(ticket, workers as nat) is None,
        workers > 0 ==> {
            &&& nudged(0, workers as nat) == Some(0usize)
            &&& nudged(ticket, workers as nat) matches Some(now) && now < workers && nudged(
                (ticket + 1) as usize,
                workers as nat,
            ) == Some(
                if now + 1 == workers {
                    0usize
                } else {
                    (now + 1) as usize
                },
            )
        },
{
    if workers > 0 {
        let n = workers as int;
        let now = ticket as int % n;
        let q = ticket as int / n;
        vstd::arithmetic::div_mod::lemma_fundamental_div_mod(ticket as int, n);
        vstd::arithmetic::mul::lemma_mul_is_commutative(q, n);
        assert(0int % n == 0) by {
            vstd::arithmetic::div_mod::lemma_small_mod(0, n as nat);
        }
        if now + 1 == n {
            assert(ticket + 1 == (q + 1) * n) by (nonlinear_arith)
                requires
                    ticket as int == q * n + now,
                    now + 1 == n,
            ;
            vstd::arithmetic::div_mod::lemma_mod_multiples_basic(q + 1, n);
        } else {
            vstd::arithmetic::div_mod::lemma_mod_multiples_vanish(q, now + 1, n);
            vstd::arithmetic::mul::lemma_mul_is_commutative(q, n);
            assert(ticket + 1 == n * q + (now + 1));
            vstd::arithmetic::div_mod::lemma_small_mod((now + 1) as nat, n as nat);
        }
    }
}

/// Among its siblings a worker starts with the first and goes up: of two queues that it
/// looks into, the one with the lower number comes first.
pub proof fn siblings_are_searched_in_order(own: usize, workers: usize, i: int, j: int)
    requires
        2 <= i < j < search_order(own, workers).len(),
    ensures
        search_order(own, workers)[i] matches Source::Sibling(a) && search_order(
            own,
            workers,
        )[j] matches Source::Sibling(b) && a < b,
{
    let rest = siblings(own, 0, workers as int);
    assert(search_order(own, workers)[i] == rest[i - 2]);
    assert(search_order(own, workers)[j] == rest[j - 2]);
    lemma_siblings_ascend(own, 0, workers as int);
}

proof fn lemma_siblings_ascend(own: usize, from: int, workers: int)
    requires
        0 <= from,
        workers <= usize::MAX,
    ensures
        forall|i: int, j: int|
            0 <= i < j < siblings(own, from, workers).len() ==> {
                &&& (#[trigger] siblings(own, from, workers)[i]) matches Source::Sibling(a)
                &&& (#[trigger] siblings(own, from, workers)[j]) matches Source::Sibling(b)
                &&& a < b
            },
    decreases workers - from,
{
    if from < workers {
        lemma_siblings_ascend(own, from + 1, workers);
        lemma_siblings(own, from + 1, workers);
        let rest = siblings(own, from + 1, workers);
        let all = siblings(own, from, workers);
        if from != own {
            assert(all[0] == Source::Sibling(from as usize));
            assert(forall|k: int| 0 < k < all.len() ==> #[trigger] all[k] == rest[k - 1]);
        }
    }
}

/// What a search has found is what the queue that it stands at gave, in the last attempt,
/// and it has found nothing only if no queue is left.
pub proof fn found_is_what_a_queue_gave(
    executor: Executor,
    local: Worker<TaskId>,
    order: Seq<Source>,
    attempts: Seq<Attempt>,
)
    requires
        all_tried(executor, local, order, attempts),
    ensures
        found_after(order, attempts) matches Found::Task(task) ==> left_after(
            order,
            attempts,
        ).len() > 0 && tried(
            executor,
            local,
            left_after(order, attempts).first(),
            Attempt::Success(task),
        ),
        found_after(order, attempts) is Nothing ==> left_after(order, attempts).len() == 0,
        found_after(order, attempts) is Unfinished ==> left_after(order, attempts).len() > 0,
{
    if attempts.len() > 0 {
        let last = attempts.len() - 1;
        assert(attempted(executor, local, order, attempts, last));
        assert(attempts.take(last) =~= attempts.drop_last());
    }
}

/// An attempt at the worker's own queue gives what was popped, whatever that is, and is
/// empty only if nothing was.
pub proof fn own_queue_gives_what_was_popped(taken: Option<TaskId>)
    ensures
        taken matches Some(task) ==> popped(taken) == Attempt::Success(task),
        taken is None ==> popped(taken) == Attempt::Empty,
{
}

/// A worker ends exactly if its executor is gone or shutting down, runs every continuation
/// that it finds, sleeps exactly if it found nothing, and otherwise goes on looking.
pub proof fn workers_run_what_they_find(event: WorkerEvent, action: WorkerAction)
    requires
        call_ensures(worker_loop, (event,), action),
    ensures
        action is Exit <==> event is Orphaned || (event matches WorkerEvent::Awake { shutdown }
            && shutdown),
        forall|task: TaskId| #[trigger]
            is_run(action, task) <==> event == WorkerEvent::Searched(Found::Task(task)),
        action is Park <==> event == WorkerEvent::Searched(Found::Nothing),
{
}

/// Whether a worker runs this continuation next.
pub open spec fn is_run(action: WorkerAction, task: TaskId) -> bool {
    action == WorkerAction::Run(task)
}

} // verus!
