//! The per-actor token and the queue of continuations that wait for it.

use crate::deque::pushed;
use crossbeam_deque::Injector;
use std::collections::VecDeque;
use std::mem::swap;
use vstd::prelude::*;

verus! {

/// Names one continuation. The queues hold these numbers.
pub type TaskId = u64;

/// What a [`CellSched`] holds: whether the token is out, and who waits for it,
/// first come first.
#[verifier::ext_equal]
pub struct SchedView {
    pub active: bool,
    pub pending: Seq<TaskId>,
}

impl SchedView {
    /// Nobody waits unless somebody holds the token.
    pub open spec fn wf(self) -> bool {
        !self.active ==> self.pending.len() == 0
    }

    /// The state of an actor that nobody has called yet.
    pub open spec fn idle() -> SchedView {
        SchedView { active: false, pending: Seq::empty() }
    }

    /// A continuation becomes runnable: it takes the token if that is free and
    /// waits at the end of the queue otherwise.
    pub open spec fn arrive(self, task: TaskId) -> SchedView {
        if self.active {
            SchedView { active: true, pending: self.pending.push(task) }
        } else {
            SchedView { active: true, pending: self.pending }
        }
    }

    /// The continuation that holds the token after [`SchedView::arrive`] and did not before.
    pub open spec fn arrive_grant(self, task: TaskId) -> Option<TaskId> {
        if self.active {
            None
        } else {
            Some(task)
        }
    }

    /// The holder gives the token up: the first in the queue inherits it, and it
    /// is free if nobody waits.
    pub open spec fn release(self) -> SchedView {
        if self.pending.len() > 0 {
            SchedView { active: self.active, pending: self.pending.drop_first() }
        } else {
            SchedView { active: false, pending: self.pending }
        }
    }

    /// After the token was released `n` times in a row.
    pub open spec fn released(self, n: nat) -> SchedView
        decreases n,
    {
        if n == 0 {
            self
        } else {
            self.released((n - 1) as nat).release()
        }
    }

    /// The continuation that inherits the token in [`SchedView::release`].
    pub open spec fn release_grant(self) -> Option<TaskId> {
        if self.pending.len() > 0 {
            Some(self.pending.first())
        } else {
            None
        }
    }
}

/// Says that a continuation was given its actor's token and is now to be handed to the
/// executor. Only [`CellSched`] makes one; it cannot be copied, and handing it over
/// uses it up. So a continuation is handed to an executor at most once for each time
/// that it gets the token, and never without it.
#[derive(Debug, PartialEq, Eq)]
pub struct Grant {
    task: TaskId,
}

impl View for Grant {
    type V = TaskId;

    closed spec fn view(&self) -> TaskId {
        self.task
    }
}

/// The continuation that was given the token, if one was.
pub open spec fn grantee(grant: Option<Grant>) -> Option<TaskId> {
    match grant {
        Some(grant) => Some(grant@),
        None => None,
    }
}

impl Grant {
    /// The continuation that was given the token.
    pub fn task(&self) -> (task: TaskId)
        ensures
            task == self@,
    {
        self.task
    }

    /// `Injector::push`: puts the continuation at the end of the shared queue, where
    /// any worker may take it from at once. Returned is what was pushed.
    #[verifier::external_body]
    pub(crate) fn push(self, injector: &Injector<TaskId>) -> (sent: TaskId)
        ensures
            sent == self@,
            pushed(*injector).contains(sent),
        opens_invariants none
    {
        injector.push(self.task);
        self.task
    }
}

/// Per-actor scheduling state.
///
/// `active` is a single token: while it is set, exactly one continuation of the
/// actor is on its way through the executor or being polled. The token passes
/// from one continuation to the next as they suspend or end.
pub struct CellSched {
    active: bool,
    /// Runnable continuations that wait for the token, in the order of arrival.
    pending: VecDeque<TaskId>,
}

impl View for CellSched {
    type V = SchedView;

    closed spec fn view(&self) -> SchedView {
        SchedView { active: self.active, pending: self.pending@ }
    }
}

impl CellSched {
    #[verifier::type_invariant]
    spec fn inv(self) -> bool {
        !self.active ==> self.pending@.len() == 0
    }

    /// An idle actor's state: the token is free and nobody waits.
    pub fn new() -> (sched: CellSched)
        ensures
            sched@ == SchedView::idle(),
    {
        CellSched { active: false, pending: VecDeque::new() }
    }

    /// Admits a runnable continuation. Returns it if it got the token, and is
    /// now to be handed to the executor; otherwise it waits in the queue.
    pub fn arrive(&mut self, task: TaskId) -> (granted: Option<Grant>)
        ensures
            final(self)@ == old(self)@.arrive(task),
            grantee(granted) == old(self)@.arrive_grant(task),
            old(self)@.wf(),
            final(self)@.wf(),
    {
        proof {
            use_type_invariant(&*self);
        }
        if self.active {
            let mut waiting: VecDeque<TaskId> = VecDeque::new();
            swap(&mut waiting, &mut self.pending);
            waiting.push_back(task);
            self.pending = waiting;
            None
        } else {
            self.active = true;
            Some(Grant { task })
        }
    }

    /// Takes the token back from its holder. Returns the continuation that
    /// inherits it, which is now to be handed to the executor.
    pub fn release(&mut self) -> (next: Option<Grant>)
        ensures
            final(self)@ == old(self)@.release(),
            grantee(next) == old(self)@.release_grant(),
            old(self)@.wf(),
            final(self)@.wf(),
    {
        proof {
            use_type_invariant(&*self);
        }
        let mut waiting: VecDeque<TaskId> = VecDeque::new();
        swap(&mut waiting, &mut self.pending);
        match waiting.pop_front() {
            Some(task) => {
                self.pending = waiting;
                Some(Grant { task })
            },
            None => {
                self.active = false;
                None
            },
        }
    }
}

proof fn lemma_released(sched: SchedView, n: nat)
    requires
        n <= sched.pending.len(),
    ensures
        sched.released(n) == (SchedView {
            active: sched.active,
            pending: sched.pending.skip(n as int),
        }),
    decreases n,
{
    if n == 0 {
        assert(sched.pending.skip(0) =~= sched.pending);
    } else {
        lemma_released(sched, (n - 1) as nat);
        assert(sched.pending.skip(n - 1).drop_first() =~= sched.pending.skip(n as int));
    }
}

/// However long the queue is, it drains in order: each release hands the token to
/// the next continuation in the order of arrival, and the one after the last frees
/// it.
pub proof fn queue_drains_in_order(sched: SchedView, n: nat)
    requires
        n <= sched.pending.len(),
    ensures
        n < sched.pending.len() ==> sched.released(n).release_grant() == Some(
            sched.pending[n as int],
        ),
        n == sched.pending.len() ==> {
            &&& sched.released(n).release_grant() is None
            &&& sched.released(n + 1) == SchedView::idle()
        },
{
    lemma_released(sched, n);
    if n == sched.pending.len() {
        assert(sched.pending.skip(n as int) =~= Seq::<TaskId>::empty());
    }
}

/// Releasing the token undoes claiming it: an idle actor that is called once is
/// idle again afterwards.
pub proof fn release_undoes_claim(sched: SchedView, task: TaskId)
    requires
        sched == SchedView::idle(),
    ensures
        sched.arrive_grant(task) == Some(task),
        sched.arrive(task).release() == sched,
        sched.arrive(task).release_grant() is None,
{
}

/// A continuation, if there is one, as a queue.
pub open spec fn alone(task: Option<TaskId>) -> Seq<TaskId> {
    match task {
        Some(task) => seq![task],
        None => Seq::empty(),
    }
}

/// Nobody is lost, doubled or overtaken, however long the queue is: who gets the token and
/// who still waits are together those who waited before, and the one who arrived, in
/// order. The token is out exactly while somebody has it.
pub proof fn nobody_is_lost_or_overtaken(sched: SchedView, task: TaskId)
    requires
        sched.wf(),
    ensures
        alone(sched.arrive_grant(task)) + sched.arrive(task).pending == sched.pending.push(task),
        alone(sched.release_grant()) + sched.release().pending == sched.pending,
        sched.arrive(task).active,
        sched.arrive_grant(task) is Some <==> !sched.active,
        sched.release().active <==> sched.release_grant() is Some,
        sched.release_grant() is None <==> sched.pending.len() == 0,
{
    assert(alone(sched.arrive_grant(task)) + sched.arrive(task).pending =~= sched.pending.push(
        task,
    ));
    assert(alone(sched.release_grant()) + sched.release().pending =~= sched.pending);
}

} // verus!
