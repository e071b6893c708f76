//! Actors: the cell that owns one, and the references through which it is called.

use crate::cell::{CellSched, Grant, SchedView};
use crate::executor::{nudged, Pool};
use crate::lock::{acquire, just_taken, lock_of, made_with, new_lock, SchedGuard};
use core::any::TypeId;
use std::sync::Arc;
use vstd::prelude::*;

verus! {

/// Owns one actor, and what it takes to schedule its continuations on one
/// executor.
pub struct ActorCell<A, E> {
    state: A,
    type_id: TypeId,
    sched: parking_lot::Mutex<CellSched>,
    executor: Arc<E>,
}

impl<A, E> ActorCell<A, E> {
    /// The actor's state, as it was when the cell was made.
    pub closed spec fn spec_state(self) -> A {
        self.state
    }

    /// The actor's type.
    pub closed spec fn spec_type(self) -> TypeId {
        self.type_id
    }

    /// The lock around the actor's scheduling state.
    pub closed spec fn spec_lock(self) -> parking_lot::Mutex<CellSched> {
        self.sched
    }

    /// The executor that the actor was spawned on.
    pub closed spec fn spec_executor(self) -> Arc<E> {
        self.executor
    }

    /// Whether this is what [`ActorCell::new`] makes.
    pub open spec fn made_from(self, state: A, type_id: TypeId, executor: Arc<E>) -> bool {
        &&& self.spec_state() == state
        &&& self.spec_type() == type_id
        &&& self.spec_executor() == executor
        &&& made_with(self.spec_lock()) == SchedView::idle()
    }

    /// A cell for an actor of type `type_id` that starts out as `state`, idle.
    pub fn new(state: A, type_id: TypeId, executor: Arc<E>) -> (cell: ActorCell<A, E>)
        ensures
            cell.made_from(state, type_id, executor),
    {
        ActorCell { state, type_id, sched: new_lock(CellSched::new()), executor }
    }

    /// The actor's state.
    pub fn state(&self) -> (state: &A)
        ensures
            *state == self.spec_state(),
    {
        &self.state
    }

    /// The actor's type.
    pub fn actor_type_id(&self) -> (type_id: TypeId)
        ensures
            type_id == self.spec_type(),
    {
        self.type_id
    }

    /// Locks the actor's scheduling state.
    pub fn sched(&self) -> (guard: SchedGuard<'_>)
        ensures
            lock_of(guard) == self.spec_lock(),
            just_taken(self.spec_lock(), guard),
    {
        acquire(&self.sched)
    }

    /// The executor that runs the actor's continuations.
    pub fn executor(&self) -> (executor: &Arc<E>)
        ensures
            *executor == self.spec_executor(),
    {
        &self.executor
    }
}

impl<A, X> ActorCell<A, Pool<X>> {
    /// Hands a continuation that was given the actor's token to the executor that the
    /// actor was spawned on, and to no other. `ticket` and the result are those of
    /// [`Executor::inject`](crate::executor::Executor::inject). As there, nothing is taken
    /// out of a queue.
    pub fn hand_over(&self, grant: Grant, ticket: usize) -> (nudge: Option<usize>)
        ensures
            (*self.spec_executor()).queues.pushed().contains(grant@),
            nudge == nudged(ticket, (*self.spec_executor()).queues.worker_count()),
        opens_invariants none
    {
        self.executor.queues.inject(grant, ticket)
    }
}

/// A cloneable reference to a spawned actor.
pub struct ActorRef<A, E> {
    cell: Arc<ActorCell<A, E>>,
}

impl<A, E> Clone for ActorRef<A, E> {
    fn clone(&self) -> (actor: ActorRef<A, E>)
        ensures
            actor == *self,
    {
        ActorRef { cell: self.cell.clone() }
    }
}

impl<A, E> ActorRef<A, E> {
    /// The cell of the actor.
    pub closed spec fn spec_cell(self) -> Arc<ActorCell<A, E>> {
        self.cell
    }

    /// Spawns an actor with an explicit initial state on the given executor.
    pub fn __spawn_with(executor: &Arc<E>, type_id: TypeId, state: A) -> (actor: ActorRef<A, E>)
        ensures
            (*actor.spec_cell()).made_from(state, type_id, *executor),
    {
        ActorRef { cell: Arc::new(ActorCell::new(state, type_id, executor.clone())) }
    }

    /// Spawns an actor with its default state on the given executor.
    pub fn __spawn_default(executor: &Arc<E>, type_id: TypeId) -> (actor: ActorRef<A, E>) where
        A: Default,

        ensures
            exists|state: A|
                call_ensures(A::default, (), state) && #[trigger] (
                *actor.spec_cell()).made_from(state, type_id, *executor),
    {
        Self::__spawn_with(executor, type_id, A::default())
    }

    /// The cell of the actor.
    pub fn __cell(&self) -> (cell: Arc<ActorCell<A, E>>)
        ensures
            cell == self.spec_cell(),
    {
        self.cell.clone()
    }
}

} // verus!
