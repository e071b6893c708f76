//! The actor that a thread is polling, and the handle that reaches its state.
//!
//! An actor method never keeps a reference to its actor across a suspension.
//! Instead, a worker publishes where the actor's state is right before it polls a
//! continuation, and takes that back right after. An [`ActorContext`] holds no
//! reference: it looks the state up on every access.

use core::any::TypeId;
use core::marker::PhantomData;
use vstd::prelude::*;

verus! {

/// The identity of a Rust type.
#[verifier::external_type_specification]
#[verifier::external_body]
pub struct ExTypeId(TypeId);

/// `TypeId::eq`: whether two identities are the same. A `TypeId` is "a globally
/// unique identifier for a type".
#[verifier::external_body]
fn same_type(left: TypeId, right: TypeId) -> (same: bool)
    ensures
        same == (left == right),
{
    left == right
}

/// The actor that is being polled on a thread: its type, and where its state is.
/// There is none while no continuation is being polled.
pub struct CurrentActor<P> {
    pub actor: Option<(TypeId, P)>,
}

impl<P: Copy> Clone for CurrentActor<P> {
    fn clone(&self) -> (current: CurrentActor<P>)
        ensures
            current == *self,
    {
        *self
    }
}

impl<P: Copy> Copy for CurrentActor<P> {

}

impl<P> CurrentActor<P> {
    /// Whether an actor of this type is being polled.
    pub open spec fn is_polling(self, actor: TypeId) -> bool {
        self.actor matches Some(current) && current.0 == actor
    }

    /// Whether the actor of type `type_id` whose state is at `ptr` was published over
    /// `before`, in this scope.
    pub open spec fn entered(
        self,
        before: CurrentActor<P>,
        type_id: TypeId,
        ptr: P,
        scope: ActorScope<P>,
    ) -> bool where P: Copy {
        &&& self.actor == Some((type_id, ptr))
        &&& scope.outer() == before.actor
    }

    /// Whether this is what is published after the scope has ended.
    pub open spec fn left(self, scope: ActorScope<P>) -> bool where P: Copy {
        self.actor == scope.outer()
    }

    /// A thread that polls no actor.
    pub fn none() -> (current: CurrentActor<P>)
        ensures
            current.actor is None,
    {
        CurrentActor { actor: None }
    }
}

/// Publishes an actor for the duration of one poll. Leaving the scope restores
/// what was published before, which keeps nested polls and unwinding correct.
pub struct ActorScope<P> {
    prev: Option<(TypeId, P)>,
}

impl<P: Copy> ActorScope<P> {
    /// What was published before the scope was entered.
    pub closed spec fn outer(self) -> Option<(TypeId, P)> {
        self.prev
    }

    /// Publishes the actor whose state is at `ptr`.
    pub fn enter(current: &mut CurrentActor<P>, type_id: TypeId, ptr: P) -> (scope: ActorScope<P>)
        ensures
            final(current).entered(*old(current), type_id, ptr, scope),
    {
        let prev: Option<(TypeId, P)> = current.actor;
        current.actor = Some((type_id, ptr));
        ActorScope { prev }
    }

    /// Ends the scope.
    pub fn leave(self, current: &mut CurrentActor<P>)
        ensures
            final(current).left(self),
    {
        current.actor = self.prev;
    }
}

/// Opaque handle that grants access to an actor's state while a continuation is
/// being polled.
///
/// It holds no data. It cannot be cloned, and its lifetime is invariant, so it
/// cannot be smuggled out to a longer one.
pub struct ActorContext<'a, A> {
    _inv: PhantomData<&'a mut &'a ()>,
    _actor: PhantomData<A>,
}

impl<'a, A> ActorContext<'a, A> {
    /// The one value of this type.
    pub closed spec fn handle() -> ActorContext<'a, A> {
        ActorContext { _inv: PhantomData, _actor: PhantomData }
    }

    /// A context. All contexts of one type are alike.
    pub(crate) fn new() -> (context: ActorContext<'a, A>)
        ensures
            context == ActorContext::<'a, A>::handle(),
    {
        ActorContext { _inv: PhantomData, _actor: PhantomData }
    }

    /// Whether the context may be used: whether the thread polls an actor of its
    /// type, `own`. A stray context, one that escaped to another thread or is used
    /// after its poll, may not.
    pub fn is_current<P: Copy>(&self, own: TypeId, current: &CurrentActor<P>) -> (usable: bool)
        ensures
            usable == current.is_polling(own),
    {
        match current.actor {
            Some((type_id, ptr)) => same_type(type_id, own),
            None => false,
        }
    }

    /// Where the state of the actor is that is being polled. `own` is the type of
    /// the context's actor.
    pub fn actor_ptr<P: Copy>(&self, own: TypeId, current: &CurrentActor<P>) -> (ptr: P)
        requires
            current.is_polling(own),
        ensures
            current.actor == Some((own, ptr)),
    {
        current.actor.unwrap().1
    }
}

/// A context, for the body of an actor method that is about to be awaited.
pub fn __ctx<'a, A>() -> (context: ActorContext<'a, A>)
    ensures
        context == ActorContext::<'a, A>::handle(),
{
    ActorContext::new()
}

/// Scopes nest: inside a scope the actor that was entered last is published, and
/// after a scope was left what was published before it was entered is published
/// again.
pub proof fn scopes_nest<P>(
    before: CurrentActor<P>,
    outer: ActorScope<P>,
    outer_actor: (TypeId, P),
    inside: CurrentActor<P>,
    inner: ActorScope<P>,
    inner_actor: (TypeId, P),
    deeper: CurrentActor<P>,
    inside_again: CurrentActor<P>,
    after: CurrentActor<P>,
) where P: Copy
    requires
        inside.entered(before, outer_actor.0, outer_actor.1, outer),
        deeper.entered(inside, inner_actor.0, inner_actor.1, inner),
        inside_again.left(inner),
        after.left(outer),
    ensures
        deeper.actor == Some(inner_actor),
        inside_again == inside,
        inside_again.actor == Some(outer_actor),
        after == before,
{
}

/// A context reaches the state of an actor of its own type that is being polled, and no
/// other: it is usable exactly if such an actor is published.
pub proof fn only_the_polled_actor_is_reached<P>(current: CurrentActor<P>, own: TypeId, ptr: P)
    ensures
        current.is_polling(own) <==> current.actor is Some && current.actor->Some_0.0 == own,
        current.actor == Some((own, ptr)) ==> current.is_polling(own),
{
}

} // verus!
