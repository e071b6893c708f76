//! The lock around an actor's scheduling state.

use crate::cell::{grantee, CellSched, Grant, SchedView, TaskId};
use vstd::prelude::*;

verus! {

/// The raw lock of `parking_lot`; it occurs in the type of [`parking_lot::Mutex`] only.
#[verifier::external_type_specification]
#[verifier::external_body]
pub struct ExRawMutex(parking_lot::RawMutex);

/// The mutex of `parking_lot`, which is `lock_api`'s with [`parking_lot::RawMutex`].
#[verifier::external_type_specification]
#[verifier::external_body]
#[verifier::reject_recursive_types(R)]
#[verifier::reject_recursive_types(T)]
pub struct ExMutex<R, T: ?Sized>(parking_lot::lock_api::Mutex<R, T>);

/// A held lock around an actor's scheduling state: `parking_lot`'s guard, whose
/// drop unlocks.
#[verifier::external_body]
pub struct SchedGuard<'a> {
    inner: parking_lot::MutexGuard<'a, CellSched>,
}

/// The scheduling state that a held lock gives access to.
pub uninterp spec fn held(guard: SchedGuard<'_>) -> SchedView;

/// The lock that a guard holds, as `MutexGuard::mutex` gives it.
pub uninterp spec fn lock_of(guard: SchedGuard<'_>) -> parking_lot::Mutex<CellSched>;

/// The scheduling state that a lock was made with.
pub uninterp spec fn made_with(lock: parking_lot::Mutex<CellSched>) -> SchedView;

impl<'a> View for SchedGuard<'a> {
    type V = SchedView;

    open spec fn view(&self) -> SchedView {
        held(*self)
    }
}

/// `parking_lot::Mutex::new`: an unlocked mutex with `sched` inside. What is
/// inside later depends on every thread that has locked it since.
#[verifier::external_body]
pub(crate) fn new_lock(sched: CellSched) -> (lock: parking_lot::Mutex<CellSched>)
    ensures
        made_with(lock) == sched@,
{
    parking_lot::Mutex::new(sched)
}

/// `parking_lot::Mutex::lock`: waits until no other thread holds the lock, then
/// holds it. What the state is by then depends on the other threads, so nothing
/// is said of it. A thread that holds the lock already waits for itself: it never
/// returns from a second call.
#[verifier::external_body]
pub(crate) fn acquire<'a>(lock: &'a parking_lot::Mutex<CellSched>) -> (guard: SchedGuard<'a>)
    ensures
        lock_of(guard) == *lock,
{
    SchedGuard { inner: lock.lock() }
}

/// Whether the lock was taken, and the guard is as it was then: nothing has been done
/// under it since.
pub open(crate) spec fn just_taken(lock: parking_lot::Mutex<CellSched>, guard: SchedGuard<'_>) -> bool {
    call_ensures(acquire, (&lock,), guard)
}

/// `MutexGuard::deref_mut`: exclusive access to what the held lock guards. What
/// the reference leaves there is what the guard gives access to afterwards.
#[verifier::external_body]
fn guarded<'a, 'b>(guard: &'b mut SchedGuard<'a>) -> (sched: &'b mut CellSched)
    ensures
        sched@ == held(*old(guard)),
        held(*final(guard)) == final(sched)@,
        lock_of(*final(guard)) == lock_of(*old(guard)),
{
    &mut *guard.inner
}

impl<'a> SchedGuard<'a> {
    /// [`CellSched::arrive`] on the state under the lock.
    pub fn arrive(&mut self, task: TaskId) -> (granted: Option<Grant>)
        ensures
            final(self)@ == old(self)@.arrive(task),
            grantee(granted) == old(self)@.arrive_grant(task),
            old(self)@.wf(),
            final(self)@.wf(),
            lock_of(*final(self)) == lock_of(*old(self)),
    {
        let sched: &mut CellSched = guarded(self);
        sched.arrive(task)
    }

    /// [`CellSched::release`] on the state under the lock.
    pub fn release(&mut self) -> (next: Option<Grant>)
        ensures
            final(self)@ == old(self)@.release(),
            grantee(next) == old(self)@.release_grant(),
            old(self)@.wf(),
            final(self)@.wf(),
            lock_of(*final(self)) == lock_of(*old(self)),
    {
        let sched: &mut CellSched = guarded(self);
        sched.release()
    }
}

} // verus!
