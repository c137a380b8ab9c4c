//! What this crate takes on trust from `std::sync`.
//!
//! Verus does not look inside a mutex, its guard or a condition variable
//! of the standard library. The three types are declared here as opaque,
//! and every call into them goes through one small function whose contract
//! is believed, not proved. Each contract says no more than the
//! documentation of the function that it wraps.

use std::sync::Arc;
use std::sync::PoisonError;
use vstd::prelude::*;
use crate::channel::Inner;

verus! {

/// `std::sync::Mutex`, opaque.
#[verifier::external_type_specification]
#[verifier::external_body]
#[verifier::reject_recursive_types(T)]
pub struct ExMutex<T: ?Sized>(std::sync::Mutex<T>);

/// `std::sync::Mutex`, opaque.
/// `std::sync::MutexGuard`, opaque.
#[verifier::external_type_specification]
#[verifier::external_body]
#[verifier::reject_recursive_types(T)]
pub struct ExMutexGuard<'a, T: ?Sized + 'a>(std::sync::MutexGuard<'a, T>);

/// `std::sync::Condvar`, opaque.
#[verifier::external_type_specification]
#[verifier::external_body]
pub struct ExCondvar(std::sync::Condvar);

/// `Mutex::new`: a free lock that guards `value`. Nothing is claimed of it.
#[verifier::external_body]
pub(crate) fn new_mutex<T>(value: T) -> std::sync::Mutex<T> {
    std::sync::Mutex::new(value)
}

/// `Condvar::new`: a condition variable on which nobody waits. Nothing is
/// claimed of it.
#[verifier::external_body]
pub(crate) fn new_condvar() -> std::sync::Condvar {
    std::sync::Condvar::new()
}

/// `Mutex::lock`: blocks until the lock is free and takes it.
///
/// Nothing is claimed of the guard. Believed: the call does not unwind. A
/// lock whose earlier holder panicked is taken all the same, through
/// `PoisonError::into_inner`. The calling thread must not hold the lock
/// already; no function of this crate calls it while it does.
#[verifier::external_body]
pub(crate) fn lock<'a, T>(mutex: &'a std::sync::Mutex<T>) -> std::sync::MutexGuard<'a, T>
    opens_invariants none
    no_unwind
{
    mutex.lock().unwrap_or_else(PoisonError::into_inner)
}

/// `DerefMut::deref_mut` of a guard: the value that the lock guards.
///
/// Nothing is claimed of the value: other threads were free to change it
/// until the lock was taken. Believed: the call does not unwind.
#[verifier::external_body]
pub(crate) fn held<'g, 'a, T>(guard: &'g mut std::sync::MutexGuard<'a, T>) -> &'g mut T
    opens_invariants none
    no_unwind
{
    &mut **guard
}

/// `Condvar::wait_while`, with "a receiver would have to wait" as the
/// condition: gives the lock up and sleeps until woken, again and again,
/// for as long as the guarded state has an empty queue and a live sender.
///
/// The guard is taken out of `slot` for the call and put back after it;
/// what is returned is the guarded state. Believed: when the call returns,
/// the lock is held and the condition is false of the guarded state. The
/// call panics if the lock was poisoned while this thread slept.
#[verifier::external_body]
pub(crate) fn wait_ready<'g, 'a, T>(
    available: &std::sync::Condvar,
    slot: &'g mut Option<std::sync::MutexGuard<'a, Inner<T>>>,
) -> (inner: &'g mut Inner<T>)
    requires
        (*old(slot)) is Some,
    ensures
        !(*inner)@.blocks(),
{
    let guard = slot.take().unwrap();
    let guard = available.wait_while(guard, |inner| inner.must_wait()).unwrap();
    &mut **slot.insert(guard)
}

/// `Condvar::notify_one`: wakes one thread that waits on the condition, if
/// there is one. Nothing is claimed of it.
#[verifier::external_body]
pub(crate) fn notify_one(available: &std::sync::Condvar) {
    available.notify_one();
}

/// `Condvar::notify_all`: wakes every thread that waits on the condition.
/// Believed: the call does not unwind.
#[verifier::external_body]
pub(crate) fn notify_all(available: &std::sync::Condvar)
    opens_invariants none
    no_unwind
{
    available.notify_all();
}

/// `Arc::clone`: one more handle to the same allocation. Believed: the new
/// handle leads to the value that `handle` leads to.
#[verifier::external_body]
pub(crate) fn share<T>(handle: &Arc<T>) -> (other: Arc<T>)
    ensures
        other == *handle,
{
    Arc::clone(handle)
}

} // verus!
