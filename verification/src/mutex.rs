//! A lock that spins: a thread that finds it taken tries again until it is
//! free.

use vstd::prelude::*;
use vstd::rwlock::RwLock;
use vstd::rwlock::RwLockPredicate;
use crate::cell::AnyValue;

verus! {

impl<T> RwLockPredicate<T> for AnyValue {
    open spec fn inv(self, v: T) -> bool {
        true
    }
}

/// A value that one thread at a time can reach. A thread that asks while
/// another one holds the lock spins until the lock is free.
pub struct Mutex<T> {
    lock: RwLock<T, AnyValue>,
}

impl<T> Mutex<T> {
    /// A lock around `t`, free.
    pub fn new(t: T) -> (mutex: Self) {
        Mutex { lock: RwLock::new(t, Ghost(AnyValue)) }
    }

    /// Takes the lock, runs `f` on the guarded value, releases the lock
    /// and returns what `f` returned. While `f` runs no other thread can
    /// reach the value.
    ///
    /// Which value `f` finds depends on the threads that held the lock
    /// before, so `f` has to accept every value, and of the result only
    /// this is known: `f` returned it for some value. If `f` panics the
    /// lock stays taken.
    pub fn with_lock<R, F: FnOnce(&mut T) -> R>(&self, f: F) -> (r: R)
        requires
            forall|value: &mut T| call_requires(f, (value,)),
        ensures
            exists|value: &mut T| call_ensures(f, (value,), r),
    {
        let (mut value, handle) = self.lock.acquire_write();
        let r = f(&mut value);
        handle.release_write(value);
        r
    }
}

} // verus!
