//! The count behind a reference-counted pointer.

use vstd::prelude::*;
use crate::cell::Cell;

verus! {

/// What the handles of one reference-counted pointer share: the value and
/// the number of handles.
pub struct RcInner<T> {
    value: T,
    ref_count: Cell<usize>,
}

impl<T> RcInner<T> {
    /// The shared part of a pointer with one handle.
    pub fn new(value: T) -> (inner: Self)
        ensures
            inner.value() == value,
    {
        RcInner { value, ref_count: Cell::new(1) }
    }

    /// The value.
    pub closed spec fn value(&self) -> T {
        self.value
    }

    /// The value.
    pub fn get(&self) -> (value: &T)
        ensures
            *value == self.value(),
    {
        &self.value
    }

    /// Counts one more handle.
    pub fn retain(&self) {
        let count = self.ref_count.get();
        self.ref_count.set(Self::after_clone(count));
    }

    /// Counts one handle fewer. Returns `true` if it was the last one: the
    /// caller then has to release the value.
    pub fn release(&self) -> (last: bool) {
        let count = self.ref_count.get();
        match Self::after_drop(count) {
            Some(next) => {
                self.ref_count.set(next);
                false
            },
            None => true,
        }
    }

    /// The count after one more handle was made.
    pub fn after_clone(count: usize) -> (next: usize)
        ensures
            next == if count < usize::MAX {
                count + 1
            } else {
                count as int
            },
    {
        if count < usize::MAX {
            count + 1
        } else {
            count
        }
    }

    /// The count after a handle was dropped, or `None` for the last one.
    pub fn after_drop(count: usize) -> (next: Option<usize>)
        ensures
            next == if count <= 1 {
                None
            } else {
                Some((count - 1) as usize)
            },
    {
        if count <= 1 {
            None
        } else {
            Some(count - 1)
        }
    }
}

} // verus!
