//! A box: one value on the heap, with one owner.

use std::ops::Deref;
use vstd::prelude::*;

verus! {

/// A value on the heap that belongs to this handle alone. The allocation
/// is released when the handle goes out of scope.
pub struct BoxM<T> {
    value: Box<T>,
}

impl<T> View for BoxM<T> {
    type V = T;

    /// The value in the box.
    closed spec fn view(&self) -> T {
        *self.value
    }
}

impl<T> BoxM<T> {
    /// Moves `t` to the heap.
    pub fn new(t: T) -> (b: Self)
        ensures
            b@ == t,
    {
        BoxM { value: Box::new(t) }
    }

}

impl<T> Deref for BoxM<T> {
    type Target = T;

    fn deref(&self) -> (r: &T)
        ensures
            *r == self@,
    {
        &*self.value
    }
}

impl<T> std::ops::DerefMut for BoxM<T> {
    fn deref_mut(&mut self) -> (r: &mut T)
        ensures
            *r == old(self)@,
            final(self)@ == *final(r),
    {
        &mut *self.value
    }
}

} // verus!
