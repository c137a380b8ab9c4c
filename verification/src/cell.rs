//! A cell: a value that can be replaced through a shared reference.

use vstd::cell::invcell::InvCell;
use vstd::predicate::Predicate;
use vstd::prelude::*;

verus! {

/// The rule that admits every value: a [`Cell`] may hold anything.
pub struct AnyValue;

impl<T> Predicate<T> for AnyValue {
    open spec fn predicate(&self, v: T) -> bool {
        true
    }
}

/// A value that can be read and replaced through a shared reference, by
/// one thread at a time.
pub struct Cell<T> {
    value: InvCell<T, AnyValue>,
}

impl<T> Cell<T> {
    /// A cell that holds `value`.
    pub fn new(value: T) -> (cell: Self) {
        Cell { value: InvCell::new(value, Ghost(AnyValue)) }
    }

    /// Replaces the value in the cell.
    pub fn set(&self, value: T) {
        self.value.set(value);
    }

    /// A copy of the value in the cell.
    pub fn get(&self) -> (value: T) where T: Copy {
        self.value.get()
    }
}

} // verus!
