//! The rule of borrowing that is checked at run time: any number of
//! readers, or one writer, never both.

use vstd::prelude::*;

verus! {

/// Who holds a borrow of a value at this moment.
#[derive(Clone, Copy)]
pub enum RefState {
    /// Nobody.
    Unshared,
    /// This many readers.
    Shared(usize),
    /// One writer.
    Exclusive,
}

impl RefState {
    /// The number of readers.
    pub open spec fn readers(self) -> nat {
        match self {
            RefState::Shared(n) => n as nat,
            _ => 0,
        }
    }

    /// Whether there is a writer.
    pub open spec fn writer(self) -> bool {
        self is Exclusive
    }

    /// The state with no borrow.
    pub fn new() -> (state: Self)
        ensures
            state == RefState::Unshared,
    {
        RefState::Unshared
    }

    /// Asks for one more reader. It is admitted unless there is a writer,
    /// or the count of readers is at `usize::MAX`.
    pub fn share(self) -> (next: Option<RefState>)
        ensures
            next is Some <==> !self.writer() && self.readers() < usize::MAX,
            next matches Some(state) ==> state == RefState::Shared((self.readers() + 1) as usize),
    {
        match self {
            RefState::Unshared => Some(RefState::Shared(1)),
            RefState::Shared(n) => {
                if n < usize::MAX {
                    Some(RefState::Shared(n + 1))
                } else {
                    None
                }
            },
            RefState::Exclusive => None,
        }
    }

    /// Asks for the writer. It is admitted only if nobody holds a borrow.
    pub fn claim(self) -> (next: Option<RefState>)
        ensures
            next is Some <==> self == RefState::Unshared,
            next is Some ==> next == Some(RefState::Exclusive),
    {
        match self {
            RefState::Unshared => Some(RefState::Exclusive),
            RefState::Shared(_) => None,
            RefState::Exclusive => None,
        }
    }

    /// One reader is gone. With the last one the value is unshared again.
    pub fn release_shared(self) -> (next: RefState)
        requires
            self.readers() > 0,
        ensures
            next == if self.readers() == 1 {
                RefState::Unshared
            } else {
                RefState::Shared((self.readers() - 1) as usize)
            },
    {
        match self {
            RefState::Shared(n) => {
                if n == 1 {
                    RefState::Unshared
                } else {
                    RefState::Shared(n - 1)
                }
            },
            RefState::Unshared => RefState::Unshared,
            RefState::Exclusive => RefState::Unshared,
        }
    }

    /// The writer is gone: the value is unshared again.
    pub fn release_exclusive(self) -> (next: RefState)
        requires
            self.writer(),
        ensures
            next == RefState::Unshared,
    {
        RefState::Unshared
    }
}

} // verus!
