//! Flattening: the items of nested collections as one sequence that can be
//! taken from either end.

use std::collections::VecDeque;
use vstd::prelude::*;

verus! {

/// The items of all the collections in `outer`, in order: those of the
/// first collection, then those of the second, and so on.
pub open spec fn flat<T>(outer: Seq<Vec<T>>) -> Seq<T>
    decreases outer.len(),
{
    if outer.len() == 0 {
        Seq::empty()
    } else {
        outer[0]@ + flat(outer.skip(1))
    }
}

/// The items of nested collections, to be taken one by one from the front
/// or from the back.
pub struct Flatten<T> {
    items: VecDeque<T>,
    reversed: bool,
}

impl<T> View for Flatten<T> {
    type V = Seq<T>;

    /// The items that are left, in the order in which `next` hands them
    /// out.
    closed spec fn view(&self) -> Seq<T> {
        if self.reversed {
            self.items@.reverse()
        } else {
            self.items@
        }
    }
}

/// Flattens `outer`: the result hands out the items of its first
/// collection, then those of its second, and so on.
pub fn flatten<T>(outer: Vec<Vec<T>>) -> (all: Flatten<T>)
    ensures
        all@ == flat(outer@),
{
    let mut outer = outer;
    let mut items: VecDeque<T> = VecDeque::new();
    let ghost whole = outer@;
    while outer.len() > 0
        invariant
            outer@ == whole.take(outer@.len() as int),
            outer@.len() <= whole.len(),
            items@ == flat(whole.skip(outer@.len() as int)),
        decreases outer@.len(),
    {
        let ghost k = outer@.len() as int;
        let ghost below = items@;
        let mut inner = match outer.pop() {
            Some(inner) => inner,
            None => Vec::new(),
        };
        let ghost taken = inner@;
        while inner.len() > 0
            invariant
                inner@ == taken.take(inner@.len() as int),
                inner@.len() <= taken.len(),
                items@ == taken.skip(inner@.len() as int) + below,
            decreases inner@.len(),
        {
            if let Some(item) = inner.pop() {
                items.push_front(item);
            }
        }
        assert(items@ == flat(whole.skip(k - 1))) by {
            assert(whole.skip(k - 1).skip(1) =~= whole.skip(k));
        }
    }
    Flatten { items, reversed: false }
}

impl<T> Flatten<T> {
    /// Takes the first of the items that are left.
    pub fn next(&mut self) -> (item: Option<T>)
        ensures
            old(self)@.len() == 0 ==> item is None && final(self)@ == old(self)@,
            old(self)@.len() > 0 ==> item == Some(old(self)@.first()) && final(self)@ == old(
                self,
            )@.drop_first(),
    {
        if self.reversed {
            self.items.pop_back()
        } else {
            self.items.pop_front()
        }
    }

    /// Takes the last of the items that are left.
    pub fn next_back(&mut self) -> (item: Option<T>)
        ensures
            old(self)@.len() == 0 ==> item is None && final(self)@ == old(self)@,
            old(self)@.len() > 0 ==> item == Some(old(self)@.last()) && final(self)@ == old(
                self,
            )@.drop_last(),
    {
        if self.reversed {
            self.items.pop_front()
        } else {
            self.items.pop_back()
        }
    }

    /// The same items from the other end: what was last comes first.
    pub fn rev(self) -> (other: Self)
        ensures
            other@ == self@.reverse(),
    {
        Flatten { items: self.items, reversed: !self.reversed }
    }

    /// The number of items that are left.
    pub fn count(self) -> (n: usize)
        ensures
            n == self@.len(),
    {
        self.items.len()
    }

    /// The items that are left, in order, as a vector.
    pub fn collect(self) -> (all: Vec<T>)
        ensures
            all@ == self@,
    {
        let mut rest = self;
        let mut all: Vec<T> = Vec::new();
        loop
            invariant
                all@ + rest@ == self@,
            ensures
                all@ == self@,
            decreases rest@.len(),
        {
            match rest.next() {
                Some(item) => {
                    all.push(item);
                },
                None => {
                    break ;
                },
            }
        }
        all
    }
}

/// Flattening as a method of the nested collection.
pub trait IteratorExt<T>: Sized {
    /// The nested collection as plain vectors.
    spec fn nested(self) -> Seq<Vec<T>>;

    /// Flattens `self`, as [`flatten`] does.
    fn our_flatten(self) -> (all: Flatten<T>)
        ensures
            all@ == flat(self.nested()),
    ;
}

impl<T> IteratorExt<T> for Vec<Vec<T>> {
    open spec fn nested(self) -> Seq<Vec<T>> {
        self@
    }

    fn our_flatten(self) -> (all: Flatten<T>) {
        flatten(self)
    }
}

} // verus!
