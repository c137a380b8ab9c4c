//! A blocking channel: any number of senders, unbounded, first in first out.
//!
//! Senders push under a lock and wake a receiver. A receiver waits while
//! the queue is empty and a sender is alive. When it finds more than one
//! value it takes the oldest and moves the rest into a buffer of its own,
//! so that its next calls need no lock.

use std::collections::VecDeque;
use std::sync::Arc;
use vstd::prelude::*;
use crate::model::State;
use crate::model::Taken;
use crate::sync::held;
use crate::sync::lock;
use crate::sync::new_condvar;
use crate::sync::new_mutex;
use crate::sync::notify_all;
use crate::sync::notify_one;
use crate::sync::share;
use crate::sync::wait_ready;

verus! {

/// The state that the lock guards: the queue and the count of senders.
pub struct Inner<T> {
    queue: VecDeque<T>,
    senders: usize,
}

impl<T> View for Inner<T> {
    type V = State<T>;

    closed spec fn view(&self) -> State<T> {
        State { queue: self.queue@, senders: self.senders as nat }
    }
}

impl<T> Inner<T> {
    /// The state of a new channel: an empty queue and one sender.
    pub fn new() -> (inner: Self)
        ensures
            inner@ == State::<T>::fresh(),
    {
        Inner { queue: VecDeque::new(), senders: 1 }
    }

    /// Whether a receiver with an empty buffer has to wait.
    pub fn must_wait(&self) -> (wait: bool)
        ensures
            wait == self@.blocks(),
    {
        self.queue.len() == 0 && self.senders > 0
    }

    /// Appends `t` to the queue.
    pub fn enqueue(&mut self, t: T)
        ensures
            final(self)@ == old(self)@.pushed(t),
    {
        self.queue.push_back(t);
    }

    /// Counts one more sender. The count stops at `usize::MAX`.
    pub fn attach(&mut self)
        ensures
            final(self)@ == if old(self)@.senders < usize::MAX {
                old(self)@.attached()
            } else {
                old(self)@
            },
    {
        if self.senders < usize::MAX {
            self.senders = self.senders + 1;
        }
    }

    /// Counts one sender fewer, and says whether none is left, in which
    /// case every waiting receiver has to be woken.
    pub fn detach(&mut self) -> (last: bool)
        ensures
            final(self)@ == old(self)@.detached(),
            last == final(self)@.closed(),
        opens_invariants none
        no_unwind
    {
        if self.senders > 0 {
            self.senders = self.senders - 1;
        }
        self.senders == 0
    }

    /// One attempt to receive on behalf of a receiver whose buffer is empty.
    ///
    /// Takes the oldest value of the queue. Any younger ones change places
    /// with the empty buffer, so the queue is left empty.
    pub fn take(&mut self, buffer: &mut VecDeque<T>) -> (taken: Taken<T>)
        requires
            old(buffer)@.len() == 0,
        ensures
            final(self)@ == old(self)@.step(old(buffer)@).state,
            final(buffer)@ == old(self)@.step(old(buffer)@).buffer,
            taken == old(self)@.step(old(buffer)@).taken,
    {
        match self.queue.pop_front() {
            Some(t) => {
                if self.queue.len() > 0 {
                    std::mem::swap(buffer, &mut self.queue);
                }
                assert(self.queue@ =~= Seq::empty());
                Taken::Item(t)
            },
            None => {
                if self.senders == 0 {
                    Taken::Closed
                } else {
                    Taken::Empty
                }
            },
        }
    }
}

/// What all handles of one channel own together.
#[verifier::reject_recursive_types(T)]
pub struct Shared<T> {
    inner: std::sync::Mutex<Inner<T>>,
    available: std::sync::Condvar,
}

/// The sending half. Clone it for more senders; the channel closes when
/// the last one is dropped.
#[verifier::reject_recursive_types(T)]
pub struct Sender<T> {
    shared: Arc<Shared<T>>,
}

impl<T> Clone for Sender<T> {
    fn clone(&self) -> (other: Self)
        ensures
            other.shared() == self.shared(),
    {
        {
            let mut guard = lock(&self.shared.inner);
            held(&mut guard).attach();
        }
        Sender { shared: share(&self.shared) }
    }
}

impl<T> Drop for Sender<T> {
    fn drop(&mut self)
        opens_invariants none
        no_unwind
    {
        let last = {
            let mut guard = lock(&self.shared.inner);
            held(&mut guard).detach()
        };
        if last {
            notify_all(&self.shared.available);
        }
    }
}

impl<T> Sender<T> {
    /// What this handle shares with the other handles of its channel.
    pub closed spec fn shared(&self) -> Shared<T> {
        *self.shared
    }

    /// Sends `t`: appends it to the queue and wakes one waiting receiver.
    /// Never fails, whether or not a receiver is left.
    pub fn send(&mut self, t: T)
        ensures
            final(self).shared() == old(self).shared(),
    {
        {
            let mut guard = lock(&self.shared.inner);
            held(&mut guard).enqueue(t);
        }
        notify_one(&self.shared.available);
    }
}

/// The receiving half, with a buffer of its own.
#[verifier::reject_recursive_types(T)]
pub struct Receiver<T> {
    shared: Arc<Shared<T>>,
    buffer: VecDeque<T>,
}

impl<T> View for Receiver<T> {
    type V = Seq<T>;

    /// The values that this receiver has claimed and not yet handed out.
    closed spec fn view(&self) -> Seq<T> {
        self.buffer@
    }
}

impl<T> Clone for Receiver<T> {
    fn clone(&self) -> (other: Self)
        ensures
            other.shared() == self.shared(),
            other@ == Seq::<T>::empty(),
    {
        Receiver { shared: share(&self.shared), buffer: VecDeque::new() }
    }
}

impl<T> Receiver<T> {
    /// What this handle shares with the other handles of its channel.
    pub closed spec fn shared(&self) -> Shared<T> {
        *self.shared
    }

    /// Receives the oldest undelivered value. Blocks while there is none
    /// and a sender is alive. `None` means that the channel is closed.
    ///
    /// A value in the receiver's own buffer is handed out without taking
    /// the lock. With an empty buffer the answer depends on what the other
    /// handles have done: it is the answer of one [`State::step`] on the
    /// shared state as it is found once there is no reason to wait.
    pub fn recv(&mut self) -> (r: Option<T>)
        ensures
            final(self).shared() == old(self).shared(),
            old(self)@.len() > 0 ==> r == Some(old(self)@[0]) && final(self)@ == old(self)@.skip(1),
            r is None ==> old(self)@.len() == 0 && final(self)@.len() == 0,
            exists|shared: State<T>|
                {
                    let step = #[trigger] shared.step(old(self)@);
                    &&& !(step.taken is Empty)
                    &&& r == step.taken.value()
                    &&& final(self)@ == step.buffer
                },
    {
        let ghost before = self@;
        if let Some(t) = self.buffer.pop_front() {
            assert(State::<T>::fresh().step(before).taken == Taken::Item(t));
            return Some(t);
        }
        let mut slot = Some(lock(&self.shared.inner));
        let inner = wait_ready(&self.shared.available, &mut slot);
        inner.take(&mut self.buffer).into_option()
    }
}

/// Creates a channel and returns its two halves.
pub fn channel<T>() -> (halves: (Sender<T>, Receiver<T>))
    ensures
        halves.0.shared() == halves.1.shared(),
        halves.1@ == Seq::<T>::empty(),
{
    let shared = Arc::new(Shared { inner: new_mutex(Inner::new()), available: new_condvar() });
    (Sender { shared: share(&shared) }, Receiver { shared: share(&shared), buffer: VecDeque::new() })
}

} // verus!
