//! The mathematical model of a channel, and the laws that hold of it.
//!
//! A channel is a queue of values in flight together with the number of
//! senders still alive. A receiver adds a private buffer of values it has
//! already claimed. Everything here is ghost code: nothing in this module
//! exists at run time except [`Taken`].

use vstd::prelude::*;

verus! {

/// What the handles of one channel share: the values in flight, oldest
/// first, and the number of senders that are still alive.
pub struct State<T> {
    pub queue: Seq<T>,
    pub senders: nat,
}

/// The outcome of one attempt to receive.
pub enum Taken<T> {
    /// The oldest value that was still undelivered.
    Item(T),
    /// Nothing is left and no sender is alive: nothing will ever arrive.
    Closed,
    /// Nothing is left, but a sender is alive: the receiver has to wait.
    Empty,
}

/// One attempt to receive, seen from outside: what becomes of the shared
/// state and of the receiver's buffer, and what the receiver gets.
pub struct Step<T> {
    pub state: State<T>,
    pub buffer: Seq<T>,
    pub taken: Taken<T>,
}

impl<T> Taken<T> {
    /// The value that was taken, if one was.
    pub open spec fn value(self) -> Option<T> {
        match self {
            Taken::Item(t) => Some(t),
            Taken::Closed => None,
            Taken::Empty => None,
        }
    }

    /// The value that was taken, if one was.
    pub fn into_option(self) -> (r: Option<T>)
        ensures
            r == self.value(),
    {
        match self {
            Taken::Item(t) => Some(t),
            Taken::Closed => None,
            Taken::Empty => None,
        }
    }
}

impl<T> State<T> {
    /// A channel as it is created: nothing in flight, one sender.
    pub open spec fn fresh() -> Self {
        State { queue: Seq::empty(), senders: 1 }
    }

    /// The state after `t` was sent: `t` is the youngest value in flight.
    pub open spec fn pushed(self, t: T) -> Self {
        State { queue: self.queue.push(t), senders: self.senders }
    }

    /// The state after a sender was cloned.
    pub open spec fn attached(self) -> Self {
        State { queue: self.queue, senders: self.senders + 1 }
    }

    /// The state after a sender was dropped.
    pub open spec fn detached(self) -> Self {
        State { queue: self.queue, senders: if self.senders > 0 { (self.senders - 1) as nat } else { 0 } }
    }

    /// No sender is alive.
    pub open spec fn closed(self) -> bool {
        self.senders == 0
    }

    /// A receiver with an empty buffer has to wait on this state: nothing
    /// is in flight, but a sender is alive.
    pub open spec fn blocks(self) -> bool {
        self.queue.len() == 0 && self.senders > 0
    }

    /// One attempt to receive by a receiver whose buffer holds `buffer`.
    ///
    /// The buffer is served first and the shared state is left alone. With
    /// an empty buffer the oldest value in flight is taken and all younger
    /// ones move into the buffer, in order.
    pub open spec fn step(self, buffer: Seq<T>) -> Step<T> {
        if buffer.len() > 0 {
            Step { state: self, buffer: buffer.skip(1), taken: Taken::Item(buffer[0]) }
        } else if self.queue.len() > 0 {
            Step {
                state: State { queue: Seq::empty(), senders: self.senders },
                buffer: self.queue.skip(1),
                taken: Taken::Item(self.queue[0]),
            }
        } else if self.senders == 0 {
            Step { state: self, buffer: buffer, taken: Taken::Closed }
        } else {
            Step { state: self, buffer: buffer, taken: Taken::Empty }
        }
    }

    /// One attempt to receive by a receiver that keeps no buffer: it takes
    /// the oldest value in flight and leaves the others where they are.
    pub open spec fn plain_step(self) -> Step<T> {
        if self.queue.len() > 0 {
            Step {
                state: State { queue: self.queue.skip(1), senders: self.senders },
                buffer: Seq::empty(),
                taken: Taken::Item(self.queue[0]),
            }
        } else if self.senders == 0 {
            Step { state: self, buffer: Seq::empty(), taken: Taken::Closed }
        } else {
            Step { state: self, buffer: Seq::empty(), taken: Taken::Empty }
        }
    }
}

/// One thing that can happen to a channel with a single receiver.
pub enum Op<T> {
    /// A sender sends the value.
    Send(T),
    /// The receiver makes one attempt to receive.
    Recv,
    /// A sender is cloned.
    Attach,
    /// A sender is dropped.
    Detach,
}

/// A channel together with its one receiver.
pub struct System<T> {
    pub shared: State<T>,
    pub buffer: Seq<T>,
}

impl<T> System<T> {
    /// A channel as it is created, with its receiver.
    pub open spec fn fresh() -> Self {
        System { shared: State::fresh(), buffer: Seq::empty() }
    }

    /// Every value that was sent and not yet handed out, oldest first: the
    /// receiver's buffer, then the queue.
    pub open spec fn pending(self) -> Seq<T> {
        self.buffer + self.shared.queue
    }

    /// The same channel as a receiver without a buffer would see it.
    pub open spec fn merged(self) -> Self {
        System {
            shared: State { queue: self.pending(), senders: self.shared.senders },
            buffer: Seq::empty(),
        }
    }

    /// The attempt to receive that `Op::Recv` stands for. A receiver that
    /// is `buffered` moves what it finds into its buffer; one that is not
    /// takes a single value from the queue each time.
    pub open spec fn attempt(self, buffered: bool) -> Step<T> {
        if buffered {
            self.shared.step(self.buffer)
        } else {
            self.shared.plain_step()
        }
    }

    /// Whether `op` can happen now. Sending, cloning a sender and dropping
    /// one take a sender, so they cannot happen once none is alive.
    pub open spec fn admits(self, op: Op<T>) -> bool {
        op is Recv || !self.shared.closed()
    }

    /// Whether all of `ops` can happen, in order.
    pub open spec fn admits_all(self, ops: Seq<Op<T>>, buffered: bool) -> bool
        decreases ops.len(),
    {
        ops.len() > 0 ==> self.admits(ops[0]) && self.after(ops[0], buffered).admits_all(
            ops.skip(1),
            buffered,
        )
    }

    /// The system after `op`.
    pub open spec fn after(self, op: Op<T>, buffered: bool) -> Self {
        match op {
            Op::Send(t) => System { shared: self.shared.pushed(t), buffer: self.buffer },
            Op::Recv => System {
                shared: self.attempt(buffered).state,
                buffer: self.attempt(buffered).buffer,
            },
            Op::Attach => System { shared: self.shared.attached(), buffer: self.buffer },
            Op::Detach => System { shared: self.shared.detached(), buffer: self.buffer },
        }
    }

    /// The system after all of `ops`, in order.
    pub open spec fn run(self, ops: Seq<Op<T>>, buffered: bool) -> Self
        decreases ops.len(),
    {
        if ops.len() == 0 {
            self
        } else {
            self.after(ops[0], buffered).run(ops.skip(1), buffered)
        }
    }

    /// What the receiver got at each `Op::Recv` of `ops`, in order.
    pub open spec fn answers(self, ops: Seq<Op<T>>, buffered: bool) -> Seq<Taken<T>>
        decreases ops.len(),
    {
        if ops.len() == 0 {
            Seq::empty()
        } else {
            let rest = self.after(ops[0], buffered).answers(ops.skip(1), buffered);
            match ops[0] {
                Op::Recv => seq![self.attempt(buffered).taken] + rest,
                _ => rest,
            }
        }
    }

    /// The values that the receiver was handed during `ops`, in order.
    pub open spec fn received(self, ops: Seq<Op<T>>, buffered: bool) -> Seq<T>
        decreases ops.len(),
    {
        if ops.len() == 0 {
            Seq::empty()
        } else {
            let rest = self.after(ops[0], buffered).received(ops.skip(1), buffered);
            match ops[0] {
                Op::Recv => match self.attempt(buffered).taken {
                    Taken::Item(t) => seq![t] + rest,
                    _ => rest,
                },
                _ => rest,
            }
        }
    }
}

/// The values that were sent during `ops`, in order.
pub open spec fn sent<T>(ops: Seq<Op<T>>) -> Seq<T>
    decreases ops.len(),
{
    if ops.len() == 0 {
        Seq::empty()
    } else {
        match ops[0] {
            Op::Send(t) => seq![t] + sent(ops.skip(1)),
            _ => sent(ops.skip(1)),
        }
    }
}

/// `values`, each sent in turn.
pub open spec fn sends<T>(values: Seq<T>) -> Seq<Op<T>> {
    Seq::new(values.len(), |i: int| Op::Send(values[i]))
}

/// `n` attempts to receive.
pub open spec fn receives<T>(n: nat) -> Seq<Op<T>> {
    Seq::new(n, |i: int| Op::Recv)
}

/// First in, first out. Whatever happens to a channel, and in whatever
/// order, the values handed to the receiver so far, followed by those
/// still pending, are the values that were pending at the start followed
/// by those sent since, in the order of sending. So the receiver sees a
/// prefix of what was sent, in the order in which it was sent.
pub proof fn law_fifo<T>(sys: System<T>, ops: Seq<Op<T>>, buffered: bool)
    requires
        !buffered ==> sys.buffer.len() == 0,
    ensures
        sys.received(ops, buffered) + sys.run(ops, buffered).pending() == sys.pending() + sent(ops),
        !buffered ==> sys.run(ops, buffered).buffer.len() == 0,
    decreases ops.len(),
{
    if ops.len() > 0 {
        let next = sys.after(ops[0], buffered);
        let rest = ops.skip(1);
        law_fifo(next, rest, buffered);
        if ops[0] is Recv {
            if let Taken::Item(t) = sys.attempt(buffered).taken {
                let handed = next.received(rest, buffered);
                let left = next.run(rest, buffered).pending();
                assert((seq![t] + handed) + left =~= seq![t] + (handed + left));
            }
        }
    }
}

/// An attempt to receive, on a system with something pending, hands out
/// the oldest pending value and leaves the others pending, in order.
proof fn lemma_attempt_takes_oldest<T>(sys: System<T>, buffered: bool)
    requires
        sys.pending().len() > 0,
        !buffered ==> sys.buffer.len() == 0,
    ensures
        sys.attempt(buffered).taken == Taken::Item(sys.pending()[0]),
        sys.after(Op::Recv, buffered).pending() == sys.pending().skip(1),
        sys.after(Op::Recv, buffered).shared.senders == sys.shared.senders,
        !buffered ==> sys.after(Op::Recv, buffered).buffer.len() == 0,
{
}

/// An attempt to receive, on a system with nothing pending, changes
/// nothing, and its answer depends on whether a sender is alive.
proof fn lemma_attempt_on_nothing<T>(sys: System<T>, buffered: bool)
    requires
        sys.pending().len() == 0,
    ensures
        sys.attempt(buffered).taken == if sys.shared.closed() {
            Taken::<T>::Closed
        } else {
            Taken::<T>::Empty
        },
        sys.after(Op::Recv, buffered) == sys,
{
    assert(sys.buffer =~= Seq::empty());
}

/// After some sends and no attempt to receive in between, the first
/// attempt hands out the value that was sent first, and `k` attempts hand
/// out the first `k` values that were sent, in the order of sending.
pub proof fn law_receives_follow_sends<T>(values: Seq<T>, k: nat, buffered: bool)
    requires
        k <= values.len(),
    ensures
        values.len() > 0 ==> System::<T>::fresh().run(sends(values), buffered).attempt(
            buffered,
        ).taken == Taken::Item(values[0]),
        System::<T>::fresh().run(sends(values), buffered).received(receives(k), buffered)
            == values.take(k as int),
{
    let start = System::<T>::fresh();
    let filled = start.run(sends(values), buffered);
    law_fifo(start, sends(values), buffered);
    lemma_only_sends(start, values, buffered);
    if values.len() > 0 {
        lemma_attempt_takes_oldest(filled, buffered);
    }
    lemma_receives_take_pending(filled, k, buffered);
}

/// A run of sends hands nothing out, and what it sends is its values.
proof fn lemma_only_sends<T>(sys: System<T>, values: Seq<T>, buffered: bool)
    ensures
        sys.received(sends(values), buffered) == Seq::<T>::empty(),
        sent(sends(values)) == values,
    decreases values.len(),
{
    if values.len() > 0 {
        let ops = sends(values);
        assert(ops.skip(1) =~= sends(values.skip(1)));
        lemma_only_sends(sys.after(ops[0], buffered), values.skip(1), buffered);
    }
}

/// `k` attempts to receive, on a system with at least `k` values pending,
/// hand out the `k` oldest, in order.
proof fn lemma_receives_take_pending<T>(sys: System<T>, k: nat, buffered: bool)
    requires
        k <= sys.pending().len(),
        !buffered ==> sys.buffer.len() == 0,
    ensures
        sys.received(receives(k), buffered) == sys.pending().take(k as int),
    decreases k,
{
    if k > 0 {
        lemma_attempt_takes_oldest(sys, buffered);
        assert(receives::<T>(k).skip(1) =~= receives::<T>((k - 1) as nat));
        lemma_receives_take_pending(sys.after(Op::Recv, buffered), (k - 1) as nat, buffered);
    }
}

/// Closure. Once no sender is alive, nothing but receiving can happen to
/// the channel. The attempts to receive then hand out what is still
/// pending, oldest first, and every attempt after that is answered with
/// `Closed`: none waits, and the channel stays closed. With nothing
/// pending every attempt is answered with `Closed` and changes nothing.
pub proof fn law_closed_drains<T>(sys: System<T>, n: nat, buffered: bool)
    requires
        sys.shared.closed(),
        !buffered ==> sys.buffer.len() == 0,
    ensures
        sys.answers(receives(n), buffered) == Seq::new(
            n,
            |i: int|
                if i < sys.pending().len() {
                    Taken::Item(sys.pending()[i])
                } else {
                    Taken::Closed
                },
        ),
        sys.run(receives(n), buffered).shared.closed(),
        sys.pending().len() == 0 ==> sys.run(receives(n), buffered) == sys,
    decreases n,
{
    if n > 0 {
        if sys.pending().len() > 0 {
            lemma_attempt_takes_oldest(sys, buffered);
        } else {
            lemma_attempt_on_nothing(sys, buffered);
        }
        assert(receives::<T>(n).skip(1) =~= receives::<T>((n - 1) as nat));
        law_closed_drains(sys.after(Op::Recv, buffered), (n - 1) as nat, buffered);
    }
}

/// Closed is final. Once no sender is alive, whatever can still happen to
/// the channel is an attempt to receive, and the channel stays closed.
pub proof fn law_closed_is_final<T>(sys: System<T>, ops: Seq<Op<T>>, buffered: bool)
    requires
        sys.shared.closed(),
        sys.admits_all(ops, buffered),
    ensures
        ops == receives::<T>(ops.len()),
        sys.run(ops, buffered).shared.closed(),
    decreases ops.len(),
{
    if ops.len() > 0 {
        law_closed_is_final(sys.after(ops[0], buffered), ops.skip(1), buffered);
        assert forall|i: int| 0 <= i < ops.len() implies ops[i] == receives::<T>(ops.len())[i] by {
            if i > 0 {
                assert(ops[i] == ops.skip(1)[i - 1]);
            }
        }
    }
    assert(ops =~= receives::<T>(ops.len()));
}

/// Closing wakes to an answer. When the last sender is dropped the channel
/// is closed, and on a closed channel no attempt to receive has to wait:
/// a receiver that was waiting and is woken gets a value or `Closed`.
pub proof fn law_last_detach_closes<T>(sys: System<T>, buffered: bool)
    requires
        sys.shared.senders == 1,
    ensures
        sys.after(Op::Detach, buffered).shared.closed(),
        !(sys.after(Op::Detach, buffered).attempt(buffered).taken is Empty),
        sys.pending().len() == 0 ==> sys.after(Op::Detach, buffered).attempt(buffered).taken
            == Taken::<T>::Closed,
{
    if sys.pending().len() == 0 {
        lemma_attempt_on_nothing(sys.after(Op::Detach, buffered), buffered);
    }
}

/// After a send, an attempt to receive does not have to wait: it hands
/// out a value. So the receiver that a send wakes finds something to take.
pub proof fn law_receive_after_send_takes<T>(sys: System<T>, t: T, buffered: bool)
    ensures
        sys.after(Op::Send(t), buffered).attempt(buffered).taken is Item,
{
}

/// The buffer is transparent. A receiver that moves what it finds into a
/// buffer of its own gets, at every attempt, the answer that a receiver
/// without a buffer gets, whatever else happens to the channel in between;
/// and the two leave the same values pending and the same senders alive.
pub proof fn law_buffer_is_transparent<T>(sys: System<T>, ops: Seq<Op<T>>)
    ensures
        sys.answers(ops, true) == sys.merged().answers(ops, false),
        sys.received(ops, true) == sys.merged().received(ops, false),
        sys.run(ops, true).merged() == sys.merged().run(ops, false),
    decreases ops.len(),
{
    if ops.len() > 0 {
        let plain = sys.merged();
        if ops[0] is Recv {
            if sys.pending().len() > 0 {
                lemma_attempt_takes_oldest(sys, true);
                lemma_attempt_takes_oldest(plain, false);
            } else {
                lemma_attempt_on_nothing(sys, true);
                lemma_attempt_on_nothing(plain, false);
            }
        }
        assert(sys.after(ops[0], true).merged() == plain.after(ops[0], false));
        law_buffer_is_transparent(sys.after(ops[0], true), ops.skip(1));
    }
}

} // verus!
