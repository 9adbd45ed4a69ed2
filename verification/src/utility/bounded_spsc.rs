//! Bounded first-in first-out channel between one producer and one consumer.
//!
//! The queue is a single-owner state machine: whoever shares it between two
//! threads decides how, and calls the producer operations (`push`, `close`)
//! from one side and the consumer operations (`pop`, `drain`) from the other.
use std::collections::VecDeque;
use vstd::prelude::*;

verus! {

/// What a full queue does with one more message.
#[derive(Clone, Copy, Debug, PartialEq, Eq)]
pub enum Overflow {
    /// The message is handed back, so that the producer can wait and offer it
    /// again: nothing is lost, and the producer may stall.
    Reject,
    /// The message is discarded and counted: the producer never stalls.
    Drop,
}

/// How a push that did not fail ended.
#[derive(Clone, Copy, Debug, PartialEq, Eq)]
pub enum Accepted {
    /// The message is the newest one in the queue.
    Queued,
    /// The queue was full and its policy is [`Overflow::Drop`].
    Dropped,
}

/// Why a push failed. The message comes back in either case.
#[derive(Debug, PartialEq, Eq)]
pub enum PushError<M> {
    /// The queue is full and its policy is [`Overflow::Reject`].
    Full(M),
    /// The channel was closed.
    Closed(M),
}

/// Why a pop returned no message.
#[derive(Clone, Copy, Debug, PartialEq, Eq)]
pub enum PopError {
    /// Nothing is pending, but more may come.
    Empty,
    /// Nothing is pending and the channel was closed: nothing will ever come.
    Closed,
}

/// The channel as a mathematical value.
pub struct FifoState<M> {
    /// The pending messages, oldest first.
    pub pending: Seq<M>,
    /// The most messages that can be pending at once.
    pub capacity: nat,
    /// What happens to a message that finds the queue full.
    pub overflow: Overflow,
    /// Whether the channel was closed.
    pub closed: bool,
    /// How many messages were discarded so far, saturating at `u64::MAX`.
    pub dropped: nat,
}

impl<M> FifoState<M> {
    /// Never more messages are pending than the capacity allows.
    pub open spec fn wf(self) -> bool {
        &&& self.pending.len() <= self.capacity
        &&& self.dropped <= u64::MAX
    }

    /// What a push of `message` returns in this state.
    pub open spec fn push_result(self, message: M) -> Result<Accepted, PushError<M>> {
        if self.closed {
            Err(PushError::Closed(message))
        } else if self.pending.len() < self.capacity {
            Ok(Accepted::Queued)
        } else if self.overflow == Overflow::Reject {
            Err(PushError::Full(message))
        } else {
            Ok(Accepted::Dropped)
        }
    }

    /// The state after a push of `message`.
    pub open spec fn push(self, message: M) -> Self {
        match self.push_result(message) {
            Ok(Accepted::Queued) => FifoState { pending: self.pending.push(message), ..self },
            Ok(Accepted::Dropped) => FifoState {
                dropped: if self.dropped < u64::MAX {
                    self.dropped + 1
                } else {
                    self.dropped
                },
                ..self
            },
            Err(_) => self,
        }
    }

    /// The state after pushing `messages` one by one, first message first.
    pub open spec fn push_all(self, messages: Seq<M>) -> Self
        decreases messages.len(),
    {
        if messages.len() == 0 {
            self
        } else {
            self.push(messages[0]).push_all(messages.drop_first())
        }
    }

    /// What a pop returns in this state.
    pub open spec fn pop_result(self) -> Result<M, PopError> {
        if self.pending.len() > 0 {
            Ok(self.pending[0])
        } else if self.closed {
            Err(PopError::Closed)
        } else {
            Err(PopError::Empty)
        }
    }

    /// The state after a pop.
    pub open spec fn pop(self) -> Self {
        if self.pending.len() > 0 {
            FifoState { pending: self.pending.drop_first(), ..self }
        } else {
            self
        }
    }

    /// The state after a drain.
    pub open spec fn drain(self) -> Self {
        FifoState { pending: Seq::empty(), ..self }
    }

    /// The state after closing.
    pub open spec fn close(self) -> Self {
        FifoState { closed: true, ..self }
    }

    /// Every operation keeps a well-formed state well-formed.
    pub proof fn lemma_steps_keep_wf(self, message: M)
        requires
            self.wf(),
        ensures
            self.push(message).wf(),
            self.pop().wf(),
            self.drain().wf(),
            self.close().wf(),
    {
    }

    /// Pushing a run of messages for which there is room appends that run
    /// unchanged and in order, and changes nothing else.
    pub proof fn lemma_push_all_appends(self, messages: Seq<M>)
        requires
            !self.closed,
            self.pending.len() + messages.len() <= self.capacity,
        ensures
            self.push_all(messages) == (FifoState { pending: self.pending + messages, ..self }),
        decreases messages.len(),
    {
        if messages.len() == 0 {
            assert(self.pending + messages =~= self.pending);
        } else {
            let next = self.push(messages[0]);
            next.lemma_push_all_appends(messages.drop_first());
            assert(next.pending + messages.drop_first() =~= self.pending + messages);
        }
    }

    /// Order is kept: after pushing `messages` onto an empty queue that has
    /// room for them, a drain hands out exactly `messages`, and popping hands
    /// out the first of them first.
    pub proof fn lemma_fifo_order(self, messages: Seq<M>)
        requires
            !self.closed,
            self.pending.len() == 0,
            messages.len() <= self.capacity,
        ensures
            self.push_all(messages).pending == messages,
            messages.len() > 0 ==> self.push_all(messages).pop_result() == Ok::<M, PopError>(
                messages[0],
            ),
            messages.len() > 0 ==> self.push_all(messages).pop().pending
                == messages.drop_first(),
    {
        self.lemma_push_all_appends(messages);
        assert(self.pending + messages =~= messages);
    }

    /// A message pushed onto a full queue never displaces a pending one.
    pub proof fn lemma_full_keeps_pending(self, message: M)
        requires
            self.pending.len() >= self.capacity,
        ensures
            self.push(message).pending == self.pending,
    {
    }
}

/// A queue of at most `capacity` messages, delivered in the order in which
/// they were pushed.
pub struct BoundedFifo<M> {
    items: VecDeque<M>,
    capacity: usize,
    overflow: Overflow,
    closed: bool,
    dropped: u64,
}

impl<M> View for BoundedFifo<M> {
    type V = FifoState<M>;

    closed spec fn view(&self) -> FifoState<M> {
        FifoState {
            pending: self.items@,
            capacity: self.capacity as nat,
            overflow: self.overflow,
            closed: self.closed,
            dropped: self.dropped as nat,
        }
    }
}

impl<M> BoundedFifo<M> {
    /// The state of the queue is well-formed.
    pub open spec fn wf(&self) -> bool {
        &&& self@.wf()
        &&& self@.capacity <= usize::MAX
    }

    /// An open, empty queue for at most `capacity` pending messages.
    pub fn new(capacity: usize, overflow: Overflow) -> (queue: Self)
        ensures
            queue.wf(),
            queue@ == (FifoState {
                pending: Seq::<M>::empty(),
                capacity: capacity as nat,
                overflow,
                closed: false,
                dropped: 0,
            }),
    {
        BoundedFifo { items: VecDeque::new(), capacity, overflow, closed: false, dropped: 0 }
    }

    pub fn capacity(&self) -> (n: usize)
        ensures
            n == self@.capacity,
    {
        self.capacity
    }

    pub fn overflow(&self) -> (policy: Overflow)
        ensures
            policy == self@.overflow,
    {
        self.overflow
    }

    pub fn is_closed(&self) -> (closed: bool)
        ensures
            closed == self@.closed,
    {
        self.closed
    }

    /// How many messages were discarded so far, saturating.
    pub fn dropped(&self) -> (n: u64)
        ensures
            n == self@.dropped,
    {
        self.dropped
    }

    /// The number of pending messages.
    pub fn len(&self) -> (n: usize)
        ensures
            n == self@.pending.len(),
    {
        self.items.len()
    }

    pub fn is_empty(&self) -> (empty: bool)
        ensures
            empty <==> self@.pending.len() == 0,
    {
        self.items.len() == 0
    }

    pub fn is_full(&self) -> (full: bool)
        ensures
            full <==> self@.pending.len() >= self@.capacity,
    {
        self.items.len() >= self.capacity
    }

    /// Producer side: offers `message` to the queue.
    ///
    /// A queued message becomes the newest pending one. A failed push leaves
    /// the queue as it was and hands the message back.
    pub fn push(&mut self, message: M) -> (r: Result<Accepted, PushError<M>>)
        requires
            old(self).wf(),
        ensures
            final(self).wf(),
            r == old(self)@.push_result(message),
            final(self)@ == old(self)@.push(message),
            r is Err ==> *final(self) == *old(self),
    {
        if self.closed {
            Err(PushError::Closed(message))
        } else if self.items.len() < self.capacity {
            self.items.push_back(message);
            Ok(Accepted::Queued)
        } else {
            match self.overflow {
                Overflow::Reject => Err(PushError::Full(message)),
                Overflow::Drop => {
                    if self.dropped < u64::MAX {
                        self.dropped = self.dropped + 1;
                    }
                    Ok(Accepted::Dropped)
                },
            }
        }
    }

    /// Consumer side: takes the oldest pending message.
    ///
    /// Messages that were pending when the channel was closed are still
    /// delivered; `Closed` is reported only once nothing is left.
    pub fn pop(&mut self) -> (r: Result<M, PopError>)
        requires
            old(self).wf(),
        ensures
            final(self).wf(),
            r == old(self)@.pop_result(),
            final(self)@ == old(self)@.pop(),
            r is Err ==> *final(self) == *old(self),
    {
        if self.items.len() == 0 {
            if self.closed {
                Err(PopError::Closed)
            } else {
                Err(PopError::Empty)
            }
        } else {
            let popped = self.items.pop_front();
            assert(old(self).items@.drop_first() =~= old(self).items@.subrange(
                1,
                old(self).items@.len() as int,
            ));
            Ok(popped.unwrap())
        }
    }

    /// Consumer side: takes every pending message at once, oldest first.
    pub fn drain(&mut self) -> (batch: Vec<M>)
        requires
            old(self).wf(),
        ensures
            final(self).wf(),
            batch@ == old(self)@.pending,
            final(self)@ == old(self)@.drain(),
    {
        let mut batch: Vec<M> = Vec::new();
        while self.items.len() > 0
            invariant
                self.wf(),
                batch@ + self.items@ == old(self).items@,
                self.capacity == old(self).capacity,
                self.overflow == old(self).overflow,
                self.closed == old(self).closed,
                self.dropped == old(self).dropped,
            decreases self.items@.len(),
        {
            let ghost before = self.items@;
            let popped = self.items.pop_front();
            batch.push(popped.unwrap());
            assert(batch@ + self.items@ =~= old(self).items@) by {
                assert(self.items@ =~= before.subrange(1, before.len() as int));
            }
        }
        assert(batch@ =~= batch@ + self.items@);
        assert(self.items@ =~= Seq::<M>::empty());
        batch
    }

    /// Either side: marks the channel as closed, because the peer is gone.
    /// Pending messages stay.
    pub fn close(&mut self)
        requires
            old(self).wf(),
        ensures
            final(self).wf(),
            final(self)@ == old(self)@.close(),
    {
        self.closed = true;
    }
}

} // verus!
