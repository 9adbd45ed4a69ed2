//! Latest-value slot from one producer to one consumer.
//!
//! The slot holds at most one value. Publishing replaces a value that was
//! not read yet: the consumer reads the newest value or nothing, never a
//! value that was replaced. Like the other channels this is a single-owner
//! state machine; no operation waits.
use vstd::prelude::*;

verus! {

/// Why a value was not published. The value comes back.
#[derive(Debug, PartialEq, Eq)]
pub enum PublishError<V> {
    /// The channel was closed.
    Closed(V),
}

/// Why a read returned no value.
#[derive(Clone, Copy, Debug, PartialEq, Eq, Structural)]
pub enum ReadError {
    /// Nothing was published since the last read, but more may come.
    Empty,
    /// Nothing was published since the last read and the channel was closed:
    /// nothing will ever come.
    Closed,
}

/// The slot as a mathematical value.
pub struct SlotState<V> {
    /// The newest value, if it was not read yet.
    pub value: Option<V>,
    /// Whether the channel was closed.
    pub closed: bool,
}

impl<V> SlotState<V> {
    /// What `publish` returns for `value` in this state.
    pub open spec fn publish_result(self, value: V) -> Result<(), PublishError<V>> {
        if self.closed {
            Err(PublishError::Closed(value))
        } else {
            Ok(())
        }
    }

    /// The state after `value` was published.
    pub open spec fn publish(self, value: V) -> Self {
        if self.closed {
            self
        } else {
            SlotState { value: Some(value), ..self }
        }
    }

    /// The state after `values` were published one by one.
    pub open spec fn publish_all(self, values: Seq<V>) -> Self
        decreases values.len(),
    {
        if values.len() == 0 {
            self
        } else {
            self.publish(values[0]).publish_all(values.drop_first())
        }
    }

    /// What `read` returns in this state.
    pub open spec fn read_result(self) -> Result<V, ReadError> {
        match self.value {
            Some(value) => Ok(value),
            None => if self.closed {
                Err(ReadError::Closed)
            } else {
                Err(ReadError::Empty)
            },
        }
    }

    /// The state after `read`.
    pub open spec fn read(self) -> Self {
        SlotState { value: None, ..self }
    }

    /// The state after closing.
    pub open spec fn close(self) -> Self {
        SlotState { closed: true, ..self }
    }

    /// The most recent publish wins: after any run of publishes the slot
    /// holds the last value alone. The next read returns it, and the read
    /// after that finds the slot empty: no earlier value is ever observed.
    pub proof fn lemma_latest_wins(self, values: Seq<V>)
        requires
            !self.closed,
            values.len() > 0,
        ensures
            self.publish_all(values) == (SlotState { value: Some(values.last()), closed: false }),
            self.publish_all(values).read_result() == Ok::<V, ReadError>(values.last()),
            self.publish_all(values).read().read_result() == Err::<V, ReadError>(ReadError::Empty),
        decreases values.len(),
    {
        let next = self.publish(values[0]);
        if values.len() == 1 {
            assert(next.publish_all(values.drop_first()) == next);
        } else {
            next.lemma_latest_wins(values.drop_first());
            assert(values.drop_first().last() == values.last());
        }
    }
}

/// The newest value that was published and not read yet, if there is one.
pub struct LatestSlot<V> {
    value: Option<V>,
    closed: bool,
}

impl<V> View for LatestSlot<V> {
    type V = SlotState<V>;

    closed spec fn view(&self) -> SlotState<V> {
        SlotState { value: self.value, closed: self.closed }
    }
}

impl<V> LatestSlot<V> {
    /// An open slot that holds nothing.
    pub fn new() -> (slot: LatestSlot<V>)
        ensures
            slot@ == (SlotState { value: None::<V>, closed: false }),
    {
        LatestSlot { value: None, closed: false }
    }

    /// An open slot in which `initial` waits to be read.
    pub fn with_initial(initial: V) -> (slot: LatestSlot<V>)
        ensures
            slot@ == (SlotState { value: Some(initial), closed: false }),
    {
        LatestSlot { value: Some(initial), closed: false }
    }

    /// Whether a value waits to be read.
    pub fn has_value(&self) -> (fresh: bool)
        ensures
            fresh == self@.value.is_some(),
    {
        self.value.is_some()
    }

    pub fn is_closed(&self) -> (closed: bool)
        ensures
            closed == self@.closed,
    {
        self.closed
    }

    /// Producer side: makes `value` the one that the next read returns. A
    /// value that was not read yet is discarded. On a closed channel nothing
    /// changes and the value comes back.
    pub fn publish(&mut self, value: V) -> (r: Result<(), PublishError<V>>)
        ensures
            r == old(self)@.publish_result(value),
            final(self)@ == old(self)@.publish(value),
    {
        if self.closed {
            Err(PublishError::Closed(value))
        } else {
            self.value = Some(value);
            Ok(())
        }
    }

    /// Consumer side: takes the newest value, if one was published since the
    /// last read.
    pub fn read(&mut self) -> (r: Result<V, ReadError>)
        ensures
            r == old(self)@.read_result(),
            final(self)@ == old(self)@.read(),
    {
        match self.value.take() {
            Some(value) => Ok(value),
            None => if self.closed {
                Err(ReadError::Closed)
            } else {
                Err(ReadError::Empty)
            },
        }
    }

    /// Either side: marks the channel as closed, because the peer is gone.
    /// A value that waits to be read stays.
    pub fn close(&mut self)
        ensures
            final(self)@ == old(self)@.close(),
    {
        self.closed = true;
    }
}

} // verus!
