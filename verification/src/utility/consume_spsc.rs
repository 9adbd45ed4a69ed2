//! Edge-triggered signal from one producer to one consumer.
//!
//! However often the producer signals before the consumer looks, the
//! consumer finds one pending notification. Like the other channels this is
//! a single-owner state machine; no operation waits.
use vstd::prelude::*;

verus! {

/// The channel was closed: the peer is gone.
#[derive(Clone, Copy, Debug, PartialEq, Eq, Structural)]
pub struct SignalClosed;

/// The signal as a mathematical value.
pub struct SignalState {
    /// Whether the producer signalled since the consumer last looked.
    pub pending: bool,
    /// Whether the channel was closed.
    pub closed: bool,
}

impl SignalState {
    /// What `signal` returns in this state.
    pub open spec fn signal_result(self) -> Result<(), SignalClosed> {
        if self.closed {
            Err(SignalClosed)
        } else {
            Ok(())
        }
    }

    /// The state after `signal`.
    pub open spec fn signal(self) -> Self {
        if self.closed {
            self
        } else {
            SignalState { pending: true, ..self }
        }
    }

    /// The state after `signal` was called `times` times.
    pub open spec fn signal_times(self, times: nat) -> Self
        decreases times,
    {
        if times == 0 {
            self
        } else {
            self.signal().signal_times((times - 1) as nat)
        }
    }

    /// What `check` returns in this state.
    pub open spec fn check_result(self) -> Result<bool, SignalClosed> {
        if self.pending {
            Ok(true)
        } else if self.closed {
            Err(SignalClosed)
        } else {
            Ok(false)
        }
    }

    /// The state after `check`.
    pub open spec fn check(self) -> Self {
        SignalState { pending: false, ..self }
    }

    /// The state after closing.
    pub open spec fn close(self) -> Self {
        SignalState { closed: true, ..self }
    }

    /// Signals collapse: after any number of signals, but at least one, the
    /// consumer finds exactly one notification: the next check reports it,
    /// and the check after that reports none.
    pub proof fn lemma_signals_collapse(self, times: nat)
        requires
            !self.closed,
            times >= 1,
        ensures
            self.signal_times(times) == (SignalState { pending: true, closed: false }),
            self.signal_times(times).check_result() == Ok::<bool, SignalClosed>(true),
            self.signal_times(times).check().check_result() == Ok::<bool, SignalClosed>(false),
        decreases times,
    {
        if times > 1 {
            self.signal().lemma_signals_collapse((times - 1) as nat);
        } else {
            assert(self.signal().signal_times(0) == self.signal());
        }
    }

    /// A notification that was pending when the channel was closed is still
    /// delivered, once; only then is the consumer told that the channel is
    /// closed.
    pub proof fn lemma_close_keeps_pending(self)
        ensures
            self.close().check_result() == if self.pending {
                Ok::<bool, SignalClosed>(true)
            } else {
                Err::<bool, SignalClosed>(SignalClosed)
            },
            self.close().check().check_result() == Err::<bool, SignalClosed>(SignalClosed),
    {
    }
}

/// One pending notification, or none.
pub struct Signal {
    pending: bool,
    closed: bool,
}

impl View for Signal {
    type V = SignalState;

    closed spec fn view(&self) -> SignalState {
        SignalState { pending: self.pending, closed: self.closed }
    }
}

impl Signal {
    /// An open signal with nothing pending.
    pub fn new() -> (signal: Signal)
        ensures
            signal@ == (SignalState { pending: false, closed: false }),
    {
        Signal { pending: false, closed: false }
    }

    pub fn is_pending(&self) -> (pending: bool)
        ensures
            pending == self@.pending,
    {
        self.pending
    }

    pub fn is_closed(&self) -> (closed: bool)
        ensures
            closed == self@.closed,
    {
        self.closed
    }

    /// Producer side: leaves a notification for the consumer, unless one is
    /// pending already. On a closed channel nothing changes.
    pub fn signal(&mut self) -> (r: Result<(), SignalClosed>)
        ensures
            r == old(self)@.signal_result(),
            final(self)@ == old(self)@.signal(),
    {
        if self.closed {
            Err(SignalClosed)
        } else {
            self.pending = true;
            Ok(())
        }
    }

    /// Consumer side: says whether a notification is pending, and takes it.
    pub fn check(&mut self) -> (r: Result<bool, SignalClosed>)
        ensures
            r == old(self)@.check_result(),
            final(self)@ == old(self)@.check(),
    {
        if self.pending {
            self.pending = false;
            Ok(true)
        } else if self.closed {
            Err(SignalClosed)
        } else {
            Ok(false)
        }
    }

    /// Either side: marks the channel as closed, because the peer is gone.
    pub fn close(&mut self)
        ensures
            final(self)@ == old(self)@.close(),
    {
        self.closed = true;
    }
}

} // verus!
