use tristage::utility::bounded_spsc::{Accepted, BoundedFifo, Overflow, PopError, PushError};
use tristage::utility::consume_spsc::{Signal, SignalClosed};
use tristage::utility::replace_spsc::{LatestSlot, PublishError, ReadError};

#[test]
fn fifo_drain_yields_messages_in_push_order() {
    let mut queue = BoundedFifo::new(4, Overflow::Reject);
    assert_eq!(queue.push("m1"), Ok(Accepted::Queued));
    assert_eq!(queue.push("m2"), Ok(Accepted::Queued));
    assert_eq!(queue.push("m3"), Ok(Accepted::Queued));
    assert_eq!(queue.len(), 3);
    assert_eq!(queue.drain(), vec!["m1", "m2", "m3"]);
    assert!(queue.is_empty());
    assert_eq!(queue.drain(), Vec::<&str>::new());
}

#[test]
fn fifo_pop_yields_messages_one_by_one() {
    let mut queue = BoundedFifo::new(4, Overflow::Reject);
    for message in [1u8, 2, 3] {
        queue.push(message).unwrap();
    }
    assert_eq!(queue.pop(), Ok(1));
    queue.push(4).unwrap();
    assert_eq!(queue.pop(), Ok(2));
    assert_eq!(queue.pop(), Ok(3));
    assert_eq!(queue.pop(), Ok(4));
    assert_eq!(queue.pop(), Err(PopError::Empty));
}

#[test]
fn fifo_new_is_open_and_empty() {
    let queue: BoundedFifo<u8> = BoundedFifo::new(256, Overflow::Drop);
    assert_eq!(queue.capacity(), 256);
    assert_eq!(queue.overflow(), Overflow::Drop);
    assert_eq!(queue.len(), 0);
    assert_eq!(queue.dropped(), 0);
    assert!(queue.is_empty());
    assert!(!queue.is_full());
    assert!(!queue.is_closed());
}

#[test]
fn full_fifo_that_rejects_hands_the_message_back() {
    let mut queue = BoundedFifo::new(2, Overflow::Reject);
    queue.push(String::from("a")).unwrap();
    queue.push(String::from("b")).unwrap();
    assert!(queue.is_full());
    assert_eq!(queue.push(String::from("c")), Err(PushError::Full(String::from("c"))));
    assert_eq!(queue.len(), 2);
    assert_eq!(queue.dropped(), 0);
    assert_eq!(queue.pop(), Ok(String::from("a")));
    assert_eq!(queue.push(String::from("c")), Ok(Accepted::Queued));
    assert_eq!(queue.drain(), vec![String::from("b"), String::from("c")]);
}

#[test]
fn full_fifo_that_drops_counts_the_message() {
    let mut queue = BoundedFifo::new(1, Overflow::Drop);
    assert_eq!(queue.push(1), Ok(Accepted::Queued));
    assert_eq!(queue.push(2), Ok(Accepted::Dropped));
    assert_eq!(queue.push(3), Ok(Accepted::Dropped));
    assert_eq!(queue.dropped(), 2);
    assert_eq!(queue.drain(), vec![1]);
    assert_eq!(queue.push(4), Ok(Accepted::Queued));
    assert_eq!(queue.dropped(), 2);
}

#[test]
fn fifo_without_capacity_is_always_full() {
    let mut rejecting = BoundedFifo::new(0, Overflow::Reject);
    assert!(rejecting.is_full());
    assert_eq!(rejecting.push('x'), Err(PushError::Full('x')));
    let mut dropping = BoundedFifo::new(0, Overflow::Drop);
    assert_eq!(dropping.push('x'), Ok(Accepted::Dropped));
    assert_eq!(dropping.pop(), Err(PopError::Empty));
}

#[test]
fn closed_fifo_delivers_what_was_pending() {
    let mut queue = BoundedFifo::new(4, Overflow::Reject);
    queue.push(1).unwrap();
    queue.push(2).unwrap();
    queue.close();
    assert!(queue.is_closed());
    assert_eq!(queue.push(3), Err(PushError::Closed(3)));
    assert_eq!(queue.pop(), Ok(1));
    assert_eq!(queue.pop(), Ok(2));
    assert_eq!(queue.pop(), Err(PopError::Closed));
    assert_eq!(queue.pop(), Err(PopError::Closed));
}

#[test]
fn empty_and_closed_are_told_apart() {
    let mut queue: BoundedFifo<u8> = BoundedFifo::new(4, Overflow::Drop);
    assert_eq!(queue.pop(), Err(PopError::Empty));
    queue.close();
    assert_eq!(queue.pop(), Err(PopError::Closed));
    assert_eq!(queue.push(1), Err(PushError::Closed(1)));
    assert_eq!(queue.dropped(), 0);
}

#[test]
fn latest_slot_reads_the_newest_value_only() {
    let mut slot = LatestSlot::new();
    assert_eq!(slot.publish("v1"), Ok(()));
    assert_eq!(slot.publish("v2"), Ok(()));
    assert!(slot.has_value());
    assert_eq!(slot.read(), Ok("v2"));
    assert!(!slot.has_value());
    assert_eq!(slot.read(), Err(ReadError::Empty));
}

#[test]
fn latest_slot_starts_empty_or_with_an_initial_value() {
    let mut empty: LatestSlot<(i32, i32)> = LatestSlot::new();
    assert!(!empty.has_value());
    assert!(!empty.is_closed());
    assert_eq!(empty.read(), Err(ReadError::Empty));
    let mut slot = LatestSlot::with_initial((0, 0));
    assert_eq!(slot.read(), Ok((0, 0)));
    assert_eq!(slot.read(), Err(ReadError::Empty));
    slot.publish((3, 4)).unwrap();
    assert_eq!(slot.read(), Ok((3, 4)));
}

#[test]
fn closed_latest_slot_delivers_the_waiting_value() {
    let mut slot = LatestSlot::new();
    slot.publish(5).unwrap();
    slot.close();
    assert!(slot.is_closed());
    assert_eq!(slot.publish(6), Err(PublishError::Closed(6)));
    assert_eq!(slot.read(), Ok(5));
    assert_eq!(slot.read(), Err(ReadError::Closed));
}

#[test]
fn three_signals_leave_one_notification() {
    let mut signal = Signal::new();
    assert_eq!(signal.signal(), Ok(()));
    assert_eq!(signal.signal(), Ok(()));
    assert_eq!(signal.signal(), Ok(()));
    assert!(signal.is_pending());
    assert_eq!(signal.check(), Ok(true));
    assert_eq!(signal.check(), Ok(false));
    assert!(!signal.is_pending());
}

#[test]
fn new_signal_has_nothing_pending() {
    let mut signal = Signal::new();
    assert!(!signal.is_pending());
    assert!(!signal.is_closed());
    assert_eq!(signal.check(), Ok(false));
}

#[test]
fn closed_signal_delivers_the_pending_notification() {
    let mut signal = Signal::new();
    signal.signal().unwrap();
    signal.close();
    assert!(signal.is_closed());
    assert_eq!(signal.signal(), Err(SignalClosed));
    assert_eq!(signal.check(), Ok(true));
    assert_eq!(signal.check(), Err(SignalClosed));
    let mut idle = Signal::new();
    idle.close();
    assert_eq!(idle.check(), Err(SignalClosed));
    assert!(!idle.is_pending());
}
