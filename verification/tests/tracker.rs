use tristage::utility::unordered_tracker::{Key, UnorderedTracker};

#[test]
fn tracker_issues_positions_in_order() {
    let mut tracker: UnorderedTracker<u8> = UnorderedTracker::new();
    let a = tracker.add();
    let b = tracker.add();
    let c = tracker.add();

    assert_eq!(tracker.len(), 3);
    assert_eq!(tracker.get(a), Some(0));
    assert_eq!(tracker.get(b), Some(1));
    assert_eq!(tracker.get(c), Some(2));
    assert!(tracker.key_at_position(1) == b);
}

#[test]
fn tracker_remove_moves_the_last_key() {
    let mut tracker: UnorderedTracker<u8> = UnorderedTracker::new();
    let a = tracker.add();
    let b = tracker.add();
    let c = tracker.add();

    assert_eq!(tracker.remove(a), Some(0));
    assert_eq!(tracker.get(c), Some(0));
    assert_eq!(tracker.get(b), Some(1));
    assert_eq!(tracker.get(a), None);
    assert_eq!(tracker.remove(a), None);
    assert!(!tracker.contains(a));
    assert_eq!(tracker.len(), 2);
}

#[test]
fn tracker_clear_retires_every_key() {
    let mut tracker: UnorderedTracker<u8> = UnorderedTracker::new();
    let keys: Vec<Key<u8>> = (0..10).map(|_| tracker.add()).collect();
    tracker.clear();

    assert_eq!(tracker.len(), 0);
    for key in keys.iter() {
        assert!(!tracker.contains(*key));
    }
    let again: Vec<Key<u8>> = (0..10).map(|_| tracker.add()).collect();
    for new in again.iter() {
        for old in keys.iter() {
            assert!(new != old);
        }
    }
}

#[test]
fn key_copies_compare_equal() {
    let mut tracker: UnorderedTracker<String> = UnorderedTracker::new();
    let key = tracker.add();
    let copy = key;
    let clone = key.clone();
    assert!(key == copy);
    assert!(key == clone);
}
