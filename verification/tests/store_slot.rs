use watchbench::store::TimestampStore;

#[test]
fn new_slot_is_empty() {
    let mut s = TimestampStore::new();
    assert_eq!(s.take_if_pending(), None);
}

#[test]
fn record_then_take_returns_the_timestamp() {
    let mut s = TimestampStore::new();
    s.record_pending(123_456_789);
    assert_eq!(s.take_if_pending(), Some(123_456_789));
}

#[test]
fn take_is_exactly_once_per_pending_value() {
    // Read-and-clear: an immediate second take with no intervening record
    // returns nothing.
    let mut s = TimestampStore::new();
    s.record_pending(42);
    assert_eq!(s.take_if_pending(), Some(42));
    assert_eq!(s.take_if_pending(), None);
}

#[test]
fn record_overwrites_a_pending_value() {
    let mut s = TimestampStore::new();
    s.record_pending(10);
    s.record_pending(20);
    assert_eq!(s.take_if_pending(), Some(20));
    assert_eq!(s.take_if_pending(), None);
}
