use input_events::{InputEvent, Timestamp};
use std::collections::hash_map::DefaultHasher;
use std::collections::HashSet;
use std::hash::{Hash, Hasher};

fn hash_of<T: Hash>(value: &T) -> u64 {
    let mut hasher = DefaultHasher::new();
    value.hash(&mut hasher);
    hasher.finish()
}

#[test]
fn new_sets_zero_time_and_fields() {
    let record = InputEvent::new(0x11, 2, -3);
    assert!(record.timestamp() == Timestamp::zero());
    assert_eq!(record.timestamp().sec, 0);
    assert_eq!(record.timestamp().usec, 0);
    assert_eq!(record.type_tag(), 0x11);
    assert_eq!(record.code(), 2);
    assert_eq!(record.value(), -3);
}

#[test]
fn with_time_keeps_all_four_fields() {
    let record = InputEvent::with_time(Timestamp::new(-5, 999_999), u16::MAX, 0, i32::MAX);
    assert_eq!(record.timestamp().sec, -5);
    assert_eq!(record.timestamp().usec, 999_999);
    assert_eq!(record.type_tag(), u16::MAX);
    assert_eq!(record.code(), 0);
    assert_eq!(record.value(), i32::MAX);
}

#[test]
fn new_now_is_between_two_readings() {
    let before = Timestamp::now();
    let record = InputEvent::new_now(1, 30, 1);
    let after = Timestamp::now();
    let at = record.timestamp();
    assert!((before.sec, before.usec) <= (at.sec, at.usec));
    assert!((at.sec, at.usec) <= (after.sec, after.usec));
    assert_eq!(record.type_tag(), 1);
    assert_eq!(record.code(), 30);
    assert_eq!(record.value(), 1);
    assert!(record == InputEvent::with_time(at, 1, 30, 1));
}

#[test]
fn records_are_equal_exactly_when_all_fields_are() {
    let base = InputEvent::with_time(Timestamp::new(1, 2), 3, 4, 5);
    assert!(base == InputEvent::with_time(Timestamp::new(1, 2), 3, 4, 5));
    assert!(base != InputEvent::with_time(Timestamp::new(9, 2), 3, 4, 5));
    assert!(base != InputEvent::with_time(Timestamp::new(1, 9), 3, 4, 5));
    assert!(base != InputEvent::with_time(Timestamp::new(1, 2), 9, 4, 5));
    assert!(base != InputEvent::with_time(Timestamp::new(1, 2), 3, 9, 5));
    assert!(base != InputEvent::with_time(Timestamp::new(1, 2), 3, 4, 9));
    // the code and the type tag do not stand in for each other
    assert!(InputEvent::new(1, 2, 0) != InputEvent::new(2, 1, 0));
}

#[test]
fn equal_records_hash_alike() {
    let a = InputEvent::with_time(Timestamp::new(1, 2), 3, 4, 5);
    let b = InputEvent::with_time(Timestamp::new(1, 2), 3, 4, 5);
    assert_eq!(hash_of(&a), hash_of(&b));
    let mut set = HashSet::new();
    assert!(set.insert(a));
    assert!(!set.insert(b));
    assert!(set.insert(InputEvent::with_time(Timestamp::new(1, 2), 3, 4, 6)));
    assert!(set.insert(InputEvent::with_time(Timestamp::new(1, 2), 3, 5, 5)));
    assert!(set.insert(InputEvent::with_time(Timestamp::new(1, 2), 4, 4, 5)));
    assert!(set.insert(InputEvent::with_time(Timestamp::new(1, 3), 3, 4, 5)));
    assert_eq!(set.len(), 5);
}

#[test]
fn records_are_copied_not_shared() {
    let a = InputEvent::new(1, 2, 3);
    let b = a;
    let c = a.clone();
    assert!(a == b);
    assert!(a == c);
}
