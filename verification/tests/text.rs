use input_events::text::{
    other_event_string, push_decimal, push_natural, push_timestamp, typed_event_string,
};
use input_events::Timestamp;

fn natural(n: u64) -> String {
    let mut out = String::new();
    push_natural(&mut out, n);
    out
}

fn decimal(n: i64) -> String {
    let mut out = String::new();
    push_decimal(&mut out, n);
    out
}

#[test]
fn natural_numbers_in_decimal() {
    assert_eq!(natural(0), "0");
    assert_eq!(natural(7), "7");
    assert_eq!(natural(9), "9");
    assert_eq!(natural(10), "10");
    assert_eq!(natural(30), "30");
    assert_eq!(natural(99), "99");
    assert_eq!(natural(100), "100");
    assert_eq!(natural(1234567890), "1234567890");
    assert_eq!(natural(65535), "65535");
    assert_eq!(natural(u64::MAX), "18446744073709551615");
}

#[test]
fn natural_numbers_agree_with_std() {
    for n in (0..5000u64).chain([u32::MAX as u64, 1 << 40, u64::MAX - 1]) {
        assert_eq!(natural(n), n.to_string());
    }
}

#[test]
fn integers_in_decimal() {
    assert_eq!(decimal(0), "0");
    assert_eq!(decimal(1), "1");
    assert_eq!(decimal(-1), "-1");
    assert_eq!(decimal(-10), "-10");
    assert_eq!(decimal(2147483647), "2147483647");
    assert_eq!(decimal(-2147483648), "-2147483648");
    assert_eq!(decimal(i64::MAX), "9223372036854775807");
    assert_eq!(decimal(i64::MIN), "-9223372036854775808");
    assert_eq!(decimal(i64::MIN + 1), "-9223372036854775807");
}

#[test]
fn integers_agree_with_std() {
    for n in (-3000..3000i64).chain([i64::MIN, i64::MAX, i32::MIN as i64, i32::MAX as i64]) {
        assert_eq!(decimal(n), n.to_string());
    }
}

#[test]
fn appending_keeps_what_was_there() {
    let mut out = String::from("value: ");
    push_decimal(&mut out, -42);
    assert_eq!(out, "value: -42");
    push_natural(&mut out, 0);
    assert_eq!(out, "value: -420");
    push_timestamp(&mut out, Timestamp::new(1, 2));
    assert_eq!(out, "value: -420Timestamp { sec: 1, usec: 2 }");
}

#[test]
fn timestamp_text() {
    let mut out = String::new();
    push_timestamp(&mut out, Timestamp::new(1_700_000_000, 999_999));
    assert_eq!(out, "Timestamp { sec: 1700000000, usec: 999999 }");
    let mut out = String::new();
    push_timestamp(&mut out, Timestamp::new(-1, -1));
    assert_eq!(out, "Timestamp { sec: -1, usec: -1 }");
}

#[test]
fn typed_event_layout() {
    assert_eq!(
        typed_event_string("KeyEvent", "KeyType", Timestamp::new(0, 0), 30, 1),
        "KeyEvent { time: Timestamp { sec: 0, usec: 0 }, kind: KeyType(30), value: 1 }"
    );
    assert_eq!(
        typed_event_string("LedEvent", "LedType", Timestamp::new(12, 34), u16::MAX, i32::MIN),
        "LedEvent { time: Timestamp { sec: 12, usec: 34 }, \
         kind: LedType(65535), value: -2147483648 }"
    );
    assert_eq!(
        typed_event_string("", "", Timestamp::new(0, 0), 0, 0),
        " { time: Timestamp { sec: 0, usec: 0 }, kind: (0), value: 0 }"
    );
}

#[test]
fn other_event_layout() {
    assert_eq!(
        other_event_string(Timestamp::new(0, 0), 9999, 5, 0),
        "OtherEvent { time: Timestamp { sec: 0, usec: 0 }, type: 9999, code: 5, value: 0 }"
    );
    assert_eq!(
        other_event_string(Timestamp::new(-2, 3), 0, 0, -1),
        "OtherEvent { time: Timestamp { sec: -2, usec: 3 }, type: 0, code: 0, value: -1 }"
    );
}
