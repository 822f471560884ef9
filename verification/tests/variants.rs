use input_events::event_type;
use input_events::{
    AbsoluteAxisEvent, AbsoluteAxisType, EventSummary, FFEffectType, FFEvent, FFStatusEvent,
    FFStatusType, InputEvent, KeyEvent, KeyType, LedEvent, LedType, MiscEvent, MiscType,
    PowerEvent, PowerType, RelativeAxisEvent, RelativeAxisType, RepeatEvent, RepeatType,
    SoundEvent, SoundType, SwitchEvent, SwitchType, SynchronizationEvent, SynchronizationType,
    Timestamp, UInputEvent, UInputType, classify,
};
use std::ops::Deref;

#[test]
fn synchronization_new_round_trip() {
    let built = SynchronizationEvent::new(SynchronizationType(8), -1001);
    assert!(built.timestamp() == Timestamp::zero());
    assert_eq!(built.type_tag(), event_type::SYNCHRONIZATION);
    assert_eq!(built.type_tag(), 0x0000);
    assert_eq!(built.code(), 8);
    assert!(built.kind() == SynchronizationType(8));
    assert_eq!(built.value(), -1001);
    let record = InputEvent::from(built);
    assert!(record == InputEvent::new(0x0000, 8, -1001));
    match classify(record) {
        EventSummary::Synchronization(event, kind, value) => {
            assert!(event == built);
            assert!(kind == SynchronizationType(8));
            assert_eq!(value, -1001);
            assert!(event.timestamp() == Timestamp::zero());
        }
        _ => panic!("the summary must be the Synchronization case"),
    }
}

#[test]
fn synchronization_new_at_keeps_time() {
    let time = Timestamp::new(1700000001, 1111);
    let built = SynchronizationEvent::new_at(time, SynchronizationType(u16::MAX), i32::MIN);
    assert!(built.timestamp() == time);
    assert_eq!(built.timestamp().sec, 1700000001);
    assert_eq!(built.timestamp().usec, 1111);
    assert_eq!(built.type_tag(), event_type::SYNCHRONIZATION);
    assert!(built.kind() == SynchronizationType(u16::MAX));
    assert_eq!(built.value(), i32::MIN);
    let record: InputEvent = built.into();
    assert!(record == InputEvent::with_time(time, event_type::SYNCHRONIZATION, u16::MAX, i32::MIN));
    assert!(matches!(
        classify(record),
        EventSummary::Synchronization(event, SynchronizationType(u16::MAX), i32::MIN) if event == built
    ));
}

#[test]
fn synchronization_destructure_is_kind_and_value() {
    let built = SynchronizationEvent::new(SynchronizationType(8), -1001);
    let (kind, value) = built.destructure();
    assert!(kind == built.kind());
    assert_eq!(value, built.value());
    assert!(kind == SynchronizationType(8));
    assert_eq!(value, -1001);
    let summary = EventSummary::from(built);
    assert!(matches!(
        summary,
        EventSummary::Synchronization(event, SynchronizationType(8), -1001) if event == built
    ));
}

#[test]
fn synchronization_equality_follows_record() {
    let a = SynchronizationEvent::new(SynchronizationType(8), -1001);
    let b = SynchronizationEvent::new(SynchronizationType(8), -1001);
    assert!(a == b);
    assert!(InputEvent::from(a) == InputEvent::from(b));
    let other_code = SynchronizationEvent::new(SynchronizationType(9), -1001);
    assert!(a != other_code);
    assert!(InputEvent::from(a) != InputEvent::from(other_code));
    let other_value = SynchronizationEvent::new(SynchronizationType(8), -1000);
    assert!(a != other_value);
    let other_time = SynchronizationEvent::new_at(Timestamp::new(0, 1), SynchronizationType(8), -1001);
    assert!(a != other_time);
    assert!(InputEvent::from(a) != InputEvent::from(other_time));
    let same_time = SynchronizationEvent::new_at(Timestamp::zero(), SynchronizationType(8), -1001);
    assert!(a == same_time);
}

#[test]
fn synchronization_widens_by_reference() {
    let built = SynchronizationEvent::new(SynchronizationType(8), -1001);
    let by_deref: &InputEvent = built.deref();
    assert!(*by_deref == InputEvent::from(built));
    let by_as_ref: &InputEvent = built.as_ref();
    assert!(*by_as_ref == InputEvent::from(built));
    assert_eq!(by_as_ref.type_tag(), 0x0000);
    let copy = built;
    assert!(copy == built);
}

#[test]
fn synchronization_describe() {
    let built = SynchronizationEvent::new(SynchronizationType(8), -1001);
    assert_eq!(
        built.describe(),
        "SynchronizationEvent { time: Timestamp { sec: 0, usec: 0 }, \
         kind: SynchronizationType(8), value: -1001 }"
    );
    let timed = SynchronizationEvent::new_at(Timestamp::new(-1, 100), SynchronizationType(0), 0);
    assert_eq!(
        timed.describe(),
        "SynchronizationEvent { time: Timestamp { sec: -1, usec: 100 }, \
         kind: SynchronizationType(0), value: 0 }"
    );
}

#[test]
fn synchronization_new_now_is_between_two_readings() {
    let before = Timestamp::now();
    let built = SynchronizationEvent::new_now(SynchronizationType(8), -1001);
    let after = Timestamp::now();
    let at = built.timestamp();
    assert!((before.sec, before.usec) <= (at.sec, at.usec));
    assert!((at.sec, at.usec) <= (after.sec, after.usec));
    assert!(0 <= at.usec && at.usec < 1_000_000);
    assert_eq!(built.type_tag(), event_type::SYNCHRONIZATION);
    assert!(built.kind() == SynchronizationType(8));
    assert_eq!(built.value(), -1001);
    assert!(built == SynchronizationEvent::new_at(at, SynchronizationType(8), -1001));
    assert!(matches!(
        classify(built.into()),
        EventSummary::Synchronization(event, SynchronizationType(8), -1001) if event == built
    ));
}

#[test]
fn key_new_round_trip() {
    let built = KeyEvent::new(KeyType(15), 1002);
    assert!(built.timestamp() == Timestamp::zero());
    assert_eq!(built.type_tag(), event_type::KEY);
    assert_eq!(built.type_tag(), 0x0001);
    assert_eq!(built.code(), 15);
    assert!(built.kind() == KeyType(15));
    assert_eq!(built.value(), 1002);
    let record = InputEvent::from(built);
    assert!(record == InputEvent::new(0x0001, 15, 1002));
    match classify(record) {
        EventSummary::Key(event, kind, value) => {
            assert!(event == built);
            assert!(kind == KeyType(15));
            assert_eq!(value, 1002);
            assert!(event.timestamp() == Timestamp::zero());
        }
        _ => panic!("the summary must be the Key case"),
    }
}

#[test]
fn key_new_at_keeps_time() {
    let time = Timestamp::new(1700000002, 2222);
    let built = KeyEvent::new_at(time, KeyType(u16::MAX), i32::MIN);
    assert!(built.timestamp() == time);
    assert_eq!(built.timestamp().sec, 1700000002);
    assert_eq!(built.timestamp().usec, 2222);
    assert_eq!(built.type_tag(), event_type::KEY);
    assert!(built.kind() == KeyType(u16::MAX));
    assert_eq!(built.value(), i32::MIN);
    let record: InputEvent = built.into();
    assert!(record == InputEvent::with_time(time, event_type::KEY, u16::MAX, i32::MIN));
    assert!(matches!(
        classify(record),
        EventSummary::Key(event, KeyType(u16::MAX), i32::MIN) if event == built
    ));
}

#[test]
fn key_destructure_is_kind_and_value() {
    let built = KeyEvent::new(KeyType(15), 1002);
    let (kind, value) = built.destructure();
    assert!(kind == built.kind());
    assert_eq!(value, built.value());
    assert!(kind == KeyType(15));
    assert_eq!(value, 1002);
    let summary = EventSummary::from(built);
    assert!(matches!(
        summary,
        EventSummary::Key(event, KeyType(15), 1002) if event == built
    ));
}

#[test]
fn key_equality_follows_record() {
    let a = KeyEvent::new(KeyType(15), 1002);
    let b = KeyEvent::new(KeyType(15), 1002);
    assert!(a == b);
    assert!(InputEvent::from(a) == InputEvent::from(b));
    let other_code = KeyEvent::new(KeyType(16), 1002);
    assert!(a != other_code);
    assert!(InputEvent::from(a) != InputEvent::from(other_code));
    let other_value = KeyEvent::new(KeyType(15), 1003);
    assert!(a != other_value);
    let other_time = KeyEvent::new_at(Timestamp::new(0, 1), KeyType(15), 1002);
    assert!(a != other_time);
    assert!(InputEvent::from(a) != InputEvent::from(other_time));
    let same_time = KeyEvent::new_at(Timestamp::zero(), KeyType(15), 1002);
    assert!(a == same_time);
}

#[test]
fn key_widens_by_reference() {
    let built = KeyEvent::new(KeyType(15), 1002);
    let by_deref: &InputEvent = built.deref();
    assert!(*by_deref == InputEvent::from(built));
    let by_as_ref: &InputEvent = built.as_ref();
    assert!(*by_as_ref == InputEvent::from(built));
    assert_eq!(by_as_ref.type_tag(), 0x0001);
    let copy = built;
    assert!(copy == built);
}

#[test]
fn key_describe() {
    let built = KeyEvent::new(KeyType(15), 1002);
    assert_eq!(
        built.describe(),
        "KeyEvent { time: Timestamp { sec: 0, usec: 0 }, \
         kind: KeyType(15), value: 1002 }"
    );
    let timed = KeyEvent::new_at(Timestamp::new(-2, 200), KeyType(0), 0);
    assert_eq!(
        timed.describe(),
        "KeyEvent { time: Timestamp { sec: -2, usec: 200 }, \
         kind: KeyType(0), value: 0 }"
    );
}

#[test]
fn key_new_now_is_between_two_readings() {
    let before = Timestamp::now();
    let built = KeyEvent::new_now(KeyType(15), 1002);
    let after = Timestamp::now();
    let at = built.timestamp();
    assert!((before.sec, before.usec) <= (at.sec, at.usec));
    assert!((at.sec, at.usec) <= (after.sec, after.usec));
    assert!(0 <= at.usec && at.usec < 1_000_000);
    assert_eq!(built.type_tag(), event_type::KEY);
    assert!(built.kind() == KeyType(15));
    assert_eq!(built.value(), 1002);
    assert!(built == KeyEvent::new_at(at, KeyType(15), 1002));
    assert!(matches!(
        classify(built.into()),
        EventSummary::Key(event, KeyType(15), 1002) if event == built
    ));
}

#[test]
fn relative_axis_new_round_trip() {
    let built = RelativeAxisEvent::new(RelativeAxisType(22), -1003);
    assert!(built.timestamp() == Timestamp::zero());
    assert_eq!(built.type_tag(), event_type::RELATIVE);
    assert_eq!(built.type_tag(), 0x0002);
    assert_eq!(built.code(), 22);
    assert!(built.kind() == RelativeAxisType(22));
    assert_eq!(built.value(), -1003);
    let record = InputEvent::from(built);
    assert!(record == InputEvent::new(0x0002, 22, -1003));
    match classify(record) {
        EventSummary::RelativeAxis(event, kind, value) => {
            assert!(event == built);
            assert!(kind == RelativeAxisType(22));
            assert_eq!(value, -1003);
            assert!(event.timestamp() == Timestamp::zero());
        }
        _ => panic!("the summary must be the RelativeAxis case"),
    }
}

#[test]
fn relative_axis_new_at_keeps_time() {
    let time = Timestamp::new(1700000003, 3333);
    let built = RelativeAxisEvent::new_at(time, RelativeAxisType(u16::MAX), i32::MIN);
    assert!(built.timestamp() == time);
    assert_eq!(built.timestamp().sec, 1700000003);
    assert_eq!(built.timestamp().usec, 3333);
    assert_eq!(built.type_tag(), event_type::RELATIVE);
    assert!(built.kind() == RelativeAxisType(u16::MAX));
    assert_eq!(built.value(), i32::MIN);
    let record: InputEvent = built.into();
    assert!(record == InputEvent::with_time(time, event_type::RELATIVE, u16::MAX, i32::MIN));
    assert!(matches!(
        classify(record),
        EventSummary::RelativeAxis(event, RelativeAxisType(u16::MAX), i32::MIN) if event == built
    ));
}

#[test]
fn relative_axis_destructure_is_kind_and_value() {
    let built = RelativeAxisEvent::new(RelativeAxisType(22), -1003);
    let (kind, value) = built.destructure();
    assert!(kind == built.kind());
    assert_eq!(value, built.value());
    assert!(kind == RelativeAxisType(22));
    assert_eq!(value, -1003);
    let summary = EventSummary::from(built);
    assert!(matches!(
        summary,
        EventSummary::RelativeAxis(event, RelativeAxisType(22), -1003) if event == built
    ));
}

#[test]
fn relative_axis_equality_follows_record() {
    let a = RelativeAxisEvent::new(RelativeAxisType(22), -1003);
    let b = RelativeAxisEvent::new(RelativeAxisType(22), -1003);
    assert!(a == b);
    assert!(InputEvent::from(a) == InputEvent::from(b));
    let other_code = RelativeAxisEvent::new(RelativeAxisType(23), -1003);
    assert!(a != other_code);
    assert!(InputEvent::from(a) != InputEvent::from(other_code));
    let other_value = RelativeAxisEvent::new(RelativeAxisType(22), -1002);
    assert!(a != other_value);
    let other_time = RelativeAxisEvent::new_at(Timestamp::new(0, 1), RelativeAxisType(22), -1003);
    assert!(a != other_time);
    assert!(InputEvent::from(a) != InputEvent::from(other_time));
    let same_time = RelativeAxisEvent::new_at(Timestamp::zero(), RelativeAxisType(22), -1003);
    assert!(a == same_time);
}

#[test]
fn relative_axis_widens_by_reference() {
    let built = RelativeAxisEvent::new(RelativeAxisType(22), -1003);
    let by_deref: &InputEvent = built.deref();
    assert!(*by_deref == InputEvent::from(built));
    let by_as_ref: &InputEvent = built.as_ref();
    assert!(*by_as_ref == InputEvent::from(built));
    assert_eq!(by_as_ref.type_tag(), 0x0002);
    let copy = built;
    assert!(copy == built);
}

#[test]
fn relative_axis_describe() {
    let built = RelativeAxisEvent::new(RelativeAxisType(22), -1003);
    assert_eq!(
        built.describe(),
        "RelativeAxisEvent { time: Timestamp { sec: 0, usec: 0 }, \
         kind: RelativeAxisType(22), value: -1003 }"
    );
    let timed = RelativeAxisEvent::new_at(Timestamp::new(-3, 300), RelativeAxisType(0), 0);
    assert_eq!(
        timed.describe(),
        "RelativeAxisEvent { time: Timestamp { sec: -3, usec: 300 }, \
         kind: RelativeAxisType(0), value: 0 }"
    );
}

#[test]
fn relative_axis_new_now_is_between_two_readings() {
    let before = Timestamp::now();
    let built = RelativeAxisEvent::new_now(RelativeAxisType(22), -1003);
    let after = Timestamp::now();
    let at = built.timestamp();
    assert!((before.sec, before.usec) <= (at.sec, at.usec));
    assert!((at.sec, at.usec) <= (after.sec, after.usec));
    assert!(0 <= at.usec && at.usec < 1_000_000);
    assert_eq!(built.type_tag(), event_type::RELATIVE);
    assert!(built.kind() == RelativeAxisType(22));
    assert_eq!(built.value(), -1003);
    assert!(built == RelativeAxisEvent::new_at(at, RelativeAxisType(22), -1003));
    assert!(matches!(
        classify(built.into()),
        EventSummary::RelativeAxis(event, RelativeAxisType(22), -1003) if event == built
    ));
}

#[test]
fn absolute_axis_new_round_trip() {
    let built = AbsoluteAxisEvent::new(AbsoluteAxisType(29), 1004);
    assert!(built.timestamp() == Timestamp::zero());
    assert_eq!(built.type_tag(), event_type::ABSOLUTE);
    assert_eq!(built.type_tag(), 0x0003);
    assert_eq!(built.code(), 29);
    assert!(built.kind() == AbsoluteAxisType(29));
    assert_eq!(built.value(), 1004);
    let record = InputEvent::from(built);
    assert!(record == InputEvent::new(0x0003, 29, 1004));
    match classify(record) {
        EventSummary::AbsoluteAxis(event, kind, value) => {
            assert!(event == built);
            assert!(kind == AbsoluteAxisType(29));
            assert_eq!(value, 1004);
            assert!(event.timestamp() == Timestamp::zero());
        }
        _ => panic!("the summary must be the AbsoluteAxis case"),
    }
}

#[test]
fn absolute_axis_new_at_keeps_time() {
    let time = Timestamp::new(1700000004, 4444);
    let built = AbsoluteAxisEvent::new_at(time, AbsoluteAxisType(u16::MAX), i32::MIN);
    assert!(built.timestamp() == time);
    assert_eq!(built.timestamp().sec, 1700000004);
    assert_eq!(built.timestamp().usec, 4444);
    assert_eq!(built.type_tag(), event_type::ABSOLUTE);
    assert!(built.kind() == AbsoluteAxisType(u16::MAX));
    assert_eq!(built.value(), i32::MIN);
    let record: InputEvent = built.into();
    assert!(record == InputEvent::with_time(time, event_type::ABSOLUTE, u16::MAX, i32::MIN));
    assert!(matches!(
        classify(record),
        EventSummary::AbsoluteAxis(event, AbsoluteAxisType(u16::MAX), i32::MIN) if event == built
    ));
}

#[test]
fn absolute_axis_destructure_is_kind_and_value() {
    let built = AbsoluteAxisEvent::new(AbsoluteAxisType(29), 1004);
    let (kind, value) = built.destructure();
    assert!(kind == built.kind());
    assert_eq!(value, built.value());
    assert!(kind == AbsoluteAxisType(29));
    assert_eq!(value, 1004);
    let summary = EventSummary::from(built);
    assert!(matches!(
        summary,
        EventSummary::AbsoluteAxis(event, AbsoluteAxisType(29), 1004) if event == built
    ));
}

#[test]
fn absolute_axis_equality_follows_record() {
    let a = AbsoluteAxisEvent::new(AbsoluteAxisType(29), 1004);
    let b = AbsoluteAxisEvent::new(AbsoluteAxisType(29), 1004);
    assert!(a == b);
    assert!(InputEvent::from(a) == InputEvent::from(b));
    let other_code = AbsoluteAxisEvent::new(AbsoluteAxisType(30), 1004);
    assert!(a != other_code);
    assert!(InputEvent::from(a) != InputEvent::from(other_code));
    let other_value = AbsoluteAxisEvent::new(AbsoluteAxisType(29), 1005);
    assert!(a != other_value);
    let other_time = AbsoluteAxisEvent::new_at(Timestamp::new(0, 1), AbsoluteAxisType(29), 1004);
    assert!(a != other_time);
    assert!(InputEvent::from(a) != InputEvent::from(other_time));
    let same_time = AbsoluteAxisEvent::new_at(Timestamp::zero(), AbsoluteAxisType(29), 1004);
    assert!(a == same_time);
}

#[test]
fn absolute_axis_widens_by_reference() {
    let built = AbsoluteAxisEvent::new(AbsoluteAxisType(29), 1004);
    let by_deref: &InputEvent = built.deref();
    assert!(*by_deref == InputEvent::from(built));
    let by_as_ref: &InputEvent = built.as_ref();
    assert!(*by_as_ref == InputEvent::from(built));
    assert_eq!(by_as_ref.type_tag(), 0x0003);
    let copy = built;
    assert!(copy == built);
}

#[test]
fn absolute_axis_describe() {
    let built = AbsoluteAxisEvent::new(AbsoluteAxisType(29), 1004);
    assert_eq!(
        built.describe(),
        "AbsoluteAxisEvent { time: Timestamp { sec: 0, usec: 0 }, \
         kind: AbsoluteAxisType(29), value: 1004 }"
    );
    let timed = AbsoluteAxisEvent::new_at(Timestamp::new(-4, 400), AbsoluteAxisType(0), 0);
    assert_eq!(
        timed.describe(),
        "AbsoluteAxisEvent { time: Timestamp { sec: -4, usec: 400 }, \
         kind: AbsoluteAxisType(0), value: 0 }"
    );
}

#[test]
fn absolute_axis_new_now_is_between_two_readings() {
    let before = Timestamp::now();
    let built = AbsoluteAxisEvent::new_now(AbsoluteAxisType(29), 1004);
    let after = Timestamp::now();
    let at = built.timestamp();
    assert!((before.sec, before.usec) <= (at.sec, at.usec));
    assert!((at.sec, at.usec) <= (after.sec, after.usec));
    assert!(0 <= at.usec && at.usec < 1_000_000);
    assert_eq!(built.type_tag(), event_type::ABSOLUTE);
    assert!(built.kind() == AbsoluteAxisType(29));
    assert_eq!(built.value(), 1004);
    assert!(built == AbsoluteAxisEvent::new_at(at, AbsoluteAxisType(29), 1004));
    assert!(matches!(
        classify(built.into()),
        EventSummary::AbsoluteAxis(event, AbsoluteAxisType(29), 1004) if event == built
    ));
}

#[test]
fn misc_new_round_trip() {
    let built = MiscEvent::new(MiscType(36), -1005);
    assert!(built.timestamp() == Timestamp::zero());
    assert_eq!(built.type_tag(), event_type::MISC);
    assert_eq!(built.type_tag(), 0x0004);
    assert_eq!(built.code(), 36);
    assert!(built.kind() == MiscType(36));
    assert_eq!(built.value(), -1005);
    let record = InputEvent::from(built);
    assert!(record == InputEvent::new(0x0004, 36, -1005));
    match classify(record) {
        EventSummary::Misc(event, kind, value) => {
            assert!(event == built);
            assert!(kind == MiscType(36));
            assert_eq!(value, -1005);
            assert!(event.timestamp() == Timestamp::zero());
        }
        _ => panic!("the summary must be the Misc case"),
    }
}

#[test]
fn misc_new_at_keeps_time() {
    let time = Timestamp::new(1700000005, 5555);
    let built = MiscEvent::new_at(time, MiscType(u16::MAX), i32::MIN);
    assert!(built.timestamp() == time);
    assert_eq!(built.timestamp().sec, 1700000005);
    assert_eq!(built.timestamp().usec, 5555);
    assert_eq!(built.type_tag(), event_type::MISC);
    assert!(built.kind() == MiscType(u16::MAX));
    assert_eq!(built.value(), i32::MIN);
    let record: InputEvent = built.into();
    assert!(record == InputEvent::with_time(time, event_type::MISC, u16::MAX, i32::MIN));
    assert!(matches!(
        classify(record),
        EventSummary::Misc(event, MiscType(u16::MAX), i32::MIN) if event == built
    ));
}

#[test]
fn misc_destructure_is_kind_and_value() {
    let built = MiscEvent::new(MiscType(36), -1005);
    let (kind, value) = built.destructure();
    assert!(kind == built.kind());
    assert_eq!(value, built.value());
    assert!(kind == MiscType(36));
    assert_eq!(value, -1005);
    let summary = EventSummary::from(built);
    assert!(matches!(
        summary,
        EventSummary::Misc(event, MiscType(36), -1005) if event == built
    ));
}

#[test]
fn misc_equality_follows_record() {
    let a = MiscEvent::new(MiscType(36), -1005);
    let b = MiscEvent::new(MiscType(36), -1005);
    assert!(a == b);
    assert!(InputEvent::from(a) == InputEvent::from(b));
    let other_code = MiscEvent::new(MiscType(37), -1005);
    assert!(a != other_code);
    assert!(InputEvent::from(a) != InputEvent::from(other_code));
    let other_value = MiscEvent::new(MiscType(36), -1004);
    assert!(a != other_value);
    let other_time = MiscEvent::new_at(Timestamp::new(0, 1), MiscType(36), -1005);
    assert!(a != other_time);
    assert!(InputEvent::from(a) != InputEvent::from(other_time));
    let same_time = MiscEvent::new_at(Timestamp::zero(), MiscType(36), -1005);
    assert!(a == same_time);
}

#[test]
fn misc_widens_by_reference() {
    let built = MiscEvent::new(MiscType(36), -1005);
    let by_deref: &InputEvent = built.deref();
    assert!(*by_deref == InputEvent::from(built));
    let by_as_ref: &InputEvent = built.as_ref();
    assert!(*by_as_ref == InputEvent::from(built));
    assert_eq!(by_as_ref.type_tag(), 0x0004);
    let copy = built;
    assert!(copy == built);
}

#[test]
fn misc_describe() {
    let built = MiscEvent::new(MiscType(36), -1005);
    assert_eq!(
        built.describe(),
        "MiscEvent { time: Timestamp { sec: 0, usec: 0 }, \
         kind: MiscType(36), value: -1005 }"
    );
    let timed = MiscEvent::new_at(Timestamp::new(-5, 500), MiscType(0), 0);
    assert_eq!(
        timed.describe(),
        "MiscEvent { time: Timestamp { sec: -5, usec: 500 }, \
         kind: MiscType(0), value: 0 }"
    );
}

#[test]
fn misc_new_now_is_between_two_readings() {
    let before = Timestamp::now();
    let built = MiscEvent::new_now(MiscType(36), -1005);
    let after = Timestamp::now();
    let at = built.timestamp();
    assert!((before.sec, before.usec) <= (at.sec, at.usec));
    assert!((at.sec, at.usec) <= (after.sec, after.usec));
    assert!(0 <= at.usec && at.usec < 1_000_000);
    assert_eq!(built.type_tag(), event_type::MISC);
    assert!(built.kind() == MiscType(36));
    assert_eq!(built.value(), -1005);
    assert!(built == MiscEvent::new_at(at, MiscType(36), -1005));
    assert!(matches!(
        classify(built.into()),
        EventSummary::Misc(event, MiscType(36), -1005) if event == built
    ));
}

#[test]
fn switch_new_round_trip() {
    let built = SwitchEvent::new(SwitchType(43), 1006);
    assert!(built.timestamp() == Timestamp::zero());
    assert_eq!(built.type_tag(), event_type::SWITCH);
    assert_eq!(built.type_tag(), 0x0005);
    assert_eq!(built.code(), 43);
    assert!(built.kind() == SwitchType(43));
    assert_eq!(built.value(), 1006);
    let record = InputEvent::from(built);
    assert!(record == InputEvent::new(0x0005, 43, 1006));
    match classify(record) {
        EventSummary::Switch(event, kind, value) => {
            assert!(event == built);
            assert!(kind == SwitchType(43));
            assert_eq!(value, 1006);
            assert!(event.timestamp() == Timestamp::zero());
        }
        _ => panic!("the summary must be the Switch case"),
    }
}

#[test]
fn switch_new_at_keeps_time() {
    let time = Timestamp::new(1700000006, 6666);
    let built = SwitchEvent::new_at(time, SwitchType(u16::MAX), i32::MIN);
    assert!(built.timestamp() == time);
    assert_eq!(built.timestamp().sec, 1700000006);
    assert_eq!(built.timestamp().usec, 6666);
    assert_eq!(built.type_tag(), event_type::SWITCH);
    assert!(built.kind() == SwitchType(u16::MAX));
    assert_eq!(built.value(), i32::MIN);
    let record: InputEvent = built.into();
    assert!(record == InputEvent::with_time(time, event_type::SWITCH, u16::MAX, i32::MIN));
    assert!(matches!(
        classify(record),
        EventSummary::Switch(event, SwitchType(u16::MAX), i32::MIN) if event == built
    ));
}

#[test]
fn switch_destructure_is_kind_and_value() {
    let built = SwitchEvent::new(SwitchType(43), 1006);
    let (kind, value) = built.destructure();
    assert!(kind == built.kind());
    assert_eq!(value, built.value());
    assert!(kind == SwitchType(43));
    assert_eq!(value, 1006);
    let summary = EventSummary::from(built);
    assert!(matches!(
        summary,
        EventSummary::Switch(event, SwitchType(43), 1006) if event == built
    ));
}

#[test]
fn switch_equality_follows_record() {
    let a = SwitchEvent::new(SwitchType(43), 1006);
    let b = SwitchEvent::new(SwitchType(43), 1006);
    assert!(a == b);
    assert!(InputEvent::from(a) == InputEvent::from(b));
    let other_code = SwitchEvent::new(SwitchType(44), 1006);
    assert!(a != other_code);
    assert!(InputEvent::from(a) != InputEvent::from(other_code));
    let other_value = SwitchEvent::new(SwitchType(43), 1007);
    assert!(a != other_value);
    let other_time = SwitchEvent::new_at(Timestamp::new(0, 1), SwitchType(43), 1006);
    assert!(a != other_time);
    assert!(InputEvent::from(a) != InputEvent::from(other_time));
    let same_time = SwitchEvent::new_at(Timestamp::zero(), SwitchType(43), 1006);
    assert!(a == same_time);
}

#[test]
fn switch_widens_by_reference() {
    let built = SwitchEvent::new(SwitchType(43), 1006);
    let by_deref: &InputEvent = built.deref();
    assert!(*by_deref == InputEvent::from(built));
    let by_as_ref: &InputEvent = built.as_ref();
    assert!(*by_as_ref == InputEvent::from(built));
    assert_eq!(by_as_ref.type_tag(), 0x0005);
    let copy = built;
    assert!(copy == built);
}

#[test]
fn switch_describe() {
    let built = SwitchEvent::new(SwitchType(43), 1006);
    assert_eq!(
        built.describe(),
        "SwitchEvent { time: Timestamp { sec: 0, usec: 0 }, \
         kind: SwitchType(43), value: 1006 }"
    );
    let timed = SwitchEvent::new_at(Timestamp::new(-6, 600), SwitchType(0), 0);
    assert_eq!(
        timed.describe(),
        "SwitchEvent { time: Timestamp { sec: -6, usec: 600 }, \
         kind: SwitchType(0), value: 0 }"
    );
}

#[test]
fn switch_new_now_is_between_two_readings() {
    let before = Timestamp::now();
    let built = SwitchEvent::new_now(SwitchType(43), 1006);
    let after = Timestamp::now();
    let at = built.timestamp();
    assert!((before.sec, before.usec) <= (at.sec, at.usec));
    assert!((at.sec, at.usec) <= (after.sec, after.usec));
    assert!(0 <= at.usec && at.usec < 1_000_000);
    assert_eq!(built.type_tag(), event_type::SWITCH);
    assert!(built.kind() == SwitchType(43));
    assert_eq!(built.value(), 1006);
    assert!(built == SwitchEvent::new_at(at, SwitchType(43), 1006));
    assert!(matches!(
        classify(built.into()),
        EventSummary::Switch(event, SwitchType(43), 1006) if event == built
    ));
}

#[test]
fn led_new_round_trip() {
    let built = LedEvent::new(LedType(50), -1007);
    assert!(built.timestamp() == Timestamp::zero());
    assert_eq!(built.type_tag(), event_type::LED);
    assert_eq!(built.type_tag(), 0x0011);
    assert_eq!(built.code(), 50);
    assert!(built.kind() == LedType(50));
    assert_eq!(built.value(), -1007);
    let record = InputEvent::from(built);
    assert!(record == InputEvent::new(0x0011, 50, -1007));
    match classify(record) {
        EventSummary::Led(event, kind, value) => {
            assert!(event == built);
            assert!(kind == LedType(50));
            assert_eq!(value, -1007);
            assert!(event.timestamp() == Timestamp::zero());
        }
        _ => panic!("the summary must be the Led case"),
    }
}

#[test]
fn led_new_at_keeps_time() {
    let time = Timestamp::new(1700000007, 7777);
    let built = LedEvent::new_at(time, LedType(u16::MAX), i32::MIN);
    assert!(built.timestamp() == time);
    assert_eq!(built.timestamp().sec, 1700000007);
    assert_eq!(built.timestamp().usec, 7777);
    assert_eq!(built.type_tag(), event_type::LED);
    assert!(built.kind() == LedType(u16::MAX));
    assert_eq!(built.value(), i32::MIN);
    let record: InputEvent = built.into();
    assert!(record == InputEvent::with_time(time, event_type::LED, u16::MAX, i32::MIN));
    assert!(matches!(
        classify(record),
        EventSummary::Led(event, LedType(u16::MAX), i32::MIN) if event == built
    ));
}

#[test]
fn led_destructure_is_kind_and_value() {
    let built = LedEvent::new(LedType(50), -1007);
    let (kind, value) = built.destructure();
    assert!(kind == built.kind());
    assert_eq!(value, built.value());
    assert!(kind == LedType(50));
    assert_eq!(value, -1007);
    let summary = EventSummary::from(built);
    assert!(matches!(
        summary,
        EventSummary::Led(event, LedType(50), -1007) if event == built
    ));
}

#[test]
fn led_equality_follows_record() {
    let a = LedEvent::new(LedType(50), -1007);
    let b = LedEvent::new(LedType(50), -1007);
    assert!(a == b);
    assert!(InputEvent::from(a) == InputEvent::from(b));
    let other_code = LedEvent::new(LedType(51), -1007);
    assert!(a != other_code);
    assert!(InputEvent::from(a) != InputEvent::from(other_code));
    let other_value = LedEvent::new(LedType(50), -1006);
    assert!(a != other_value);
    let other_time = LedEvent::new_at(Timestamp::new(0, 1), LedType(50), -1007);
    assert!(a != other_time);
    assert!(InputEvent::from(a) != InputEvent::from(other_time));
    let same_time = LedEvent::new_at(Timestamp::zero(), LedType(50), -1007);
    assert!(a == same_time);
}

#[test]
fn led_widens_by_reference() {
    let built = LedEvent::new(LedType(50), -1007);
    let by_deref: &InputEvent = built.deref();
    assert!(*by_deref == InputEvent::from(built));
    let by_as_ref: &InputEvent = built.as_ref();
    assert!(*by_as_ref == InputEvent::from(built));
    assert_eq!(by_as_ref.type_tag(), 0x0011);
    let copy = built;
    assert!(copy == built);
}

#[test]
fn led_describe() {
    let built = LedEvent::new(LedType(50), -1007);
    assert_eq!(
        built.describe(),
        "LedEvent { time: Timestamp { sec: 0, usec: 0 }, \
         kind: LedType(50), value: -1007 }"
    );
    let timed = LedEvent::new_at(Timestamp::new(-7, 700), LedType(0), 0);
    assert_eq!(
        timed.describe(),
        "LedEvent { time: Timestamp { sec: -7, usec: 700 }, \
         kind: LedType(0), value: 0 }"
    );
}

#[test]
fn led_new_now_is_between_two_readings() {
    let before = Timestamp::now();
    let built = LedEvent::new_now(LedType(50), -1007);
    let after = Timestamp::now();
    let at = built.timestamp();
    assert!((before.sec, before.usec) <= (at.sec, at.usec));
    assert!((at.sec, at.usec) <= (after.sec, after.usec));
    assert!(0 <= at.usec && at.usec < 1_000_000);
    assert_eq!(built.type_tag(), event_type::LED);
    assert!(built.kind() == LedType(50));
    assert_eq!(built.value(), -1007);
    assert!(built == LedEvent::new_at(at, LedType(50), -1007));
    assert!(matches!(
        classify(built.into()),
        EventSummary::Led(event, LedType(50), -1007) if event == built
    ));
}

#[test]
fn sound_new_round_trip() {
    let built = SoundEvent::new(SoundType(57), 1008);
    assert!(built.timestamp() == Timestamp::zero());
    assert_eq!(built.type_tag(), event_type::SOUND);
    assert_eq!(built.type_tag(), 0x0012);
    assert_eq!(built.code(), 57);
    assert!(built.kind() == SoundType(57));
    assert_eq!(built.value(), 1008);
    let record = InputEvent::from(built);
    assert!(record == InputEvent::new(0x0012, 57, 1008));
    match classify(record) {
        EventSummary::Sound(event, kind, value) => {
            assert!(event == built);
            assert!(kind == SoundType(57));
            assert_eq!(value, 1008);
            assert!(event.timestamp() == Timestamp::zero());
        }
        _ => panic!("the summary must be the Sound case"),
    }
}

#[test]
fn sound_new_at_keeps_time() {
    let time = Timestamp::new(1700000008, 8888);
    let built = SoundEvent::new_at(time, SoundType(u16::MAX), i32::MIN);
    assert!(built.timestamp() == time);
    assert_eq!(built.timestamp().sec, 1700000008);
    assert_eq!(built.timestamp().usec, 8888);
    assert_eq!(built.type_tag(), event_type::SOUND);
    assert!(built.kind() == SoundType(u16::MAX));
    assert_eq!(built.value(), i32::MIN);
    let record: InputEvent = built.into();
    assert!(record == InputEvent::with_time(time, event_type::SOUND, u16::MAX, i32::MIN));
    assert!(matches!(
        classify(record),
        EventSummary::Sound(event, SoundType(u16::MAX), i32::MIN) if event == built
    ));
}

#[test]
fn sound_destructure_is_kind_and_value() {
    let built = SoundEvent::new(SoundType(57), 1008);
    let (kind, value) = built.destructure();
    assert!(kind == built.kind());
    assert_eq!(value, built.value());
    assert!(kind == SoundType(57));
    assert_eq!(value, 1008);
    let summary = EventSummary::from(built);
    assert!(matches!(
        summary,
        EventSummary::Sound(event, SoundType(57), 1008) if event == built
    ));
}

#[test]
fn sound_equality_follows_record() {
    let a = SoundEvent::new(SoundType(57), 1008);
    let b = SoundEvent::new(SoundType(57), 1008);
    assert!(a == b);
    assert!(InputEvent::from(a) == InputEvent::from(b));
    let other_code = SoundEvent::new(SoundType(58), 1008);
    assert!(a != other_code);
    assert!(InputEvent::from(a) != InputEvent::from(other_code));
    let other_value = SoundEvent::new(SoundType(57), 1009);
    assert!(a != other_value);
    let other_time = SoundEvent::new_at(Timestamp::new(0, 1), SoundType(57), 1008);
    assert!(a != other_time);
    assert!(InputEvent::from(a) != InputEvent::from(other_time));
    let same_time = SoundEvent::new_at(Timestamp::zero(), SoundType(57), 1008);
    assert!(a == same_time);
}

#[test]
fn sound_widens_by_reference() {
    let built = SoundEvent::new(SoundType(57), 1008);
    let by_deref: &InputEvent = built.deref();
    assert!(*by_deref == InputEvent::from(built));
    let by_as_ref: &InputEvent = built.as_ref();
    assert!(*by_as_ref == InputEvent::from(built));
    assert_eq!(by_as_ref.type_tag(), 0x0012);
    let copy = built;
    assert!(copy == built);
}

#[test]
fn sound_describe() {
    let built = SoundEvent::new(SoundType(57), 1008);
    assert_eq!(
        built.describe(),
        "SoundEvent { time: Timestamp { sec: 0, usec: 0 }, \
         kind: SoundType(57), value: 1008 }"
    );
    let timed = SoundEvent::new_at(Timestamp::new(-8, 800), SoundType(0), 0);
    assert_eq!(
        timed.describe(),
        "SoundEvent { time: Timestamp { sec: -8, usec: 800 }, \
         kind: SoundType(0), value: 0 }"
    );
}

#[test]
fn sound_new_now_is_between_two_readings() {
    let before = Timestamp::now();
    let built = SoundEvent::new_now(SoundType(57), 1008);
    let after = Timestamp::now();
    let at = built.timestamp();
    assert!((before.sec, before.usec) <= (at.sec, at.usec));
    assert!((at.sec, at.usec) <= (after.sec, after.usec));
    assert!(0 <= at.usec && at.usec < 1_000_000);
    assert_eq!(built.type_tag(), event_type::SOUND);
    assert!(built.kind() == SoundType(57));
    assert_eq!(built.value(), 1008);
    assert!(built == SoundEvent::new_at(at, SoundType(57), 1008));
    assert!(matches!(
        classify(built.into()),
        EventSummary::Sound(event, SoundType(57), 1008) if event == built
    ));
}

#[test]
fn repeat_new_round_trip() {
    let built = RepeatEvent::new(RepeatType(64), -1009);
    assert!(built.timestamp() == Timestamp::zero());
    assert_eq!(built.type_tag(), event_type::REPEAT);
    assert_eq!(built.type_tag(), 0x0014);
    assert_eq!(built.code(), 64);
    assert!(built.kind() == RepeatType(64));
    assert_eq!(built.value(), -1009);
    let record = InputEvent::from(built);
    assert!(record == InputEvent::new(0x0014, 64, -1009));
    match classify(record) {
        EventSummary::Repeat(event, kind, value) => {
            assert!(event == built);
            assert!(kind == RepeatType(64));
            assert_eq!(value, -1009);
            assert!(event.timestamp() == Timestamp::zero());
        }
        _ => panic!("the summary must be the Repeat case"),
    }
}

#[test]
fn repeat_new_at_keeps_time() {
    let time = Timestamp::new(1700000009, 9999);
    let built = RepeatEvent::new_at(time, RepeatType(u16::MAX), i32::MIN);
    assert!(built.timestamp() == time);
    assert_eq!(built.timestamp().sec, 1700000009);
    assert_eq!(built.timestamp().usec, 9999);
    assert_eq!(built.type_tag(), event_type::REPEAT);
    assert!(built.kind() == RepeatType(u16::MAX));
    assert_eq!(built.value(), i32::MIN);
    let record: InputEvent = built.into();
    assert!(record == InputEvent::with_time(time, event_type::REPEAT, u16::MAX, i32::MIN));
    assert!(matches!(
        classify(record),
        EventSummary::Repeat(event, RepeatType(u16::MAX), i32::MIN) if event == built
    ));
}

#[test]
fn repeat_destructure_is_kind_and_value() {
    let built = RepeatEvent::new(RepeatType(64), -1009);
    let (kind, value) = built.destructure();
    assert!(kind == built.kind());
    assert_eq!(value, built.value());
    assert!(kind == RepeatType(64));
    assert_eq!(value, -1009);
    let summary = EventSummary::from(built);
    assert!(matches!(
        summary,
        EventSummary::Repeat(event, RepeatType(64), -1009) if event == built
    ));
}

#[test]
fn repeat_equality_follows_record() {
    let a = RepeatEvent::new(RepeatType(64), -1009);
    let b = RepeatEvent::new(RepeatType(64), -1009);
    assert!(a == b);
    assert!(InputEvent::from(a) == InputEvent::from(b));
    let other_code = RepeatEvent::new(RepeatType(65), -1009);
    assert!(a != other_code);
    assert!(InputEvent::from(a) != InputEvent::from(other_code));
    let other_value = RepeatEvent::new(RepeatType(64), -1008);
    assert!(a != other_value);
    let other_time = RepeatEvent::new_at(Timestamp::new(0, 1), RepeatType(64), -1009);
    assert!(a != other_time);
    assert!(InputEvent::from(a) != InputEvent::from(other_time));
    let same_time = RepeatEvent::new_at(Timestamp::zero(), RepeatType(64), -1009);
    assert!(a == same_time);
}

#[test]
fn repeat_widens_by_reference() {
    let built = RepeatEvent::new(RepeatType(64), -1009);
    let by_deref: &InputEvent = built.deref();
    assert!(*by_deref == InputEvent::from(built));
    let by_as_ref: &InputEvent = built.as_ref();
    assert!(*by_as_ref == InputEvent::from(built));
    assert_eq!(by_as_ref.type_tag(), 0x0014);
    let copy = built;
    assert!(copy == built);
}

#[test]
fn repeat_describe() {
    let built = RepeatEvent::new(RepeatType(64), -1009);
    assert_eq!(
        built.describe(),
        "RepeatEvent { time: Timestamp { sec: 0, usec: 0 }, \
         kind: RepeatType(64), value: -1009 }"
    );
    let timed = RepeatEvent::new_at(Timestamp::new(-9, 900), RepeatType(0), 0);
    assert_eq!(
        timed.describe(),
        "RepeatEvent { time: Timestamp { sec: -9, usec: 900 }, \
         kind: RepeatType(0), value: 0 }"
    );
}

#[test]
fn repeat_new_now_is_between_two_readings() {
    let before = Timestamp::now();
    let built = RepeatEvent::new_now(RepeatType(64), -1009);
    let after = Timestamp::now();
    let at = built.timestamp();
    assert!((before.sec, before.usec) <= (at.sec, at.usec));
    assert!((at.sec, at.usec) <= (after.sec, after.usec));
    assert!(0 <= at.usec && at.usec < 1_000_000);
    assert_eq!(built.type_tag(), event_type::REPEAT);
    assert!(built.kind() == RepeatType(64));
    assert_eq!(built.value(), -1009);
    assert!(built == RepeatEvent::new_at(at, RepeatType(64), -1009));
    assert!(matches!(
        classify(built.into()),
        EventSummary::Repeat(event, RepeatType(64), -1009) if event == built
    ));
}

#[test]
fn force_feedback_new_round_trip() {
    let built = FFEvent::new(FFEffectType(71), 1010);
    assert!(built.timestamp() == Timestamp::zero());
    assert_eq!(built.type_tag(), event_type::FORCEFEEDBACK);
    assert_eq!(built.type_tag(), 0x0015);
    assert_eq!(built.code(), 71);
    assert!(built.kind() == FFEffectType(71));
    assert_eq!(built.value(), 1010);
    let record = InputEvent::from(built);
    assert!(record == InputEvent::new(0x0015, 71, 1010));
    match classify(record) {
        EventSummary::ForceFeedback(event, kind, value) => {
            assert!(event == built);
            assert!(kind == FFEffectType(71));
            assert_eq!(value, 1010);
            assert!(event.timestamp() == Timestamp::zero());
        }
        _ => panic!("the summary must be the ForceFeedback case"),
    }
}

#[test]
fn force_feedback_new_at_keeps_time() {
    let time = Timestamp::new(1700000010, 11110);
    let built = FFEvent::new_at(time, FFEffectType(u16::MAX), i32::MIN);
    assert!(built.timestamp() == time);
    assert_eq!(built.timestamp().sec, 1700000010);
    assert_eq!(built.timestamp().usec, 11110);
    assert_eq!(built.type_tag(), event_type::FORCEFEEDBACK);
    assert!(built.kind() == FFEffectType(u16::MAX));
    assert_eq!(built.value(), i32::MIN);
    let record: InputEvent = built.into();
    assert!(record == InputEvent::with_time(time, event_type::FORCEFEEDBACK, u16::MAX, i32::MIN));
    assert!(matches!(
        classify(record),
        EventSummary::ForceFeedback(event, FFEffectType(u16::MAX), i32::MIN) if event == built
    ));
}

#[test]
fn force_feedback_destructure_is_kind_and_value() {
    let built = FFEvent::new(FFEffectType(71), 1010);
    let (kind, value) = built.destructure();
    assert!(kind == built.kind());
    assert_eq!(value, built.value());
    assert!(kind == FFEffectType(71));
    assert_eq!(value, 1010);
    let summary = EventSummary::from(built);
    assert!(matches!(
        summary,
        EventSummary::ForceFeedback(event, FFEffectType(71), 1010) if event == built
    ));
}

#[test]
fn force_feedback_equality_follows_record() {
    let a = FFEvent::new(FFEffectType(71), 1010);
    let b = FFEvent::new(FFEffectType(71), 1010);
    assert!(a == b);
    assert!(InputEvent::from(a) == InputEvent::from(b));
    let other_code = FFEvent::new(FFEffectType(72), 1010);
    assert!(a != other_code);
    assert!(InputEvent::from(a) != InputEvent::from(other_code));
    let other_value = FFEvent::new(FFEffectType(71), 1011);
    assert!(a != other_value);
    let other_time = FFEvent::new_at(Timestamp::new(0, 1), FFEffectType(71), 1010);
    assert!(a != other_time);
    assert!(InputEvent::from(a) != InputEvent::from(other_time));
    let same_time = FFEvent::new_at(Timestamp::zero(), FFEffectType(71), 1010);
    assert!(a == same_time);
}

#[test]
fn force_feedback_widens_by_reference() {
    let built = FFEvent::new(FFEffectType(71), 1010);
    let by_deref: &InputEvent = built.deref();
    assert!(*by_deref == InputEvent::from(built));
    let by_as_ref: &InputEvent = built.as_ref();
    assert!(*by_as_ref == InputEvent::from(built));
    assert_eq!(by_as_ref.type_tag(), 0x0015);
    let copy = built;
    assert!(copy == built);
}

#[test]
fn force_feedback_describe() {
    let built = FFEvent::new(FFEffectType(71), 1010);
    assert_eq!(
        built.describe(),
        "FFEvent { time: Timestamp { sec: 0, usec: 0 }, \
         kind: FFEffectType(71), value: 1010 }"
    );
    let timed = FFEvent::new_at(Timestamp::new(-10, 1000), FFEffectType(0), 0);
    assert_eq!(
        timed.describe(),
        "FFEvent { time: Timestamp { sec: -10, usec: 1000 }, \
         kind: FFEffectType(0), value: 0 }"
    );
}

#[test]
fn force_feedback_new_now_is_between_two_readings() {
    let before = Timestamp::now();
    let built = FFEvent::new_now(FFEffectType(71), 1010);
    let after = Timestamp::now();
    let at = built.timestamp();
    assert!((before.sec, before.usec) <= (at.sec, at.usec));
    assert!((at.sec, at.usec) <= (after.sec, after.usec));
    assert!(0 <= at.usec && at.usec < 1_000_000);
    assert_eq!(built.type_tag(), event_type::FORCEFEEDBACK);
    assert!(built.kind() == FFEffectType(71));
    assert_eq!(built.value(), 1010);
    assert!(built == FFEvent::new_at(at, FFEffectType(71), 1010));
    assert!(matches!(
        classify(built.into()),
        EventSummary::ForceFeedback(event, FFEffectType(71), 1010) if event == built
    ));
}

#[test]
fn power_new_round_trip() {
    let built = PowerEvent::new(PowerType(78), -1011);
    assert!(built.timestamp() == Timestamp::zero());
    assert_eq!(built.type_tag(), event_type::POWER);
    assert_eq!(built.type_tag(), 0x0016);
    assert_eq!(built.code(), 78);
    assert!(built.kind() == PowerType(78));
    assert_eq!(built.value(), -1011);
    let record = InputEvent::from(built);
    assert!(record == InputEvent::new(0x0016, 78, -1011));
    match classify(record) {
        EventSummary::Power(event, kind, value) => {
            assert!(event == built);
            assert!(kind == PowerType(78));
            assert_eq!(value, -1011);
            assert!(event.timestamp() == Timestamp::zero());
        }
        _ => panic!("the summary must be the Power case"),
    }
}

#[test]
fn power_new_at_keeps_time() {
    let time = Timestamp::new(1700000011, 12221);
    let built = PowerEvent::new_at(time, PowerType(u16::MAX), i32::MIN);
    assert!(built.timestamp() == time);
    assert_eq!(built.timestamp().sec, 1700000011);
    assert_eq!(built.timestamp().usec, 12221);
    assert_eq!(built.type_tag(), event_type::POWER);
    assert!(built.kind() == PowerType(u16::MAX));
    assert_eq!(built.value(), i32::MIN);
    let record: InputEvent = built.into();
    assert!(record == InputEvent::with_time(time, event_type::POWER, u16::MAX, i32::MIN));
    assert!(matches!(
        classify(record),
        EventSummary::Power(event, PowerType(u16::MAX), i32::MIN) if event == built
    ));
}

#[test]
fn power_destructure_is_kind_and_value() {
    let built = PowerEvent::new(PowerType(78), -1011);
    let (kind, value) = built.destructure();
    assert!(kind == built.kind());
    assert_eq!(value, built.value());
    assert!(kind == PowerType(78));
    assert_eq!(value, -1011);
    let summary = EventSummary::from(built);
    assert!(matches!(
        summary,
        EventSummary::Power(event, PowerType(78), -1011) if event == built
    ));
}

#[test]
fn power_equality_follows_record() {
    let a = PowerEvent::new(PowerType(78), -1011);
    let b = PowerEvent::new(PowerType(78), -1011);
    assert!(a == b);
    assert!(InputEvent::from(a) == InputEvent::from(b));
    let other_code = PowerEvent::new(PowerType(79), -1011);
    assert!(a != other_code);
    assert!(InputEvent::from(a) != InputEvent::from(other_code));
    let other_value = PowerEvent::new(PowerType(78), -1010);
    assert!(a != other_value);
    let other_time = PowerEvent::new_at(Timestamp::new(0, 1), PowerType(78), -1011);
    assert!(a != other_time);
    assert!(InputEvent::from(a) != InputEvent::from(other_time));
    let same_time = PowerEvent::new_at(Timestamp::zero(), PowerType(78), -1011);
    assert!(a == same_time);
}

#[test]
fn power_widens_by_reference() {
    let built = PowerEvent::new(PowerType(78), -1011);
    let by_deref: &InputEvent = built.deref();
    assert!(*by_deref == InputEvent::from(built));
    let by_as_ref: &InputEvent = built.as_ref();
    assert!(*by_as_ref == InputEvent::from(built));
    assert_eq!(by_as_ref.type_tag(), 0x0016);
    let copy = built;
    assert!(copy == built);
}

#[test]
fn power_describe() {
    let built = PowerEvent::new(PowerType(78), -1011);
    assert_eq!(
        built.describe(),
        "PowerEvent { time: Timestamp { sec: 0, usec: 0 }, \
         kind: PowerType(78), value: -1011 }"
    );
    let timed = PowerEvent::new_at(Timestamp::new(-11, 1100), PowerType(0), 0);
    assert_eq!(
        timed.describe(),
        "PowerEvent { time: Timestamp { sec: -11, usec: 1100 }, \
         kind: PowerType(0), value: 0 }"
    );
}

#[test]
fn power_new_now_is_between_two_readings() {
    let before = Timestamp::now();
    let built = PowerEvent::new_now(PowerType(78), -1011);
    let after = Timestamp::now();
    let at = built.timestamp();
    assert!((before.sec, before.usec) <= (at.sec, at.usec));
    assert!((at.sec, at.usec) <= (after.sec, after.usec));
    assert!(0 <= at.usec && at.usec < 1_000_000);
    assert_eq!(built.type_tag(), event_type::POWER);
    assert!(built.kind() == PowerType(78));
    assert_eq!(built.value(), -1011);
    assert!(built == PowerEvent::new_at(at, PowerType(78), -1011));
    assert!(matches!(
        classify(built.into()),
        EventSummary::Power(event, PowerType(78), -1011) if event == built
    ));
}

#[test]
fn force_feedback_status_new_round_trip() {
    let built = FFStatusEvent::new(FFStatusType(85), 1012);
    assert!(built.timestamp() == Timestamp::zero());
    assert_eq!(built.type_tag(), event_type::FORCEFEEDBACKSTATUS);
    assert_eq!(built.type_tag(), 0x0017);
    assert_eq!(built.code(), 85);
    assert!(built.kind() == FFStatusType(85));
    assert_eq!(built.value(), 1012);
    let record = InputEvent::from(built);
    assert!(record == InputEvent::new(0x0017, 85, 1012));
    match classify(record) {
        EventSummary::ForceFeedbackStatus(event, kind, value) => {
            assert!(event == built);
            assert!(kind == FFStatusType(85));
            assert_eq!(value, 1012);
            assert!(event.timestamp() == Timestamp::zero());
        }
        _ => panic!("the summary must be the ForceFeedbackStatus case"),
    }
}

#[test]
fn force_feedback_status_new_at_keeps_time() {
    let time = Timestamp::new(1700000012, 13332);
    let built = FFStatusEvent::new_at(time, FFStatusType(u16::MAX), i32::MIN);
    assert!(built.timestamp() == time);
    assert_eq!(built.timestamp().sec, 1700000012);
    assert_eq!(built.timestamp().usec, 13332);
    assert_eq!(built.type_tag(), event_type::FORCEFEEDBACKSTATUS);
    assert!(built.kind() == FFStatusType(u16::MAX));
    assert_eq!(built.value(), i32::MIN);
    let record: InputEvent = built.into();
    assert!(record == InputEvent::with_time(time, event_type::FORCEFEEDBACKSTATUS, u16::MAX, i32::MIN));
    assert!(matches!(
        classify(record),
        EventSummary::ForceFeedbackStatus(event, FFStatusType(u16::MAX), i32::MIN) if event == built
    ));
}

#[test]
fn force_feedback_status_destructure_is_kind_and_value() {
    let built = FFStatusEvent::new(FFStatusType(85), 1012);
    let (kind, value) = built.destructure();
    assert!(kind == built.kind());
    assert_eq!(value, built.value());
    assert!(kind == FFStatusType(85));
    assert_eq!(value, 1012);
    let summary = EventSummary::from(built);
    assert!(matches!(
        summary,
        EventSummary::ForceFeedbackStatus(event, FFStatusType(85), 1012) if event == built
    ));
}

#[test]
fn force_feedback_status_equality_follows_record() {
    let a = FFStatusEvent::new(FFStatusType(85), 1012);
    let b = FFStatusEvent::new(FFStatusType(85), 1012);
    assert!(a == b);
    assert!(InputEvent::from(a) == InputEvent::from(b));
    let other_code = FFStatusEvent::new(FFStatusType(86), 1012);
    assert!(a != other_code);
    assert!(InputEvent::from(a) != InputEvent::from(other_code));
    let other_value = FFStatusEvent::new(FFStatusType(85), 1013);
    assert!(a != other_value);
    let other_time = FFStatusEvent::new_at(Timestamp::new(0, 1), FFStatusType(85), 1012);
    assert!(a != other_time);
    assert!(InputEvent::from(a) != InputEvent::from(other_time));
    let same_time = FFStatusEvent::new_at(Timestamp::zero(), FFStatusType(85), 1012);
    assert!(a == same_time);
}

#[test]
fn force_feedback_status_widens_by_reference() {
    let built = FFStatusEvent::new(FFStatusType(85), 1012);
    let by_deref: &InputEvent = built.deref();
    assert!(*by_deref == InputEvent::from(built));
    let by_as_ref: &InputEvent = built.as_ref();
    assert!(*by_as_ref == InputEvent::from(built));
    assert_eq!(by_as_ref.type_tag(), 0x0017);
    let copy = built;
    assert!(copy == built);
}

#[test]
fn force_feedback_status_describe() {
    let built = FFStatusEvent::new(FFStatusType(85), 1012);
    assert_eq!(
        built.describe(),
        "FFStatusEvent { time: Timestamp { sec: 0, usec: 0 }, \
         kind: FFStatusType(85), value: 1012 }"
    );
    let timed = FFStatusEvent::new_at(Timestamp::new(-12, 1200), FFStatusType(0), 0);
    assert_eq!(
        timed.describe(),
        "FFStatusEvent { time: Timestamp { sec: -12, usec: 1200 }, \
         kind: FFStatusType(0), value: 0 }"
    );
}

#[test]
fn force_feedback_status_new_now_is_between_two_readings() {
    let before = Timestamp::now();
    let built = FFStatusEvent::new_now(FFStatusType(85), 1012);
    let after = Timestamp::now();
    let at = built.timestamp();
    assert!((before.sec, before.usec) <= (at.sec, at.usec));
    assert!((at.sec, at.usec) <= (after.sec, after.usec));
    assert!(0 <= at.usec && at.usec < 1_000_000);
    assert_eq!(built.type_tag(), event_type::FORCEFEEDBACKSTATUS);
    assert!(built.kind() == FFStatusType(85));
    assert_eq!(built.value(), 1012);
    assert!(built == FFStatusEvent::new_at(at, FFStatusType(85), 1012));
    assert!(matches!(
        classify(built.into()),
        EventSummary::ForceFeedbackStatus(event, FFStatusType(85), 1012) if event == built
    ));
}

#[test]
fn uinput_new_round_trip() {
    let built = UInputEvent::new(UInputType(92), -1013);
    assert!(built.timestamp() == Timestamp::zero());
    assert_eq!(built.type_tag(), event_type::UINPUT);
    assert_eq!(built.type_tag(), 0x0101);
    assert_eq!(built.code(), 92);
    assert!(built.kind() == UInputType(92));
    assert_eq!(built.value(), -1013);
    let record = InputEvent::from(built);
    assert!(record == InputEvent::new(0x0101, 92, -1013));
    match classify(record) {
        EventSummary::UInput(event, kind, value) => {
            assert!(event == built);
            assert!(kind == UInputType(92));
            assert_eq!(value, -1013);
            assert!(event.timestamp() == Timestamp::zero());
        }
        _ => panic!("the summary must be the UInput case"),
    }
}

#[test]
fn uinput_new_at_keeps_time() {
    let time = Timestamp::new(1700000013, 14443);
    let built = UInputEvent::new_at(time, UInputType(u16::MAX), i32::MIN);
    assert!(built.timestamp() == time);
    assert_eq!(built.timestamp().sec, 1700000013);
    assert_eq!(built.timestamp().usec, 14443);
    assert_eq!(built.type_tag(), event_type::UINPUT);
    assert!(built.kind() == UInputType(u16::MAX));
    assert_eq!(built.value(), i32::MIN);
    let record: InputEvent = built.into();
    assert!(record == InputEvent::with_time(time, event_type::UINPUT, u16::MAX, i32::MIN));
    assert!(matches!(
        classify(record),
        EventSummary::UInput(event, UInputType(u16::MAX), i32::MIN) if event == built
    ));
}

#[test]
fn uinput_destructure_is_kind_and_value() {
    let built = UInputEvent::new(UInputType(92), -1013);
    let (kind, value) = built.destructure();
    assert!(kind == built.kind());
    assert_eq!(value, built.value());
    assert!(kind == UInputType(92));
    assert_eq!(value, -1013);
    let summary = EventSummary::from(built);
    assert!(matches!(
        summary,
        EventSummary::UInput(event, UInputType(92), -1013) if event == built
    ));
}

#[test]
fn uinput_equality_follows_record() {
    let a = UInputEvent::new(UInputType(92), -1013);
    let b = UInputEvent::new(UInputType(92), -1013);
    assert!(a == b);
    assert!(InputEvent::from(a) == InputEvent::from(b));
    let other_code = UInputEvent::new(UInputType(93), -1013);
    assert!(a != other_code);
    assert!(InputEvent::from(a) != InputEvent::from(other_code));
    let other_value = UInputEvent::new(UInputType(92), -1012);
    assert!(a != other_value);
    let other_time = UInputEvent::new_at(Timestamp::new(0, 1), UInputType(92), -1013);
    assert!(a != other_time);
    assert!(InputEvent::from(a) != InputEvent::from(other_time));
    let same_time = UInputEvent::new_at(Timestamp::zero(), UInputType(92), -1013);
    assert!(a == same_time);
}

#[test]
fn uinput_widens_by_reference() {
    let built = UInputEvent::new(UInputType(92), -1013);
    let by_deref: &InputEvent = built.deref();
    assert!(*by_deref == InputEvent::from(built));
    let by_as_ref: &InputEvent = built.as_ref();
    assert!(*by_as_ref == InputEvent::from(built));
    assert_eq!(by_as_ref.type_tag(), 0x0101);
    let copy = built;
    assert!(copy == built);
}

#[test]
fn uinput_describe() {
    let built = UInputEvent::new(UInputType(92), -1013);
    assert_eq!(
        built.describe(),
        "UInputEvent { time: Timestamp { sec: 0, usec: 0 }, \
         kind: UInputType(92), value: -1013 }"
    );
    let timed = UInputEvent::new_at(Timestamp::new(-13, 1300), UInputType(0), 0);
    assert_eq!(
        timed.describe(),
        "UInputEvent { time: Timestamp { sec: -13, usec: 1300 }, \
         kind: UInputType(0), value: 0 }"
    );
}

#[test]
fn uinput_new_now_is_between_two_readings() {
    let before = Timestamp::now();
    let built = UInputEvent::new_now(UInputType(92), -1013);
    let after = Timestamp::now();
    let at = built.timestamp();
    assert!((before.sec, before.usec) <= (at.sec, at.usec));
    assert!((at.sec, at.usec) <= (after.sec, after.usec));
    assert!(0 <= at.usec && at.usec < 1_000_000);
    assert_eq!(built.type_tag(), event_type::UINPUT);
    assert!(built.kind() == UInputType(92));
    assert_eq!(built.value(), -1013);
    assert!(built == UInputEvent::new_at(at, UInputType(92), -1013));
    assert!(matches!(
        classify(built.into()),
        EventSummary::UInput(event, UInputType(92), -1013) if event == built
    ));
}
