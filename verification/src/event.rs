//! The raw event record.

use crate::time::{Timestamp, MICROS_PER_SEC};
use vstd::prelude::*;
use vstd::std_specs::cmp::PartialEqSpecImpl;

verus! {

/// One input event as the kernel reports it: when it happened, the tag of its
/// class, a code whose meaning depends on the class, and a value.
///
/// Any combination of the four is a valid record. A record is not changed
/// once it is built.
#[derive(Clone, Copy, Hash)]
pub struct InputEvent {
    time: Timestamp,
    type_tag: u16,
    code: u16,
    value: i32,
}

impl InputEvent {
    /// The record with the given four fields.
    pub closed spec fn spec_with_time(
        time: Timestamp,
        type_tag: u16,
        code: u16,
        value: i32,
    ) -> InputEvent {
        InputEvent { time, type_tag, code, value }
    }

    pub closed spec fn spec_timestamp(&self) -> Timestamp {
        self.time
    }

    pub closed spec fn spec_type_tag(&self) -> u16 {
        self.type_tag
    }

    pub closed spec fn spec_code(&self) -> u16 {
        self.code
    }

    pub closed spec fn spec_value(&self) -> i32 {
        self.value
    }

    /// A record holds the four fields it was built with.
    pub broadcast proof fn lemma_fields(time: Timestamp, type_tag: u16, code: u16, value: i32)
        ensures
            (#[trigger] InputEvent::spec_with_time(time, type_tag, code, value)).timestamp()
                == time,
            InputEvent::spec_with_time(time, type_tag, code, value).type_tag() == type_tag,
            InputEvent::spec_with_time(time, type_tag, code, value).code() == code,
            InputEvent::spec_with_time(time, type_tag, code, value).value() == value,
    {
    }

    /// Two records are equal exactly when their timestamps, type tags, codes
    /// and values are.
    pub proof fn lemma_equal_by_fields(a: InputEvent, b: InputEvent)
        ensures
            a == b <==> {
                &&& a.timestamp() == b.timestamp()
                &&& a.type_tag() == b.type_tag()
                &&& a.code() == b.code()
                &&& a.value() == b.value()
            },
    {
    }

    /// Builds a record from its four fields.
    #[verifier::when_used_as_spec(spec_with_time)]
    pub fn with_time(time: Timestamp, type_tag: u16, code: u16, value: i32) -> (ev: InputEvent)
        ensures
            ev == InputEvent::spec_with_time(time, type_tag, code, value),
            ev.timestamp() == time,
            ev.type_tag() == type_tag,
            ev.code() == code,
            ev.value() == value,
    {
        InputEvent { time, type_tag, code, value }
    }

    /// Builds a record with the zero timestamp.
    pub fn new(type_tag: u16, code: u16, value: i32) -> (ev: InputEvent)
        ensures
            ev == InputEvent::with_time(Timestamp::zero(), type_tag, code, value),
            ev.timestamp() == Timestamp::zero(),
            ev.type_tag() == type_tag,
            ev.code() == code,
            ev.value() == value,
    {
        InputEvent::with_time(Timestamp::zero(), type_tag, code, value)
    }

    /// Builds a record with the wall clock's reading as its timestamp.
    pub fn new_now(type_tag: u16, code: u16, value: i32) -> (ev: InputEvent)
        ensures
            ev == InputEvent::with_time(ev.timestamp(), type_tag, code, value),
            0 <= ev.timestamp().usec < MICROS_PER_SEC,
            ev.type_tag() == type_tag,
            ev.code() == code,
            ev.value() == value,
    {
        InputEvent::with_time(Timestamp::now(), type_tag, code, value)
    }

    /// When the event happened.
    #[verifier::when_used_as_spec(spec_timestamp)]
    pub fn timestamp(&self) -> (time: Timestamp)
        ensures
            time == self.spec_timestamp(),
    {
        self.time
    }

    /// The tag of the event's class.
    #[verifier::when_used_as_spec(spec_type_tag)]
    pub fn type_tag(&self) -> (type_tag: u16)
        ensures
            type_tag == self.spec_type_tag(),
    {
        self.type_tag
    }

    /// The code, whose meaning depends on the class.
    #[verifier::when_used_as_spec(spec_code)]
    pub fn code(&self) -> (code: u16)
        ensures
            code == self.spec_code(),
    {
        self.code
    }

    /// The value, whose meaning depends on the class and the code.
    #[verifier::when_used_as_spec(spec_value)]
    pub fn value(&self) -> (value: i32)
        ensures
            value == self.spec_value(),
    {
        self.value
    }
}

impl PartialEq for InputEvent {
    fn eq(&self, other: &InputEvent) -> (r: bool) {
        self.time == other.time && self.type_tag == other.type_tag && self.code == other.code
            && self.value == other.value
    }
}

impl Eq for InputEvent {

}

impl PartialEqSpecImpl for InputEvent {
    open spec fn obeys_eq_spec() -> bool {
        true
    }

    /// Two records are equal when all four fields are.
    open spec fn eq_spec(&self, other: &InputEvent) -> bool {
        &&& self.timestamp() == other.timestamp()
        &&& self.type_tag() == other.type_tag()
        &&& self.code() == other.code()
        &&& self.value() == other.value()
    }
}

} // verus!
