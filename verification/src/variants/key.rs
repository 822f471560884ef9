//! Events of the key class.

use crate::event::InputEvent;
use crate::event_type;
use crate::kinds::KeyType;
use crate::text::{typed_event_string, typed_event_text};
use crate::time::{Timestamp, MICROS_PER_SEC};
use std::ops::Deref;
use vstd::prelude::*;
use vstd::std_specs::cmp::PartialEqSpecImpl;
use vstd::std_specs::convert::FromSpecImpl;

verus! {

/// A change in the state of a key or a button.
///
/// The record inside always carries the type tag of the key class.
#[derive(Clone, Copy, Hash)]
pub struct KeyEvent(InputEvent);

impl KeyEvent {
    /// The record that the event holds.
    pub closed spec fn event(self) -> InputEvent {
        self.0
    }

    /// The event that holds a given record. It is a valid event only where
    /// the record carries the type tag of the key class.
    pub closed spec fn wrap(event: InputEvent) -> KeyEvent {
        KeyEvent(event)
    }

    /// What holds of every event of this type: its type tag is that of the
    /// key class.
    #[verifier::type_invariant]
    pub open spec fn inv(self) -> bool {
        self.event().type_tag() == event_type::KEY
    }

    pub open spec fn spec_timestamp(&self) -> Timestamp {
        self.event().timestamp()
    }

    pub open spec fn spec_type_tag(&self) -> u16 {
        self.event().type_tag()
    }

    pub open spec fn spec_code(&self) -> u16 {
        self.event().code()
    }

    pub open spec fn spec_value(&self) -> i32 {
        self.event().value()
    }

    /// The kind is the code, read as a code of the key class.
    pub open spec fn spec_kind(&self) -> KeyType {
        KeyType(self.event().code())
    }

    /// The event of a given kind and value at a given time.
    pub open spec fn spec_new_at(time: Timestamp, kind: KeyType, value: i32) -> KeyEvent {
        KeyEvent::wrap(
            InputEvent::with_time(time, event_type::KEY, kind.0, value),
        )
    }

    /// The event of a given kind and value at the zero timestamp.
    pub open spec fn spec_new(kind: KeyType, value: i32) -> KeyEvent {
        KeyEvent::spec_new_at(Timestamp::zero(), kind, value)
    }

    /// The event as a line of text: the name of its type, its timestamp, its
    /// kind by the name of the kind's type and the code, and its value.
    pub open spec fn spec_describe(&self) -> Seq<char> {
        typed_event_text(
            "KeyEvent"@,
            "KeyType"@,
            self.timestamp(),
            self.code(),
            self.value(),
        )
    }

    /// Wrapping a record and taking it out again gives the record back.
    pub broadcast proof fn lemma_wrap_event(event: InputEvent)
        ensures
            (#[trigger] KeyEvent::wrap(event)).event() == event,
    {
    }

    /// An event is the wrapper of the record it holds.
    pub proof fn lemma_event_wrap(self)
        ensures
            KeyEvent::wrap(self.event()) == self,
    {
    }

    /// Two events are equal exactly when the records they hold are.
    pub proof fn lemma_equal_by_event(a: KeyEvent, b: KeyEvent)
        ensures
            a == b <==> a.event() == b.event(),
    {
    }

    /// Builds an event of a given kind and value with a given timestamp.
    #[verifier::when_used_as_spec(spec_new_at)]
    pub fn new_at(time: Timestamp, kind: KeyType, value: i32) -> (ev: KeyEvent)
        ensures
            ev == KeyEvent::spec_new_at(time, kind, value),
            ev.inv(),
            ev.timestamp() == time,
            ev.kind() == kind,
            ev.value() == value,
    {
        KeyEvent::from_event(
            InputEvent::with_time(time, event_type::KEY, kind.0, value),
        )
    }

    /// Builds an event of a given kind and value with the zero timestamp.
    #[verifier::when_used_as_spec(spec_new)]
    pub fn new(kind: KeyType, value: i32) -> (ev: KeyEvent)
        ensures
            ev == KeyEvent::spec_new(kind, value),
            ev.inv(),
            ev.timestamp() == Timestamp::zero(),
            ev.kind() == kind,
            ev.value() == value,
    {
        KeyEvent::new_at(Timestamp::zero(), kind, value)
    }

    /// Builds an event of a given kind and value with the wall clock's
    /// reading as its timestamp.
    ///
    /// The timestamp is whatever the clock gave; the rest is as `new_at`
    /// builds it for that timestamp.
    pub fn new_now(kind: KeyType, value: i32) -> (ev: KeyEvent)
        ensures
            ev == KeyEvent::new_at(ev.timestamp(), kind, value),
            ev.inv(),
            0 <= ev.timestamp().usec < MICROS_PER_SEC,
            ev.kind() == kind,
            ev.value() == value,
    {
        KeyEvent::new_at(Timestamp::now(), kind, value)
    }

    /// Narrows a record that is known to belong to the key class.
    pub(crate) fn from_event(event: InputEvent) -> (ev: KeyEvent)
        requires
            event.type_tag() == event_type::KEY,
        ensures
            ev == KeyEvent::wrap(event),
            ev.event() == event,
            ev.inv(),
    {
        KeyEvent(event)
    }

    /// When the event happened.
    #[verifier::when_used_as_spec(spec_timestamp)]
    pub fn timestamp(&self) -> (time: Timestamp)
        ensures
            time == self.spec_timestamp(),
    {
        self.0.timestamp()
    }

    /// The type tag, which is always that of the key class.
    #[verifier::when_used_as_spec(spec_type_tag)]
    pub fn type_tag(&self) -> (type_tag: u16)
        ensures
            type_tag == self.spec_type_tag(),
            type_tag == event_type::KEY,
    {
        proof {
            use_type_invariant(self);
        }
        self.0.type_tag()
    }

    /// The raw code.
    #[verifier::when_used_as_spec(spec_code)]
    pub fn code(&self) -> (code: u16)
        ensures
            code == self.spec_code(),
    {
        self.0.code()
    }

    /// The value.
    #[verifier::when_used_as_spec(spec_value)]
    pub fn value(&self) -> (value: i32)
        ensures
            value == self.spec_value(),
    {
        self.0.value()
    }

    /// The kind, decoded from the code.
    #[verifier::when_used_as_spec(spec_kind)]
    pub fn kind(&self) -> (kind: KeyType)
        ensures
            kind == self.spec_kind(),
    {
        KeyType(self.0.code())
    }

    /// The kind and the value.
    pub fn destructure(&self) -> (parts: (KeyType, i32))
        ensures
            parts == (self.kind(), self.value()),
    {
        (self.kind(), self.value())
    }

    /// Renders the event for a log: its timestamp, its kind and its value.
    pub fn describe(&self) -> (s: String)
        ensures
            s@ == self.spec_describe(),
    {
        typed_event_string(
            "KeyEvent",
            "KeyType",
            self.0.timestamp(),
            self.0.code(),
            self.0.value(),
        )
    }
}

impl Deref for KeyEvent {
    type Target = InputEvent;

    fn deref(&self) -> (event: &InputEvent)
        ensures
            *event == self.event(),
    {
        &self.0
    }
}

impl AsRef<InputEvent> for KeyEvent {
    fn as_ref(&self) -> (event: &InputEvent)
        ensures
            *event == self.event(),
    {
        &self.0
    }
}

impl From<KeyEvent> for InputEvent {
    fn from(event: KeyEvent) -> (raw: InputEvent) {
        event.0
    }
}

impl FromSpecImpl<KeyEvent> for InputEvent {
    open spec fn obeys_from_spec() -> bool {
        true
    }

    /// Widening keeps the record and drops the guarantee about its class.
    open spec fn from_spec(event: KeyEvent) -> InputEvent {
        event.event()
    }
}

impl PartialEq for KeyEvent {
    fn eq(&self, other: &KeyEvent) -> (r: bool) {
        proof {
            InputEvent::lemma_equal_by_fields(self.0, other.0);
        }
        self.0 == other.0
    }
}

impl Eq for KeyEvent {

}

impl PartialEqSpecImpl for KeyEvent {
    open spec fn obeys_eq_spec() -> bool {
        true
    }

    /// Two events are equal when the records they hold are.
    open spec fn eq_spec(&self, other: &KeyEvent) -> bool {
        self.event() == other.event()
    }
}

} // verus!
