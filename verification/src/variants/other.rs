//! Events of no known class.

use crate::event::InputEvent;
use crate::event_type;
use crate::kinds::OtherType;
use crate::text::{other_event_string, other_event_text};
use crate::time::Timestamp;
use std::ops::Deref;
use vstd::prelude::*;
use vstd::std_specs::cmp::PartialEqSpecImpl;
use vstd::std_specs::convert::FromSpecImpl;

verus! {

/// An event whose type tag no known class has reserved.
///
/// Nothing is decoded: the kind of such an event is its type tag and its
/// code as they stand.
#[derive(Clone, Copy, Hash)]
pub struct OtherEvent(InputEvent);

impl OtherEvent {
    /// The record that the event holds.
    pub closed spec fn event(self) -> InputEvent {
        self.0
    }

    /// The event that holds a given record. It is a valid event only where
    /// no known class has reserved the record's type tag.
    pub closed spec fn wrap(event: InputEvent) -> OtherEvent {
        OtherEvent(event)
    }

    /// What holds of every event of this type: no known class has reserved
    /// its type tag.
    #[verifier::type_invariant]
    pub open spec fn inv(self) -> bool {
        !event_type::is_known(self.event().type_tag())
    }

    pub open spec fn spec_timestamp(&self) -> Timestamp {
        self.event().timestamp()
    }

    pub open spec fn spec_type_tag(&self) -> u16 {
        self.event().type_tag()
    }

    pub open spec fn spec_code(&self) -> u16 {
        self.event().code()
    }

    pub open spec fn spec_value(&self) -> i32 {
        self.event().value()
    }

    /// The kind is the type tag and the code, both as they stand.
    pub open spec fn spec_kind(&self) -> OtherType {
        OtherType(self.event().type_tag(), self.event().code())
    }

    /// The event as a line of text: its timestamp, its type tag, its code and
    /// its value, the last three as plain numbers.
    pub open spec fn spec_describe(&self) -> Seq<char> {
        other_event_text(self.timestamp(), self.type_tag(), self.code(), self.value())
    }

    /// Wrapping a record and taking it out again gives the record back.
    pub broadcast proof fn lemma_wrap_event(event: InputEvent)
        ensures
            (#[trigger] OtherEvent::wrap(event)).event() == event,
    {
    }

    /// An event is the wrapper of the record it holds.
    pub proof fn lemma_event_wrap(self)
        ensures
            OtherEvent::wrap(self.event()) == self,
    {
    }

    /// Two events are equal exactly when the records they hold are.
    pub proof fn lemma_equal_by_event(a: OtherEvent, b: OtherEvent)
        ensures
            a == b <==> a.event() == b.event(),
    {
    }

    /// Narrows a record that is known to belong to no known class.
    pub(crate) fn from_event(event: InputEvent) -> (ev: OtherEvent)
        requires
            !event_type::is_known(event.type_tag()),
        ensures
            ev == OtherEvent::wrap(event),
            ev.event() == event,
            ev.inv(),
    {
        OtherEvent(event)
    }

    /// When the event happened.
    #[verifier::when_used_as_spec(spec_timestamp)]
    pub fn timestamp(&self) -> (time: Timestamp)
        ensures
            time == self.spec_timestamp(),
    {
        self.0.timestamp()
    }

    /// The type tag, which is never one of a known class.
    #[verifier::when_used_as_spec(spec_type_tag)]
    pub fn type_tag(&self) -> (type_tag: u16)
        ensures
            type_tag == self.spec_type_tag(),
            !event_type::is_known(type_tag),
    {
        proof {
            use_type_invariant(self);
        }
        self.0.type_tag()
    }

    /// The raw code.
    #[verifier::when_used_as_spec(spec_code)]
    pub fn code(&self) -> (code: u16)
        ensures
            code == self.spec_code(),
    {
        self.0.code()
    }

    /// The value.
    #[verifier::when_used_as_spec(spec_value)]
    pub fn value(&self) -> (value: i32)
        ensures
            value == self.spec_value(),
    {
        self.0.value()
    }

    /// The kind: the type tag and the code, unchanged.
    #[verifier::when_used_as_spec(spec_kind)]
    pub fn kind(&self) -> (kind: OtherType)
        ensures
            kind == self.spec_kind(),
    {
        OtherType(self.0.type_tag(), self.0.code())
    }

    /// The kind and the value.
    pub fn destructure(&self) -> (parts: (OtherType, i32))
        ensures
            parts == (self.kind(), self.value()),
    {
        (self.kind(), self.value())
    }

    /// Renders the event for a log: its timestamp, its type tag, its code
    /// and its value, the last three as plain numbers.
    pub fn describe(&self) -> (s: String)
        ensures
            s@ == self.spec_describe(),
    {
        other_event_string(
            self.0.timestamp(),
            self.0.type_tag(),
            self.0.code(),
            self.0.value(),
        )
    }
}

impl Deref for OtherEvent {
    type Target = InputEvent;

    fn deref(&self) -> (event: &InputEvent)
        ensures
            *event == self.event(),
    {
        &self.0
    }
}

impl AsRef<InputEvent> for OtherEvent {
    fn as_ref(&self) -> (event: &InputEvent)
        ensures
            *event == self.event(),
    {
        &self.0
    }
}

impl From<OtherEvent> for InputEvent {
    fn from(event: OtherEvent) -> (raw: InputEvent) {
        event.0
    }
}

impl FromSpecImpl<OtherEvent> for InputEvent {
    open spec fn obeys_from_spec() -> bool {
        true
    }

    /// Widening keeps the record and drops the guarantee about its class.
    open spec fn from_spec(event: OtherEvent) -> InputEvent {
        event.event()
    }
}

impl PartialEq for OtherEvent {
    fn eq(&self, other: &OtherEvent) -> (r: bool) {
        proof {
            InputEvent::lemma_equal_by_fields(self.0, other.0);
        }
        self.0 == other.0
    }
}

impl Eq for OtherEvent {

}

impl PartialEqSpecImpl for OtherEvent {
    open spec fn obeys_eq_spec() -> bool {
        true
    }

    /// Two events are equal when the records they hold are.
    open spec fn eq_spec(&self, other: &OtherEvent) -> bool {
        self.event() == other.event()
    }
}

} // verus!
