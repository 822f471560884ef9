//! The summary of an event: the class it belongs to, with the typed event,
//! its kind and its value.

use crate::event::InputEvent;
use crate::event_type;
use crate::kinds::{
    AbsoluteAxisType, FFEffectType, FFStatusType, KeyType, LedType, MiscType, OtherType,
    PowerType, RelativeAxisType, RepeatType, SoundType, SwitchType, SynchronizationType,
    UInputType,
};
use crate::variants::absolute_axis::AbsoluteAxisEvent;
use crate::variants::force_feedback::FFEvent;
use crate::variants::force_feedback_status::FFStatusEvent;
use crate::variants::key::KeyEvent;
use crate::variants::led::LedEvent;
use crate::variants::misc::MiscEvent;
use crate::variants::other::OtherEvent;
use crate::variants::power::PowerEvent;
use crate::variants::relative_axis::RelativeAxisEvent;
use crate::variants::repeat::RepeatEvent;
use crate::variants::sound::SoundEvent;
use crate::variants::switch::SwitchEvent;
use crate::variants::synchronization::SynchronizationEvent;
use crate::variants::uinput::UInputEvent;
use vstd::prelude::*;
use vstd::std_specs::convert::FromSpecImpl;

verus! {

/// An event sorted into its class: one case for each known class, and one
/// for the events of none. Each case holds the typed event, its kind and its
/// value.
#[derive(Clone, Copy)]
pub enum EventSummary {
    Synchronization(SynchronizationEvent, SynchronizationType, i32),
    Key(KeyEvent, KeyType, i32),
    RelativeAxis(RelativeAxisEvent, RelativeAxisType, i32),
    AbsoluteAxis(AbsoluteAxisEvent, AbsoluteAxisType, i32),
    Misc(MiscEvent, MiscType, i32),
    Switch(SwitchEvent, SwitchType, i32),
    Led(LedEvent, LedType, i32),
    Sound(SoundEvent, SoundType, i32),
    Repeat(RepeatEvent, RepeatType, i32),
    ForceFeedback(FFEvent, FFEffectType, i32),
    Power(PowerEvent, PowerType, i32),
    ForceFeedbackStatus(FFStatusEvent, FFStatusType, i32),
    UInput(UInputEvent, UInputType, i32),
    Other(OtherEvent, OtherType, i32),
}

impl EventSummary {
    /// The record inside the event that the summary holds.
    pub open spec fn record(self) -> InputEvent {
        match self {
            EventSummary::Synchronization(event, _, _) => event.event(),
            EventSummary::Key(event, _, _) => event.event(),
            EventSummary::RelativeAxis(event, _, _) => event.event(),
            EventSummary::AbsoluteAxis(event, _, _) => event.event(),
            EventSummary::Misc(event, _, _) => event.event(),
            EventSummary::Switch(event, _, _) => event.event(),
            EventSummary::Led(event, _, _) => event.event(),
            EventSummary::Sound(event, _, _) => event.event(),
            EventSummary::Repeat(event, _, _) => event.event(),
            EventSummary::ForceFeedback(event, _, _) => event.event(),
            EventSummary::Power(event, _, _) => event.event(),
            EventSummary::ForceFeedbackStatus(event, _, _) => event.event(),
            EventSummary::UInput(event, _, _) => event.event(),
            EventSummary::Other(event, _, _) => event.event(),
        }
    }

    /// What holds of every summary that classification gives: the event is
    /// a valid one of its type, and the kind and the value beside it are the
    /// event's own.
    pub open spec fn inv(self) -> bool {
        match self {
            EventSummary::Synchronization(event, kind, value) => {
                event.inv() && kind == event.kind() && value == event.value()
            },
            EventSummary::Key(event, kind, value) => {
                event.inv() && kind == event.kind() && value == event.value()
            },
            EventSummary::RelativeAxis(event, kind, value) => {
                event.inv() && kind == event.kind() && value == event.value()
            },
            EventSummary::AbsoluteAxis(event, kind, value) => {
                event.inv() && kind == event.kind() && value == event.value()
            },
            EventSummary::Misc(event, kind, value) => {
                event.inv() && kind == event.kind() && value == event.value()
            },
            EventSummary::Switch(event, kind, value) => {
                event.inv() && kind == event.kind() && value == event.value()
            },
            EventSummary::Led(event, kind, value) => {
                event.inv() && kind == event.kind() && value == event.value()
            },
            EventSummary::Sound(event, kind, value) => {
                event.inv() && kind == event.kind() && value == event.value()
            },
            EventSummary::Repeat(event, kind, value) => {
                event.inv() && kind == event.kind() && value == event.value()
            },
            EventSummary::ForceFeedback(event, kind, value) => {
                event.inv() && kind == event.kind() && value == event.value()
            },
            EventSummary::Power(event, kind, value) => {
                event.inv() && kind == event.kind() && value == event.value()
            },
            EventSummary::ForceFeedbackStatus(event, kind, value) => {
                event.inv() && kind == event.kind() && value == event.value()
            },
            EventSummary::UInput(event, kind, value) => {
                event.inv() && kind == event.kind() && value == event.value()
            },
            EventSummary::Other(event, kind, value) => {
                event.inv() && kind == event.kind() && value == event.value()
            },
        }
    }

    /// The event in the summary as a line of text.
    pub open spec fn spec_describe(&self) -> Seq<char> {
        match *self {
            EventSummary::Synchronization(event, _, _) => event.spec_describe(),
            EventSummary::Key(event, _, _) => event.spec_describe(),
            EventSummary::RelativeAxis(event, _, _) => event.spec_describe(),
            EventSummary::AbsoluteAxis(event, _, _) => event.spec_describe(),
            EventSummary::Misc(event, _, _) => event.spec_describe(),
            EventSummary::Switch(event, _, _) => event.spec_describe(),
            EventSummary::Led(event, _, _) => event.spec_describe(),
            EventSummary::Sound(event, _, _) => event.spec_describe(),
            EventSummary::Repeat(event, _, _) => event.spec_describe(),
            EventSummary::ForceFeedback(event, _, _) => event.spec_describe(),
            EventSummary::Power(event, _, _) => event.spec_describe(),
            EventSummary::ForceFeedbackStatus(event, _, _) => event.spec_describe(),
            EventSummary::UInput(event, _, _) => event.spec_describe(),
            EventSummary::Other(event, _, _) => event.spec_describe(),
        }
    }

    /// Renders the event in the summary for a log, as the event renders
    /// itself.
    pub fn describe(&self) -> (s: String)
        ensures
            s@ == self.spec_describe(),
    {
        match self {
            EventSummary::Synchronization(event, _, _) => event.describe(),
            EventSummary::Key(event, _, _) => event.describe(),
            EventSummary::RelativeAxis(event, _, _) => event.describe(),
            EventSummary::AbsoluteAxis(event, _, _) => event.describe(),
            EventSummary::Misc(event, _, _) => event.describe(),
            EventSummary::Switch(event, _, _) => event.describe(),
            EventSummary::Led(event, _, _) => event.describe(),
            EventSummary::Sound(event, _, _) => event.describe(),
            EventSummary::Repeat(event, _, _) => event.describe(),
            EventSummary::ForceFeedback(event, _, _) => event.describe(),
            EventSummary::Power(event, _, _) => event.describe(),
            EventSummary::ForceFeedbackStatus(event, _, _) => event.describe(),
            EventSummary::UInput(event, _, _) => event.describe(),
            EventSummary::Other(event, _, _) => event.describe(),
        }
    }
}

/// The summary of a record. The type tag alone decides the case: the case of
/// the class that has reserved the tag, or `Other` where none has. The event
/// in it holds the record unchanged; the kind is decoded from the code, and
/// the value is the record's.
pub open spec fn spec_classify(event: InputEvent) -> EventSummary {
    let tag = event.type_tag();
    if tag == event_type::SYNCHRONIZATION {
        EventSummary::Synchronization(
            SynchronizationEvent::wrap(event),
            SynchronizationType(event.code()),
            event.value(),
        )
    } else if tag == event_type::KEY {
        EventSummary::Key(
            KeyEvent::wrap(event),
            KeyType(event.code()),
            event.value(),
        )
    } else if tag == event_type::RELATIVE {
        EventSummary::RelativeAxis(
            RelativeAxisEvent::wrap(event),
            RelativeAxisType(event.code()),
            event.value(),
        )
    } else if tag == event_type::ABSOLUTE {
        EventSummary::AbsoluteAxis(
            AbsoluteAxisEvent::wrap(event),
            AbsoluteAxisType(event.code()),
            event.value(),
        )
    } else if tag == event_type::MISC {
        EventSummary::Misc(
            MiscEvent::wrap(event),
            MiscType(event.code()),
            event.value(),
        )
    } else if tag == event_type::SWITCH {
        EventSummary::Switch(
            SwitchEvent::wrap(event),
            SwitchType(event.code()),
            event.value(),
        )
    } else if tag == event_type::LED {
        EventSummary::Led(
            LedEvent::wrap(event),
            LedType(event.code()),
            event.value(),
        )
    } else if tag == event_type::SOUND {
        EventSummary::Sound(
            SoundEvent::wrap(event),
            SoundType(event.code()),
            event.value(),
        )
    } else if tag == event_type::REPEAT {
        EventSummary::Repeat(
            RepeatEvent::wrap(event),
            RepeatType(event.code()),
            event.value(),
        )
    } else if tag == event_type::FORCEFEEDBACK {
        EventSummary::ForceFeedback(
            FFEvent::wrap(event),
            FFEffectType(event.code()),
            event.value(),
        )
    } else if tag == event_type::POWER {
        EventSummary::Power(
            PowerEvent::wrap(event),
            PowerType(event.code()),
            event.value(),
        )
    } else if tag == event_type::FORCEFEEDBACKSTATUS {
        EventSummary::ForceFeedbackStatus(
            FFStatusEvent::wrap(event),
            FFStatusType(event.code()),
            event.value(),
        )
    } else if tag == event_type::UINPUT {
        EventSummary::UInput(
            UInputEvent::wrap(event),
            UInputType(event.code()),
            event.value(),
        )
    } else {
        EventSummary::Other(OtherEvent::wrap(event), OtherType(tag, event.code()), event.value())
    }
}

/// Sorts a record into its class.
///
/// This is the one place where a record is narrowed to a typed event, and it
/// does so only after it has seen the matching type tag.
#[verifier::when_used_as_spec(spec_classify)]
pub fn classify(event: InputEvent) -> (summary: EventSummary)
    ensures
        summary == spec_classify(event),
        summary.record() == event,
        summary.inv(),
{
    let tag: u16 = event.type_tag();
    if tag == event_type::SYNCHRONIZATION {
        EventSummary::from(SynchronizationEvent::from_event(event))
    } else if tag == event_type::KEY {
        EventSummary::from(KeyEvent::from_event(event))
    } else if tag == event_type::RELATIVE {
        EventSummary::from(RelativeAxisEvent::from_event(event))
    } else if tag == event_type::ABSOLUTE {
        EventSummary::from(AbsoluteAxisEvent::from_event(event))
    } else if tag == event_type::MISC {
        EventSummary::from(MiscEvent::from_event(event))
    } else if tag == event_type::SWITCH {
        EventSummary::from(SwitchEvent::from_event(event))
    } else if tag == event_type::LED {
        EventSummary::from(LedEvent::from_event(event))
    } else if tag == event_type::SOUND {
        EventSummary::from(SoundEvent::from_event(event))
    } else if tag == event_type::REPEAT {
        EventSummary::from(RepeatEvent::from_event(event))
    } else if tag == event_type::FORCEFEEDBACK {
        EventSummary::from(FFEvent::from_event(event))
    } else if tag == event_type::POWER {
        EventSummary::from(PowerEvent::from_event(event))
    } else if tag == event_type::FORCEFEEDBACKSTATUS {
        EventSummary::from(FFStatusEvent::from_event(event))
    } else if tag == event_type::UINPUT {
        EventSummary::from(UInputEvent::from_event(event))
    } else {
        EventSummary::from(OtherEvent::from_event(event))
    }
}

impl InputEvent {
    /// Sorts the record into its class.
    pub fn destructure(self) -> (summary: EventSummary)
        ensures
            summary == spec_classify(self),
            summary.record() == self,
            summary.inv(),
    {
        classify(self)
    }
}

impl From<InputEvent> for EventSummary {
    fn from(event: InputEvent) -> (summary: EventSummary) {
        classify(event)
    }
}

impl FromSpecImpl<InputEvent> for EventSummary {
    open spec fn obeys_from_spec() -> bool {
        true
    }

    /// A record turns into the summary that classification gives it.
    open spec fn from_spec(event: InputEvent) -> EventSummary {
        spec_classify(event)
    }
}

impl From<SynchronizationEvent> for EventSummary {
    fn from(event: SynchronizationEvent) -> (summary: EventSummary) {
        let (kind, value) = event.destructure();
        EventSummary::Synchronization(event, kind, value)
    }
}

impl FromSpecImpl<SynchronizationEvent> for EventSummary {
    open spec fn obeys_from_spec() -> bool {
        true
    }

    /// A typed event turns into the case of its class, with its kind and
    /// its value beside it.
    open spec fn from_spec(event: SynchronizationEvent) -> EventSummary {
        EventSummary::Synchronization(event, event.kind(), event.value())
    }
}

impl From<KeyEvent> for EventSummary {
    fn from(event: KeyEvent) -> (summary: EventSummary) {
        let (kind, value) = event.destructure();
        EventSummary::Key(event, kind, value)
    }
}

impl FromSpecImpl<KeyEvent> for EventSummary {
    open spec fn obeys_from_spec() -> bool {
        true
    }

    /// A typed event turns into the case of its class, with its kind and
    /// its value beside it.
    open spec fn from_spec(event: KeyEvent) -> EventSummary {
        EventSummary::Key(event, event.kind(), event.value())
    }
}

impl From<RelativeAxisEvent> for EventSummary {
    fn from(event: RelativeAxisEvent) -> (summary: EventSummary) {
        let (kind, value) = event.destructure();
        EventSummary::RelativeAxis(event, kind, value)
    }
}

impl FromSpecImpl<RelativeAxisEvent> for EventSummary {
    open spec fn obeys_from_spec() -> bool {
        true
    }

    /// A typed event turns into the case of its class, with its kind and
    /// its value beside it.
    open spec fn from_spec(event: RelativeAxisEvent) -> EventSummary {
        EventSummary::RelativeAxis(event, event.kind(), event.value())
    }
}

impl From<AbsoluteAxisEvent> for EventSummary {
    fn from(event: AbsoluteAxisEvent) -> (summary: EventSummary) {
        let (kind, value) = event.destructure();
        EventSummary::AbsoluteAxis(event, kind, value)
    }
}

impl FromSpecImpl<AbsoluteAxisEvent> for EventSummary {
    open spec fn obeys_from_spec() -> bool {
        true
    }

    /// A typed event turns into the case of its class, with its kind and
    /// its value beside it.
    open spec fn from_spec(event: AbsoluteAxisEvent) -> EventSummary {
        EventSummary::AbsoluteAxis(event, event.kind(), event.value())
    }
}

impl From<MiscEvent> for EventSummary {
    fn from(event: MiscEvent) -> (summary: EventSummary) {
        let (kind, value) = event.destructure();
        EventSummary::Misc(event, kind, value)
    }
}

impl FromSpecImpl<MiscEvent> for EventSummary {
    open spec fn obeys_from_spec() -> bool {
        true
    }

    /// A typed event turns into the case of its class, with its kind and
    /// its value beside it.
    open spec fn from_spec(event: MiscEvent) -> EventSummary {
        EventSummary::Misc(event, event.kind(), event.value())
    }
}

impl From<SwitchEvent> for EventSummary {
    fn from(event: SwitchEvent) -> (summary: EventSummary) {
        let (kind, value) = event.destructure();
        EventSummary::Switch(event, kind, value)
    }
}

impl FromSpecImpl<SwitchEvent> for EventSummary {
    open spec fn obeys_from_spec() -> bool {
        true
    }

    /// A typed event turns into the case of its class, with its kind and
    /// its value beside it.
    open spec fn from_spec(event: SwitchEvent) -> EventSummary {
        EventSummary::Switch(event, event.kind(), event.value())
    }
}

impl From<LedEvent> for EventSummary {
    fn from(event: LedEvent) -> (summary: EventSummary) {
        let (kind, value) = event.destructure();
        EventSummary::Led(event, kind, value)
    }
}

impl FromSpecImpl<LedEvent> for EventSummary {
    open spec fn obeys_from_spec() -> bool {
        true
    }

    /// A typed event turns into the case of its class, with its kind and
    /// its value beside it.
    open spec fn from_spec(event: LedEvent) -> EventSummary {
        EventSummary::Led(event, event.kind(), event.value())
    }
}

impl From<SoundEvent> for EventSummary {
    fn from(event: SoundEvent) -> (summary: EventSummary) {
        let (kind, value) = event.destructure();
        EventSummary::Sound(event, kind, value)
    }
}

impl FromSpecImpl<SoundEvent> for EventSummary {
    open spec fn obeys_from_spec() -> bool {
        true
    }

    /// A typed event turns into the case of its class, with its kind and
    /// its value beside it.
    open spec fn from_spec(event: SoundEvent) -> EventSummary {
        EventSummary::Sound(event, event.kind(), event.value())
    }
}

impl From<RepeatEvent> for EventSummary {
    fn from(event: RepeatEvent) -> (summary: EventSummary) {
        let (kind, value) = event.destructure();
        EventSummary::Repeat(event, kind, value)
    }
}

impl FromSpecImpl<RepeatEvent> for EventSummary {
    open spec fn obeys_from_spec() -> bool {
        true
    }

    /// A typed event turns into the case of its class, with its kind and
    /// its value beside it.
    open spec fn from_spec(event: RepeatEvent) -> EventSummary {
        EventSummary::Repeat(event, event.kind(), event.value())
    }
}

impl From<FFEvent> for EventSummary {
    fn from(event: FFEvent) -> (summary: EventSummary) {
        let (kind, value) = event.destructure();
        EventSummary::ForceFeedback(event, kind, value)
    }
}

impl FromSpecImpl<FFEvent> for EventSummary {
    open spec fn obeys_from_spec() -> bool {
        true
    }

    /// A typed event turns into the case of its class, with its kind and
    /// its value beside it.
    open spec fn from_spec(event: FFEvent) -> EventSummary {
        EventSummary::ForceFeedback(event, event.kind(), event.value())
    }
}

impl From<PowerEvent> for EventSummary {
    fn from(event: PowerEvent) -> (summary: EventSummary) {
        let (kind, value) = event.destructure();
        EventSummary::Power(event, kind, value)
    }
}

impl FromSpecImpl<PowerEvent> for EventSummary {
    open spec fn obeys_from_spec() -> bool {
        true
    }

    /// A typed event turns into the case of its class, with its kind and
    /// its value beside it.
    open spec fn from_spec(event: PowerEvent) -> EventSummary {
        EventSummary::Power(event, event.kind(), event.value())
    }
}

impl From<FFStatusEvent> for EventSummary {
    fn from(event: FFStatusEvent) -> (summary: EventSummary) {
        let (kind, value) = event.destructure();
        EventSummary::ForceFeedbackStatus(event, kind, value)
    }
}

impl FromSpecImpl<FFStatusEvent> for EventSummary {
    open spec fn obeys_from_spec() -> bool {
        true
    }

    /// A typed event turns into the case of its class, with its kind and
    /// its value beside it.
    open spec fn from_spec(event: FFStatusEvent) -> EventSummary {
        EventSummary::ForceFeedbackStatus(event, event.kind(), event.value())
    }
}

impl From<UInputEvent> for EventSummary {
    fn from(event: UInputEvent) -> (summary: EventSummary) {
        let (kind, value) = event.destructure();
        EventSummary::UInput(event, kind, value)
    }
}

impl FromSpecImpl<UInputEvent> for EventSummary {
    open spec fn obeys_from_spec() -> bool {
        true
    }

    /// A typed event turns into the case of its class, with its kind and
    /// its value beside it.
    open spec fn from_spec(event: UInputEvent) -> EventSummary {
        EventSummary::UInput(event, event.kind(), event.value())
    }
}

impl From<OtherEvent> for EventSummary {
    fn from(event: OtherEvent) -> (summary: EventSummary) {
        let (kind, value) = event.destructure();
        EventSummary::Other(event, kind, value)
    }
}

impl FromSpecImpl<OtherEvent> for EventSummary {
    open spec fn obeys_from_spec() -> bool {
        true
    }

    /// A typed event turns into the case of its class, with its kind and
    /// its value beside it.
    open spec fn from_spec(event: OtherEvent) -> EventSummary {
        EventSummary::Other(event, event.kind(), event.value())
    }
}

} // verus!
