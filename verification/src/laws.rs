//! What holds of classification as a whole: every type tag has exactly one
//! case, and a typed event that is widened to a record and classified again
//! comes back as it was.

use crate::event::InputEvent;
use crate::event_type;
use crate::kinds::{
    AbsoluteAxisType, FFEffectType, FFStatusType, KeyType, LedType, MiscType, PowerType,
    RelativeAxisType, RepeatType, SoundType, SwitchType, SynchronizationType, UInputType,
};
use crate::summary::{classify, EventSummary};
use crate::time::Timestamp;
use crate::variants::absolute_axis::AbsoluteAxisEvent;
use crate::variants::force_feedback::FFEvent;
use crate::variants::force_feedback_status::FFStatusEvent;
use crate::variants::key::KeyEvent;
use crate::variants::led::LedEvent;
use crate::variants::misc::MiscEvent;
use crate::variants::other::OtherEvent;
use crate::variants::power::PowerEvent;
use crate::variants::relative_axis::RelativeAxisEvent;
use crate::variants::repeat::RepeatEvent;
use crate::variants::sound::SoundEvent;
use crate::variants::switch::SwitchEvent;
use crate::variants::synchronization::SynchronizationEvent;
use crate::variants::uinput::UInputEvent;
use vstd::prelude::*;
use vstd::std_specs::convert::FromSpec;

verus! {

/// Every record falls into exactly one case, and its type tag alone says
/// which: the case of a known class exactly when the record carries the tag
/// reserved for that class, and `Other` exactly when it carries a tag that no
/// class has reserved. So no tag is left without a case, and none has two.
pub proof fn lemma_one_case_per_tag(event: InputEvent)
    ensures
        classify(event) is Synchronization <==> event.type_tag() == event_type::SYNCHRONIZATION,
        classify(event) is Key <==> event.type_tag() == event_type::KEY,
        classify(event) is RelativeAxis <==> event.type_tag() == event_type::RELATIVE,
        classify(event) is AbsoluteAxis <==> event.type_tag() == event_type::ABSOLUTE,
        classify(event) is Misc <==> event.type_tag() == event_type::MISC,
        classify(event) is Switch <==> event.type_tag() == event_type::SWITCH,
        classify(event) is Led <==> event.type_tag() == event_type::LED,
        classify(event) is Sound <==> event.type_tag() == event_type::SOUND,
        classify(event) is Repeat <==> event.type_tag() == event_type::REPEAT,
        classify(event) is ForceFeedback <==> event.type_tag() == event_type::FORCEFEEDBACK,
        classify(event) is Power <==> event.type_tag() == event_type::POWER,
        classify(event) is ForceFeedbackStatus <==> event.type_tag()
            == event_type::FORCEFEEDBACKSTATUS,
        classify(event) is UInput <==> event.type_tag() == event_type::UINPUT,
        classify(event) is Other <==> !event_type::is_known(event.type_tag()),
{
}

/// The event in a summary holds the record that was classified, whole, and
/// is a valid event of its type: classification loses nothing and narrows
/// only where the tag matches.
pub proof fn lemma_classify_keeps_record(event: InputEvent)
    ensures
        classify(event).record() == event,
        classify(event).inv(),
{
    broadcast use {
        AbsoluteAxisEvent::lemma_wrap_event,
        FFEvent::lemma_wrap_event,
        FFStatusEvent::lemma_wrap_event,
        KeyEvent::lemma_wrap_event,
        LedEvent::lemma_wrap_event,
        MiscEvent::lemma_wrap_event,
        OtherEvent::lemma_wrap_event,
        PowerEvent::lemma_wrap_event,
        RelativeAxisEvent::lemma_wrap_event,
        RepeatEvent::lemma_wrap_event,
        SoundEvent::lemma_wrap_event,
        SwitchEvent::lemma_wrap_event,
        SynchronizationEvent::lemma_wrap_event,
        UInputEvent::lemma_wrap_event,
    };
}

/// An event of the synchronization class that is built from a kind and a value,
/// widened to a record and classified comes back in the `Synchronization` case, as the
/// same event with the same kind and the same value; its timestamp is zero.
pub proof fn lemma_synchronization_new_round_trip(kind: SynchronizationType, value: i32)
    ensures
        classify(
            InputEvent::from_spec(SynchronizationEvent::new(kind, value)),
        ) == EventSummary::Synchronization(SynchronizationEvent::new(kind, value), kind, value),
        SynchronizationEvent::new(kind, value).timestamp() == Timestamp::zero(),
        SynchronizationEvent::new(kind, value).inv(),
{
    let zero = Timestamp::zero();
    let record = InputEvent::with_time(zero, event_type::SYNCHRONIZATION, kind.0, value);
    InputEvent::lemma_fields(zero, event_type::SYNCHRONIZATION, kind.0, value);
    SynchronizationEvent::lemma_wrap_event(record);
}

/// Any valid event of the synchronization class that is widened to a record and
/// classified comes back in the `Synchronization` case, as the same event with its
/// own kind and value.
pub proof fn lemma_synchronization_round_trip(event: SynchronizationEvent)
    requires
        event.inv(),
    ensures
        classify(InputEvent::from_spec(event)) == EventSummary::Synchronization(
            event,
            event.kind(),
            event.value(),
        ),
{
    event.lemma_event_wrap();
}

/// An event of the key class that is built from a kind and a value,
/// widened to a record and classified comes back in the `Key` case, as the
/// same event with the same kind and the same value; its timestamp is zero.
pub proof fn lemma_key_new_round_trip(kind: KeyType, value: i32)
    ensures
        classify(
            InputEvent::from_spec(KeyEvent::new(kind, value)),
        ) == EventSummary::Key(KeyEvent::new(kind, value), kind, value),
        KeyEvent::new(kind, value).timestamp() == Timestamp::zero(),
        KeyEvent::new(kind, value).inv(),
{
    let zero = Timestamp::zero();
    let record = InputEvent::with_time(zero, event_type::KEY, kind.0, value);
    InputEvent::lemma_fields(zero, event_type::KEY, kind.0, value);
    KeyEvent::lemma_wrap_event(record);
}

/// Any valid event of the key class that is widened to a record and
/// classified comes back in the `Key` case, as the same event with its
/// own kind and value.
pub proof fn lemma_key_round_trip(event: KeyEvent)
    requires
        event.inv(),
    ensures
        classify(InputEvent::from_spec(event)) == EventSummary::Key(
            event,
            event.kind(),
            event.value(),
        ),
{
    event.lemma_event_wrap();
}

/// An event of the relative-axis class that is built from a kind and a value,
/// widened to a record and classified comes back in the `RelativeAxis` case, as the
/// same event with the same kind and the same value; its timestamp is zero.
pub proof fn lemma_relative_axis_new_round_trip(kind: RelativeAxisType, value: i32)
    ensures
        classify(
            InputEvent::from_spec(RelativeAxisEvent::new(kind, value)),
        ) == EventSummary::RelativeAxis(RelativeAxisEvent::new(kind, value), kind, value),
        RelativeAxisEvent::new(kind, value).timestamp() == Timestamp::zero(),
        RelativeAxisEvent::new(kind, value).inv(),
{
    let zero = Timestamp::zero();
    let record = InputEvent::with_time(zero, event_type::RELATIVE, kind.0, value);
    InputEvent::lemma_fields(zero, event_type::RELATIVE, kind.0, value);
    RelativeAxisEvent::lemma_wrap_event(record);
}

/// Any valid event of the relative-axis class that is widened to a record and
/// classified comes back in the `RelativeAxis` case, as the same event with its
/// own kind and value.
pub proof fn lemma_relative_axis_round_trip(event: RelativeAxisEvent)
    requires
        event.inv(),
    ensures
        classify(InputEvent::from_spec(event)) == EventSummary::RelativeAxis(
            event,
            event.kind(),
            event.value(),
        ),
{
    event.lemma_event_wrap();
}

/// An event of the absolute-axis class that is built from a kind and a value,
/// widened to a record and classified comes back in the `AbsoluteAxis` case, as the
/// same event with the same kind and the same value; its timestamp is zero.
pub proof fn lemma_absolute_axis_new_round_trip(kind: AbsoluteAxisType, value: i32)
    ensures
        classify(
            InputEvent::from_spec(AbsoluteAxisEvent::new(kind, value)),
        ) == EventSummary::AbsoluteAxis(AbsoluteAxisEvent::new(kind, value), kind, value),
        AbsoluteAxisEvent::new(kind, value).timestamp() == Timestamp::zero(),
        AbsoluteAxisEvent::new(kind, value).inv(),
{
    let zero = Timestamp::zero();
    let record = InputEvent::with_time(zero, event_type::ABSOLUTE, kind.0, value);
    InputEvent::lemma_fields(zero, event_type::ABSOLUTE, kind.0, value);
    AbsoluteAxisEvent::lemma_wrap_event(record);
}

/// Any valid event of the absolute-axis class that is widened to a record and
/// classified comes back in the `AbsoluteAxis` case, as the same event with its
/// own kind and value.
pub proof fn lemma_absolute_axis_round_trip(event: AbsoluteAxisEvent)
    requires
        event.inv(),
    ensures
        classify(InputEvent::from_spec(event)) == EventSummary::AbsoluteAxis(
            event,
            event.kind(),
            event.value(),
        ),
{
    event.lemma_event_wrap();
}

/// An event of the miscellaneous class that is built from a kind and a value,
/// widened to a record and classified comes back in the `Misc` case, as the
/// same event with the same kind and the same value; its timestamp is zero.
pub proof fn lemma_misc_new_round_trip(kind: MiscType, value: i32)
    ensures
        classify(
            InputEvent::from_spec(MiscEvent::new(kind, value)),
        ) == EventSummary::Misc(MiscEvent::new(kind, value), kind, value),
        MiscEvent::new(kind, value).timestamp() == Timestamp::zero(),
        MiscEvent::new(kind, value).inv(),
{
    let zero = Timestamp::zero();
    let record = InputEvent::with_time(zero, event_type::MISC, kind.0, value);
    InputEvent::lemma_fields(zero, event_type::MISC, kind.0, value);
    MiscEvent::lemma_wrap_event(record);
}

/// Any valid event of the miscellaneous class that is widened to a record and
/// classified comes back in the `Misc` case, as the same event with its
/// own kind and value.
pub proof fn lemma_misc_round_trip(event: MiscEvent)
    requires
        event.inv(),
    ensures
        classify(InputEvent::from_spec(event)) == EventSummary::Misc(
            event,
            event.kind(),
            event.value(),
        ),
{
    event.lemma_event_wrap();
}

/// An event of the switch class that is built from a kind and a value,
/// widened to a record and classified comes back in the `Switch` case, as the
/// same event with the same kind and the same value; its timestamp is zero.
pub proof fn lemma_switch_new_round_trip(kind: SwitchType, value: i32)
    ensures
        classify(
            InputEvent::from_spec(SwitchEvent::new(kind, value)),
        ) == EventSummary::Switch(SwitchEvent::new(kind, value), kind, value),
        SwitchEvent::new(kind, value).timestamp() == Timestamp::zero(),
        SwitchEvent::new(kind, value).inv(),
{
    let zero = Timestamp::zero();
    let record = InputEvent::with_time(zero, event_type::SWITCH, kind.0, value);
    InputEvent::lemma_fields(zero, event_type::SWITCH, kind.0, value);
    SwitchEvent::lemma_wrap_event(record);
}

/// Any valid event of the switch class that is widened to a record and
/// classified comes back in the `Switch` case, as the same event with its
/// own kind and value.
pub proof fn lemma_switch_round_trip(event: SwitchEvent)
    requires
        event.inv(),
    ensures
        classify(InputEvent::from_spec(event)) == EventSummary::Switch(
            event,
            event.kind(),
            event.value(),
        ),
{
    event.lemma_event_wrap();
}

/// An event of the light class that is built from a kind and a value,
/// widened to a record and classified comes back in the `Led` case, as the
/// same event with the same kind and the same value; its timestamp is zero.
pub proof fn lemma_led_new_round_trip(kind: LedType, value: i32)
    ensures
        classify(
            InputEvent::from_spec(LedEvent::new(kind, value)),
        ) == EventSummary::Led(LedEvent::new(kind, value), kind, value),
        LedEvent::new(kind, value).timestamp() == Timestamp::zero(),
        LedEvent::new(kind, value).inv(),
{
    let zero = Timestamp::zero();
    let record = InputEvent::with_time(zero, event_type::LED, kind.0, value);
    InputEvent::lemma_fields(zero, event_type::LED, kind.0, value);
    LedEvent::lemma_wrap_event(record);
}

/// Any valid event of the light class that is widened to a record and
/// classified comes back in the `Led` case, as the same event with its
/// own kind and value.
pub proof fn lemma_led_round_trip(event: LedEvent)
    requires
        event.inv(),
    ensures
        classify(InputEvent::from_spec(event)) == EventSummary::Led(
            event,
            event.kind(),
            event.value(),
        ),
{
    event.lemma_event_wrap();
}

/// An event of the sound class that is built from a kind and a value,
/// widened to a record and classified comes back in the `Sound` case, as the
/// same event with the same kind and the same value; its timestamp is zero.
pub proof fn lemma_sound_new_round_trip(kind: SoundType, value: i32)
    ensures
        classify(
            InputEvent::from_spec(SoundEvent::new(kind, value)),
        ) == EventSummary::Sound(SoundEvent::new(kind, value), kind, value),
        SoundEvent::new(kind, value).timestamp() == Timestamp::zero(),
        SoundEvent::new(kind, value).inv(),
{
    let zero = Timestamp::zero();
    let record = InputEvent::with_time(zero, event_type::SOUND, kind.0, value);
    InputEvent::lemma_fields(zero, event_type::SOUND, kind.0, value);
    SoundEvent::lemma_wrap_event(record);
}

/// Any valid event of the sound class that is widened to a record and
/// classified comes back in the `Sound` case, as the same event with its
/// own kind and value.
pub proof fn lemma_sound_round_trip(event: SoundEvent)
    requires
        event.inv(),
    ensures
        classify(InputEvent::from_spec(event)) == EventSummary::Sound(
            event,
            event.kind(),
            event.value(),
        ),
{
    event.lemma_event_wrap();
}

/// An event of the repeat class that is built from a kind and a value,
/// widened to a record and classified comes back in the `Repeat` case, as the
/// same event with the same kind and the same value; its timestamp is zero.
pub proof fn lemma_repeat_new_round_trip(kind: RepeatType, value: i32)
    ensures
        classify(
            InputEvent::from_spec(RepeatEvent::new(kind, value)),
        ) == EventSummary::Repeat(RepeatEvent::new(kind, value), kind, value),
        RepeatEvent::new(kind, value).timestamp() == Timestamp::zero(),
        RepeatEvent::new(kind, value).inv(),
{
    let zero = Timestamp::zero();
    let record = InputEvent::with_time(zero, event_type::REPEAT, kind.0, value);
    InputEvent::lemma_fields(zero, event_type::REPEAT, kind.0, value);
    RepeatEvent::lemma_wrap_event(record);
}

/// Any valid event of the repeat class that is widened to a record and
/// classified comes back in the `Repeat` case, as the same event with its
/// own kind and value.
pub proof fn lemma_repeat_round_trip(event: RepeatEvent)
    requires
        event.inv(),
    ensures
        classify(InputEvent::from_spec(event)) == EventSummary::Repeat(
            event,
            event.kind(),
            event.value(),
        ),
{
    event.lemma_event_wrap();
}

/// An event of the force-feedback class that is built from a kind and a value,
/// widened to a record and classified comes back in the `ForceFeedback` case, as the
/// same event with the same kind and the same value; its timestamp is zero.
pub proof fn lemma_force_feedback_new_round_trip(kind: FFEffectType, value: i32)
    ensures
        classify(
            InputEvent::from_spec(FFEvent::new(kind, value)),
        ) == EventSummary::ForceFeedback(FFEvent::new(kind, value), kind, value),
        FFEvent::new(kind, value).timestamp() == Timestamp::zero(),
        FFEvent::new(kind, value).inv(),
{
    let zero = Timestamp::zero();
    let record = InputEvent::with_time(zero, event_type::FORCEFEEDBACK, kind.0, value);
    InputEvent::lemma_fields(zero, event_type::FORCEFEEDBACK, kind.0, value);
    FFEvent::lemma_wrap_event(record);
}

/// Any valid event of the force-feedback class that is widened to a record and
/// classified comes back in the `ForceFeedback` case, as the same event with its
/// own kind and value.
pub proof fn lemma_force_feedback_round_trip(event: FFEvent)
    requires
        event.inv(),
    ensures
        classify(InputEvent::from_spec(event)) == EventSummary::ForceFeedback(
            event,
            event.kind(),
            event.value(),
        ),
{
    event.lemma_event_wrap();
}

/// An event of the power class that is built from a kind and a value,
/// widened to a record and classified comes back in the `Power` case, as the
/// same event with the same kind and the same value; its timestamp is zero.
pub proof fn lemma_power_new_round_trip(kind: PowerType, value: i32)
    ensures
        classify(
            InputEvent::from_spec(PowerEvent::new(kind, value)),
        ) == EventSummary::Power(PowerEvent::new(kind, value), kind, value),
        PowerEvent::new(kind, value).timestamp() == Timestamp::zero(),
        PowerEvent::new(kind, value).inv(),
{
    let zero = Timestamp::zero();
    let record = InputEvent::with_time(zero, event_type::POWER, kind.0, value);
    InputEvent::lemma_fields(zero, event_type::POWER, kind.0, value);
    PowerEvent::lemma_wrap_event(record);
}

/// Any valid event of the power class that is widened to a record and
/// classified comes back in the `Power` case, as the same event with its
/// own kind and value.
pub proof fn lemma_power_round_trip(event: PowerEvent)
    requires
        event.inv(),
    ensures
        classify(InputEvent::from_spec(event)) == EventSummary::Power(
            event,
            event.kind(),
            event.value(),
        ),
{
    event.lemma_event_wrap();
}

/// An event of the force-feedback status class that is built from a kind and a value,
/// widened to a record and classified comes back in the `ForceFeedbackStatus` case, as the
/// same event with the same kind and the same value; its timestamp is zero.
pub proof fn lemma_force_feedback_status_new_round_trip(kind: FFStatusType, value: i32)
    ensures
        classify(
            InputEvent::from_spec(FFStatusEvent::new(kind, value)),
        ) == EventSummary::ForceFeedbackStatus(FFStatusEvent::new(kind, value), kind, value),
        FFStatusEvent::new(kind, value).timestamp() == Timestamp::zero(),
        FFStatusEvent::new(kind, value).inv(),
{
    let zero = Timestamp::zero();
    let record = InputEvent::with_time(zero, event_type::FORCEFEEDBACKSTATUS, kind.0, value);
    InputEvent::lemma_fields(zero, event_type::FORCEFEEDBACKSTATUS, kind.0, value);
    FFStatusEvent::lemma_wrap_event(record);
}

/// Any valid event of the force-feedback status class that is widened to a record and
/// classified comes back in the `ForceFeedbackStatus` case, as the same event with its
/// own kind and value.
pub proof fn lemma_force_feedback_status_round_trip(event: FFStatusEvent)
    requires
        event.inv(),
    ensures
        classify(InputEvent::from_spec(event)) == EventSummary::ForceFeedbackStatus(
            event,
            event.kind(),
            event.value(),
        ),
{
    event.lemma_event_wrap();
}

/// An event of the virtual-device class that is built from a kind and a value,
/// widened to a record and classified comes back in the `UInput` case, as the
/// same event with the same kind and the same value; its timestamp is zero.
pub proof fn lemma_uinput_new_round_trip(kind: UInputType, value: i32)
    ensures
        classify(
            InputEvent::from_spec(UInputEvent::new(kind, value)),
        ) == EventSummary::UInput(UInputEvent::new(kind, value), kind, value),
        UInputEvent::new(kind, value).timestamp() == Timestamp::zero(),
        UInputEvent::new(kind, value).inv(),
{
    let zero = Timestamp::zero();
    let record = InputEvent::with_time(zero, event_type::UINPUT, kind.0, value);
    InputEvent::lemma_fields(zero, event_type::UINPUT, kind.0, value);
    UInputEvent::lemma_wrap_event(record);
}

/// Any valid event of the virtual-device class that is widened to a record and
/// classified comes back in the `UInput` case, as the same event with its
/// own kind and value.
pub proof fn lemma_uinput_round_trip(event: UInputEvent)
    requires
        event.inv(),
    ensures
        classify(InputEvent::from_spec(event)) == EventSummary::UInput(
            event,
            event.kind(),
            event.value(),
        ),
{
    event.lemma_event_wrap();
}

/// An event of no known class that is widened to a record and classified
/// comes back in the `Other` case, as the same event with its own kind and
/// value.
pub proof fn lemma_other_round_trip(event: OtherEvent)
    requires
        event.inv(),
    ensures
        classify(InputEvent::from_spec(event)) == EventSummary::Other(
            event,
            event.kind(),
            event.value(),
        ),
{
    event.lemma_event_wrap();
}

} // verus!
