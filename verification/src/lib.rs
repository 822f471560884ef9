//! Typed views over raw input-event records.
//!
//! A raw record says which class it belongs to only through a numeric type
//! tag. This crate gives each known class an event type of its own, whose
//! values always carry the tag of that class, and sorts any record into the
//! case of its class.

pub mod event;
pub mod event_type;
pub mod kinds;
pub mod laws;
pub mod summary;
pub mod text;
pub mod time;
pub mod variants;

pub use event::InputEvent;
pub use kinds::{
    AbsoluteAxisType, FFEffectType, FFStatusType, KeyType, LedType, MiscType, OtherType,
    PowerType, RelativeAxisType, RepeatType, SoundType, SwitchType, SynchronizationType,
    UInputType,
};
pub use summary::{classify, EventSummary};
pub use time::Timestamp;
pub use variants::absolute_axis::AbsoluteAxisEvent;
pub use variants::force_feedback::FFEvent;
pub use variants::force_feedback_status::FFStatusEvent;
pub use variants::key::KeyEvent;
pub use variants::led::LedEvent;
pub use variants::misc::MiscEvent;
pub use variants::other::OtherEvent;
pub use variants::power::PowerEvent;
pub use variants::relative_axis::RelativeAxisEvent;
pub use variants::repeat::RepeatEvent;
pub use variants::sound::SoundEvent;
pub use variants::switch::SwitchEvent;
pub use variants::synchronization::SynchronizationEvent;
pub use variants::uinput::UInputEvent;
