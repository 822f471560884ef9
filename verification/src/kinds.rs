//! The kinds of events: what a code means within its class.
//!
//! Which code stands for which key, axis or light is laid down elsewhere;
//! here a kind is the code, labelled with the class that gives it meaning.

use vstd::prelude::*;

verus! {

/// The code of a synchronization marker.
#[derive(Clone, Copy, Debug, PartialEq, Eq, Hash, Structural)]
pub struct SynchronizationType(pub u16);

/// The code of a key or a button.
#[derive(Clone, Copy, Debug, PartialEq, Eq, Hash, Structural)]
pub struct KeyType(pub u16);

/// The code of a relative axis.
#[derive(Clone, Copy, Debug, PartialEq, Eq, Hash, Structural)]
pub struct RelativeAxisType(pub u16);

/// The code of an absolute axis.
#[derive(Clone, Copy, Debug, PartialEq, Eq, Hash, Structural)]
pub struct AbsoluteAxisType(pub u16);

/// The code of a miscellaneous report.
#[derive(Clone, Copy, Debug, PartialEq, Eq, Hash, Structural)]
pub struct MiscType(pub u16);

/// The code of a switch.
#[derive(Clone, Copy, Debug, PartialEq, Eq, Hash, Structural)]
pub struct SwitchType(pub u16);

/// The code of a light.
#[derive(Clone, Copy, Debug, PartialEq, Eq, Hash, Structural)]
pub struct LedType(pub u16);

/// The code of a sound.
#[derive(Clone, Copy, Debug, PartialEq, Eq, Hash, Structural)]
pub struct SoundType(pub u16);

/// The code of an auto-repeat setting.
#[derive(Clone, Copy, Debug, PartialEq, Eq, Hash, Structural)]
pub struct RepeatType(pub u16);

/// The code of a force-feedback effect.
#[derive(Clone, Copy, Debug, PartialEq, Eq, Hash, Structural)]
pub struct FFEffectType(pub u16);

/// The code of a power report.
#[derive(Clone, Copy, Debug, PartialEq, Eq, Hash, Structural)]
pub struct PowerType(pub u16);

/// The code of a force-feedback status.
#[derive(Clone, Copy, Debug, PartialEq, Eq, Hash, Structural)]
pub struct FFStatusType(pub u16);

/// The code of a request to a virtual device.
#[derive(Clone, Copy, Debug, PartialEq, Eq, Hash, Structural)]
pub struct UInputType(pub u16);

/// The kind of an event of no known class: its type tag and its code.
#[derive(Clone, Copy, Debug, PartialEq, Eq, Hash, Structural)]
pub struct OtherType(pub u16, pub u16);

} // verus!
