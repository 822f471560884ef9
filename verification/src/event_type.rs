//! The type tags that are reserved for the known classes of events.
//!
//! Each known class has one tag, and no two classes share one. Every other
//! value of the sixteen bits belongs to no class.

use vstd::prelude::*;

verus! {

/// Markers that group events into reports.
pub const SYNCHRONIZATION: u16 = 0x00;

/// Keys and buttons.
pub const KEY: u16 = 0x01;

/// Relative axes, such as the movement of a mouse.
pub const RELATIVE: u16 = 0x02;

/// Absolute axes, such as the position on a touch screen.
pub const ABSOLUTE: u16 = 0x03;

/// Reports that fit no other class.
pub const MISC: u16 = 0x04;

/// Switches with two states, such as a lid.
pub const SWITCH: u16 = 0x05;

/// Lights on the device.
pub const LED: u16 = 0x11;

/// Sounds that the device can make.
pub const SOUND: u16 = 0x12;

/// Settings of the auto-repeat of keys.
pub const REPEAT: u16 = 0x14;

/// Commands to force-feedback effects.
pub const FORCEFEEDBACK: u16 = 0x15;

/// Power buttons and switches.
pub const POWER: u16 = 0x16;

/// The status of force-feedback effects.
pub const FORCEFEEDBACKSTATUS: u16 = 0x17;

/// Requests that a virtual device hands to its owner.
pub const UINPUT: u16 = 0x0101;

/// Whether a type tag is reserved for one of the known classes.
pub open spec fn spec_is_known(tag: u16) -> bool {
    ||| tag == SYNCHRONIZATION
    ||| tag == KEY
    ||| tag == RELATIVE
    ||| tag == ABSOLUTE
    ||| tag == MISC
    ||| tag == SWITCH
    ||| tag == LED
    ||| tag == SOUND
    ||| tag == REPEAT
    ||| tag == FORCEFEEDBACK
    ||| tag == POWER
    ||| tag == FORCEFEEDBACKSTATUS
    ||| tag == UINPUT
}

/// Whether a type tag is reserved for one of the known classes.
#[verifier::when_used_as_spec(spec_is_known)]
pub fn is_known(tag: u16) -> (known: bool)
    ensures
        known == spec_is_known(tag),
{
    tag == SYNCHRONIZATION || tag == KEY || tag == RELATIVE || tag == ABSOLUTE || tag == MISC
        || tag == SWITCH || tag == LED || tag == SOUND || tag == REPEAT || tag == FORCEFEEDBACK
        || tag == POWER || tag == FORCEFEEDBACKSTATUS || tag == UINPUT
}

} // verus!
