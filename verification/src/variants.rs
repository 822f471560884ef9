//! One event type for each known class, and one for the rest.

pub mod absolute_axis;
pub mod force_feedback;
pub mod force_feedback_status;
pub mod key;
pub mod led;
pub mod misc;
pub mod other;
pub mod power;
pub mod relative_axis;
pub mod repeat;
pub mod sound;
pub mod switch;
pub mod synchronization;
pub mod uinput;
