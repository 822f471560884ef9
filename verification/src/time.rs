//! Wall-clock instants in whole seconds and microseconds.

use std::time::{Duration, SystemTime, SystemTimeError, UNIX_EPOCH};
use vstd::prelude::*;
use vstd::std_specs::cmp::PartialEqSpecImpl;

verus! {

/// Microseconds in one second.
pub const MICROS_PER_SEC: u32 = 1_000_000;

/// An instant as an offset from the epoch: whole seconds and microseconds.
///
/// Both parts are kept as they arrive and no range is imposed on either, so
/// that any pair a kernel hands over can be held. An instant before the epoch
/// has a negative `sec`; its `usec` counts away from the epoch as well.
#[derive(Clone, Copy, Debug, Hash)]
pub struct Timestamp {
    pub sec: i64,
    pub usec: i64,
}

impl Timestamp {
    /// The epoch itself: zero seconds, zero microseconds.
    pub open spec fn spec_zero() -> Timestamp {
        Timestamp { sec: 0, usec: 0 }
    }

    /// The instant that lies `secs` seconds and `micros` microseconds after
    /// the epoch, or before it where `after_epoch` is false. A count of
    /// seconds beyond `i64::MAX` is held at `i64::MAX`.
    pub open spec fn spec_from_epoch_offset(
        after_epoch: bool,
        secs: u64,
        micros: u32,
    ) -> Timestamp {
        let whole: int = if secs <= i64::MAX {
            secs as int
        } else {
            i64::MAX as int
        };
        Timestamp {
            sec: if after_epoch {
                whole as i64
            } else {
                (-whole) as i64
            },
            usec: micros as i64,
        }
    }

    /// The epoch itself.
    #[verifier::when_used_as_spec(spec_zero)]
    pub fn zero() -> (t: Timestamp)
        ensures
            t == Timestamp::spec_zero(),
    {
        Timestamp { sec: 0, usec: 0 }
    }

    /// The timestamp with the given two parts.
    pub fn new(sec: i64, usec: i64) -> (t: Timestamp)
        ensures
            t == (Timestamp { sec, usec }),
    {
        Timestamp { sec, usec }
    }

    /// Turns a distance from the epoch into a timestamp.
    #[verifier::when_used_as_spec(spec_from_epoch_offset)]
    pub fn from_epoch_offset(after_epoch: bool, secs: u64, micros: u32) -> (t: Timestamp)
        ensures
            t == Timestamp::spec_from_epoch_offset(after_epoch, secs, micros),
    {
        let whole: i64 = if secs <= i64::MAX as u64 {
            secs as i64
        } else {
            i64::MAX
        };
        let sec: i64 = if after_epoch {
            whole
        } else {
            -whole
        };
        Timestamp { sec, usec: micros as i64 }
    }

    /// Reads the wall clock once.
    ///
    /// Which instant comes back is up to the clock; every reading carries
    /// less than a second's worth of microseconds.
    pub fn now() -> (t: Timestamp)
        ensures
            0 <= t.usec < MICROS_PER_SEC,
    {
        let reading = SystemTime::now();
        match since_epoch(&reading) {
            Ok(elapsed) => Timestamp::from_epoch_offset(
                true,
                elapsed.as_secs(),
                elapsed.subsec_micros(),
            ),
            Err(early) => {
                let short = early.duration();
                Timestamp::from_epoch_offset(false, short.as_secs(), short.subsec_micros())
            },
        }
    }
}

impl PartialEq for Timestamp {
    fn eq(&self, other: &Timestamp) -> (r: bool) {
        self.sec == other.sec && self.usec == other.usec
    }
}

impl Eq for Timestamp {

}

impl PartialEqSpecImpl for Timestamp {
    open spec fn obeys_eq_spec() -> bool {
        true
    }

    /// Two timestamps are equal when both parts are.
    open spec fn eq_spec(&self, other: &Timestamp) -> bool {
        self.sec == other.sec && self.usec == other.usec
    }
}

/// `std::time::SystemTime`, carried through as an opaque value.
#[verifier::external_type_specification]
#[verifier::external_body]
pub struct ExSystemTime(SystemTime);

/// `std::time::SystemTimeError`, carried through as an opaque value.
#[verifier::external_type_specification]
#[verifier::external_body]
pub struct ExSystemTimeError(SystemTimeError);

/// `SystemTime::now` reads the system clock. Nothing is claimed of the
/// reading.
pub assume_specification[ SystemTime::now ]() -> (t: SystemTime);

/// `SystemTimeError::duration` gives the distance by which the second instant
/// was later than the first. Nothing is claimed of it.
pub assume_specification[ SystemTimeError::duration ](e: &SystemTimeError) -> (d: Duration);

/// `Duration::as_secs` gives the whole seconds of a duration. Nothing is
/// claimed of their number.
pub assume_specification[ Duration::as_secs ](d: &Duration) -> (s: u64);

/// `Duration::subsec_micros` gives the part of a duration below one second in
/// whole microseconds, which is always less than one million.
pub assume_specification[ Duration::subsec_micros ](d: &Duration) -> (m: u32)
    ensures
        m < 1_000_000,
;

/// `SystemTime::duration_since`, called with `std::time::UNIX_EPOCH` as the
/// earlier instant: `Ok` with the distance from the epoch where `reading` is
/// not before it, else an error that holds the distance the other way.
/// Nothing is claimed of which of the two comes back, nor of the distance.
#[verifier::external_body]
fn since_epoch(reading: &SystemTime) -> (r: Result<Duration, SystemTimeError>) {
    reading.duration_since(UNIX_EPOCH)
}

} // verus!
