//! Time stamps: whole seconds since the Unix epoch.
use std::time::{Duration, SystemTime, SystemTimeError, UNIX_EPOCH};
use vstd::prelude::*;

use crate::error::UniClipError;

verus! {

/// `std::time::SystemTime`.
#[verifier::external_type_specification]
#[verifier::external_body]
pub struct ExSystemTime(SystemTime);

/// `std::time::SystemTimeError`.
#[verifier::external_type_specification]
#[verifier::external_body]
pub struct ExSystemTimeError(SystemTimeError);

/// `SystemTime::now`: some reading of the system clock. Nothing is claimed of it.
pub assume_specification[ SystemTime::now ]() -> SystemTime
;

/// The time from the Unix epoch to a point in time, or `None` where it comes before the epoch.
pub uninterp spec fn elapsed_since_epoch(time: SystemTime) -> Option<Duration>;

/// The whole seconds of a duration.
pub uninterp spec fn whole_seconds(duration: Duration) -> u64;

/// `SystemTime::duration_since` with the Unix epoch: the time from the epoch to `time`, or
/// an error where `time` comes before the epoch.
#[verifier::external_body]
fn since_epoch(time: &SystemTime) -> (elapsed: Result<Duration, SystemTimeError>)
    ensures
        match elapsed {
            Ok(duration) => elapsed_since_epoch(*time) == Some(duration),
            Err(_) => elapsed_since_epoch(*time) is None,
        },
{
    time.duration_since(UNIX_EPOCH)
}

/// `Duration::as_secs`: the whole seconds of a duration.
pub assume_specification[ Duration::as_secs ](duration: &Duration) -> (secs: u64)
    ensures
        secs == whole_seconds(*duration),
;

/// What a clock shows at a point in time: the seconds since the epoch, or `None` before it.
pub open spec fn clock_at(time: SystemTime) -> Option<u64> {
    match elapsed_since_epoch(time) {
        Some(duration) => Some(whole_seconds(duration)),
        None => None,
    }
}

/// Something that a clock can show.
pub open spec fn is_reading(reading: Option<u64>) -> bool {
    exists|time: SystemTime| reading == #[trigger] clock_at(time)
}

/// The stamp that a clock reading gives: `None` is a clock that stands before the epoch.
pub fn stamp_from(reading: Option<u64>) -> (stamp: Result<u64, UniClipError>)
    ensures
        stamp is Ok <==> reading is Some,
        stamp matches Ok(secs) ==> reading == Some(secs),
        stamp matches Err(e) ==> e == UniClipError::SystemClockError,
{
    match reading {
        Some(secs) => Ok(secs),
        None => Err(UniClipError::SystemClockError),
    }
}

/// One reading of the system clock, in seconds since the epoch, or `None` where the clock
/// stands before the epoch.
pub(crate) fn read_clock() -> (reading: Option<u64>)
    ensures
        is_reading(reading),
{
    let time = SystemTime::now();
    let reading = match since_epoch(&time) {
        Ok(elapsed) => Some(elapsed.as_secs()),
        Err(_) => None,
    };
    assert(reading == clock_at(time));
    reading
}

/// Consecutive readings of the clock.
#[derive(Debug, Clone, Copy, PartialEq, Eq)]
pub struct Readings {
    pub first: Option<u64>,
    pub second: Option<u64>,
    pub third: Option<u64>,
    pub fourth: Option<u64>,
}

impl Readings {
    /// All of them are something that a clock can show.
    pub open spec fn taken(self) -> bool {
        &&& is_reading(self.first)
        &&& is_reading(self.second)
        &&& is_reading(self.third)
        &&& is_reading(self.fourth)
    }
}

/// Reads the clock four times.
pub(crate) fn read_clock_repeatedly() -> (readings: Readings)
    ensures
        readings.taken(),
{
    let first = read_clock();
    let second = read_clock();
    let third = read_clock();
    let fourth = read_clock();
    Readings { first, second, third, fourth }
}

/// The current time. The one way to fail is a clock that stands before the epoch.
pub fn get_utc_now() -> (now: Result<u64, UniClipError>)
    ensures
        match now {
            Ok(secs) => is_reading(Some(secs)),
            Err(e) => is_reading(None) && e == UniClipError::SystemClockError,
        },
{
    stamp_from(read_clock())
}

} // verus!
