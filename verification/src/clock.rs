//! The time of day, in milliseconds since the Unix epoch.

use std::time::{Duration, SystemTime, SystemTimeError};
use vstd::prelude::*;

verus! {

/// A reading of the system clock.
#[verifier::external_type_specification]
#[verifier::external_body]
pub struct ExSystemTime(SystemTime);

/// The error of `SystemTime::duration_since` for a time that lies before the other.
#[verifier::external_type_specification]
#[verifier::external_body]
pub struct ExSystemTimeError(SystemTimeError);

/// The whole milliseconds of a span, as `Duration::as_millis` counts them.
pub uninterp spec fn whole_millis(span: Duration) -> u128;

/// `SystemTime::now` reads the system clock. Nothing is claimed of a reading.
pub assume_specification[ SystemTime::now ]() -> (now: SystemTime)
;

/// `SystemTime::duration_since`, asked for the span since the Unix epoch. What it returns rests
/// on the clock's reading, so nothing is claimed.
#[verifier::external_body]
fn since_epoch(time: &SystemTime) -> (span: Result<Duration, SystemTimeError>) {
    time.duration_since(std::time::UNIX_EPOCH)
}

/// `Duration::as_millis` counts the whole milliseconds of a span.
pub assume_specification[ Duration::as_millis ](span: &Duration) -> (millis: u128)
    ensures
        millis == whole_millis(*span),
;

/// The timestamp for a clock that reads the given milliseconds since the Unix epoch: their
/// number as a signed 64-bit integer, 0 for a clock that reads a time before the epoch.
pub open spec fn timestamp_of(elapsed: Option<u128>) -> i64 {
    match elapsed {
        Some(millis) => millis as i64,
        None => 0,
    }
}

/// Makes a timestamp of the milliseconds that a clock reads since the Unix epoch.
pub fn timestamp_from(elapsed: Option<u128>) -> (timestamp: i64)
    ensures
        timestamp == timestamp_of(elapsed),
{
    match elapsed {
        Some(millis) => {
            #[verifier::truncate]
            (millis as i64)
        },
        None => 0,
    }
}

/// The timestamp for the span that a clock reads since the Unix epoch; nothing stands for a
/// time before the epoch.
pub open spec fn timestamp_at(since_epoch: Option<Duration>) -> i64 {
    timestamp_of(
        match since_epoch {
            Some(span) => Some(whole_millis(span)),
            None => None,
        },
    )
}

/// The milliseconds since the Unix epoch by the system clock: the timestamp for the span that
/// the clock happens to read.
pub fn now_millis() -> (timestamp: i64)
    ensures
        exists|since_epoch: Option<Duration>| timestamp == #[trigger] timestamp_at(since_epoch),
{
    match since_epoch(&SystemTime::now()) {
        Ok(span) => {
            let timestamp = timestamp_from(Some(span.as_millis()));
            assert(timestamp == timestamp_at(Some(span)));
            timestamp
        },
        Err(_) => {
            let timestamp = timestamp_from(None);
            assert(timestamp == timestamp_at(None));
            timestamp
        },
    }
}

/// A timestamp counts the whole milliseconds since the epoch, as long as a timestamp can hold
/// them, so of two such clock readings the later one never has the smaller timestamp; a time
/// before the epoch counts as the epoch.
pub proof fn law_timestamps_count_milliseconds(earlier: u128, later: u128)
    requires
        earlier <= later <= i64::MAX,
    ensures
        timestamp_of(Some(later)) == later,
        timestamp_of(Some(earlier)) <= timestamp_of(Some(later)),
        timestamp_of(None) == timestamp_of(Some(0)),
        forall|span: Duration| #[trigger]
            timestamp_at(Some(span)) == timestamp_of(Some(whole_millis(span))),
        timestamp_at(None) == 0,
{
}

} // verus!
