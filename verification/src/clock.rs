//! The wall clock.
use vstd::prelude::*;

verus! {

/// A point in time, carried as it is.
#[verifier::external_type_specification]
#[verifier::external_body]
pub struct ExSystemTime(std::time::SystemTime);

/// The reason why one point in time lies before another, carried as it is.
#[verifier::external_type_specification]
#[verifier::external_body]
pub struct ExSystemTimeError(std::time::SystemTimeError);

/// The span from the Unix epoch to a point in time, if that point is not before the epoch.
pub uninterp spec fn epoch_span(time: std::time::SystemTime) -> Option<std::time::Duration>;

/// The whole seconds of a span.
pub uninterp spec fn whole_seconds(span: std::time::Duration) -> u64;

/// `SystemTime::now` reads the clock. Nothing is known of the result.
pub assume_specification[ std::time::SystemTime::now ]() -> (r: std::time::SystemTime)
;

/// `SystemTime::duration_since`, asked for the distance from `UNIX_EPOCH`: the span, or an error if
/// the epoch is later. The span is named and not stated further.
#[verifier::external_body]
fn since_epoch(time: &std::time::SystemTime) -> (r: Result<
    std::time::Duration,
    std::time::SystemTimeError,
>)
    ensures
        match r {
            Ok(span) => epoch_span(*time) == Some(span),
            Err(_) => epoch_span(*time) is None,
        },
{
    time.duration_since(std::time::UNIX_EPOCH)
}

/// `Duration::as_secs` counts the whole seconds of a span. The number is named.
pub assume_specification[ std::time::Duration::as_secs ](duration: &std::time::Duration) -> (r: u64)
    ensures
        r == whole_seconds(*duration),
;

/// The timestamp of a point in time: the whole seconds since the Unix epoch, or zero before it.
pub open spec fn timestamp_of(time: std::time::SystemTime) -> i64 {
    match epoch_span(time) {
        Some(span) => whole_seconds(span) as i64,
        None => 0,
    }
}

/// The timestamp of a point in time.
pub fn timestamp(time: &std::time::SystemTime) -> (r: i64)
    ensures
        r == timestamp_of(*time),
{
    match since_epoch(time) {
        Ok(span) => span.as_secs() as i64,
        Err(_) => 0,
    }
}

/// The time in seconds since the Unix epoch, or zero if the clock stands before it.
///
/// The clock decides which point in time it is.
pub fn unix_seconds() -> (r: i64)
    ensures
        exists|now: std::time::SystemTime| r == #[trigger] timestamp_of(now),
{
    let now = std::time::SystemTime::now();
    timestamp(&now)
}

/// A time that the clock can count in seconds is its seconds since the epoch, and one before it is zero.
pub proof fn law_timestamp_counts_seconds_since_the_epoch(time: std::time::SystemTime)
    ensures
        epoch_span(time) is None ==> timestamp_of(time) == 0,
        epoch_span(time) matches Some(span) ==> (whole_seconds(span) <= i64::MAX ==> timestamp_of(
            time,
        ) == whole_seconds(span)),
{
}

} // verus!
