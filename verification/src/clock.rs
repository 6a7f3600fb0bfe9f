//! The local wall clock: reading it in milliseconds since the Unix epoch, and
//! the seconds and microseconds that a clock write takes.
use vstd::prelude::*;
use std::time::Duration;
use std::time::SystemTime;

verus! {

/// `std::time::SystemTime`, which is carried through without a look inside.
#[verifier::external_type_specification]
#[verifier::external_body]
pub struct ExSystemTime(std::time::SystemTime);

/// `SystemTime::now` reads the wall clock. Nothing is claimed of the instant
/// it returns.
pub assume_specification[ std::time::SystemTime::now ]() -> (now: SystemTime);

/// What `SystemTime::duration_since` makes of an instant and the Unix epoch:
/// the span from the epoch to the instant, and none for an instant before
/// the epoch.
pub uninterp spec fn span_since_unix_epoch(time: SystemTime) -> Option<Duration>;

/// What `Duration::as_millis` makes of a span: its whole milliseconds.
pub uninterp spec fn whole_millis(span: Duration) -> u128;

/// `Duration::as_millis` depends on the span alone: its result is
/// `whole_millis` of the span. Nothing more is claimed of the number.
pub assume_specification[ core::time::Duration::as_millis ](span: &Duration) -> (millis: u128)
    ensures
        millis == whole_millis(*span),
;

/// Calls `SystemTime::duration_since` with `UNIX_EPOCH`, which depends on the
/// instant alone: the result is `span_since_unix_epoch` of it, the error of
/// an instant before the epoch turned into `None`. Nothing more is claimed
/// of the span.
#[verifier::external_body]
fn since_unix_epoch(time: SystemTime) -> (span: Option<Duration>)
    ensures
        span == span_since_unix_epoch(time),
{
    match time.duration_since(std::time::UNIX_EPOCH) {
        Ok(span) => Some(span),
        Err(_) => None,
    }
}

/// The local timestamp of an instant: the whole milliseconds from the Unix
/// epoch to it, as a signed 64-bit number, and none for an instant before
/// the epoch.
pub open spec fn unix_ms_of(time: SystemTime) -> Option<i64> {
    match span_since_unix_epoch(time) {
        Some(span) => Some(whole_millis(span) as i64),
        None => None,
    }
}

/// A count of milliseconds as a signed 64-bit number: the count itself where
/// it fits, and its low 64 bits otherwise.
pub fn millis_to_ms(millis: u128) -> (ms: i64)
    ensures
        ms == millis as i64,
        millis <= i64::MAX ==> ms == millis,
{
    #[verifier::truncate]
    (millis as i64)
}

/// What a span since the Unix epoch, counted in whole milliseconds, gives as
/// a local timestamp: no timestamp where there is no span, which is how an
/// instant before the epoch shows, and else the count as `millis_to_ms`
/// narrows it.
pub fn epoch_millis_to_ms(since_epoch: Option<u128>) -> (r: Option<i64>)
    ensures
        r is Some <==> since_epoch is Some,
        r == match since_epoch {
            Some(millis) => Some(millis as i64),
            None => None,
        },
        since_epoch matches Some(millis) ==> millis <= i64::MAX ==> r->Some_0 == millis,
{
    match since_epoch {
        Some(millis) => Some(millis_to_ms(millis)),
        None => None,
    }
}

/// The milliseconds from the Unix epoch to `time`, or `None` where `time`
/// lies before the epoch.
///
/// Whether `time` lies before the epoch is for `SystemTime::duration_since`
/// to say, and the count of milliseconds for `Duration::as_millis`; what
/// becomes of their answers is `epoch_millis_to_ms`.
pub fn system_time_to_ms(time: SystemTime) -> (r: Option<i64>)
    ensures
        r == unix_ms_of(time),
        r is Some <==> span_since_unix_epoch(time) is Some,
{
    let since_epoch: Option<u128> = match since_unix_epoch(time) {
        Some(span) => Some(span.as_millis()),
        None => None,
    };
    epoch_millis_to_ms(since_epoch)
}

/// Reads the wall clock, in milliseconds since the Unix epoch; `None` where
/// the clock stands before the epoch.
///
/// The reading is that of `SystemTime::now`, and the result is the local
/// timestamp of that instant. No two readings need agree, so the instant
/// itself is not told.
pub fn sample_now() -> (r: Option<i64>)
    ensures
        exists|now: SystemTime| r == #[trigger] unix_ms_of(now),
{
    system_time_to_ms(SystemTime::now())
}

/// `n / d` rounded toward zero, for a positive `d`.
pub open spec fn quotient_toward_zero(n: int, d: int) -> int
    recommends
        d > 0,
{
    if n >= 0 {
        n / d
    } else {
        -((-n) / d)
    }
}

/// Splits a time in Unix milliseconds into the whole seconds and the
/// microseconds that a clock write takes. The seconds round toward zero, and
/// the microseconds carry the sign of the time.
pub fn timeval_parts(time_ms: i64) -> (parts: (i64, i64))
    ensures
        parts.0 == quotient_toward_zero(time_ms as int, 1000),
        parts.1 == (time_ms - parts.0 * 1000) * 1000,
        parts.0 * 1_000_000 + parts.1 == time_ms * 1000,
        -1_000_000 < parts.1 < 1_000_000,
{
    let secs: i64 = time_ms / 1000;
    let usecs: i64 = (time_ms % 1000) * 1000;
    (secs, usecs)
}

} // verus!
