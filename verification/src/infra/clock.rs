//! Points in time, and the current time read from the system clock through chrono.
use vstd::prelude::*;

verus! {

/// A point in time as a date-time column with time zone holds it: whole
/// seconds since 1970-01-01T00:00:00Z, the nanoseconds within that second,
/// and the offset from UTC (in seconds) that it is written in.
#[derive(Debug, Clone, Copy, PartialEq, Eq)]
pub struct DateTimeWithTimeZone {
    pub unix_seconds: i64,
    pub nanos: u32,
    pub offset_seconds: i32,
}

/// Calls `chrono::Utc::now()` and reads the result's Unix seconds and
/// nanoseconds; the time is at offset zero, as `DateTime<FixedOffset>::from`
/// a UTC time is. Claimed beyond that: the instant is not before 1970 (chrono
/// builds it from the clock's duration since 1970 and panics otherwise) and
/// its nanoseconds are those of that duration, under one second. Which instant
/// it is, is whatever the system clock reads.
#[verifier::external_body]
pub fn current_time() -> (t: DateTimeWithTimeZone)
    ensures
        t.offset_seconds == 0,
        t.unix_seconds >= 0,
        t.nanos < 1_000_000_000,
{
    let now = chrono::Utc::now();
    DateTimeWithTimeZone {
        unix_seconds: now.timestamp(),
        nanos: now.timestamp_subsec_nanos(),
        offset_seconds: 0,
    }
}

} // verus!
