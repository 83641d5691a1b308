//! Timestamps as the store keeps them: RFC 3339 text written by `chrono`.

use vstd::prelude::*;

verus! {

/// Seconds in a day.
pub const SECONDS_PER_DAY: i64 = 86400;

/// How long an unused link is kept, in days.
pub const RETENTION_DAYS: i64 = 90;

/// Whether `chrono::DateTime::<Utc>::from_timestamp` accepts this count of
/// seconds and nanoseconds since the Unix epoch.
pub uninterp spec fn utc_timestamp_valid(secs: i64, nanos: u32) -> bool;

/// What `to_rfc3339` writes for the UTC time that
/// `chrono::DateTime::<Utc>::from_timestamp(secs, nanos)` builds.
pub uninterp spec fn utc_rfc3339(secs: i64, nanos: u32) -> Seq<char>;

/// Calls `chrono::DateTime::<Utc>::from_timestamp` and, where it gives a
/// time, that time's `to_rfc3339`. Trusted: `None` exactly where
/// `from_timestamp` gives none, else the text named `utc_rfc3339`.
#[verifier::external_body]
fn format_utc(secs: i64, nanos: u32) -> (r: Option<String>)
    ensures
        r is Some <==> utc_timestamp_valid(secs, nanos),
        r matches Some(t) ==> t@ == utc_rfc3339(secs, nanos),
{
    match chrono::DateTime::<chrono::Utc>::from_timestamp(secs, nanos) {
        Some(t) => Some(t.to_rfc3339()),
        None => None,
    }
}

/// The RFC 3339 text of a UTC time given as seconds and nanoseconds since the
/// Unix epoch, as the store records `created_at` and `last_used`; `None` for a
/// time that `chrono` cannot represent.
pub fn rfc3339_timestamp(secs: i64, nanos: u32) -> (r: Option<String>)
    ensures
        r is Some <==> utc_timestamp_valid(secs, nanos),
        r matches Some(t) ==> t@ == utc_rfc3339(secs, nanos),
{
    format_utc(secs, nanos)
}

/// The instant before which unused links are removed: `RETENTION_DAYS` days
/// before `now`, in seconds since the epoch.
pub open spec fn cutoff_secs(now_secs: i64) -> int {
    now_secs - RETENTION_DAYS * SECONDS_PER_DAY
}

/// The RFC 3339 text of the cleanup cutoff, `RETENTION_DAYS` days before
/// the time `now_secs`/`now_nanos`; `None` where that instant is not a time
/// `chrono` can represent.
pub fn retention_cutoff(now_secs: i64, now_nanos: u32) -> (r: Option<String>)
    requires
        cutoff_secs(now_secs) >= i64::MIN,
    ensures
        r is Some <==> utc_timestamp_valid(cutoff_secs(now_secs) as i64, now_nanos),
        r matches Some(t) ==> t@ == utc_rfc3339(cutoff_secs(now_secs) as i64, now_nanos),
        r is Some <==> utc_timestamp_valid((now_secs - 7_776_000) as i64, now_nanos),
        r matches Some(t) ==> t@ == utc_rfc3339((now_secs - 7_776_000) as i64, now_nanos),
{
    let cutoff: i64 = now_secs - RETENTION_DAYS * SECONDS_PER_DAY;
    format_utc(cutoff, now_nanos)
}

} // verus!
