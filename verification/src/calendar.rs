//! Dates and times as the feeds write them, read with `chrono`.
use vstd::prelude::*;
use chrono::TimeZone;
use crate::time::Timestamp;

verus! {

/// The moment that a text in the relaxed RFC 3339 form denotes, in UTC.
pub uninterp spec fn utc_from_text(s: Seq<char>) -> Option<Timestamp>;

/// The moment that a text of the form `2024-01-31 23:59:59` denotes, read as
/// UTC.
pub uninterp spec fn naive_from_text(s: Seq<char>) -> Option<Timestamp>;

/// Whether a count of seconds since the epoch names a moment that the
/// calendar reaches.
pub uninterp spec fn epoch_secs_in_range(secs: i64) -> bool;

/// The day, written as year, month and day, that lies `days_back` days
/// before the day of the moment `secs` seconds after the epoch.
pub uninterp spec fn day_text(secs: i64, days_back: u64) -> Option<Seq<char>>;

/// The moment `secs` seconds after the epoch, when the calendar reaches it.
pub open spec fn moment_at(secs: i64) -> Option<Timestamp> {
    if epoch_secs_in_range(secs) {
        Some(Timestamp { secs, nanos: 0 })
    } else {
        None
    }
}

/// `str::parse::<chrono::DateTime<chrono::Utc>>`: the moment on success,
/// as seconds and nanoseconds; nothing on a parse error.
#[verifier::external_body]
pub(crate) fn parse_utc(s: &str) -> (r: Option<Timestamp>)
    ensures
        r == utc_from_text(s@),
{
    match s.parse::<chrono::DateTime<chrono::Utc>>() {
        Ok(dt) => Some(Timestamp { secs: dt.timestamp(), nanos: dt.timestamp_subsec_nanos() }),
        Err(_) => None,
    }
}

/// `chrono::NaiveDateTime::parse_from_str` with the format
/// `%Y-%m-%d %H:%M:%S`, the result taken as UTC; nothing on a parse error.
#[verifier::external_body]
pub(crate) fn parse_naive(s: &str) -> (r: Option<Timestamp>)
    ensures
        r == naive_from_text(s@),
{
    match chrono::NaiveDateTime::parse_from_str(s, "%Y-%m-%d %H:%M:%S") {
        Ok(ndt) => {
            let dt = chrono::Utc.from_utc_datetime(&ndt);
            Some(Timestamp { secs: dt.timestamp(), nanos: dt.timestamp_subsec_nanos() })
        },
        Err(_) => None,
    }
}

/// `chrono::TimeZone::timestamp_opt` on `Utc` with no nanoseconds, then
/// `single`: the moment with exactly these seconds, or nothing when the
/// seconds are out of the calendar's range.
#[verifier::external_body]
pub(crate) fn from_epoch_secs(secs: i64) -> (r: Option<Timestamp>)
    ensures
        r == (if epoch_secs_in_range(secs) {
            Some(Timestamp { secs, nanos: 0 })
        } else {
            None
        }),
{
    match chrono::Utc.timestamp_opt(secs, 0).single() {
        Some(dt) => Some(Timestamp { secs: dt.timestamp(), nanos: dt.timestamp_subsec_nanos() }),
        None => None,
    }
}

/// `chrono::NaiveDate::checked_sub_days` on the UTC day of a moment, and the
/// day's `Display`: nothing when the moment or the earlier day is out of the
/// calendar's range.
#[verifier::external_body]
pub(crate) fn day_before(secs: i64, days_back: u64) -> (r: Option<String>)
    ensures
        match r {
            Some(s) => day_text(secs, days_back) == Some(s@),
            None => day_text(secs, days_back).is_none(),
        },
{
    let dt = chrono::DateTime::from_timestamp(secs, 0)?;
    let day = dt.date_naive().checked_sub_days(chrono::Days::new(days_back))?;
    Some(day.to_string())
}

} // verus!
