//! Instants in UTC, and the calendar arithmetic the backend asks of chrono.
use vstd::prelude::*;
use chrono::{Datelike, Timelike};

verus! {

/// The earliest second chrono's `DateTime<Utc>` holds: the start of
/// 1 January of year -262143.
pub const MIN_EPOCH_SECS: i64 = -8_334_601_228_800;

/// The latest second chrono's `DateTime<Utc>` holds: the last second of
/// 31 December 262142.
pub const MAX_EPOCH_SECS: i64 = 8_210_266_876_799;

pub const SECS_PER_DAY: i64 = 86_400;

/// Day number (counted from 0001-01-01 as day 1) of 1970-01-01.
pub const UNIX_EPOCH_DAY: i64 = 719_163;

/// An instant, held as chrono's `DateTime<Utc>` exposes it: whole seconds
/// since 1970-01-01T00:00:00Z and the nanoseconds past that second (at or
/// above one billion only within a leap second).
#[derive(Debug, Clone, Copy, PartialEq, Eq, Structural)]
pub struct Timestamp {
    pub secs: i64,
    pub nanos: u32,
}

impl Timestamp {
    /// The order of instants: by second, then by nanosecond.
    pub open spec fn spec_before(self, other: Timestamp) -> bool {
        self.secs < other.secs || (self.secs == other.secs && self.nanos < other.nanos)
    }

    /// Within the range the calendar functions take, and not a leap second.
    pub open spec fn is_calendar_instant(self) -> bool {
        MIN_EPOCH_SECS <= self.secs <= MAX_EPOCH_SECS && self.nanos < 1_000_000_000
    }

    /// `self < other` on chrono's `DateTime<Utc>`.
    pub fn is_before(&self, other: &Timestamp) -> (r: bool)
        ensures
            r == self.spec_before(*other),
    {
        self.secs < other.secs || (self.secs == other.secs && self.nanos < other.nanos)
    }
}

/// Weekday of an instant, counted from Monday as 0 (1970-01-01 was a Thursday).
pub open spec fn spec_weekday(secs: int) -> int {
    (secs / 86_400 + 3) % 7
}

/// Hour of the UTC day of an instant.
pub open spec fn spec_hour(secs: int) -> int {
    (secs % 86_400) / 3600
}

/// Day number of the UTC date of an instant, counted from 0001-01-01 as day 1.
pub open spec fn spec_day_number(secs: int) -> int {
    secs / 86_400 + UNIX_EPOCH_DAY
}

/// What `DateTime::parse_from_rfc3339` gives for a string, taken to UTC as
/// (seconds since the epoch, nanoseconds).
pub uninterp spec fn rfc3339_instant(s: Seq<char>) -> Option<(i64, u32)>;

/// What `NaiveDateTime::parse_from_str(s, fmt)` gives, read as UTC: the instant
/// as (seconds, nanoseconds), or the text of the parse error.
pub uninterp spec fn naive_utc_instant(s: Seq<char>, fmt: Seq<char>) -> Result<(i64, u32), Seq<char>>;

/// `DateTime::parse_from_rfc3339`, converted to UTC. Which strings it accepts,
/// and what instant each denotes, is left to `rfc3339_instant`.
#[verifier::external_body]
pub(crate) fn parse_rfc3339(s: &str) -> (r: Option<Timestamp>)
    ensures
        match r {
            Some(t) => rfc3339_instant(s@) == Some((t.secs, t.nanos)),
            None => rfc3339_instant(s@) is None,
        },
{
    match chrono::DateTime::parse_from_rfc3339(s) {
        Ok(dt) => {
            let u = dt.with_timezone(&chrono::Utc);
            Some(Timestamp { secs: u.timestamp(), nanos: u.timestamp_subsec_nanos() })
        },
        Err(_) => None,
    }
}

/// `NaiveDateTime::parse_from_str(s, fmt)` read as a UTC instant (`and_utc`),
/// or the displayed parse error. The accepted strings are left to
/// `naive_utc_instant`.
#[verifier::external_body]
pub(crate) fn parse_naive_utc(s: &str, fmt: &str) -> (r: Result<Timestamp, String>)
    ensures
        match r {
            Ok(t) => naive_utc_instant(s@, fmt@) == Ok::<(i64, u32), Seq<char>>((t.secs, t.nanos)),
            Err(m) => naive_utc_instant(s@, fmt@) == Err::<(i64, u32), Seq<char>>(m@),
        },
{
    match chrono::NaiveDateTime::parse_from_str(s, fmt) {
        Ok(ndt) => {
            let u = ndt.and_utc();
            Ok(Timestamp { secs: u.timestamp(), nanos: u.timestamp_subsec_nanos() })
        },
        Err(e) => Err(e.to_string()),
    }
}

/// `Datelike::weekday` of the UTC date, as `Weekday::num_days_from_monday`.
#[verifier::external_body]
pub(crate) fn utc_weekday_index(t: Timestamp) -> (r: u32)
    requires
        MIN_EPOCH_SECS <= t.secs <= MAX_EPOCH_SECS,
    ensures
        r == spec_weekday(t.secs as int),
{
    chrono::DateTime::from_timestamp(t.secs, 0).unwrap().weekday().num_days_from_monday()
}

/// `Timelike::hour` of the instant in UTC.
#[verifier::external_body]
pub(crate) fn hour_of_day(t: Timestamp) -> (r: u32)
    requires
        MIN_EPOCH_SECS <= t.secs <= MAX_EPOCH_SECS,
    ensures
        r == spec_hour(t.secs as int),
{
    chrono::DateTime::from_timestamp(t.secs, 0).unwrap().hour()
}

/// `date_naive().num_days_from_ce()`: the UTC date as a day number.
#[verifier::external_body]
pub(crate) fn day_number(t: Timestamp) -> (r: i64)
    requires
        MIN_EPOCH_SECS <= t.secs <= MAX_EPOCH_SECS,
    ensures
        r == spec_day_number(t.secs as int),
{
    chrono::DateTime::from_timestamp(t.secs, 0).unwrap().date_naive().num_days_from_ce() as i64
}

/// `t + TimeDelta::days(days)`: the same time of day, `days` days later.
#[verifier::external_body]
pub(crate) fn add_days(t: Timestamp, days: u32) -> (r: Timestamp)
    requires
        t.is_calendar_instant(),
        t.secs + 86_400 * days <= MAX_EPOCH_SECS,
    ensures
        r.secs == t.secs + 86_400 * days,
        r.nanos == t.nanos,
{
    let dt = chrono::DateTime::from_timestamp(t.secs, t.nanos).unwrap()
        + chrono::TimeDelta::days(days as i64);
    Timestamp { secs: dt.timestamp(), nanos: dt.timestamp_subsec_nanos() }
}

} // verus!
