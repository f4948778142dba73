//! Points in time.

use crate::text::optional_text;
use vstd::prelude::*;

verus! {

/// A point in time: seconds since 1970-01-01 00:00:00 UTC, and nanoseconds into
/// the second.
#[derive(Clone, Copy, Debug, PartialEq, Eq, Structural)]
pub struct Timestamp {
    pub secs: i64,
    pub nanos: u32,
}

/// A point in time together with the local offset from UTC, in seconds to the
/// east.
#[derive(Clone, Copy, Debug, PartialEq, Eq, Structural)]
pub struct LocalTime {
    pub secs: i64,
    pub nanos: u32,
    pub offset: i32,
}

/// The seconds of a day.
pub const DAY_SECS: i64 = 86400;

/// A number of days that is longer than any time that seconds can count.
const DAYS_APART: i64 = 200000000000000;

impl LocalTime {
    /// The local calendar day, in days since 1970-01-01.
    pub open spec fn day(self) -> int {
        (self.secs + self.offset) / (DAY_SECS as int)
    }

    /// The local calendar day, in days since 1970-01-01.
    pub fn date(&self) -> (r: i64)
        ensures
            r == self.day(),
    {
        let shifted: i128 = self.secs as i128 + self.offset as i128 + DAYS_APART as i128
            * DAY_SECS as i128;
        (shifted as u128 / DAY_SECS as u128) as i64 - DAYS_APART
    }
}

/// What `chrono::DateTime::to_rfc3339` writes for a time at an offset from UTC,
/// if chrono can represent both.
pub uninterp spec fn rfc3339_text(secs: int, nanos: int, offset: int) -> Option<Seq<char>>;

/// Writes a time with `chrono::DateTime::to_rfc3339`.
///
/// Claimed: the text depends on the time and the offset alone, and so does
/// whether chrono can represent them.
#[verifier::external_body]
pub(crate) fn rfc3339(secs: i64, nanos: u32, offset: i32) -> (r: Option<String>)
    ensures
        match r {
            Some(text) => rfc3339_text(secs as int, nanos as int, offset as int) == Some(text@),
            None => rfc3339_text(secs as int, nanos as int, offset as int) is None,
        },
{
    let zone = chrono::FixedOffset::east_opt(offset)?;
    Some(chrono::DateTime::from_timestamp(secs, nanos)?.with_timezone(&zone).to_rfc3339())
}

/// What `chrono::NaiveDate` displays for a day, in days since 1970-01-01, if
/// chrono can represent it.
pub uninterp spec fn day_text(day: int) -> Option<Seq<char>>;

/// Writes a day with `chrono::NaiveDate::from_epoch_days` and its `Display`.
///
/// Claimed: the text depends on the day alone, and so does whether chrono can
/// represent it.
#[verifier::external_body]
pub(crate) fn display_day(day: i64) -> (r: Option<String>)
    ensures
        optional_text(r) == day_text(day as int),
{
    let date = chrono::NaiveDate::from_epoch_days(i32::try_from(day).ok()?)?;
    Some(date.to_string())
}

impl Timestamp {
    /// The time in UTC as an RFC 3339 text.
    pub fn to_rfc3339(&self) -> (r: Option<String>)
        ensures
            optional_text(r) == rfc3339_text(self.secs as int, self.nanos as int, 0),
    {
        rfc3339(self.secs, self.nanos, 0)
    }
}

impl LocalTime {
    /// The local time as an RFC 3339 text.
    pub fn to_rfc3339(&self) -> (r: Option<String>)
        ensures
            optional_text(r) == rfc3339_text(
                self.secs as int,
                self.nanos as int,
                self.offset as int,
            ),
    {
        rfc3339(self.secs, self.nanos, self.offset)
    }
}

impl LocalTime {
    /// A time lies in its day: not before the day has begun, and before it is
    /// over, by the local clock.
    pub proof fn law_time_lies_in_day(self)
        ensures
            self.day() * 86400 <= self.secs + self.offset,
            self.secs + self.offset < (self.day() + 1) * 86400,
    {
    }
}

} // verus!
