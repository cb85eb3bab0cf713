//! Timestamps counted in microseconds since 1601-01-01 00:00:00 UTC.

use vstd::prelude::*;
use chrono::Datelike;
use crate::error::{CCPError, CCPResult};

verus! {

const MICROSEC_PER_SEC: u64 = 1_000_000;
const NANOSEC_PER_MICROSEC: u64 = 1_000;
const SECS_PER_DAY: u64 = 86_400;
/// Microseconds between 1601-01-01 and 1970-01-01.
pub const WIN_TO_UNIX_EPOCH_DIFF_MICROSEC: u64 = 11_644_473_600_000_000;
/// The last day, counted from 1970-01-01, that the calendar can hold (262142-12-31).
pub const MAX_UNIX_DAY: u64 = 95_026_236;

/// Whether `year` is a leap year of the proleptic Gregorian calendar.
pub open spec fn is_leap_year(year: int) -> bool {
    year % 4 == 0 && (year % 100 != 0 || year % 400 == 0)
}

/// The number of days in `month` of `year`.
pub open spec fn days_in_month(year: int, month: int) -> int {
    if month == 2 {
        if is_leap_year(year) {
            29
        } else {
            28
        }
    } else if month == 4 || month == 6 || month == 9 || month == 11 {
        30
    } else {
        31
    }
}

/// Whether `year`-`month`-`day` is a date of the proleptic Gregorian calendar.
pub open spec fn valid_date(year: int, month: int, day: int) -> bool {
    1 <= month <= 12 && 1 <= day <= days_in_month(year, month)
}

/// The number of days from 1970-01-01 to `year`-`month`-`day` in the proleptic
/// Gregorian calendar, counting in 400-year eras of 146097 days from 0000-03-01.
pub open spec fn days_from_civil(year: int, month: int, day: int) -> int {
    let y = if month <= 2 {
        year - 1
    } else {
        year
    };
    let era = y / 400;
    let year_of_era = y - era * 400;
    let shifted_month = if month > 2 {
        month - 3
    } else {
        month + 9
    };
    let day_of_year = (153 * shifted_month + 2) / 5 + day - 1;
    let day_of_era = year_of_era * 365 + year_of_era / 4 - year_of_era / 100 + day_of_year;
    era * 146097 + day_of_era - 719468
}

/// Relies on chrono's `DateTime::from_timestamp` and its `year`, `month` and `day`:
/// for a non-negative second count and a sub-second nanosecond count it gives the
/// calendar date of day `secs / 86400` counted from 1970-01-01, and fails exactly
/// when that day lies past the last date chrono can hold.
#[verifier::external_body]
fn civil_date_from_timestamp(secs: i64, nanos: u32) -> (r: Option<(i32, u32, u32)>)
    requires
        0 <= secs,
        nanos < 1_000_000_000,
    ensures
        r.is_some() <==> secs / 86_400 <= MAX_UNIX_DAY,
        r.is_some() ==> valid_date(r.unwrap().0 as int, r.unwrap().1 as int, r.unwrap().2 as int),
        r.is_some() ==> days_from_civil(r.unwrap().0 as int, r.unwrap().1 as int, r.unwrap().2 as int)
            == secs / 86_400,
{
    chrono::DateTime::from_timestamp(secs, nanos).map(|d| (d.year(), d.month(), d.day()))
}

/// A calendar instant in UTC.
#[derive(Debug, Clone, Copy, PartialEq, Eq, Structural)]
pub struct UtcDateTime {
    pub year: i32,
    pub month: u32,
    pub day: u32,
    pub hour: u32,
    pub minute: u32,
    pub second: u32,
    pub nanosecond: u32,
}

/// The instant that lies `unix_micros` microseconds after 1970-01-01, where its
/// date is given as `date`.
pub open spec fn utc_of(unix_micros: int, date: (int, int, int)) -> UtcDateTime {
    let secs = unix_micros / 1_000_000;
    UtcDateTime {
        year: date.0 as i32,
        month: date.1 as u32,
        day: date.2 as u32,
        hour: ((secs % 86_400) / 3_600) as u32,
        minute: ((secs % 3_600) / 60) as u32,
        second: (secs % 60) as u32,
        nanosecond: ((unix_micros % 1_000_000) * 1_000) as u32,
    }
}

impl UtcDateTime {
    /// The instant `unix_micros` microseconds after 1970-01-01 whose calendar date
    /// is `year`-`month`-`day`: the time of day and the sub-second part come from
    /// `unix_micros`.
    pub fn from_parts(unix_micros: u64, year: i32, month: u32, day: u32) -> (r: UtcDateTime)
        ensures
            r == utc_of(unix_micros as int, (year as int, month as int, day as int)),
    {
        let secs: u64 = unix_micros / MICROSEC_PER_SEC;
        UtcDateTime {
            year,
            month,
            day,
            hour: ((secs % SECS_PER_DAY) / 3_600) as u32,
            minute: ((secs % 3_600) / 60) as u32,
            second: (secs % 60) as u32,
            nanosecond: ((unix_micros % MICROSEC_PER_SEC) * NANOSEC_PER_MICROSEC) as u32,
        }
    }

    pub fn year(&self) -> (r: i32)
        ensures
            r == self.year,
    {
        self.year
    }

    pub fn month(&self) -> (r: u32)
        ensures
            r == self.month,
    {
        self.month
    }

    pub fn day(&self) -> (r: u32)
        ensures
            r == self.day,
    {
        self.day
    }

    pub fn hour(&self) -> (r: u32)
        ensures
            r == self.hour,
    {
        self.hour
    }

    pub fn minute(&self) -> (r: u32)
        ensures
            r == self.minute,
    {
        self.minute
    }

    pub fn second(&self) -> (r: u32)
        ensures
            r == self.second,
    {
        self.second
    }

    pub fn nanosecond(&self) -> (r: u32)
        ensures
            r == self.nanosecond,
    {
        self.nanosecond
    }
}

/// A time in microseconds since the Windows epoch (1601-01-01 00:00:00 UTC).
#[derive(Debug, Clone, Copy, PartialEq, Eq, Structural)]
pub struct WindowsEpochMicroseconds(pub u64);

impl WindowsEpochMicroseconds {
    /// Whether the raw value maps to an instant: it is not before 1970 and its day
    /// is within the calendar's range.
    pub open spec fn spec_in_range(self) -> bool {
        self.0 >= WIN_TO_UNIX_EPOCH_DIFF_MICROSEC
            && (self.0 - WIN_TO_UNIX_EPOCH_DIFF_MICROSEC) / 1_000_000 / 86_400 <= MAX_UNIX_DAY
    }

    /// Converts to a UTC instant; fails with `InvalidTimestamp` when the value lies
    /// before the Unix epoch or past the calendar's last day.
    pub fn into_datetime_utc(self) -> (r: CCPResult<UtcDateTime>)
        ensures
            !self.spec_in_range() ==> r == Err::<UtcDateTime, CCPError>(CCPError::InvalidTimestamp(self.0)),
            self.spec_in_range() ==> (r matches Ok(d) && d == utc_of(
                self.0 - WIN_TO_UNIX_EPOCH_DIFF_MICROSEC,
                (d.year as int, d.month as int, d.day as int),
            )),
            self.spec_in_range() ==> (r matches Ok(d) && valid_date(d.year as int, d.month as int, d.day as int)
                && days_from_civil(d.year as int, d.month as int, d.day as int) == (self.0
                - WIN_TO_UNIX_EPOCH_DIFF_MICROSEC) / 1_000_000 / 86_400),
    {
        let windows_micro_seconds: u64 = self.0;
        if windows_micro_seconds < WIN_TO_UNIX_EPOCH_DIFF_MICROSEC {
            return Err(CCPError::InvalidTimestamp(windows_micro_seconds));
        }
        let unix_micro_seconds: u64 = windows_micro_seconds - WIN_TO_UNIX_EPOCH_DIFF_MICROSEC;
        let unix_seconds: u64 = unix_micro_seconds / MICROSEC_PER_SEC;
        let unix_nanoseconds: u64 = (unix_micro_seconds % MICROSEC_PER_SEC) * NANOSEC_PER_MICROSEC;
        match civil_date_from_timestamp(unix_seconds as i64, unix_nanoseconds as u32) {
            None => Err(CCPError::InvalidTimestamp(windows_micro_seconds)),
            Some((year, month, day)) => Ok(UtcDateTime::from_parts(unix_micro_seconds, year, month, day)),
        }
    }
}

} // verus!
