//! Conversions between calendar fields, absolute instants and the local wall
//! clock, made by chrono.

use chrono::{Datelike, TimeZone, Timelike};
use vstd::prelude::*;

use crate::recurrence::{
    days_between, occurrence_fits, occurrence_in_range, occurrence_seconds, todays_occurrence,
    LocalDateTime, MAX_DAY, MIN_DAY, NANOS_PER_SECOND, SECONDS_PER_DAY,
};

verus! {

/// Earliest well-formed instant, in seconds from the Unix epoch:
/// 0000-01-01T00:00:00Z.
pub const MIN_UNIX_SECONDS: i64 = -62_167_219_200;

/// Latest well-formed instant, in whole seconds from the Unix epoch:
/// 9999-12-31T23:59:59Z.
pub const MAX_UNIX_SECONDS: i64 = 253_402_300_799;

/// Day number of 1970-01-01, counted from the common era.
pub const UNIX_EPOCH_DAY: i64 = 719_163;

/// Earliest year of chrono's calendar.
pub const MIN_YEAR: i32 = -262_143;

/// Latest year of chrono's calendar.
pub const MAX_YEAR: i32 = 262_142;

/// An absolute instant: whole seconds since 1970-01-01T00:00:00Z and the
/// nanoseconds past that second.
#[derive(Clone, Copy, Debug, PartialEq, Eq, Structural)]
pub struct UtcInstant {
    pub secs: i64,
    pub nanos: u32,
}

impl UtcInstant {
    /// The instant lies in the years 0 to 9999, the range of RFC 3339 text.
    pub open spec fn wf(self) -> bool {
        &&& MIN_UNIX_SECONDS <= self.secs <= MAX_UNIX_SECONDS
        &&& self.nanos < NANOS_PER_SECOND
    }

    /// Whole seconds since the start of day zero, on the UTC wall clock.
    pub open spec fn utc_seconds(self) -> int {
        self.secs + UNIX_EPOCH_DAY * SECONDS_PER_DAY
    }
}

/// `l` is a reading of `t` on a wall clock whose offset from UTC is less
/// than a day, as every time zone's offset is.
pub open spec fn reads_near(l: LocalDateTime, t: UtcInstant) -> bool {
    &&& l.nanos == t.nanos
    &&& -86400 < l.seconds() - t.utc_seconds() < 86400
}

/// Why a local wall-clock reading has no instant.
#[derive(Clone, Copy, Debug, PartialEq, Eq, Structural)]
pub enum TimeError {
    /// The local time zone maps the reading to no instant, or to two.
    NoSingleInstant,
    /// The instant falls outside the years 0 to 9999.
    OutOfRange,
}

pub open spec fn is_leap_year(year: int) -> bool {
    year % 4 == 0 && (year % 100 != 0 || year % 400 == 0)
}

pub open spec fn days_in_month(year: int, month: int) -> int {
    if month == 2 {
        if is_leap_year(year) {
            29
        } else {
            28
        }
    } else if month == 4 || month == 6 || month == 9 || month == 11 {
        30
    } else {
        31
    }
}

/// Days of the year that precede the first of `month`.
pub open spec fn days_before_month(year: int, month: int) -> int {
    let common: int = if month <= 1 {
        0
    } else if month == 2 {
        31
    } else if month == 3 {
        59
    } else if month == 4 {
        90
    } else if month == 5 {
        120
    } else if month == 6 {
        151
    } else if month == 7 {
        181
    } else if month == 8 {
        212
    } else if month == 9 {
        243
    } else if month == 10 {
        273
    } else if month == 11 {
        304
    } else {
        334
    };
    if month > 2 && is_leap_year(year) {
        common + 1
    } else {
        common
    }
}

/// The date exists in the proleptic Gregorian calendar within chrono's years.
pub open spec fn is_valid_date(year: int, month: int, day: int) -> bool {
    &&& MIN_YEAR <= year <= MAX_YEAR
    &&& 1 <= month <= 12
    &&& 1 <= day <= days_in_month(year, month)
}

/// Day number of a date, counted from the common era: 0001-01-01 is day 1.
pub open spec fn ce_day(year: int, month: int, day: int) -> int {
    let y = year - 1;
    365 * y + y / 4 - y / 100 + y / 400 + days_before_month(year, month) + day
}

/// Relies on chrono's `NaiveDate::from_ymd_opt`, which accepts exactly the
/// existing dates of its years, and `Datelike::num_days_from_ce`.
#[verifier::external_body]
fn chrono_ce_day(year: i32, month: u32, day: u32) -> (r: Option<i32>)
    ensures
        r is Some <==> is_valid_date(year as int, month as int, day as int),
        r matches Some(n) ==> n == ce_day(year as int, month as int, day as int),
{
    let date = chrono::NaiveDate::from_ymd_opt(year, month, day)?;
    Some(date.num_days_from_ce())
}

/// Relies on chrono's `NaiveDate::from_num_days_from_ce_opt`, defined on
/// every day of its years, and on the date's `year`, `month` and `day`.
#[verifier::external_body]
fn chrono_civil_date(day: i32) -> (r: Option<(i32, u32, u32)>)
    ensures
        MIN_DAY <= day <= MAX_DAY ==> r is Some,
        r matches Some(t) ==> {
            &&& is_valid_date(t.0 as int, t.1 as int, t.2 as int)
            &&& ce_day(t.0 as int, t.1 as int, t.2 as int) == day
        },
{
    let date = chrono::NaiveDate::from_num_days_from_ce_opt(day)?;
    Some((date.year(), date.month(), date.day()))
}

/// Relies on chrono's `DateTime::from_timestamp`, defined on these instants,
/// and its conversion to the machine's local time zone (`with_timezone(&Local)`,
/// `naive_local`), whose offset is a `FixedOffset` of less than a day. The
/// result is the local day number, the second of the day and the nanosecond.
#[verifier::external_body]
fn chrono_local_of(secs: i64, nanos: u32) -> (r: Option<(i32, u32, u32)>)
    requires
        MIN_UNIX_SECONDS <= secs <= MAX_UNIX_SECONDS,
        nanos < NANOS_PER_SECOND,
    ensures
        r is Some,
        r matches Some(t) ==> {
            &&& t.1 < SECONDS_PER_DAY
            &&& t.2 == nanos
            &&& -86400 < t.0 * 86400 + t.1 - (secs + UNIX_EPOCH_DAY * 86400) < 86400
        },
{
    let t = chrono::DateTime::from_timestamp(secs, nanos)?;
    let l = t.with_timezone(&chrono::Local).naive_local();
    Some((l.num_days_from_ce(), l.num_seconds_from_midnight(), l.nanosecond()))
}

/// Relies on chrono's `Local::from_local_datetime(..).single()`: the one
/// instant that the machine's local time zone gives the wall-clock reading,
/// as Unix seconds and nanoseconds. The zone's offset, subtracted from the
/// reading, is a `FixedOffset` of less than a day.
#[verifier::external_body]
fn chrono_instant_of_local(day: i32, second: u32, nanos: u32) -> (r: Option<(i64, u32)>)
    requires
        MIN_DAY <= day <= MAX_DAY,
        second < SECONDS_PER_DAY,
        nanos < NANOS_PER_SECOND,
    ensures
        r matches Some(p) ==> {
            &&& p.1 == nanos
            &&& -86400 < day * 86400 + second - (p.0 + UNIX_EPOCH_DAY * 86400) < 86400
        },
{
    let date = chrono::NaiveDate::from_num_days_from_ce_opt(day)?;
    let time = chrono::NaiveTime::from_num_seconds_from_midnight_opt(second, nanos)?;
    let t = chrono::Local.from_local_datetime(&date.and_time(time)).single()?;
    Some((t.timestamp(), t.timestamp_subsec_nanos()))
}

impl LocalDateTime {
    /// The wall-clock reading at `hour:minute:second` and `nanos` on the
    /// given Gregorian date; `None` where the date does not exist, lies
    /// outside the supported days, or a time field is out of range.
    pub fn from_ymd_hms_nano(
        year: i32,
        month: u32,
        day: u32,
        hour: u32,
        minute: u32,
        second: u32,
        nanos: u32,
    ) -> (r: Option<LocalDateTime>)
        ensures
            r is Some <==> {
                &&& is_valid_date(year as int, month as int, day as int)
                &&& MIN_DAY <= ce_day(year as int, month as int, day as int) <= MAX_DAY
                &&& hour < 24 && minute < 60 && second < 60
                &&& nanos < NANOS_PER_SECOND
            },
            r matches Some(t) ==> {
                &&& t.wf()
                &&& t.day == ce_day(year as int, month as int, day as int)
                &&& t.second == hour * 3600 + minute * 60 + second
                &&& t.nanos == nanos
            },
    {
        if hour >= 24 || minute >= 60 || second >= 60 || nanos >= NANOS_PER_SECOND {
            return None;
        }
        match chrono_ce_day(year, month, day) {
            Some(n) => {
                if (n as i64) < MIN_DAY || (n as i64) > MAX_DAY {
                    None
                } else {
                    Some(
                        LocalDateTime {
                            day: n as i64,
                            second: hour * 3600 + minute * 60 + second,
                            nanos,
                        },
                    )
                }
            },
            None => None,
        }
    }

    /// The wall-clock reading at `hour:minute:second` on the given date.
    pub fn from_ymd_hms(year: i32, month: u32, day: u32, hour: u32, minute: u32, second: u32) -> (r:
        Option<LocalDateTime>)
        ensures
            r is Some <==> {
                &&& is_valid_date(year as int, month as int, day as int)
                &&& MIN_DAY <= ce_day(year as int, month as int, day as int) <= MAX_DAY
                &&& hour < 24 && minute < 60 && second < 60
            },
            r matches Some(t) ==> {
                &&& t.wf()
                &&& t.day == ce_day(year as int, month as int, day as int)
                &&& t.second == hour * 3600 + minute * 60 + second
                &&& t.nanos == 0
            },
    {
        LocalDateTime::from_ymd_hms_nano(year, month, day, hour, minute, second, 0)
    }

    /// The Gregorian (year, month, day) of this reading's date.
    pub fn ymd(&self) -> (r: (i32, u32, u32))
        requires
            self.wf(),
        ensures
            is_valid_date(r.0 as int, r.1 as int, r.2 as int),
            ce_day(r.0 as int, r.1 as int, r.2 as int) == self.day,
    {
        match chrono_civil_date(self.day as i32) {
            Some(t) => t,
            None => (0, 1, 1),
        }
    }

    /// Hour, minute and second of this reading's time of day.
    pub fn hms(&self) -> (r: (u32, u32, u32))
        requires
            self.wf(),
        ensures
            r.0 < 24 && r.1 < 60 && r.2 < 60,
            r.0 * 3600 + r.1 * 60 + r.2 == self.second,
    {
        let s = self.second;
        (s / 3600, (s / 60) % 60, s % 60)
    }
}

/// The reading of the machine's local wall clock at instant `t`.
pub fn local_of_instant(t: UtcInstant) -> (r: LocalDateTime)
    requires
        t.wf(),
    ensures
        r.wf(),
        reads_near(r, t),
{
    match chrono_local_of(t.secs, t.nanos) {
        Some((day, second, nanos)) => LocalDateTime { day: day as i64, second, nanos },
        None => LocalDateTime { day: 0, second: 0, nanos: 0 },
    }
}

/// The result for the local time zone's answer `p` to a wall-clock reading:
/// `p` is the one instant that the zone gives the reading, as Unix seconds
/// and nanoseconds, or `None` where the zone skips the reading or passes it
/// twice.
pub fn instant_of_zone_answer(p: Option<(i64, u32)>) -> (r: Result<UtcInstant, TimeError>)
    ensures
        match p {
            None => r == Err::<UtcInstant, TimeError>(TimeError::NoSingleInstant),
            Some((s, n)) => if MIN_UNIX_SECONDS <= s <= MAX_UNIX_SECONDS {
                r == Ok::<UtcInstant, TimeError>(UtcInstant { secs: s, nanos: n })
            } else {
                r == Err::<UtcInstant, TimeError>(TimeError::OutOfRange)
            },
        },
{
    match p {
        Some((secs, nanos)) => {
            if MIN_UNIX_SECONDS <= secs && secs <= MAX_UNIX_SECONDS {
                Ok(UtcInstant { secs, nanos })
            } else {
                Err(TimeError::OutOfRange)
            }
        },
        None => Err(TimeError::NoSingleInstant),
    }
}

/// The one instant at which the machine's local wall clock reads `l`, as
/// `instant_of_zone_answer` makes it of the time zone's answer: an error
/// where the zone skips the reading or passes it twice, or where the instant
/// falls outside the years 0 to 9999. Whatever the zone answers, an instant
/// returned is well-formed and read by the local clock as `l`, to within the
/// zone's offset.
pub fn naive_datetime_to_local(l: LocalDateTime) -> (r: Result<UtcInstant, TimeError>)
    requires
        l.wf(),
    ensures
        r matches Ok(t) ==> t.wf() && reads_near(l, t),
        r matches Err(e) ==> e == TimeError::NoSingleInstant || e == TimeError::OutOfRange,
{
    let answer = chrono_instant_of_local(l.day as i32, l.second, l.nanos);
    instant_of_zone_answer(answer)
}

/// Today's occurrence, on the machine's local wall clock, of the schedule
/// anchored at instant `anchor` and moving by `interval` seconds per day,
/// where `now` is the current instant. The two instants are read on the
/// local clock, whose offset from UTC is less than a day; for those readings
/// the result is `todays_occurrence`'s, and `None` where now's local date
/// precedes the anchor's or the occurrence falls past the supported days.
pub fn todays_start_time(anchor: UtcInstant, interval: i64, now: UtcInstant) -> (r: Option<
    LocalDateTime,
>)
    requires
        anchor.wf(),
        now.wf(),
        interval >= 0,
    ensures
        r matches Some(o) ==> {
            &&& o.wf()
            &&& o.nanos == anchor.nanos
            &&& exists|a: LocalDateTime, n: LocalDateTime|
                #![trigger reads_near(a, anchor), reads_near(n, now)]
                {
                    &&& a.wf() && n.wf()
                    &&& reads_near(a, anchor) && reads_near(n, now)
                    &&& days_between(n, a) >= 0
                    &&& occurrence_seconds(a, interval as int, days_between(n, a)) == o.seconds()
                }
        },
        r is None ==> exists|a: LocalDateTime, n: LocalDateTime|
            #![trigger reads_near(a, anchor), reads_near(n, now)]
            {
                &&& a.wf() && n.wf()
                &&& reads_near(a, anchor) && reads_near(n, now)
                &&& days_between(n, a) < 0 || !occurrence_fits(a, interval as int, n)
            },
{
    let a = local_of_instant(anchor);
    let n = local_of_instant(now);
    if !occurrence_in_range(a, interval, n) {
        return None;
    }
    todays_occurrence(a, interval, n)
}

} // verus!
