//! Day counting on the local calendar and the occurrence of the schedule on
//! the current day.

use vstd::prelude::*;

verus! {

/// Seconds in one calendar day of the local wall clock.
pub const SECONDS_PER_DAY: u32 = 86400;

/// Nanoseconds in one second.
pub const NANOS_PER_SECOND: u32 = 1_000_000_000;

/// Earliest day number that a well-formed moment may carry.
pub const MIN_DAY: i64 = -95_000_000;

/// Latest day number that a well-formed moment may carry.
pub const MAX_DAY: i64 = 95_000_000;

/// A wall-clock moment on the local calendar: the day number (days from the
/// common era, 0001-01-01 being day 1), the second within that day and the
/// nanosecond within that second.
#[derive(Clone, Copy, Debug, PartialEq, Eq, Structural)]
pub struct LocalDateTime {
    pub day: i64,
    pub second: u32,
    pub nanos: u32,
}

impl LocalDateTime {
    pub open spec fn wf(self) -> bool {
        &&& MIN_DAY <= self.day <= MAX_DAY
        &&& self.second < SECONDS_PER_DAY
        &&& self.nanos < NANOS_PER_SECOND
    }

    /// Whole seconds since the start of day zero, on the local wall clock.
    pub open spec fn seconds(self) -> int {
        self.day * SECONDS_PER_DAY + self.second
    }
}

/// Signed number of calendar days from `amount`'s date to `from`'s date; the
/// time of day plays no part.
pub open spec fn days_between(from: LocalDateTime, amount: LocalDateTime) -> int {
    from.day - amount.day
}

/// The occurrence `days` days after the anchor: the anchor moved by `days`
/// whole days and by `interval` seconds for each of them.
pub open spec fn occurrence_seconds(anchor: LocalDateTime, interval: int, days: int) -> int {
    anchor.seconds() + days * SECONDS_PER_DAY + interval * days
}

/// The occurrence for `now`, if there is one, falls on a representable day.
pub open spec fn occurrence_fits(anchor: LocalDateTime, interval: int, now: LocalDateTime) -> bool {
    let days = days_between(now, anchor);
    days < 0 || occurrence_seconds(anchor, interval, days) < (MAX_DAY + 1) * SECONDS_PER_DAY
}

/// The number of calendar days from `amount`'s date to `from`'s date.
pub fn subtract_dates(from: LocalDateTime, amount: LocalDateTime) -> (r: i64)
    requires
        from.wf(),
        amount.wf(),
    ensures
        r == days_between(from, amount),
{
    from.day - amount.day
}

proof fn lemma_split_day(day: int, offset: int)
    requires
        offset >= 0,
    ensures
        (day * 86400 + offset) / 86400 == day + offset / 86400,
        (day * 86400 + offset) % 86400 == offset % 86400,
{
    vstd::arithmetic::div_mod::lemma_hoist_over_denominator(offset, day, 86400);
    vstd::arithmetic::div_mod::lemma_mod_multiples_vanish(day, offset, 86400);
}

proof fn lemma_offset_bound(d: int, interval: int)
    requires
        0 <= d <= 200_000_000,
        0 <= interval <= 0x7fff_ffff_ffff_ffff,
    ensures
        d * (86400 + interval) == d * 86400 + interval * d,
        0 <= d * (86400 + interval) <= 200_000_000 * (86400 + 0x7fff_ffff_ffff_ffff),
{
    assert(d * (86400 + interval) == d * 86400 + interval * d) by (nonlinear_arith);
    assert(0 <= d * (86400 + interval) <= 200_000_000 * (86400 + 0x7fff_ffff_ffff_ffff))
        by (nonlinear_arith)
        requires
            0 <= d <= 200_000_000,
            0 <= interval <= 0x7fff_ffff_ffff_ffff,
    ;
}

/// Checks the condition under which `todays_occurrence` can represent its
/// result.
pub fn occurrence_in_range(anchor: LocalDateTime, interval: i64, now: LocalDateTime) -> (r: bool)
    requires
        anchor.wf(),
        now.wf(),
        interval >= 0,
    ensures
        r == occurrence_fits(anchor, interval as int, now),
{
    let days = subtract_dates(now, anchor);
    if days < 0 {
        return true;
    }
    let d = days as u128;
    proof {
        lemma_offset_bound(d as int, interval as int);
    }
    let offset: u128 = anchor.second as u128 + d * (86400 + interval as u128);
    let limit: u128 = ((MAX_DAY - anchor.day) as u128 + 1) * 86400;
    offset < limit
}

/// Today's occurrence of the schedule pinned to `anchor`, moving by
/// `interval` seconds per day: `None` while `now`'s date precedes the
/// anchor's date.
pub fn todays_occurrence(anchor: LocalDateTime, interval: i64, now: LocalDateTime) -> (r: Option<
    LocalDateTime,
>)
    requires
        anchor.wf(),
        now.wf(),
        interval >= 0,
        occurrence_fits(anchor, interval as int, now),
    ensures
        r is None <==> days_between(now, anchor) < 0,
        r matches Some(o) ==> {
            &&& o.wf()
            &&& o.seconds() == occurrence_seconds(
                anchor,
                interval as int,
                days_between(now, anchor),
            )
            &&& o.nanos == anchor.nanos
        },
        days_between(now, anchor) == 0 ==> r == Some(anchor),
        interval == 0 && r is Some ==> r->0.second == anchor.second,
{
    let days = subtract_dates(now, anchor);
    if days < 0 {
        return None;
    }
    let d = days as u128;
    proof {
        lemma_offset_bound(d as int, interval as int);
    }
    let offset: u128 = anchor.second as u128 + d * (86400 + interval as u128);
    let carry: u128 = offset / 86400;
    let second: u128 = offset % 86400;
    proof {
        lemma_split_day(anchor.day as int, offset as int);
        assert(occurrence_seconds(anchor, interval as int, days as int) == anchor.day * 86400
            + offset);
        assert(carry * 86400 + second == offset);
        if interval == 0 {
            vstd::arithmetic::div_mod::lemma_mod_multiples_vanish(d as int, anchor.second as int, 86400);
            vstd::arithmetic::div_mod::lemma_small_mod(anchor.second as nat, 86400);
        }
    }
    let r = LocalDateTime { day: anchor.day + carry as i64, second: second as u32, nanos: anchor.nanos };
    proof {
        if days == 0 {
            assert(offset == anchor.second);
        }
    }
    Some(r)
}

} // verus!
