//! Instants and days. An instant is a count of seconds since the Unix epoch
//! (UTC); a day is a count of days from the start of the common era, as
//! `chrono::Datelike::num_days_from_ce` counts them (0001-01-01 is day 1).
use vstd::prelude::*;

verus! {

/// The earliest instant `chrono::DateTime::<Utc>::from_timestamp` accepts:
/// the start of `NaiveDate::MIN`, -262 143-01-01.
pub const MIN_INSTANT: i64 = -8_334_601_228_800;

/// The latest instant `chrono::DateTime::<Utc>::from_timestamp` accepts:
/// the last second of `NaiveDate::MAX`, +262 142-12-31.
pub const MAX_INSTANT: i64 = 8_210_266_876_799;

/// An instant that `chrono` can represent: exactly the instants whose date
/// lies between `NaiveDate::MIN` and `NaiveDate::MAX`.
pub open spec fn instant_in_range(t: i64) -> bool {
    MIN_INSTANT <= t <= MAX_INSTANT
}

/// The day, counted from the start of the common era, on which the instant
/// falls in UTC: the Unix epoch is day 719 163.
pub open spec fn utc_day_of(t: int) -> int {
    t / 86400 + 719163
}

/// The day on which the instant falls in UTC, as
/// `chrono::DateTime::<Utc>::from_timestamp(secs, 0)` dates it:
/// `secs.div_euclid(86_400) + 719_163`. Counted from the earliest instant,
/// a whole number of days before the epoch, so that the division is of a
/// count that is not negative.
pub(crate) fn utc_day(secs: i64) -> (r: i32)
    requires
        instant_in_range(secs),
    ensures
        r == utc_day_of(secs as int),
{
    let shifted: i64 = secs - MIN_INSTANT;
    let days: i64 = shifted / 86400;
    proof {
        vstd::arithmetic::div_mod::lemma_hoist_over_denominator(secs as int, 96_465_292, 86400);
        assert(MIN_INSTANT == -96_465_292 * 86400);
        assert(shifted as int == secs as int + 96_465_292 * 86400);
        assert(0 <= shifted as int / 86400 <= 200_000_000) by (nonlinear_arith)
            requires
                0 <= shifted as int <= 17_000_000_000_000,
        ;
    }
    (days - 96_465_292 + 719_163) as i32
}

/// A day that `chrono`'s dates cover: from `NaiveDate::MIN` (-262 143-01-01)
/// to `NaiveDate::MAX` (+262 142-12-31), the days for which
/// `NaiveDate::from_num_days_from_ce_opt` gives a date.
pub open spec fn day_in_range(day: int) -> bool {
    -95_746_129 <= day <= 95_745_399
}

/// What `Datelike::day` gives for the date of `day`: its day of the month.
pub uninterp spec fn day_of_month(day: i32) -> u32;

/// What `Datelike::num_days_in_month` gives for the date of `day`: the
/// length of its month.
pub uninterp spec fn days_in_month(day: i32) -> u32;

/// What `NaiveDate::checked_add_months` gives for the date of `day` and a
/// number of months: the date as many months later (on the same day of the
/// month, or the month's last day where that day does not exist), or
/// nothing where that date is out of chrono's range.
pub uninterp spec fn months_after(day: i32, months: u32) -> Option<i32>;

/// Calls `Datelike::day` on the date of `day` (made with
/// `NaiveDate::from_num_days_from_ce_opt`): the day of the month, from 1
/// to the length of the month. Chrono's range is made of whole years (from
/// `NaiveDate::MIN`, a 1 January, to `NaiveDate::MAX`, a 31 December), so
/// the last day of the month of a day in range is in range.
#[verifier::external_body]
pub(crate) fn month_day(day: i32) -> (r: u32)
    requires
        day_in_range(day as int),
    ensures
        r == day_of_month(day),
        1 <= r <= days_in_month(day),
        day_in_range(day - r + days_in_month(day)),
{
    chrono::Datelike::day(&chrono::NaiveDate::from_num_days_from_ce_opt(day).unwrap())
}

/// Calls `Datelike::num_days_in_month` on the date of `day`: the length of
/// its month, from 28 to 31 days.
#[verifier::external_body]
pub(crate) fn month_length(day: i32) -> (r: u32)
    requires
        day_in_range(day as int),
    ensures
        r == days_in_month(day),
        28 <= r <= 31,
{
    chrono::Datelike::num_days_in_month(&chrono::NaiveDate::from_num_days_from_ce_opt(day).unwrap()) as u32
}

/// Calls `NaiveDate::checked_add_months` on the date of `day`. Adding no
/// months gives the date back; adding months moves the date forward by at
/// most 31 days a month; the result is out of range only past chrono's
/// last year, +262 142, which dates before about year 137 000 do not reach
/// with fewer than 1 200 000 months.
#[verifier::external_body]
pub(crate) fn add_months(day: i32, months: u32) -> (r: Option<i32>)
    requires
        day_in_range(day as int),
    ensures
        r == months_after(day, months),
        months == 0 ==> r == Some(day),
        r is Some ==> day <= r->0 <= day + 31 * months,
        (-50_000_000 <= day <= 50_000_000 && months <= 1_200_000) ==> r is Some,
{
    chrono::NaiveDate::from_num_days_from_ce_opt(day)
        .unwrap()
        .checked_add_months(chrono::Months::new(months))
        .map(|d| chrono::Datelike::num_days_from_ce(&d))
}

/// The last day of the month of `day`.
pub open spec fn month_end_day(day: i32) -> int {
    day + days_in_month(day) - day_of_month(day)
}

/// The instant at which the day starts.
pub open spec fn day_start_of(day: int) -> int {
    (day - 719163) * 86400
}

/// The instant at which the day starts (UTC, seconds since the epoch).
pub fn start_of_day(day: i32) -> (r: i64)
    requires
        day_in_range(day as int),
    ensures
        r == day_start_of(day as int),
{
    assert(-100_000_000 * 86400 <= (day - 719163) * 86400 <= 100_000_000 * 86400) by (nonlinear_arith)
        requires
            -95_746_129 <= day <= 95_745_399,
    ;
    ((day as i64) - 719163) * 86400
}

/// The last second of the day.
pub fn end_of_day(day: i32) -> (r: i64)
    requires
        day_in_range(day as int),
    ensures
        r == day_start_of(day as int) + 86399,
{
    start_of_day(day) + 86399
}

/// The day on which the day's first instant falls is the day itself.
pub proof fn lemma_day_of_day_start(day: int)
    ensures
        utc_day_of(day_start_of(day)) == day,
        utc_day_of(day_start_of(day) + 86399) == day,
{
    assert((day - 719163) * 86400 / 86400 == day - 719163) by (nonlinear_arith);
    assert(((day - 719163) * 86400 + 86399) / 86400 == day - 719163) by (nonlinear_arith);
}

/// An instant falls within its day.
pub proof fn lemma_day_start_bounds(t: int)
    ensures
        day_start_of(utc_day_of(t)) <= t <= day_start_of(utc_day_of(t)) + 86399,
{
    assert((t / 86400) * 86400 <= t < (t / 86400) * 86400 + 86400) by (nonlinear_arith);
}

} // verus!
