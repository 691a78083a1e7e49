//! The terms of a credit facility, as the repayment plan reads them:
//! interest periods, the maturity date, the structuring fee and the
//! interest owed for a number of days. Percentages are in hundredths of a
//! percent (basis points); money is in cents.
use vstd::prelude::*;
use crate::time::{
    add_months, day_in_range, day_start_of, end_of_day, instant_in_range, lemma_day_of_day_start,
    lemma_day_start_bounds, month_day, month_end_day, month_length, months_after, utc_day,
    utc_day_of, days_in_month, day_of_month,
};

verus! {

/// How long a facility runs.
#[derive(Debug, Clone, Copy, PartialEq, Eq)]
pub enum FacilityDuration {
    Months(u32),
}

/// How long after an event an obligation falls due, is overdue, or is
/// liquidated.
#[derive(Debug, Clone, Copy, PartialEq, Eq)]
pub enum ObligationDuration {
    Days(u64),
}

/// The boundary at which interest periods end.
#[derive(Debug, Clone, Copy, PartialEq, Eq)]
pub enum InterestInterval {
    EndOfMonth,
    EndOfDay,
}

/// How a facility is disbursed.
#[derive(Debug, Clone, Copy, PartialEq, Eq)]
pub enum DisbursalPolicy {
    SingleDisbursal,
    MultipleDisbursal,
}

/// The terms of a facility.
#[derive(Debug, Clone, Copy, PartialEq, Eq)]
pub struct TermValues {
    pub annual_rate_bps: u64,
    pub duration: FacilityDuration,
    pub interest_due_duration_from_accrual: ObligationDuration,
    pub obligation_overdue_duration_from_due: Option<ObligationDuration>,
    pub obligation_liquidation_duration_from_due: Option<ObligationDuration>,
    pub accrual_cycle_interval: InterestInterval,
    pub accrual_interval: InterestInterval,
    pub one_time_fee_rate_bps: u64,
    pub disbursal_policy: DisbursalPolicy,
    pub liquidation_cvl_bps: u64,
    pub margin_call_cvl_bps: u64,
    pub initial_cvl_bps: u64,
}

/// The longest facility the crate plans for: 100 000 years.
pub const MAX_FACILITY_MONTHS: u32 = 1_200_000;

/// The instants at which the crate plans repayments: about 126 000 years
/// either side of the Unix epoch.
pub open spec fn plan_instant(t: int) -> bool {
    -4_000_000_000_000 <= t <= 4_000_000_000_000
}

/// The days at which the crate plans repayments: their last seconds are
/// instants it plans at.
pub open spec fn plan_day(day: int) -> bool {
    -45_500_000 <= day <= 46_000_000
}

/// Terms the repayment plan can be computed from.
pub open spec fn terms_supported(terms: TermValues) -> bool {
    match terms.duration {
        FacilityDuration::Months(m) => m <= MAX_FACILITY_MONTHS,
    }
}

/// The number of months a facility runs.
pub open spec fn duration_months(terms: TermValues) -> u32 {
    match terms.duration {
        FacilityDuration::Months(m) => m,
    }
}

/// The day a facility activated at `activated_at` matures: as many months
/// later as it runs.
pub open spec fn maturity_day(terms: TermValues, activated_at: int) -> int {
    months_after(utc_day_of(activated_at) as i32, duration_months(terms))->0 as int
}

/// A period over which interest accrues, from `start` to `end` (instants,
/// both included), cut at the boundaries of `interval`.
#[derive(Debug, Clone, Copy, PartialEq, Eq)]
pub struct InterestPeriod {
    pub interval: InterestInterval,
    pub start: i64,
    pub end: i64,
}

/// The last instant of the period of `interval` that `t` falls in: the end
/// of its day, or of the last day of its month.
pub open spec fn interval_end(interval: InterestInterval, t: int) -> int {
    let d = utc_day_of(t);
    match interval {
        InterestInterval::EndOfDay => day_start_of(d) + 86399,
        InterestInterval::EndOfMonth => day_start_of(month_end_day(d as i32)) + 86399,
    }
}

/// The period of `interval` that starts at `t`.
pub open spec fn period_starting(interval: InterestInterval, t: int) -> InterestPeriod {
    InterestPeriod { interval, start: t as i64, end: interval_end(interval, t) as i64 }
}

/// The period cut at `limit`: nothing if it starts after `limit`, else the
/// period ending at `limit` at the latest.
pub open spec fn truncated(p: InterestPeriod, limit: int) -> Option<InterestPeriod> {
    if p.start > limit {
        None
    } else {
        Some(InterestPeriod { end: if p.end <= limit { p.end } else { limit as i64 }, ..p })
    }
}

/// The period that follows `p`: it starts a second after `p` ends.
pub open spec fn following(p: InterestPeriod) -> InterestPeriod {
    period_starting(p.interval, p.end + 1)
}

impl InterestInterval {
    /// The period of this interval that starts at `t`.
    pub fn period_from(&self, t: i64) -> (r: InterestPeriod)
        requires
            instant_in_range(t),
        ensures
            r == period_starting(*self, t as int),
            r.start <= r.end <= r.start + 31 * 86400,
    {
        let d = utc_day(t);
        proof {
            lemma_day_start_bounds(t as int);
        }
        match self {
            InterestInterval::EndOfDay => InterestPeriod { interval: *self, start: t, end: end_of_day(d) },
            InterestInterval::EndOfMonth => {
                let dom = month_day(d);
                let dim = month_length(d);
                let last = d + (dim - dom) as i32;
                assert(last == month_end_day(d));
                InterestPeriod { interval: *self, start: t, end: end_of_day(last) }
            },
        }
    }
}

impl InterestPeriod {
    /// The number of days the period touches: from the day of its start to
    /// the day of its end, both counted.
    pub open spec fn days_spec(self) -> int {
        utc_day_of(self.end as int) - utc_day_of(self.start as int) + 1
    }

    /// The number of days the period touches.
    pub fn days(&self) -> (r: i64)
        requires
            instant_in_range(self.start),
            instant_in_range(self.end),
        ensures
            r == self.days_spec(),
    {
        let end_day = utc_day(self.end) as i64;
        let start_day = utc_day(self.start) as i64;
        end_day - start_day + 1
    }

    /// The period that follows this one.
    pub fn next(&self) -> (r: InterestPeriod)
        requires
            instant_in_range((self.end + 1) as i64),
            self.end < i64::MAX,
        ensures
            r == following(*self),
            r.start <= r.end <= r.start + 31 * 86400,
    {
        self.interval.period_from(self.end + 1)
    }

    /// The period cut at `limit`.
    pub fn truncate(self, limit: i64) -> (r: Option<InterestPeriod>)
        ensures
            r == truncated(self, limit as int),
    {
        if self.start > limit {
            None
        } else if self.end <= limit {
            Some(self)
        } else {
            Some(InterestPeriod { end: limit, ..self })
        }
    }
}

impl TermValues {
    /// The day on which a facility activated at `activated_at` matures.
    pub fn maturity_date(&self, activated_at: i64) -> (r: i32)
        requires
            terms_supported(*self),
            plan_instant(activated_at as int),
        ensures
            r == maturity_day(*self, activated_at as int),
            utc_day_of(activated_at as int) <= r <= utc_day_of(activated_at as int) + 31 * duration_months(*self),
            -46_000_000 <= utc_day_of(activated_at as int) <= 48_000_000,
    {
        let months = match self.duration {
            FacilityDuration::Months(m) => m,
        };
        let d = utc_day(activated_at);
        let r = add_months(d, months);
        r.unwrap()
    }
}

/// `n / d`, rounded up.
pub open spec fn ceil_div(n: int, d: int) -> int {
    (n + d - 1) / d
}

/// `x`, or the largest amount of cents where `x` is larger.
pub open spec fn capped(x: int) -> int {
    if x > u64::MAX as int {
        u64::MAX as int
    } else {
        x
    }
}

/// The one-time structuring fee on `amount` at `bps` basis points,
/// rounded up to the cent.
pub open spec fn structuring_fee(amount: int, bps: int) -> int {
    capped(ceil_div(amount * bps, 10000))
}

/// The interest on `principal` cents for `days` days at an annual rate of
/// `bps` basis points, on a year of 365 days, rounded up to the cent.
pub open spec fn interest_for_days(principal: int, bps: int, days: int) -> int {
    capped(ceil_div(principal * bps * days, 3_650_000))
}

/// The structuring fee is the least number of cents that covers `bps`
/// basis points of the amount (it rounds up, never down), unless that is
/// more than a `u64` holds.
pub proof fn law_structuring_fee_rounds_up(amount: u64, bps: u64)
    ensures
        ({
            let fee = structuring_fee(amount as int, bps as int);
            &&& 0 <= fee <= u64::MAX
            &&& fee < u64::MAX ==> fee * 10000 >= amount * bps && (fee - 1) * 10000 < amount * bps
                || amount * bps == 0 && fee == 0
        }),
{
    let n = amount * bps;
    assert(n >= 0) by (nonlinear_arith)
        requires
            n == amount * bps,
    ;
    let q = ceil_div(n, 10000);
    assert(q * 10000 >= n && (q - 1) * 10000 < n || n == 0 && q == 0) by (nonlinear_arith)
        requires
            q == (n + 10000 - 1) / 10000,
            n >= 0,
    ;
}

/// The interest for a number of days is the least number of cents that
/// covers the principal at the annual rate over those days of a 365-day
/// year, unless that is more than a `u64` holds.
pub proof fn law_interest_rounds_up(principal: u64, bps: u64, days: u64)
    ensures
        ({
            let interest = interest_for_days(principal as int, bps as int, days as int);
            let owed = principal * bps * days;
            &&& 0 <= interest <= u64::MAX
            &&& interest < u64::MAX ==> interest * 3_650_000 >= owed && (interest - 1) * 3_650_000 < owed
                || owed == 0 && interest == 0
        }),
{
    let n = principal * bps * days;
    assert(n >= 0) by (nonlinear_arith)
        requires
            n == principal * bps * days,
    ;
    let q = ceil_div(n, 3_650_000);
    assert(q * 3_650_000 >= n && (q - 1) * 3_650_000 < n || n == 0 && q == 0) by (nonlinear_arith)
        requires
            q == (n + 3_650_000 - 1) / 3_650_000,
            n >= 0,
    ;
}

/// The one-time fee on `amount` at the terms' fee rate.
pub fn one_time_fee(amount: u64, bps: u64) -> (r: u64)
    ensures
        r == structuring_fee(amount as int, bps as int),
{
    assert((amount as u128) * (bps as u128) <= u64::MAX * u64::MAX) by (nonlinear_arith);
    let n: u128 = (amount as u128) * (bps as u128);
    let q: u128 = n / 10000 + if n % 10000 != 0 { 1 } else { 0 };
    assert(q == ceil_div(n as int, 10000)) by (nonlinear_arith)
        requires
            q == n / 10000 + if n % 10000 != 0 { 1int } else { 0int },
            n >= 0,
    ;
    if q > u64::MAX as u128 {
        u64::MAX
    } else {
        q as u64
    }
}

/// The interest on `principal` for `days` days at `bps` basis points a
/// year.
pub fn interest_for_time_period(principal: u128, bps: u64, days: u64) -> (r: u64)
    ensures
        r == interest_for_days(principal as int, bps as int, days as int),
{
    if days == 0 {
        assert(principal * bps * days == 0) by (nonlinear_arith)
            requires
                days == 0,
        ;
        return 0;
    }
    match principal.checked_mul(bps as u128) {
        None => {
            assert(ceil_div(principal * bps * days, 3_650_000) > u64::MAX) by (nonlinear_arith)
                requires
                    principal * bps > u128::MAX,
                    days >= 1,
            ;
            u64::MAX
        },
        Some(x) => match x.checked_mul(days as u128) {
            None => {
                assert(ceil_div(principal * bps * days, 3_650_000) > u64::MAX) by (nonlinear_arith)
                    requires
                        x == principal * bps,
                        x * days > u128::MAX,
                ;
                u64::MAX
            },
            Some(n) => {
                assert(n == principal * bps * days) by (nonlinear_arith)
                    requires
                        x == principal * bps,
                        n == x * days,
                ;
                let q: u128 = n / 3_650_000 + if n % 3_650_000 != 0 { 1 } else { 0 };
                assert(q == ceil_div(n as int, 3_650_000)) by (nonlinear_arith)
                    requires
                        q == n / 3_650_000 + if n % 3_650_000 != 0 { 1int } else { 0int },
                        n >= 0,
                ;
                if q > u64::MAX as u128 {
                    u64::MAX
                } else {
                    q as u64
                }
            },
        },
    }
}

} // verus!
