//! Which status job an obligation gets next, once it has fallen due or
//! overdue, and on which day that job takes effect.
use vstd::prelude::*;
use crate::time::{instant_in_range, utc_day, utc_day_of};

verus! {

/// The status an obligation moves to in a job of its own.
#[derive(Debug, Clone, Copy, PartialEq, Eq)]
pub enum ObligationStep {
    Overdue,
    Defaulted,
}

/// A status job to spawn: the step, the instant it runs at, and the day
/// it records as effective.
#[derive(Debug, Clone, Copy, PartialEq, Eq)]
pub struct ScheduledStep {
    pub step: ObligationStep,
    pub at: i64,
    pub effective: i32,
}

/// The job that runs at `at` for `step`, effective on the day of `at`.
pub open spec fn scheduled(step: ObligationStep, at: i64) -> ScheduledStep {
    ScheduledStep { step, at, effective: utc_day_of(at as int) as i32 }
}

fn schedule(step: ObligationStep, at: i64) -> (r: ScheduledStep)
    requires
        instant_in_range(at),
    ensures
        r == scheduled(step, at),
{
    ScheduledStep { step, at, effective: utc_day(at) }
}

/// After an obligation has fallen due: its overdue job where it has an
/// overdue instant, else its defaulted job where it has a defaulted
/// instant, else none.
pub fn next_after_due(overdue_at: Option<i64>, defaulted_at: Option<i64>) -> (r: Option<ScheduledStep>)
    requires
        overdue_at matches Some(t) ==> instant_in_range(t),
        defaulted_at matches Some(t) ==> instant_in_range(t),
    ensures
        r == match (overdue_at, defaulted_at) {
            (Some(t), _) => Some(scheduled(ObligationStep::Overdue, t)),
            (None, Some(t)) => Some(scheduled(ObligationStep::Defaulted, t)),
            (None, None) => None,
        },
{
    match overdue_at {
        Some(t) => Some(schedule(ObligationStep::Overdue, t)),
        None => match defaulted_at {
            Some(t) => Some(schedule(ObligationStep::Defaulted, t)),
            None => None,
        },
    }
}

/// After an obligation has gone overdue: its defaulted job where it has a
/// defaulted instant, else none.
pub fn next_after_overdue(defaulted_at: Option<i64>) -> (r: Option<ScheduledStep>)
    requires
        defaulted_at matches Some(t) ==> instant_in_range(t),
    ensures
        r == match defaulted_at {
            Some(t) => Some(scheduled(ObligationStep::Defaulted, t)),
            None => None,
        },
{
    match defaulted_at {
        Some(t) => Some(schedule(ObligationStep::Defaulted, t)),
        None => None,
    }
}

} // verus!
