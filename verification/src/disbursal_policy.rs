//! Whether a facility may disburse, and the dates a new disbursal's
//! obligation falls due, overdue and into liquidation.
use vstd::prelude::*;
use crate::terms::{ObligationDuration, TermValues};
use crate::time::day_in_range;

verus! {

/// Why a disbursal is refused.
#[derive(Debug, Clone, Copy, PartialEq, Eq)]
pub enum DisbursalRefusal {
    CustomerNotVerified,
    OnlyOneDisbursalAllowed,
    DisbursalPastMaturityDate,
    BelowMarginLimit,
}

/// What is known of a facility when a disbursal is asked for: whether the
/// platform requires verified customers and the customer is verified,
/// whether the facility allows a single disbursal only, whether the
/// facility has not matured yet, and whether its collateral would still
/// cover what it owes with the disbursal added.
#[derive(Debug, Clone, Copy, PartialEq, Eq)]
pub struct DisbursalChecks {
    pub require_verified_customer: bool,
    pub customer_verified: bool,
    pub single_disbursal_facility: bool,
    pub before_maturity: bool,
    pub allowed_at_new_cvl: bool,
}

/// The first check a disbursal fails, in the order they are made: the
/// customer's verification, the single disbursal, the maturity date, the
/// margin limit.
pub open spec fn first_refusal(c: DisbursalChecks) -> Option<DisbursalRefusal> {
    if c.require_verified_customer && !c.customer_verified {
        Some(DisbursalRefusal::CustomerNotVerified)
    } else if c.single_disbursal_facility {
        Some(DisbursalRefusal::OnlyOneDisbursalAllowed)
    } else if !c.before_maturity {
        Some(DisbursalRefusal::DisbursalPastMaturityDate)
    } else if !c.allowed_at_new_cvl {
        Some(DisbursalRefusal::BelowMarginLimit)
    } else {
        None
    }
}

/// A disbursal goes ahead exactly when every check passes. An unverified
/// customer where verification is required is always refused as such,
/// whatever else holds; a facility of a single disbursal is refused as
/// such unless the customer's verification failed first; a matured facility
/// is refused as such unless an earlier check failed; and the margin limit
/// is the last thing checked.
pub proof fn law_disbursal_refusals(c: DisbursalChecks)
    ensures
        first_refusal(c) is None <==> ((!c.require_verified_customer || c.customer_verified)
            && !c.single_disbursal_facility && c.before_maturity && c.allowed_at_new_cvl),
        c.require_verified_customer && !c.customer_verified ==> first_refusal(c) == Some(
            DisbursalRefusal::CustomerNotVerified,
        ),
        first_refusal(c) == Some(DisbursalRefusal::CustomerNotVerified) ==> c.require_verified_customer
            && !c.customer_verified,
        first_refusal(c) == Some(DisbursalRefusal::OnlyOneDisbursalAllowed) <==> ((!c.require_verified_customer
            || c.customer_verified) && c.single_disbursal_facility),
        first_refusal(c) == Some(DisbursalRefusal::DisbursalPastMaturityDate) <==> ((!c.require_verified_customer
            || c.customer_verified) && !c.single_disbursal_facility && !c.before_maturity),
        first_refusal(c) == Some(DisbursalRefusal::BelowMarginLimit) <==> ((!c.require_verified_customer
            || c.customer_verified) && !c.single_disbursal_facility && c.before_maturity && !c.allowed_at_new_cvl),
{
}

/// Whether the disbursal may go ahead, or the first reason it may not.
pub fn check_disbursal(c: DisbursalChecks) -> (r: Result<(), DisbursalRefusal>)
    ensures
        match first_refusal(c) {
            Some(refusal) => r == Err::<(), DisbursalRefusal>(refusal),
            None => r is Ok,
        },
{
    if c.require_verified_customer && !c.customer_verified {
        return Err(DisbursalRefusal::CustomerNotVerified);
    }
    if c.single_disbursal_facility {
        return Err(DisbursalRefusal::OnlyOneDisbursalAllowed);
    }
    if !c.before_maturity {
        return Err(DisbursalRefusal::DisbursalPastMaturityDate);
    }
    if !c.allowed_at_new_cvl {
        return Err(DisbursalRefusal::BelowMarginLimit);
    }
    Ok(())
}

/// The number of days a duration lasts.
pub open spec fn duration_days(d: ObligationDuration) -> int {
    match d {
        ObligationDuration::Days(n) => n as int,
    }
}

impl ObligationDuration {
    /// The day the duration ends when it starts on `start`.
    pub fn end_date(&self, start: i32) -> (r: i32)
        requires
            day_in_range(start + duration_days(*self)),
        ensures
            r == start + duration_days(*self),
    {
        match self {
            ObligationDuration::Days(n) => {
                let days: i64 = *n as i64;
                let end: i64 = start as i64 + days;
                end as i32
            },
        }
    }
}

/// The days a disbursal's obligation becomes overdue and goes into
/// liquidation: the terms' durations after its due day, where the terms
/// set them.
pub fn disbursal_dates(due: i32, terms: &TermValues) -> (r: (Option<i32>, Option<i32>))
    requires
        terms.obligation_overdue_duration_from_due matches Some(d) ==> day_in_range(due + duration_days(d)),
        terms.obligation_liquidation_duration_from_due matches Some(d) ==> day_in_range(
            due + duration_days(d),
        ),
    ensures
        r.0 == match terms.obligation_overdue_duration_from_due {
            Some(d) => Some((due + duration_days(d)) as i32),
            None => None,
        },
        r.1 == match terms.obligation_liquidation_duration_from_due {
            Some(d) => Some((due + duration_days(d)) as i32),
            None => None,
        },
{
    let overdue = match terms.obligation_overdue_duration_from_due {
        Some(d) => Some(d.end_date(due)),
        None => None,
    };
    let liquidation = match terms.obligation_liquidation_duration_from_due {
        Some(d) => Some(d.end_date(due)),
        None => None,
    };
    (overdue, liquidation)
}

} // verus!
