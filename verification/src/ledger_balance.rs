//! Balances of a facility's accounts, summed up for the facility.
use vstd::prelude::*;
use crate::accounting_config::DebitOrCredit;

verus! {

/// The balance of one account in one currency, in its smallest unit (cents
/// or satoshis): debits and credits, settled and pending.
#[derive(Debug, Clone, Copy, PartialEq, Eq)]
pub struct AccountBalanceSnapshot {
    pub normal_balance_type: DebitOrCredit,
    pub settled_dr: i128,
    pub settled_cr: i128,
    pub pending_dr: i128,
    pub pending_cr: i128,
}

/// A balance that is not a count of cents or satoshis: negative, or too large.
#[derive(Debug, Clone, Copy, PartialEq, Eq)]
pub enum BalanceConversionError {
    OutOfRange,
}

/// The settled balance, on the account's normal side: credits less debits
/// for a credit account, debits less credits for a debit account.
pub open spec fn settled_of(b: AccountBalanceSnapshot) -> int {
    match b.normal_balance_type {
        DebitOrCredit::Credit => b.settled_cr - b.settled_dr,
        DebitOrCredit::Debit => b.settled_dr - b.settled_cr,
    }
}

/// The amount as a count of units, when it is one.
pub open spec fn as_units(x: int) -> Option<u64> {
    if 0 <= x <= u64::MAX {
        Some(x as u64)
    } else {
        None
    }
}

impl AccountBalanceSnapshot {
    /// The settled balance on the account's normal side.
    pub fn settled(&self) -> (r: i128)
        requires
            i128::MIN <= settled_of(*self) <= i128::MAX,
        ensures
            r == settled_of(*self),
    {
        match self.normal_balance_type {
            DebitOrCredit::Credit => self.settled_cr - self.settled_dr,
            DebitOrCredit::Debit => self.settled_dr - self.settled_cr,
        }
    }
}

fn to_units(x: i128) -> (r: Result<u64, BalanceConversionError>)
    ensures
        as_units(x as int) matches Some(v) ==> r == Ok::<u64, BalanceConversionError>(v),
        as_units(x as int) is None ==> r == Err::<u64, _>(BalanceConversionError::OutOfRange),
{
    if x >= 0 && x <= u64::MAX as i128 {
        Ok(x as u64)
    } else {
        Err(BalanceConversionError::OutOfRange)
    }
}

/// The settled balance of an account that may not exist yet (zero then).
pub open spec fn settled_or_zero(b: Option<AccountBalanceSnapshot>) -> int {
    match b {
        Some(s) => settled_of(s),
        None => 0,
    }
}

/// A field of an account that may not exist yet (zero then).
pub open spec fn field_or_zero(b: Option<AccountBalanceSnapshot>, f: spec_fn(AccountBalanceSnapshot) -> i128) -> int {
    match b {
        Some(s) => f(s) as int,
        None => 0,
    }
}

/// The balances can be summed without overflowing the integers that carry
/// them.
pub open spec fn settled_fits(b: Option<AccountBalanceSnapshot>) -> bool {
    b matches Some(s) ==> i128::MIN <= settled_of(s) <= i128::MAX
}

fn settled_units(b: &Option<AccountBalanceSnapshot>) -> (r: Result<u64, BalanceConversionError>)
    requires
        settled_fits(*b),
    ensures
        as_units(settled_or_zero(*b)) matches Some(v) ==> r == Ok::<u64, BalanceConversionError>(v),
        as_units(settled_or_zero(*b)) is None ==> r == Err::<u64, _>(BalanceConversionError::OutOfRange),
{
    match b {
        Some(s) => to_units(s.settled()),
        None => Ok(0),
    }
}

/// The balances of a facility's accounts, as read from the ledger (`None`
/// for an account with no balance yet).
#[derive(Debug, Clone, Copy, PartialEq, Eq)]
pub struct CreditFacilityBalances {
    pub facility: Option<AccountBalanceSnapshot>,
    pub collateral: Option<AccountBalanceSnapshot>,
    pub disbursed_receivable_not_yet_due: Option<AccountBalanceSnapshot>,
    pub disbursed_receivable_due: Option<AccountBalanceSnapshot>,
    pub disbursed_receivable_overdue: Option<AccountBalanceSnapshot>,
    pub disbursed_defaulted: Option<AccountBalanceSnapshot>,
    pub interest_receivable_not_yet_due: Option<AccountBalanceSnapshot>,
    pub interest_receivable_due: Option<AccountBalanceSnapshot>,
    pub interest_receivable_overdue: Option<AccountBalanceSnapshot>,
    pub interest_defaulted: Option<AccountBalanceSnapshot>,
    pub payment_holding: Option<AccountBalanceSnapshot>,
}

/// What a facility is owed and holds, in cents (collateral in satoshis).
#[derive(Debug, Clone, Copy, PartialEq, Eq)]
pub struct CreditFacilityBalanceSummary {
    pub facility: u64,
    pub facility_remaining: u64,
    pub collateral: u64,
    pub disbursed: u64,
    pub interest_posted: u64,
    pub not_yet_due_disbursed_outstanding: u64,
    pub due_disbursed_outstanding: u64,
    pub overdue_disbursed_outstanding: u64,
    pub disbursed_defaulted: u64,
    pub not_yet_due_interest_outstanding: u64,
    pub due_interest_outstanding: u64,
    pub overdue_interest_outstanding: u64,
    pub interest_defaulted: u64,
    pub payments_unapplied: u64,
}

/// The amounts the summary is made of, before conversion, in field order.
pub open spec fn summary_amounts(b: CreditFacilityBalances) -> Seq<int> {
    seq![
        field_or_zero(b.facility, |s: AccountBalanceSnapshot| s.pending_cr),
        settled_or_zero(b.facility),
        settled_or_zero(b.collateral),
        field_or_zero(b.disbursed_receivable_not_yet_due, |s: AccountBalanceSnapshot| s.settled_dr),
        field_or_zero(b.interest_receivable_not_yet_due, |s: AccountBalanceSnapshot| s.settled_dr),
        settled_or_zero(b.disbursed_receivable_not_yet_due),
        settled_or_zero(b.disbursed_receivable_due),
        settled_or_zero(b.disbursed_receivable_overdue),
        settled_or_zero(b.disbursed_defaulted),
        settled_or_zero(b.interest_receivable_not_yet_due),
        settled_or_zero(b.interest_receivable_due),
        settled_or_zero(b.interest_receivable_overdue),
        settled_or_zero(b.interest_defaulted),
        settled_or_zero(b.payment_holding),
    ]
}

/// The fields of a summary, in field order.
pub open spec fn summary_fields(s: CreditFacilityBalanceSummary) -> Seq<int> {
    seq![
        s.facility as int,
        s.facility_remaining as int,
        s.collateral as int,
        s.disbursed as int,
        s.interest_posted as int,
        s.not_yet_due_disbursed_outstanding as int,
        s.due_disbursed_outstanding as int,
        s.overdue_disbursed_outstanding as int,
        s.disbursed_defaulted as int,
        s.not_yet_due_interest_outstanding as int,
        s.due_interest_outstanding as int,
        s.overdue_interest_outstanding as int,
        s.interest_defaulted as int,
        s.payments_unapplied as int,
    ]
}

/// Each amount of a facility's summary is read from the account it names:
/// the facility amount from the pending credit of the facility account, what
/// remains of it from that account's settled balance, the collateral from
/// the collateral account, what was disbursed and what interest was posted
/// from the settled debits of the not-yet-due receivables, and each
/// outstanding amount (not yet due, due, overdue, defaulted; disbursed or
/// interest) and the unapplied payments from the settled balance of its own
/// account: what is due from the due account, what is overdue from the
/// overdue account.
pub proof fn law_summary_reads_each_account(b: CreditFacilityBalances, s: CreditFacilityBalanceSummary)
    requires
        summary_fields(s) == summary_amounts(b),
    ensures
        s.facility == field_or_zero(b.facility, |a: AccountBalanceSnapshot| a.pending_cr),
        s.facility_remaining == settled_or_zero(b.facility),
        s.collateral == settled_or_zero(b.collateral),
        s.disbursed == field_or_zero(b.disbursed_receivable_not_yet_due, |a: AccountBalanceSnapshot| a.settled_dr),
        s.interest_posted == field_or_zero(b.interest_receivable_not_yet_due, |a: AccountBalanceSnapshot| a.settled_dr),
        s.not_yet_due_disbursed_outstanding == settled_or_zero(b.disbursed_receivable_not_yet_due),
        s.due_disbursed_outstanding == settled_or_zero(b.disbursed_receivable_due),
        s.overdue_disbursed_outstanding == settled_or_zero(b.disbursed_receivable_overdue),
        s.disbursed_defaulted == settled_or_zero(b.disbursed_defaulted),
        s.not_yet_due_interest_outstanding == settled_or_zero(b.interest_receivable_not_yet_due),
        s.due_interest_outstanding == settled_or_zero(b.interest_receivable_due),
        s.overdue_interest_outstanding == settled_or_zero(b.interest_receivable_overdue),
        s.interest_defaulted == settled_or_zero(b.interest_defaulted),
        s.payments_unapplied == settled_or_zero(b.payment_holding),
{
    let f = summary_fields(s);
    let a = summary_amounts(b);
    assert(f[0] == a[0] && f[1] == a[1] && f[2] == a[2] && f[3] == a[3] && f[4] == a[4]);
    assert(f[5] == a[5] && f[6] == a[6] && f[7] == a[7] && f[8] == a[8] && f[9] == a[9]);
    assert(f[10] == a[10] && f[11] == a[11] && f[12] == a[12] && f[13] == a[13]);
}

/// A summary of balances of an account that has none yet is zero for that
/// account: a facility whose due account has no balance owes nothing due,
/// whatever its overdue account holds.
pub proof fn law_no_balance_reads_zero(b: CreditFacilityBalances, s: CreditFacilityBalanceSummary)
    requires
        summary_fields(s) == summary_amounts(b),
        b.disbursed_receivable_due is None,
    ensures
        s.due_disbursed_outstanding == 0,
        s.overdue_disbursed_outstanding == settled_or_zero(b.disbursed_receivable_overdue),
{
    law_summary_reads_each_account(b, s);
}

/// Every settled balance fits the integers that carry it.
pub open spec fn balances_fit(b: CreditFacilityBalances) -> bool {
    &&& settled_fits(b.facility)
    &&& settled_fits(b.collateral)
    &&& settled_fits(b.disbursed_receivable_not_yet_due)
    &&& settled_fits(b.disbursed_receivable_due)
    &&& settled_fits(b.disbursed_receivable_overdue)
    &&& settled_fits(b.disbursed_defaulted)
    &&& settled_fits(b.interest_receivable_not_yet_due)
    &&& settled_fits(b.interest_receivable_due)
    &&& settled_fits(b.interest_receivable_overdue)
    &&& settled_fits(b.interest_defaulted)
    &&& settled_fits(b.payment_holding)
}

fn pending_cr_units(b: &Option<AccountBalanceSnapshot>) -> (r: Result<u64, BalanceConversionError>)
    ensures
        as_units(field_or_zero(*b, |s: AccountBalanceSnapshot| s.pending_cr)) matches Some(v) ==> r == Ok::<u64, BalanceConversionError>(v),
        as_units(field_or_zero(*b, |s: AccountBalanceSnapshot| s.pending_cr)) is None ==> r == Err::<u64, _>(BalanceConversionError::OutOfRange),
{
    match b {
        Some(s) => to_units(s.pending_cr),
        None => Ok(0),
    }
}

fn settled_dr_units(b: &Option<AccountBalanceSnapshot>) -> (r: Result<u64, BalanceConversionError>)
    ensures
        as_units(field_or_zero(*b, |s: AccountBalanceSnapshot| s.settled_dr)) matches Some(v) ==> r == Ok::<u64, BalanceConversionError>(v),
        as_units(field_or_zero(*b, |s: AccountBalanceSnapshot| s.settled_dr)) is None ==> r == Err::<u64, _>(BalanceConversionError::OutOfRange),
{
    match b {
        Some(s) => to_units(s.settled_dr),
        None => Ok(0),
    }
}

/// Sums up the balances of a facility: the facility amount is the pending
/// credit of the facility account; what is disbursed and what interest was
/// posted are the settled debits of the not-yet-due receivables; every other
/// amount is a settled balance. Refused when one of them is negative or too
/// large.
pub fn credit_facility_balance_summary(b: &CreditFacilityBalances) -> (r: Result<CreditFacilityBalanceSummary, BalanceConversionError>)
    requires
        balances_fit(*b),
    ensures
        (forall|i: int| 0 <= i < 14 ==> (#[trigger] as_units(summary_amounts(*b)[i])) is Some) <==> r is Ok,
        r matches Ok(s) ==> summary_fields(s) == summary_amounts(*b),
        r matches Err(e) ==> e == BalanceConversionError::OutOfRange,
{
    let ghost a = summary_amounts(*b);
    let facility = match pending_cr_units(&b.facility) {
        Ok(v) => v,
        Err(e) => {
            assert(as_units(a[0]) is None);
            return Err(e);
        },
    };
    let facility_remaining = match settled_units(&b.facility) {
        Ok(v) => v,
        Err(e) => {
            assert(as_units(a[1]) is None);
            return Err(e);
        },
    };
    let collateral = match settled_units(&b.collateral) {
        Ok(v) => v,
        Err(e) => {
            assert(as_units(a[2]) is None);
            return Err(e);
        },
    };
    let disbursed = match settled_dr_units(&b.disbursed_receivable_not_yet_due) {
        Ok(v) => v,
        Err(e) => {
            assert(as_units(a[3]) is None);
            return Err(e);
        },
    };
    let interest_posted = match settled_dr_units(&b.interest_receivable_not_yet_due) {
        Ok(v) => v,
        Err(e) => {
            assert(as_units(a[4]) is None);
            return Err(e);
        },
    };
    let not_yet_due_disbursed_outstanding = match settled_units(&b.disbursed_receivable_not_yet_due) {
        Ok(v) => v,
        Err(e) => {
            assert(as_units(a[5]) is None);
            return Err(e);
        },
    };
    let due_disbursed_outstanding = match settled_units(&b.disbursed_receivable_due) {
        Ok(v) => v,
        Err(e) => {
            assert(as_units(a[6]) is None);
            return Err(e);
        },
    };
    let overdue_disbursed_outstanding = match settled_units(&b.disbursed_receivable_overdue) {
        Ok(v) => v,
        Err(e) => {
            assert(as_units(a[7]) is None);
            return Err(e);
        },
    };
    let disbursed_defaulted = match settled_units(&b.disbursed_defaulted) {
        Ok(v) => v,
        Err(e) => {
            assert(as_units(a[8]) is None);
            return Err(e);
        },
    };
    let not_yet_due_interest_outstanding = match settled_units(&b.interest_receivable_not_yet_due) {
        Ok(v) => v,
        Err(e) => {
            assert(as_units(a[9]) is None);
            return Err(e);
        },
    };
    let due_interest_outstanding = match settled_units(&b.interest_receivable_due) {
        Ok(v) => v,
        Err(e) => {
            assert(as_units(a[10]) is None);
            return Err(e);
        },
    };
    let overdue_interest_outstanding = match settled_units(&b.interest_receivable_overdue) {
        Ok(v) => v,
        Err(e) => {
            assert(as_units(a[11]) is None);
            return Err(e);
        },
    };
    let interest_defaulted = match settled_units(&b.interest_defaulted) {
        Ok(v) => v,
        Err(e) => {
            assert(as_units(a[12]) is None);
            return Err(e);
        },
    };
    let payments_unapplied = match settled_units(&b.payment_holding) {
        Ok(v) => v,
        Err(e) => {
            assert(as_units(a[13]) is None);
            return Err(e);
        },
    };
    let s = CreditFacilityBalanceSummary {
        facility,
        facility_remaining,
        collateral,
        disbursed,
        interest_posted,
        not_yet_due_disbursed_outstanding,
        due_disbursed_outstanding,
        overdue_disbursed_outstanding,
        disbursed_defaulted,
        not_yet_due_interest_outstanding,
        due_interest_outstanding,
        overdue_interest_outstanding,
        interest_defaulted,
        payments_unapplied,
    };
    assert(summary_fields(s) =~= a);
    assert forall|i: int| 0 <= i < 14 implies (#[trigger] as_units(a[i])) is Some by {
        assert(as_units(a[i]) == Some(summary_fields(s)[i] as u64));
    }
    Ok(s)
}

/// What a pending facility is for and holds.
#[derive(Debug, Clone, Copy, PartialEq, Eq)]
pub struct PendingCreditFacilityBalanceSummary {
    pub facility: u64,
    pub collateral: u64,
}

/// Sums up the balances of a pending facility: its amount is the pending
/// credit of the facility account, its collateral the settled balance of
/// the collateral account.
pub fn pending_credit_facility_balance_summary(
    facility: &Option<AccountBalanceSnapshot>,
    collateral: &Option<AccountBalanceSnapshot>,
) -> (r: Result<PendingCreditFacilityBalanceSummary, BalanceConversionError>)
    requires
        settled_fits(*collateral),
    ensures
        ({
            let f = as_units(field_or_zero(*facility, |s: AccountBalanceSnapshot| s.pending_cr));
            let c = as_units(settled_or_zero(*collateral));
            &&& (f is Some && c is Some) <==> r is Ok
            &&& r matches Ok(s) ==> f == Some(s.facility) && c == Some(s.collateral)
        }),
{
    let facility = pending_cr_units(facility)?;
    let collateral = settled_units(collateral)?;
    Ok(PendingCreditFacilityBalanceSummary { facility, collateral })
}

/// A decimal amount: `mantissa` times ten to the power of minus `scale`.
#[derive(Debug, Clone, Copy, PartialEq, Eq)]
pub struct DecimalAmount {
    pub mantissa: i128,
    pub scale: u32,
}

/// The decimal amount is zero, whatever its scale.
pub open spec fn is_zero_amount(d: DecimalAmount) -> bool {
    d.mantissa == 0
}

/// The debit and credit sides of an account's balance as the ledger keeps
/// them: settled, pending and encumbered.
#[derive(Debug, Clone, Copy, PartialEq, Eq)]
pub struct BalanceDetails {
    pub settled_dr: DecimalAmount,
    pub settled_cr: DecimalAmount,
    pub pending_dr: DecimalAmount,
    pub pending_cr: DecimalAmount,
    pub encumbrance_dr: DecimalAmount,
    pub encumbrance_cr: DecimalAmount,
}

/// Some side of the balance is not zero.
pub open spec fn has_activity(b: BalanceDetails) -> bool {
    !is_zero_amount(b.settled_dr) || !is_zero_amount(b.settled_cr) || !is_zero_amount(b.pending_dr)
        || !is_zero_amount(b.pending_cr) || !is_zero_amount(b.encumbrance_dr) || !is_zero_amount(
        b.encumbrance_cr,
    )
}

/// The balances of an account over a period: at its opening, at its close,
/// and the activity within it (each absent where the account had none).
#[derive(Debug, Clone, Copy, PartialEq, Eq)]
pub struct BalanceRange {
    pub open: Option<BalanceDetails>,
    pub close: Option<BalanceDetails>,
    pub period_activity: Option<BalanceDetails>,
}

impl BalanceRange {
    /// Whether the account holds anything at the close of the period: some
    /// side of its closing balance is not zero.
    pub fn has_non_zero_activity(&self) -> (r: bool)
        ensures
            r == match self.close {
                Some(c) => has_activity(c),
                None => false,
            },
    {
        match &self.close {
            Some(c) => c.settled_dr.mantissa != 0 || c.settled_cr.mantissa != 0 || c.pending_dr.mantissa != 0
                || c.pending_cr.mantissa != 0 || c.encumbrance_dr.mantissa != 0 || c.encumbrance_cr.mantissa
                != 0,
            None => false,
        }
    }
}

} // verus!
