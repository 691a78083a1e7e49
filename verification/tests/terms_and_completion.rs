use lana_core::disbursal_policy::{check_disbursal, disbursal_dates, DisbursalChecks, DisbursalRefusal};
use lana_core::idempotent::Idempotent;
use lana_core::pending_facility::{
    collateral_wallet_name, completion_decision, NewCreditFacilityWithInitialDisbursal, PendingCreditFacilityCompletionOutcome,
    PendingCreditFacilityError,
};
use lana_core::repayment_plan::{CreditFacilityRepaymentPlan, CreditFacilityRepaymentPlanError, RepaymentPlans};
use lana_core::terms::{
    interest_for_time_period, one_time_fee, DisbursalPolicy, FacilityDuration, InterestInterval,
    ObligationDuration, TermValues,
};

fn at(s: &str) -> i64 {
    chrono::DateTime::parse_from_rfc3339(s).unwrap().timestamp()
}

fn day(s: &str) -> i32 {
    chrono::Datelike::num_days_from_ce(&chrono::NaiveDate::parse_from_str(s, "%Y-%m-%d").unwrap())
}

fn months(n: u32) -> TermValues {
    TermValues {
        annual_rate_bps: 12_00,
        duration: FacilityDuration::Months(n),
        interest_due_duration_from_accrual: ObligationDuration::Days(0),
        obligation_overdue_duration_from_due: None,
        obligation_liquidation_duration_from_due: None,
        accrual_cycle_interval: InterestInterval::EndOfMonth,
        accrual_interval: InterestInterval::EndOfDay,
        one_time_fee_rate_bps: 0,
        disbursal_policy: DisbursalPolicy::SingleDisbursal,
        liquidation_cvl_bps: 105_00,
        margin_call_cvl_bps: 125_00,
        initial_cvl_bps: 140_00,
    }
}

#[test]
fn month_periods_end_at_the_last_second_of_the_month() {
    let p = InterestInterval::EndOfMonth.period_from(at("2021-01-01T12:00:00Z"));
    assert_eq!(p.start, at("2021-01-01T12:00:00Z"));
    assert_eq!(p.end, at("2021-01-31T23:59:59Z"));
    assert_eq!(p.days(), 31);
    let n = p.next();
    assert_eq!(n.start, at("2021-02-01T00:00:00Z"));
    assert_eq!(n.end, at("2021-02-28T23:59:59Z"));
    assert_eq!(n.days(), 28);
}

#[test]
fn leap_february_has_twenty_nine_days() {
    let p = InterestInterval::EndOfMonth.period_from(at("2024-02-10T08:00:00Z"));
    assert_eq!(p.end, at("2024-02-29T23:59:59Z"));
    assert_eq!(p.days(), 20);
}

#[test]
fn day_periods_end_at_the_last_second_of_the_day() {
    let p = InterestInterval::EndOfDay.period_from(at("2021-03-05T10:30:00Z"));
    assert_eq!(p.end, at("2021-03-05T23:59:59Z"));
    assert_eq!(p.days(), 1);
    assert_eq!(p.next().start, at("2021-03-06T00:00:00Z"));
}

#[test]
fn truncate_cuts_at_the_limit() {
    let p = InterestInterval::EndOfMonth.period_from(at("2021-03-01T00:00:00Z"));
    let cut = p.truncate(at("2021-03-10T00:00:00Z")).unwrap();
    assert_eq!(cut.start, p.start);
    assert_eq!(cut.end, at("2021-03-10T00:00:00Z"));
    assert_eq!(p.truncate(at("2021-02-28T00:00:00Z")), None);
    assert_eq!(p.truncate(p.start), Some(lana_core::terms::InterestPeriod { end: p.start, ..p }));
}

#[test]
fn maturity_is_as_many_months_later() {
    assert_eq!(months(3).maturity_date(at("2021-01-01T12:00:00Z")), day("2021-04-01"));
    assert_eq!(months(1).maturity_date(at("2021-01-31T12:00:00Z")), day("2021-02-28"));
    assert_eq!(months(0).maturity_date(at("2021-01-31T12:00:00Z")), day("2021-01-31"));
}

#[test]
fn structuring_fee_rounds_up_to_the_cent() {
    assert_eq!(one_time_fee(1_000_000_00, 5_00), 50_000_00);
    assert_eq!(one_time_fee(1_01, 50), 1);
    assert_eq!(one_time_fee(100, 0), 0);
    assert_eq!(one_time_fee(u64::MAX, 20_000), u64::MAX);
}

#[test]
fn interest_is_for_days_over_a_year_of_365_days_rounded_up() {
    // 12% a year on $1000 for 365 days is $120.
    assert_eq!(interest_for_time_period(1_000_00, 12_00, 365), 120_00);
    // 12% a year on $1000 for one day is 32.88 cents, rounded up to 33.
    assert_eq!(interest_for_time_period(1_000_00, 12_00, 1), 33);
    assert_eq!(interest_for_time_period(1_000_00, 12_00, 0), 0);
    assert_eq!(interest_for_time_period(u128::MAX, 12_00, 31), u64::MAX);
}

#[test]
fn executed_completion_is_stored_and_returned() {
    let d = completion_decision::<u32, u32, ()>(Ok(Idempotent::Executed(NewCreditFacilityWithInitialDisbursal {
        new_credit_facility: 7,
        initial_disbursal: Some(9),
    })));
    assert!(d.store_entity);
    assert!(matches!(
        d.result,
        Ok(PendingCreditFacilityCompletionOutcome::Completed { new_credit_facility: 7, initial_disbursal: Some(9) })
    ));
}

#[test]
fn already_applied_or_below_margin_is_ignored() {
    let d = completion_decision::<u32, u32, ()>(Ok(Idempotent::AlreadyApplied));
    assert!(!d.store_entity);
    assert!(matches!(d.result, Ok(PendingCreditFacilityCompletionOutcome::Ignored)));
    let d = completion_decision::<u32, u32, ()>(Err(PendingCreditFacilityError::BelowMarginLimit));
    assert!(!d.store_entity);
    assert!(matches!(d.result, Ok(PendingCreditFacilityCompletionOutcome::Ignored)));
}

#[test]
fn other_failures_are_returned() {
    let d = completion_decision::<u32, u32, &str>(Err(PendingCreditFacilityError::Other("db")));
    assert!(!d.store_entity);
    assert!(matches!(d.result, Err(PendingCreditFacilityError::Other("db"))));
}

#[test]
fn repayment_plans_refuse_a_subject_without_permission() {
    let plans = RepaymentPlans::new(());
    let result = plans.find_for_credit_facility_id(false, CreditFacilityRepaymentPlan::default());
    assert_eq!(result, Err(CreditFacilityRepaymentPlanError::AuthorizationError));
    let result = plans.find_for_credit_facility_id(true, CreditFacilityRepaymentPlan::default());
    assert_eq!(result, Ok(vec![]));
}

fn all_clear() -> DisbursalChecks {
    DisbursalChecks {
        require_verified_customer: true,
        customer_verified: true,
        single_disbursal_facility: false,
        before_maturity: true,
        allowed_at_new_cvl: true,
    }
}

#[test]
fn disbursal_goes_ahead_when_every_check_passes() {
    assert_eq!(check_disbursal(all_clear()), Ok(()));
    let unverified_but_not_required = DisbursalChecks {
        require_verified_customer: false,
        customer_verified: false,
        ..all_clear()
    };
    assert_eq!(check_disbursal(unverified_but_not_required), Ok(()));
}

#[test]
fn disbursal_refusals_come_in_order() {
    let everything_wrong = DisbursalChecks {
        require_verified_customer: true,
        customer_verified: false,
        single_disbursal_facility: true,
        before_maturity: false,
        allowed_at_new_cvl: false,
    };
    assert_eq!(check_disbursal(everything_wrong), Err(DisbursalRefusal::CustomerNotVerified));
    let verified = DisbursalChecks { customer_verified: true, ..everything_wrong };
    assert_eq!(check_disbursal(verified), Err(DisbursalRefusal::OnlyOneDisbursalAllowed));
    let multiple = DisbursalChecks { single_disbursal_facility: false, ..verified };
    assert_eq!(check_disbursal(multiple), Err(DisbursalRefusal::DisbursalPastMaturityDate));
    let in_time = DisbursalChecks { before_maturity: true, ..multiple };
    assert_eq!(check_disbursal(in_time), Err(DisbursalRefusal::BelowMarginLimit));
}

#[test]
fn obligation_durations_count_days_after_the_due_date() {
    assert_eq!(ObligationDuration::Days(30).end_date(day("2021-01-15")), day("2021-02-14"));
    let mut terms = months(3);
    assert_eq!(disbursal_dates(day("2021-04-01"), &terms), (None, None));
    terms.obligation_overdue_duration_from_due = Some(ObligationDuration::Days(7));
    terms.obligation_liquidation_duration_from_due = Some(ObligationDuration::Days(60));
    assert_eq!(
        disbursal_dates(day("2021-04-01"), &terms),
        (Some(day("2021-04-08")), Some(day("2021-05-31")))
    );
}

#[test]
fn collateral_wallets_are_named_after_the_facility() {
    let id = uuid::Uuid::parse_str("67e55044-10b1-426f-9247-bb680e5fe0c8").unwrap();
    assert_eq!(collateral_wallet_name(id.as_u128()), "CF 67e55044-10b1-426f-9247-bb680e5fe0c8");
}
