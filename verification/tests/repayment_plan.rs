use lana_core::credit_event::{
    CoreCreditCollectionEvent, CoreCreditEvent, ObligationType, PublicObligation, PublicPaymentAllocation,
};
use lana_core::repayment_entry::{CreditFacilityRepaymentPlanEntry, RepaymentStatus, RepaymentType};
use lana_core::repayment_plan::CreditFacilityRepaymentPlan;
use lana_core::terms::{
    DisbursalPolicy, FacilityDuration, InterestInterval, ObligationDuration, TermValues,
};

#[derive(Debug, Default, PartialEq, Eq)]
struct EntriesCount {
    interest_unpaid: usize,
    interest_paid: usize,
    interest_upcoming: usize,
    disbursals_unpaid: usize,
    disbursals_paid: usize,
    disbursals_upcoming: usize,
}

fn new_id() -> u128 {
    uuid::Uuid::new_v4().as_u128()
}

fn terms(one_time_fee_rate_percent: u64) -> TermValues {
    TermValues {
        annual_rate_bps: 12_00,
        duration: FacilityDuration::Months(3),
        interest_due_duration_from_accrual: ObligationDuration::Days(0),
        obligation_overdue_duration_from_due: None,
        obligation_liquidation_duration_from_due: None,
        accrual_cycle_interval: InterestInterval::EndOfMonth,
        accrual_interval: InterestInterval::EndOfDay,
        one_time_fee_rate_bps: one_time_fee_rate_percent * 100,
        disbursal_policy: DisbursalPolicy::SingleDisbursal,
        liquidation_cvl_bps: 105_00,
        margin_call_cvl_bps: 125_00,
        initial_cvl_bps: 140_00,
    }
}

/// 2021-01-01T12:00:00Z.
fn default_start_date() -> i64 {
    chrono::DateTime::parse_from_rfc3339("2021-01-01T12:00:00Z").unwrap().timestamp()
}

fn default_start_date_with_days(days: i64) -> i64 {
    default_start_date() + days * 86_400
}

fn day_of(t: i64) -> i32 {
    chrono::Datelike::num_days_from_ce(&chrono::DateTime::from_timestamp(t, 0).unwrap().date_naive())
}

fn default_facility_amount() -> u64 {
    1_000_000_00
}

fn process_credit(plan: &mut CreditFacilityRepaymentPlan, event: &CoreCreditEvent) -> bool {
    assert!(plan.can_process_credit_event(event, default_start_date()));
    plan.process_credit_event(0, event, default_start_date())
}

fn process_collection(plan: &mut CreditFacilityRepaymentPlan, event: &CoreCreditCollectionEvent) -> bool {
    assert!(plan.can_process_collection_event(event, default_start_date()));
    plan.process_collection_event(0, event, default_start_date())
}

fn plan(terms: TermValues) -> CreditFacilityRepaymentPlan {
    let mut plan = CreditFacilityRepaymentPlan::default();
    process_credit(
        &mut plan,
        &CoreCreditEvent::FacilityProposalCreated {
            id: new_id(),
            terms,
            amount: default_facility_amount(),
            created_at: default_start_date(),
        },
    );
    plan
}

fn initial_plan() -> CreditFacilityRepaymentPlan {
    plan(terms(5))
}

fn initial_plan_no_structuring_fee() -> CreditFacilityRepaymentPlan {
    plan(terms(0))
}

fn process_credit_events(plan: &mut CreditFacilityRepaymentPlan, events: Vec<CoreCreditEvent>) {
    for event in events {
        process_credit(plan, &event);
    }
}

enum TestEvent {
    Credit(CoreCreditEvent),
    Collection(CoreCreditCollectionEvent),
}

fn process_test_events(plan: &mut CreditFacilityRepaymentPlan, events: Vec<TestEvent>) {
    for event in events {
        match &event {
            TestEvent::Credit(e) => {
                process_credit(plan, e);
            }
            TestEvent::Collection(e) => {
                process_collection(plan, e);
            }
        }
    }
}

fn count_entries(plan: &CreditFacilityRepaymentPlan) -> EntriesCount {
    let mut res = EntriesCount::default();
    for entry in plan.entries.iter() {
        match entry {
            CreditFacilityRepaymentPlanEntry {
                repayment_type: RepaymentType::Disbursal,
                status: RepaymentStatus::Upcoming,
                ..
            } => res.disbursals_upcoming += 1,
            CreditFacilityRepaymentPlanEntry {
                repayment_type: RepaymentType::Disbursal,
                status: RepaymentStatus::Paid,
                ..
            } => res.disbursals_paid += 1,
            CreditFacilityRepaymentPlanEntry { repayment_type: RepaymentType::Disbursal, .. } => {
                res.disbursals_unpaid += 1
            }
            CreditFacilityRepaymentPlanEntry {
                repayment_type: RepaymentType::Interest,
                status: RepaymentStatus::Upcoming,
                ..
            } => res.interest_upcoming += 1,
            CreditFacilityRepaymentPlanEntry {
                repayment_type: RepaymentType::Interest,
                status: RepaymentStatus::Paid,
                ..
            } => res.interest_paid += 1,
            CreditFacilityRepaymentPlanEntry { repayment_type: RepaymentType::Interest, .. } => {
                res.interest_unpaid += 1
            }
        }
    }
    res
}

fn activated() -> CoreCreditEvent {
    CoreCreditEvent::FacilityActivated {
        id: new_id(),
        activation_tx_id: new_id(),
        activated_at: default_start_date(),
        amount: default_facility_amount(),
    }
}

fn obligation(id: u128, obligation_type: ObligationType, amount: u64, recorded_at: i64) -> PublicObligation {
    PublicObligation {
        id,
        obligation_type,
        beneficiary_id: new_id(),
        amount,
        due_at: day_of(recorded_at),
        overdue_at: None,
        defaulted_at: None,
        recorded_at,
        effective: day_of(recorded_at),
    }
}

fn created(o: PublicObligation) -> TestEvent {
    TestEvent::Collection(CoreCreditCollectionEvent::ObligationCreated { entity: o })
}

fn allocation(id: u128, obligation_id: u128, amount: u64, recorded_at: i64) -> CoreCreditCollectionEvent {
    CoreCreditCollectionEvent::PaymentAllocated {
        entity: PublicPaymentAllocation {
            id,
            obligation_id,
            obligation_type: ObligationType::Interest,
            beneficiary_id: new_id(),
            amount,
            recorded_at,
            effective: day_of(recorded_at),
        },
    }
}

fn zero_accrual(period: lana_core::terms::InterestPeriod) -> CoreCreditEvent {
    CoreCreditEvent::AccrualPosted {
        credit_facility_id: new_id(),
        ledger_tx_id: new_id(),
        amount: 0,
        period,
        due_at: day_of(period.end),
        recorded_at: period.end,
        effective: day_of(period.end),
    }
}

fn interest_obligation_entry(plan: &CreditFacilityRepaymentPlan) -> CreditFacilityRepaymentPlanEntry {
    *plan
        .entries
        .iter()
        .find(|e| e.repayment_type == RepaymentType::Interest && e.obligation_id.is_some())
        .unwrap()
}

fn counts(
    interest_unpaid: usize,
    interest_paid: usize,
    interest_upcoming: usize,
    disbursals_unpaid: usize,
    disbursals_paid: usize,
    disbursals_upcoming: usize,
) -> EntriesCount {
    EntriesCount {
        interest_unpaid,
        interest_paid,
        interest_upcoming,
        disbursals_unpaid,
        disbursals_paid,
        disbursals_upcoming,
    }
}

#[test]
fn facility_created() {
    let plan = initial_plan();
    assert_eq!(count_entries(&plan), counts(0, 0, 4, 0, 0, 2));
}

#[test]
fn with_zero_structuring_fee() {
    let mut plan = initial_plan_no_structuring_fee();
    process_credit_events(&mut plan, vec![activated()]);
    assert_eq!(count_entries(&plan), counts(0, 0, 4, 0, 0, 1));
}

#[test]
fn with_zero_structuring_fee_and_first_accrual() {
    let mut plan = initial_plan_no_structuring_fee();
    let period = InterestInterval::EndOfMonth.period_from(default_start_date());
    process_credit_events(&mut plan, vec![activated(), zero_accrual(period)]);
    assert_eq!(count_entries(&plan), counts(0, 1, 3, 0, 0, 0));
}

#[test]
fn with_zero_structuring_fee_and_second_accrual() {
    let mut plan = initial_plan_no_structuring_fee();
    let period_1 = InterestInterval::EndOfMonth.period_from(default_start_date());
    let period_2 = period_1.next();
    process_credit_events(&mut plan, vec![activated(), zero_accrual(period_1), zero_accrual(period_2)]);
    assert_eq!(count_entries(&plan), counts(0, 2, 2, 0, 0, 0));
}

#[test]
fn with_first_disbursal_obligation_created() {
    let mut plan = initial_plan();
    let recorded_at = default_start_date();
    let events = vec![
        TestEvent::Credit(activated()),
        created(obligation(new_id(), ObligationType::Disbursal, 100_000_00, recorded_at)),
    ];
    process_test_events(&mut plan, events);
    assert_eq!(count_entries(&plan), counts(0, 0, 4, 1, 0, 0));
}

#[test]
fn with_first_interest_obligation_created() {
    let mut plan = initial_plan();
    let disbursal_recorded_at = default_start_date();
    let interest_recorded_at = default_start_date_with_days(30);
    let events = vec![
        TestEvent::Credit(activated()),
        created(obligation(new_id(), ObligationType::Disbursal, 100_000_00, disbursal_recorded_at)),
        created(obligation(new_id(), ObligationType::Interest, 1_000_00, interest_recorded_at)),
    ];
    process_test_events(&mut plan, events);
    assert_eq!(count_entries(&plan), counts(1, 0, 3, 1, 0, 0));
}

#[test]
fn with_first_interest_partial_payment() {
    let interest_obligation_id = new_id();
    let mut plan = initial_plan();
    let disbursal_recorded_at = default_start_date();
    let interest_recorded_at = default_start_date_with_days(30);
    let events = vec![
        TestEvent::Credit(activated()),
        created(obligation(new_id(), ObligationType::Disbursal, 100_000_00, disbursal_recorded_at)),
        created(obligation(interest_obligation_id, ObligationType::Interest, 1_000_00, interest_recorded_at)),
        TestEvent::Collection(allocation(new_id(), interest_obligation_id, 400_00, interest_recorded_at)),
    ];
    process_test_events(&mut plan, events);
    assert_eq!(count_entries(&plan), counts(1, 0, 3, 1, 0, 0));
    assert_eq!(interest_obligation_entry(&plan).outstanding, 600_00);
}

#[test]
fn with_first_interest_paid() {
    let interest_obligation_id = new_id();
    let mut plan = initial_plan();
    let disbursal_recorded_at = default_start_date();
    let interest_recorded_at = default_start_date_with_days(30);
    let events = vec![
        TestEvent::Credit(activated()),
        created(obligation(new_id(), ObligationType::Disbursal, 100_000_00, disbursal_recorded_at)),
        created(obligation(interest_obligation_id, ObligationType::Interest, 1_000_00, interest_recorded_at)),
        TestEvent::Collection(allocation(new_id(), interest_obligation_id, 1_000_00, interest_recorded_at)),
    ];
    process_test_events(&mut plan, events);
    assert_eq!(count_entries(&plan), counts(1, 0, 3, 1, 0, 0));

    let entry = interest_obligation_entry(&plan);
    assert_eq!(entry.outstanding, 0);
    assert_ne!(entry.status, RepaymentStatus::Paid);

    process_collection(
        &mut plan,
        &CoreCreditCollectionEvent::ObligationCompleted {
            entity: obligation(interest_obligation_id, ObligationType::Interest, 0, interest_recorded_at),
        },
    );
    assert_eq!(interest_obligation_entry(&plan).status, RepaymentStatus::Paid);
}

#[test]
fn with_all_interest_obligations_created() {
    let mut plan = initial_plan();
    let disbursal_recorded_at = default_start_date();
    let interest_1_recorded_at = default_start_date_with_days(30);
    let interest_2_recorded_at = default_start_date_with_days(30 + 28);
    let interest_3_recorded_at = default_start_date_with_days(30 + 28 + 31);
    let interest_4_recorded_at = default_start_date_with_days(30 + 28 + 31 + 1);
    let events = vec![
        TestEvent::Credit(activated()),
        created(obligation(new_id(), ObligationType::Disbursal, 100_000_00, disbursal_recorded_at)),
        created(obligation(new_id(), ObligationType::Interest, 1_000_00, interest_1_recorded_at)),
        created(obligation(new_id(), ObligationType::Interest, 1_000_00, interest_2_recorded_at)),
        created(obligation(new_id(), ObligationType::Interest, 1_000_00, interest_3_recorded_at)),
        created(obligation(new_id(), ObligationType::Interest, 33_00, interest_4_recorded_at)),
    ];
    process_test_events(&mut plan, events);
    assert_eq!(count_entries(&plan), counts(4, 0, 0, 1, 0, 0));
}

#[test]
fn replayed_payment_allocation_is_idempotent() {
    let interest_obligation_id = new_id();
    let allocation_id = new_id();
    let mut plan = initial_plan();
    let disbursal_recorded_at = default_start_date();
    let interest_recorded_at = default_start_date_with_days(30);
    let events = vec![
        TestEvent::Credit(activated()),
        created(obligation(new_id(), ObligationType::Disbursal, 100_000_00, disbursal_recorded_at)),
        created(obligation(interest_obligation_id, ObligationType::Interest, 1_000_00, interest_recorded_at)),
    ];
    process_test_events(&mut plan, events);

    let payment_event = allocation(allocation_id, interest_obligation_id, 1_000_00, interest_recorded_at);

    let first_result = process_collection(&mut plan, &payment_event);
    assert!(first_result);
    assert_eq!(interest_obligation_entry(&plan).outstanding, 0);

    let second_result = process_collection(&mut plan, &payment_event);
    assert!(!second_result);
    assert_eq!(interest_obligation_entry(&plan).outstanding, 0);
}

#[test]
fn replayed_obligation_created_is_idempotent() {
    let obligation_id = new_id();
    let mut plan = initial_plan();
    let recorded_at = default_start_date();
    process_credit(&mut plan, &activated());

    let obligation_event = CoreCreditCollectionEvent::ObligationCreated {
        entity: obligation(obligation_id, ObligationType::Disbursal, 100_000_00, recorded_at),
    };

    let first_result = process_collection(&mut plan, &obligation_event);
    assert!(first_result);
    let count_after_first = plan.entries.iter().filter(|e| e.obligation_id == Some(obligation_id)).count();
    assert_eq!(count_after_first, 1);

    let second_result = process_collection(&mut plan, &obligation_event);
    assert!(!second_result);
    let count_after_second = plan.entries.iter().filter(|e| e.obligation_id == Some(obligation_id)).count();
    assert_eq!(count_after_second, 1);
}

fn paid_accruals(plan: &CreditFacilityRepaymentPlan) -> usize {
    plan.entries
        .iter()
        .filter(|e| {
            e.repayment_type == RepaymentType::Interest
                && e.status == RepaymentStatus::Paid
                && e.obligation_id.is_none()
        })
        .count()
}

#[test]
fn replayed_zero_accrual_posted_is_idempotent() {
    let mut plan = initial_plan_no_structuring_fee();
    process_credit(&mut plan, &activated());

    let period = InterestInterval::EndOfMonth.period_from(default_start_date());
    let accrual_event = zero_accrual(period);

    let first_result = process_credit(&mut plan, &accrual_event);
    assert!(first_result);
    assert_eq!(paid_accruals(&plan), 1);

    let second_result = process_credit(&mut plan, &accrual_event);
    assert!(!second_result);
    assert_eq!(paid_accruals(&plan), 1);
}

#[test]
fn replayed_facility_proposal_created_is_idempotent() {
    let mut plan = CreditFacilityRepaymentPlan::default();
    let proposal_event = CoreCreditEvent::FacilityProposalCreated {
        id: new_id(),
        amount: 100_000_00,
        terms: terms(0),
        created_at: default_start_date(),
    };

    let first_result = process_credit(&mut plan, &proposal_event);
    assert!(first_result);
    assert_eq!(plan.facility_amount(), 100_000_00);

    let second_result = process_credit(&mut plan, &proposal_event);
    assert!(second_result);
    assert_eq!(plan.facility_amount(), 100_000_00);
}

#[test]
fn replayed_facility_activated_is_idempotent() {
    let mut plan = initial_plan();
    let activated_at = default_start_date();
    let activate_event = CoreCreditEvent::FacilityActivated {
        id: new_id(),
        activation_tx_id: new_id(),
        activated_at,
        amount: default_facility_amount(),
    };

    let first_result = process_credit(&mut plan, &activate_event);
    assert!(first_result);
    assert_eq!(plan.activated_at(), Some(activated_at));

    let second_result = process_credit(&mut plan, &activate_event);
    assert!(second_result);
    assert_eq!(plan.activated_at(), Some(activated_at));
}

fn status_of(plan: &CreditFacilityRepaymentPlan, obligation_id: u128) -> RepaymentStatus {
    plan.entries.iter().find(|e| e.obligation_id == Some(obligation_id)).unwrap().status
}

#[test]
fn replayed_obligation_status_changes_are_idempotent() {
    let obligation_id = new_id();
    let mut plan = initial_plan();
    let recorded_at = default_start_date();
    let obligation_entity = obligation(obligation_id, ObligationType::Disbursal, 100_000_00, recorded_at);

    let events = vec![TestEvent::Credit(activated()), created(obligation_entity)];
    process_test_events(&mut plan, events);

    let due_event = CoreCreditCollectionEvent::ObligationDue { entity: obligation_entity };
    process_collection(&mut plan, &due_event);
    assert_eq!(status_of(&plan, obligation_id), RepaymentStatus::Due);
    process_collection(&mut plan, &due_event);
    assert_eq!(status_of(&plan, obligation_id), RepaymentStatus::Due);

    let overdue_event = CoreCreditCollectionEvent::ObligationOverdue { entity: obligation_entity };
    process_collection(&mut plan, &overdue_event);
    process_collection(&mut plan, &overdue_event);
    assert_eq!(status_of(&plan, obligation_id), RepaymentStatus::Overdue);

    let defaulted_event = CoreCreditCollectionEvent::ObligationDefaulted { entity: obligation_entity };
    process_collection(&mut plan, &defaulted_event);
    process_collection(&mut plan, &defaulted_event);
    assert_eq!(status_of(&plan, obligation_id), RepaymentStatus::Defaulted);

    let completed_event = CoreCreditCollectionEvent::ObligationCompleted { entity: obligation_entity };
    process_collection(&mut plan, &completed_event);
    process_collection(&mut plan, &completed_event);
    assert_eq!(status_of(&plan, obligation_id), RepaymentStatus::Paid);
}

#[test]
fn planned_entries_have_the_computed_amounts() {
    let plan = initial_plan();
    // Structuring fee: 5% of the facility amount, due at maturity (three months on).
    let maturity = day_of(chrono::DateTime::parse_from_rfc3339("2021-04-01T12:00:00Z").unwrap().timestamp());
    let disbursals: Vec<_> = plan.entries.iter().filter(|e| e.repayment_type == RepaymentType::Disbursal).collect();
    assert_eq!(disbursals.len(), 2);
    assert!(disbursals.iter().any(|e| e.initial == 50_000_00 && e.due_at == maturity));
    assert!(disbursals.iter().any(|e| e.initial == 1_000_000_00 && e.due_at == maturity));
    // January's interest: 31 days at 12% a year on both disbursals, rounded up.
    let principal: u128 = 1_050_000_00;
    let expected = (principal * 12_00 * 31 + 3_649_999) / 3_650_000;
    let first_interest = plan
        .entries
        .iter()
        .filter(|e| e.repayment_type == RepaymentType::Interest)
        .min_by_key(|e| e.recorded_at)
        .unwrap();
    assert_eq!(first_interest.initial as u128, expected);
    assert_eq!(first_interest.due_at, day_of(default_start_date_with_days(30)));
}

#[test]
fn entries_are_ordered_by_recording_then_due_date() {
    let plan = initial_plan();
    for pair in plan.entries.windows(2) {
        assert!(
            (pair[0].recorded_at, pair[0].due_at) <= (pair[1].recorded_at, pair[1].due_at),
            "entries out of order"
        );
    }
}

#[test]
fn event_needs_terms_before_it_rebuilds() {
    let plan = CreditFacilityRepaymentPlan::default();
    assert!(!plan.can_process_credit_event(&activated(), default_start_date()));
    assert!(plan.can_process_credit_event(
        &CoreCreditEvent::FacilityCompleted { id: new_id(), completed_at: default_start_date() },
        default_start_date()
    ));
}

#[test]
fn allocation_beyond_outstanding_is_refused() {
    let interest_obligation_id = new_id();
    let mut plan = initial_plan();
    let events = vec![
        TestEvent::Credit(activated()),
        created(obligation(interest_obligation_id, ObligationType::Interest, 10_00, default_start_date_with_days(30))),
    ];
    process_test_events(&mut plan, events);
    let too_much = allocation(new_id(), interest_obligation_id, 11_00, default_start_date_with_days(30));
    assert!(!plan.can_process_collection_event(&too_much, default_start_date()));
}
