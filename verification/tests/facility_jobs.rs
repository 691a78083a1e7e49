use lana_core::collateral::CollateralDirection;
use lana_core::credit_event::{
    CoreCreditCollectionEvent, CoreCreditEvent, ObligationType, PublicObligation, PublicPayment,
};
use lana_core::facility_jobs::{
    collateralization_target_of_collection, collateralization_target_of_credit, ends_partial_liquidation,
    liquidation_to_start, next_accrual_step, LiquidationToStart,
    InterestAccrualAction, InterestAccrualOutcome, InterestAccrualState, OBLIGATIONS_SYNC_RETRY_SECS,
};

fn obligation(beneficiary_id: u128) -> PublicObligation {
    PublicObligation {
        id: 1,
        obligation_type: ObligationType::Disbursal,
        beneficiary_id,
        amount: 100,
        due_at: 0,
        overdue_at: None,
        defaulted_at: None,
        recorded_at: 0,
        effective: 0,
    }
}

#[test]
fn collateral_updates_and_new_obligations_reach_their_facility() {
    let updated = CoreCreditEvent::FacilityCollateralUpdated {
        credit_facility_id: 7,
        ledger_tx_id: 8,
        new_amount: 1000,
        abs_diff: 1000,
        direction: CollateralDirection::Add,
        recorded_at: 0,
        effective: 0,
    };
    assert_eq!(collateralization_target_of_credit(&updated), Some(7));
    let completed = CoreCreditEvent::FacilityCompleted { id: 7, completed_at: 0 };
    assert_eq!(collateralization_target_of_credit(&completed), None);
    let created = CoreCreditCollectionEvent::ObligationCreated { entity: obligation(9) };
    assert_eq!(collateralization_target_of_collection(&created), Some(9));
    let due = CoreCreditCollectionEvent::ObligationDue { entity: obligation(9) };
    assert_eq!(collateralization_target_of_collection(&due), None);
    let received = CoreCreditCollectionEvent::PaymentReceived {
        entity: PublicPayment { id: 1, beneficiary_id: 9, amount: 5, recorded_at: 0, effective: 0 },
    };
    assert_eq!(collateralization_target_of_collection(&received), None);
}

#[test]
fn interest_accrual_job_walks_through_a_cycle() {
    let start = InterestAccrualState::default();
    assert_eq!(start, InterestAccrualState::AccruePeriod);
    assert_eq!(
        next_accrual_step(start, InterestAccrualOutcome::PeriodAccrued { next_period_end: Some(86_400) }),
        (InterestAccrualState::AccruePeriod, InterestAccrualAction::RescheduleAt(86_400))
    );
    let (waiting, action) =
        next_accrual_step(start, InterestAccrualOutcome::PeriodAccrued { next_period_end: None });
    assert_eq!((waiting, action), (InterestAccrualState::AwaitObligationsSync, InterestAccrualAction::RunNow));
    assert_eq!(
        next_accrual_step(waiting, InterestAccrualOutcome::ObligationsChecked { synced: false }),
        (waiting, InterestAccrualAction::RescheduleIn(OBLIGATIONS_SYNC_RETRY_SECS))
    );
    assert_eq!(OBLIGATIONS_SYNC_RETRY_SECS, 5 * 60);
    let (completing, action) =
        next_accrual_step(waiting, InterestAccrualOutcome::ObligationsChecked { synced: true });
    assert_eq!((completing, action), (InterestAccrualState::CompleteCycle, InterestAccrualAction::RunNow));
    assert_eq!(
        next_accrual_step(completing, InterestAccrualOutcome::CycleCompleted { next_cycle: Some((3, 500)) }),
        (completing, InterestAccrualAction::SpawnNextCycle { cycle_id: 3, at: 500 })
    );
    assert_eq!(
        next_accrual_step(completing, InterestAccrualOutcome::CycleCompleted { next_cycle: None }),
        (completing, InterestAccrualAction::Complete)
    );
}

#[test]
fn initiated_liquidations_are_started_for_their_collateral() {
    let initiated = CoreCreditEvent::PartialLiquidationInitiated {
        credit_facility_id: 1,
        collateral_id: 2,
        trigger_price: 3,
        initially_expected_to_receive: 4,
        initially_estimated_to_liquidate: 5,
    };
    assert_eq!(
        liquidation_to_start(&initiated),
        Some(LiquidationToStart {
            credit_facility_id: 1,
            collateral_id: 2,
            trigger_price: 3,
            initially_expected_to_receive: 4,
            initially_estimated_to_liquidate: 5,
        })
    );
    assert_eq!(liquidation_to_start(&CoreCreditEvent::PartialLiquidationCompleted { credit_facility_id: 1 }), None);
}

#[test]
fn only_the_proceeds_of_its_own_liquidation_end_the_job() {
    let received = |liquidation_id| CoreCreditEvent::PartialLiquidationProceedsReceived {
        credit_facility_id: 1,
        liquidation_id,
        payment_id: 9,
        amount: 100,
        ledger_tx_id: 3,
        recorded_at: 0,
        effective: 0,
    };
    assert!(ends_partial_liquidation(&received(5), 5));
    assert!(!ends_partial_liquidation(&received(6), 5));
    assert!(!ends_partial_liquidation(&CoreCreditEvent::PartialLiquidationCompleted { credit_facility_id: 1 }, 5));
}
