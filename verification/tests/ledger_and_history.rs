use lana_core::accounting_config::DebitOrCredit;
use lana_core::collateral::CollateralDirection;
use lana_core::credit_event::{CoreCreditCollectionEvent, CoreCreditEvent, ObligationType, PublicPaymentAllocation};
use lana_core::history::{
    history_target_of_collection, history_target_of_credit, CreditFacilityHistory, CreditFacilityHistoryEntry,
};
use lana_core::initiator::{LedgerTransactionInitiator, LedgerTransactionInitiatorParseError};
use lana_core::ledger_balance::{
    credit_facility_balance_summary, pending_credit_facility_balance_summary, AccountBalanceSnapshot,
    BalanceConversionError, BalanceDetails, BalanceRange, CreditFacilityBalances, DecimalAmount,
};

fn snapshot(normal: DebitOrCredit, settled_dr: i128, settled_cr: i128, pending_cr: i128) -> Option<AccountBalanceSnapshot> {
    Some(AccountBalanceSnapshot { normal_balance_type: normal, settled_dr, settled_cr, pending_dr: 0, pending_cr })
}

fn no_balances() -> CreditFacilityBalances {
    CreditFacilityBalances {
        facility: None,
        collateral: None,
        disbursed_receivable_not_yet_due: None,
        disbursed_receivable_due: None,
        disbursed_receivable_overdue: None,
        disbursed_defaulted: None,
        interest_receivable_not_yet_due: None,
        interest_receivable_due: None,
        interest_receivable_overdue: None,
        interest_defaulted: None,
        payment_holding: None,
    }
}

#[test]
fn initiators_are_read_from_subjects() {
    assert_eq!(LedgerTransactionInitiator::try_from_subject("system:bootstrap"), Ok(LedgerTransactionInitiator::System));
    let id = uuid::Uuid::parse_str("67e55044-10b1-426f-9247-bb680e5fe0c8").unwrap();
    assert_eq!(
        LedgerTransactionInitiator::try_from_subject("user:67e55044-10b1-426f-9247-bb680e5fe0c8"),
        Ok(LedgerTransactionInitiator::User { id: id.as_u128() })
    );
    assert_eq!(
        LedgerTransactionInitiator::try_from_subject("user:not-a-uuid"),
        Err(LedgerTransactionInitiatorParseError::InvalidUserId)
    );
    assert_eq!(
        LedgerTransactionInitiator::try_from_subject("customer:1"),
        Err(LedgerTransactionInitiatorParseError::UnknownInitiator)
    );
}

#[test]
fn a_facility_without_balances_sums_to_zero() {
    let s = credit_facility_balance_summary(&no_balances()).unwrap();
    assert_eq!(s.facility, 0);
    assert_eq!(s.disbursed, 0);
    assert_eq!(s.payments_unapplied, 0);
}

#[test]
fn balances_are_read_on_their_normal_side() {
    let mut b = no_balances();
    b.facility = snapshot(DebitOrCredit::Credit, 400, 1_000, 1_000);
    b.collateral = snapshot(DebitOrCredit::Debit, 50_000, 0, 0);
    b.disbursed_receivable_not_yet_due = snapshot(DebitOrCredit::Debit, 400, 100, 0);
    b.interest_receivable_not_yet_due = snapshot(DebitOrCredit::Debit, 12, 2, 0);
    b.payment_holding = snapshot(DebitOrCredit::Credit, 0, 7, 0);
    let s = credit_facility_balance_summary(&b).unwrap();
    assert_eq!(s.facility, 1_000);
    assert_eq!(s.facility_remaining, 600);
    assert_eq!(s.collateral, 50_000);
    assert_eq!(s.disbursed, 400);
    assert_eq!(s.not_yet_due_disbursed_outstanding, 300);
    assert_eq!(s.interest_posted, 12);
    assert_eq!(s.not_yet_due_interest_outstanding, 10);
    assert_eq!(s.payments_unapplied, 7);
}

#[test]
fn a_negative_balance_is_refused() {
    let mut b = no_balances();
    b.disbursed_receivable_due = snapshot(DebitOrCredit::Debit, 0, 5, 0);
    assert_eq!(credit_facility_balance_summary(&b), Err(BalanceConversionError::OutOfRange));
    let p = pending_credit_facility_balance_summary(&snapshot(DebitOrCredit::Credit, 0, 0, 900), &b.disbursed_receivable_due);
    assert_eq!(p, Err(BalanceConversionError::OutOfRange));
    let p = pending_credit_facility_balance_summary(
        &snapshot(DebitOrCredit::Credit, 0, 0, 900),
        &snapshot(DebitOrCredit::Debit, 300, 0, 0),
    )
    .unwrap();
    assert_eq!((p.facility, p.collateral), (900, 300));
}

#[test]
fn history_lists_the_newest_entry_first() {
    let mut h = CreditFacilityHistory::new();
    h.process_credit_event(&CoreCreditEvent::FacilityCollateralUpdated {
        credit_facility_id: 1,
        ledger_tx_id: 2,
        new_amount: 500,
        abs_diff: 500,
        direction: CollateralDirection::Add,
        recorded_at: 10,
        effective: 700_000,
    });
    h.process_credit_event(&CoreCreditEvent::FacilityCompleted { id: 1, completed_at: 20 });
    h.process_collection_event(&CoreCreditCollectionEvent::PaymentAllocated {
        entity: PublicPaymentAllocation {
            id: 3,
            obligation_id: 4,
            obligation_type: ObligationType::Disbursal,
            beneficiary_id: 1,
            amount: 75,
            recorded_at: 30,
            effective: 700_001,
        },
    });
    assert_eq!(h.len(), 2);
    let entries = h.into_entries();
    match entries[0] {
        CreditFacilityHistoryEntry::Payment(p) => {
            assert_eq!(p.cents, 75);
            assert_eq!(p.recorded_at, 30);
        }
        other => panic!("unexpected entry {:?}", other),
    }
    match entries[1] {
        CreditFacilityHistoryEntry::Collateral(c) => {
            assert_eq!(c.satoshis, 500);
            assert_eq!(c.tx_id, 2);
        }
        other => panic!("unexpected entry {:?}", other),
    }
}

#[test]
fn history_events_reach_their_facility() {
    assert_eq!(history_target_of_credit(&CoreCreditEvent::FacilityCompleted { id: 9, completed_at: 0 }), Some(9));
    let allocation = CoreCreditCollectionEvent::PaymentAllocated {
        entity: PublicPaymentAllocation {
            id: 3,
            obligation_id: 4,
            obligation_type: ObligationType::Interest,
            beneficiary_id: 8,
            amount: 1,
            recorded_at: 0,
            effective: 0,
        },
    };
    assert_eq!(history_target_of_collection(&allocation), Some(8));
}

#[test]
fn activity_is_read_from_the_closing_balance() {
    let zero = DecimalAmount { mantissa: 0, scale: 2 };
    let quiet = BalanceDetails {
        settled_dr: zero,
        settled_cr: zero,
        pending_dr: zero,
        pending_cr: zero,
        encumbrance_dr: zero,
        encumbrance_cr: zero,
    };
    let busy = BalanceDetails { encumbrance_cr: DecimalAmount { mantissa: 5, scale: 0 }, ..quiet };
    assert!(!BalanceRange { open: None, close: None, period_activity: Some(busy) }.has_non_zero_activity());
    assert!(!BalanceRange { open: Some(busy), close: Some(quiet), period_activity: None }.has_non_zero_activity());
    assert!(BalanceRange { open: None, close: Some(busy), period_activity: None }.has_non_zero_activity());
}
