use lana_core::credit_event::ObligationType;
use lana_core::credit_primitives::{
    collateral_entity_type, BalanceUpdatedType, CreditFacilityProposalStatus, CreditFacilityStatus,
    DisbursedReceivableAccountType, InterestAccrualCycleIdx, PendingCreditFacilityStatus,
};
use lana_core::entity_ref::{AccountIdOrCode, ClosingTxDetails, EntityRef, EntityType};
use lana_core::ledger::CustomerType;

#[test]
fn statuses_default_and_read_back() {
    assert_eq!(CreditFacilityStatus::default(), CreditFacilityStatus::Active);
    assert_eq!(CreditFacilityProposalStatus::default(), CreditFacilityProposalStatus::PendingCustomerApproval);
    assert_eq!(PendingCreditFacilityStatus::default(), PendingCreditFacilityStatus::PendingCollateralization);
    for s in [CreditFacilityStatus::Active, CreditFacilityStatus::Matured, CreditFacilityStatus::Closed] {
        assert_eq!(CreditFacilityStatus::parse(s.as_str()), Some(s));
    }
    assert_eq!(CreditFacilityProposalStatus::PendingApproval.as_str(), "PendingApproval");
    assert_eq!(CreditFacilityProposalStatus::parse("Approved"), Some(CreditFacilityProposalStatus::Approved));
    assert_eq!(CreditFacilityProposalStatus::parse("approved"), None);
}

#[test]
fn accrual_cycles_count_from_one() {
    let first = InterestAccrualCycleIdx::first();
    assert_eq!(first, InterestAccrualCycleIdx(1));
    assert_eq!(first.next(), InterestAccrualCycleIdx(2));
}

#[test]
fn account_types_follow_customer_types() {
    assert_eq!(
        DisbursedReceivableAccountType::from_customer_type(CustomerType::ForeignAgencyOrSubsidiary),
        DisbursedReceivableAccountType::ForeignAgencyOrSubsidiary
    );
    assert_eq!(BalanceUpdatedType::from_obligation_type(ObligationType::Interest), BalanceUpdatedType::InterestAccrual);
}

#[test]
fn entity_refs_and_types() {
    let r = EntityRef::new(collateral_entity_type(), 9);
    assert_eq!(r.entity_type, EntityType::new("Collateral"));
    assert_eq!(r.entity_id, 9);
}

#[test]
fn account_named_by_id_or_code() {
    let id = uuid::Uuid::new_v4();
    assert!(matches!(AccountIdOrCode::from_str(&id.to_string()), Ok(AccountIdOrCode::Id(i)) if i == id.as_u128()));
    match AccountIdOrCode::from_str("11.01") {
        Ok(AccountIdOrCode::Code(c)) => assert_eq!(c.to_string(), "11.01"),
        other => panic!("unexpected {:?}", other),
    }
    assert!(AccountIdOrCode::from_str("").is_err());
}

#[test]
fn retained_earnings_name_prefixes_the_description() {
    let details = ClosingTxDetails {
        description: "2024-12".to_string(),
        tx_id: 1,
        effective_balances_until: 0,
        effective_balances_from: 0,
    };
    assert_eq!(details.retained_earnings_account_name(), "NET_INCOME_2024-12");
}
