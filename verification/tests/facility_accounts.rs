use lana_core::accounting_config::DebitOrCredit;
use lana_core::facility_accounts::{
    facility_accounts_to_create, CreditFacilityInternalAccountSets, LiquidationAccountSets,
};
use lana_core::ledger::{
    CreditFacilityLedgerAccountIds, CustomerType, DisbursedReceivable, FacilityDurationType, InterestReceivable,
    InternalAccountSetDetails, PendingCreditFacilityAccountIds, ReceivableAccountSetsByCustomer,
};

fn set(id: u128, normal_balance_type: DebitOrCredit) -> InternalAccountSetDetails {
    InternalAccountSetDetails { id, normal_balance_type }
}

fn by_customer(base: u128) -> ReceivableAccountSetsByCustomer {
    ReceivableAccountSetsByCustomer {
        individual: set(base, DebitOrCredit::Debit),
        government_entity: set(base + 1, DebitOrCredit::Debit),
        private_company: set(base + 2, DebitOrCredit::Debit),
        bank: set(base + 3, DebitOrCredit::Debit),
        financial_institution: set(base + 4, DebitOrCredit::Debit),
        foreign_agency_or_subsidiary: set(base + 5, DebitOrCredit::Debit),
        non_domiciled_company: set(base + 6, DebitOrCredit::Debit),
    }
}

fn internal_sets() -> CreditFacilityInternalAccountSets {
    CreditFacilityInternalAccountSets {
        facility: set(1, DebitOrCredit::Credit),
        collateral: set(2, DebitOrCredit::Credit),
        liquidation: LiquidationAccountSets {
            collateral_in_liquidation: set(3, DebitOrCredit::Credit),
            liquidated_collateral: set(4, DebitOrCredit::Credit),
            proceeds_from_liquidation: set(5, DebitOrCredit::Credit),
        },
        disbursed_receivable: DisbursedReceivable {
            short_term: by_customer(100),
            long_term: by_customer(200),
            overdue: by_customer(300),
        },
        disbursed_defaulted: set(6, DebitOrCredit::Debit),
        interest_receivable: InterestReceivable { short_term: by_customer(400), long_term: by_customer(500) },
        interest_defaulted: set(7, DebitOrCredit::Debit),
        interest_income: set(8, DebitOrCredit::Credit),
        fee_income: set(9, DebitOrCredit::Credit),
        uncovered_outstanding: set(10, DebitOrCredit::Debit),
        payment_holding: set(11, DebitOrCredit::Credit),
    }
}

#[test]
fn facility_gets_fifteen_accounts_under_its_sets() {
    let facility_id = uuid::Uuid::new_v4();
    let ids = CreditFacilityLedgerAccountIds::from_pending(PendingCreditFacilityAccountIds::new());
    let accounts = facility_accounts_to_create(
        facility_id.as_u128(),
        ids,
        CustomerType::Bank,
        FacilityDurationType::LongTerm,
        &internal_sets(),
    );
    assert_eq!(accounts.len(), 15);
    let first = &accounts[0];
    assert_eq!(first.id, ids.disbursed_receivable_not_yet_due_account_id);
    assert_eq!(first.parent.id, 203);
    assert_eq!(first.reference, format!("credit-facility-disbursed-not-yet-due-receivable:{}", facility_id));
    assert_eq!(first.name, format!("Disbursed Receivable Not Yet Due Account for Credit Facility {}", facility_id));
    assert_eq!(first.description, first.name);
    assert_eq!(first.code, uuid::Uuid::from_u128(first.id).to_string());
    assert_eq!(first.normal_balance_type, DebitOrCredit::Debit);
    assert_eq!(first.entity_ref.entity_type.name, "CreditFacility");
    assert_eq!(first.entity_ref.entity_id, facility_id.as_u128());
    // The overdue receivable sits with the overdue sets whatever the term.
    assert_eq!(accounts[2].parent.id, 303);
    // Interest receivables follow the term.
    assert_eq!(accounts[4].parent.id, 503);
    assert_eq!(accounts[8].parent.id, 8);
    assert_eq!(accounts[8].normal_balance_type, DebitOrCredit::Credit);
    assert_eq!(accounts[14].reference, format!("credit-facility-proceeds-from-liquidation:{}", facility_id));
    assert_eq!(accounts[14].parent.id, 5);
}

#[test]
fn short_term_facility_uses_short_term_sets() {
    let ids = CreditFacilityLedgerAccountIds::from_pending(PendingCreditFacilityAccountIds::new());
    let accounts = facility_accounts_to_create(7, ids, CustomerType::Individual, FacilityDurationType::ShortTerm, &internal_sets());
    assert_eq!(accounts[0].parent.id, 100);
    assert_eq!(accounts[5].parent.id, 400);
}

use lana_core::ledger_setup::{
    after_account_set_lookup, after_control_creation, after_creation, after_limit_added, after_members_listed,
    after_template_creation, journal_reference, AccountSetLookup, AccountSetLookupStep, ControlCreation, Creation,
    CreationStep, FirstMember, LedgerSetKind, LimitAddition, OmnibusStep, TemplateCreation, normal_balance_type_of,
};

#[test]
fn journal_references_prefix_the_journal_id() {
    let journal = uuid::Uuid::new_v4();
    assert_eq!(journal_reference(journal.as_u128(), "credit-omnibus"), format!("{}:credit-omnibus", journal));
}

#[test]
fn account_set_lookup_decisions() {
    assert_eq!(
        after_account_set_lookup(AccountSetLookup::Found { id: 4, journal_id: 1 }, 1),
        AccountSetLookupStep::UseExisting(4)
    );
    assert_eq!(
        after_account_set_lookup(AccountSetLookup::Found { id: 4, journal_id: 2 }, 1),
        AccountSetLookupStep::JournalIdMismatch
    );
    assert_eq!(after_account_set_lookup(AccountSetLookup::NotFound, 1), AccountSetLookupStep::Create);
    assert_eq!(after_account_set_lookup(AccountSetLookup::Failed, 1), AccountSetLookupStep::Fail);
}

#[test]
fn creation_and_member_decisions() {
    assert_eq!(after_creation(Creation::Created(3)), CreationStep::Use(3));
    assert_eq!(after_creation(Creation::ExternalIdAlreadyExists), CreationStep::FindByExternalId);
    assert_eq!(after_creation(Creation::Failed), CreationStep::Fail);
    assert_eq!(after_members_listed(FirstMember::NoMembers), OmnibusStep::CreateAccount);
    assert_eq!(after_members_listed(FirstMember::Account(8)), OmnibusStep::UseAccount(8));
    assert_eq!(after_members_listed(FirstMember::AccountSet(8)), OmnibusStep::NonAccountMemberFound);
}

#[test]
fn duplicates_count_as_success_for_templates_controls_and_limits() {
    assert!(after_template_creation(TemplateCreation::Created));
    assert!(after_template_creation(TemplateCreation::DuplicateCode));
    assert!(!after_template_creation(TemplateCreation::Failed));
    assert_eq!(after_control_creation(7, ControlCreation::Created(7)), Some(7));
    assert_eq!(after_control_creation(7, ControlCreation::ControlIdAlreadyExists), Some(7));
    assert_eq!(after_control_creation(7, ControlCreation::Failed), None);
    assert!(after_limit_added(LimitAddition::Added));
    assert!(after_limit_added(LimitAddition::LimitAlreadyAddedToControl));
    assert!(!after_limit_added(LimitAddition::Failed));
}

#[test]
fn ledger_sets_get_their_normal_balance_sides() {
    for kind in [
        LedgerSetKind::DisbursedReceivable,
        LedgerSetKind::DisbursedDefaulted,
        LedgerSetKind::InterestReceivable,
        LedgerSetKind::InterestDefaulted,
        LedgerSetKind::CollateralOmnibus,
        LedgerSetKind::InterestAddedToObligationsOmnibus,
        LedgerSetKind::FacilityOmnibus,
        LedgerSetKind::LiquidationProceedsOmnibus,
    ] {
        assert_eq!(normal_balance_type_of(kind), DebitOrCredit::Debit);
    }
    for kind in [
        LedgerSetKind::Facility,
        LedgerSetKind::Collateral,
        LedgerSetKind::CollateralInLiquidation,
        LedgerSetKind::LiquidatedCollateral,
        LedgerSetKind::ProceedsFromLiquidation,
        LedgerSetKind::InterestIncome,
        LedgerSetKind::FeeIncome,
        LedgerSetKind::UncoveredOutstanding,
        LedgerSetKind::PaymentHolding,
        LedgerSetKind::PaymentsMadeOmnibus,
    ] {
        assert_eq!(normal_balance_type_of(kind), DebitOrCredit::Credit);
    }
}
