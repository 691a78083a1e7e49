//! Ledger accounts of credit facilities: the account ids each facility
//! holds, the account sets that receivables are grouped in by customer type
//! and term, and the account sets that the chart integration resolves.
use vstd::prelude::*;
use crate::accounting_config::DebitOrCredit;
use crate::ids::new_random_id;

verus! {

/// The kinds of customer that receivables are grouped by.
#[derive(Debug, Clone, Copy, PartialEq, Eq)]
pub enum CustomerType {
    Individual,
    GovernmentEntity,
    PrivateCompany,
    Bank,
    FinancialInstitution,
    ForeignAgencyOrSubsidiary,
    NonDomiciledCompany,
}

/// Whether a facility runs for a short or a long term.
#[derive(Debug, Clone, Copy, PartialEq, Eq)]
pub enum FacilityDurationType {
    LongTerm,
    ShortTerm,
}

/// The group of a disbursed receivable: by term, or overdue.
#[derive(Debug, Clone, Copy, PartialEq, Eq)]
pub enum DisbursedReceivableAccountCategory {
    LongTerm,
    ShortTerm,
    Overdue,
}

impl DisbursedReceivableAccountCategory {
    /// The category of the receivables of a facility of this term.
    pub fn from_duration_type(duration_type: FacilityDurationType) -> (r: DisbursedReceivableAccountCategory)
        ensures
            duration_type == FacilityDurationType::LongTerm ==> r == DisbursedReceivableAccountCategory::LongTerm,
            duration_type == FacilityDurationType::ShortTerm ==> r == DisbursedReceivableAccountCategory::ShortTerm,
    {
        match duration_type {
            FacilityDurationType::LongTerm => DisbursedReceivableAccountCategory::LongTerm,
            FacilityDurationType::ShortTerm => DisbursedReceivableAccountCategory::ShortTerm,
        }
    }
}

/// An internal account set: its id and the side of its normal balance.
#[derive(Debug, Clone, Copy, PartialEq, Eq)]
pub struct InternalAccountSetDetails {
    pub id: u128,
    pub normal_balance_type: DebitOrCredit,
}

/// One account set per customer type.
#[derive(Debug, Clone, Copy, PartialEq, Eq)]
pub struct ReceivableAccountSetsByCustomer {
    pub individual: InternalAccountSetDetails,
    pub government_entity: InternalAccountSetDetails,
    pub private_company: InternalAccountSetDetails,
    pub bank: InternalAccountSetDetails,
    pub financial_institution: InternalAccountSetDetails,
    pub foreign_agency_or_subsidiary: InternalAccountSetDetails,
    pub non_domiciled_company: InternalAccountSetDetails,
}

/// The account set of a customer type.
pub open spec fn for_customer(sets: ReceivableAccountSetsByCustomer, ty: CustomerType) -> InternalAccountSetDetails {
    match ty {
        CustomerType::Individual => sets.individual,
        CustomerType::GovernmentEntity => sets.government_entity,
        CustomerType::PrivateCompany => sets.private_company,
        CustomerType::Bank => sets.bank,
        CustomerType::FinancialInstitution => sets.financial_institution,
        CustomerType::ForeignAgencyOrSubsidiary => sets.foreign_agency_or_subsidiary,
        CustomerType::NonDomiciledCompany => sets.non_domiciled_company,
    }
}

impl ReceivableAccountSetsByCustomer {
    /// The account set of a customer type.
    pub fn for_customer_type(&self, ty: CustomerType) -> (r: InternalAccountSetDetails)
        ensures
            r == for_customer(*self, ty),
    {
        match ty {
            CustomerType::Individual => self.individual,
            CustomerType::GovernmentEntity => self.government_entity,
            CustomerType::PrivateCompany => self.private_company,
            CustomerType::Bank => self.bank,
            CustomerType::FinancialInstitution => self.financial_institution,
            CustomerType::ForeignAgencyOrSubsidiary => self.foreign_agency_or_subsidiary,
            CustomerType::NonDomiciledCompany => self.non_domiciled_company,
        }
    }
}

/// The account sets of disbursed receivables.
#[derive(Debug, Clone, Copy, PartialEq, Eq)]
pub struct DisbursedReceivable {
    pub short_term: ReceivableAccountSetsByCustomer,
    pub long_term: ReceivableAccountSetsByCustomer,
    pub overdue: ReceivableAccountSetsByCustomer,
}

/// The account sets of interest receivables.
#[derive(Debug, Clone, Copy, PartialEq, Eq)]
pub struct InterestReceivable {
    pub short_term: ReceivableAccountSetsByCustomer,
    pub long_term: ReceivableAccountSetsByCustomer,
}

/// The account set that holds the disbursed receivables of a customer
/// type in a category.
pub fn disbursed_internal_account_set_from_type(
    sets: &DisbursedReceivable,
    disbursed_account_type: CustomerType,
    disbursed_account_category: DisbursedReceivableAccountCategory,
) -> (r: InternalAccountSetDetails)
    ensures
        r == for_customer(
            match disbursed_account_category {
                DisbursedReceivableAccountCategory::ShortTerm => sets.short_term,
                DisbursedReceivableAccountCategory::LongTerm => sets.long_term,
                DisbursedReceivableAccountCategory::Overdue => sets.overdue,
            },
            disbursed_account_type,
        ),
{
    let term_type = match disbursed_account_category {
        DisbursedReceivableAccountCategory::ShortTerm => &sets.short_term,
        DisbursedReceivableAccountCategory::LongTerm => &sets.long_term,
        DisbursedReceivableAccountCategory::Overdue => &sets.overdue,
    };
    term_type.for_customer_type(disbursed_account_type)
}

/// The account set that holds the interest receivables of a customer type
/// for facilities of a term.
pub fn interest_internal_account_set_from_type(
    sets: &InterestReceivable,
    interest_receivable_account_type: CustomerType,
    duration_type: FacilityDurationType,
) -> (r: InternalAccountSetDetails)
    ensures
        r == for_customer(
            if duration_type == FacilityDurationType::ShortTerm {
                sets.short_term
            } else {
                sets.long_term
            },
            interest_receivable_account_type,
        ),
{
    let term_type = if let FacilityDurationType::ShortTerm = duration_type {
        &sets.short_term
    } else {
        &sets.long_term
    };
    term_type.for_customer_type(interest_receivable_account_type)
}

/// The disbursal made when a facility is activated.
#[derive(Debug, Clone, Copy, PartialEq, Eq)]
pub struct InitialDisbursalOnActivation {
    pub id: u128,
    pub amount: u64,
}

/// The structuring fee charged when a facility is activated.
#[derive(Debug, Clone, Copy, PartialEq, Eq)]
pub struct StructuringFeeOnActivation {
    pub tx_id: u128,
    pub amount: u64,
}

/// Parent account sets of short-term disbursed receivables, by customer type.
#[derive(Debug, Clone, Copy, PartialEq, Eq)]
pub struct ShortTermDisbursedIntegrationMeta {
    pub short_term_individual_disbursed_receivable_parent_account_set_id: u128,
    pub short_term_government_entity_disbursed_receivable_parent_account_set_id: u128,
    pub short_term_private_company_disbursed_receivable_parent_account_set_id: u128,
    pub short_term_bank_disbursed_receivable_parent_account_set_id: u128,
    pub short_term_financial_institution_disbursed_receivable_parent_account_set_id: u128,
    pub short_term_foreign_agency_or_subsidiary_disbursed_receivable_parent_account_set_id: u128,
    pub short_term_non_domiciled_company_disbursed_receivable_parent_account_set_id: u128,
}

/// Parent account sets of long-term disbursed receivables, by customer type.
#[derive(Debug, Clone, Copy, PartialEq, Eq)]
pub struct LongTermDisbursedIntegrationMeta {
    pub long_term_individual_disbursed_receivable_parent_account_set_id: u128,
    pub long_term_government_entity_disbursed_receivable_parent_account_set_id: u128,
    pub long_term_private_company_disbursed_receivable_parent_account_set_id: u128,
    pub long_term_bank_disbursed_receivable_parent_account_set_id: u128,
    pub long_term_financial_institution_disbursed_receivable_parent_account_set_id: u128,
    pub long_term_foreign_agency_or_subsidiary_disbursed_receivable_parent_account_set_id: u128,
    pub long_term_non_domiciled_company_disbursed_receivable_parent_account_set_id: u128,
}

/// Parent account sets of short-term interest receivables, by customer type.
#[derive(Debug, Clone, Copy, PartialEq, Eq)]
pub struct ShortTermInterestIntegrationMeta {
    pub short_term_individual_interest_receivable_parent_account_set_id: u128,
    pub short_term_government_entity_interest_receivable_parent_account_set_id: u128,
    pub short_term_private_company_interest_receivable_parent_account_set_id: u128,
    pub short_term_bank_interest_receivable_parent_account_set_id: u128,
    pub short_term_financial_institution_interest_receivable_parent_account_set_id: u128,
    pub short_term_foreign_agency_or_subsidiary_interest_receivable_parent_account_set_id: u128,
    pub short_term_non_domiciled_company_interest_receivable_parent_account_set_id: u128,
}

/// Parent account sets of long-term interest receivables, by customer type.
#[derive(Debug, Clone, Copy, PartialEq, Eq)]
pub struct LongTermInterestIntegrationMeta {
    pub long_term_individual_interest_receivable_parent_account_set_id: u128,
    pub long_term_government_entity_interest_receivable_parent_account_set_id: u128,
    pub long_term_private_company_interest_receivable_parent_account_set_id: u128,
    pub long_term_bank_interest_receivable_parent_account_set_id: u128,
    pub long_term_financial_institution_interest_receivable_parent_account_set_id: u128,
    pub long_term_foreign_agency_or_subsidiary_interest_receivable_parent_account_set_id: u128,
    pub long_term_non_domiciled_company_interest_receivable_parent_account_set_id: u128,
}

/// Parent account sets of overdue disbursed receivables, by customer type.
#[derive(Debug, Clone, Copy, PartialEq, Eq)]
pub struct OverdueDisbursedIntegrationMeta {
    pub overdue_individual_disbursed_receivable_parent_account_set_id: u128,
    pub overdue_government_entity_disbursed_receivable_parent_account_set_id: u128,
    pub overdue_private_company_disbursed_receivable_parent_account_set_id: u128,
    pub overdue_bank_disbursed_receivable_parent_account_set_id: u128,
    pub overdue_financial_institution_disbursed_receivable_parent_account_set_id: u128,
    pub overdue_foreign_agency_or_subsidiary_disbursed_receivable_parent_account_set_id: u128,
    pub overdue_non_domiciled_company_disbursed_receivable_parent_account_set_id: u128,
}

/// The accounts of a pending facility.
#[derive(Debug, Clone, Copy, PartialEq, Eq)]
pub struct PendingCreditFacilityAccountIds {
    pub facility_account_id: u128,
    pub collateral_account_id: u128,
}

impl PendingCreditFacilityAccountIds {
    /// Fresh random account ids.
    pub fn new() -> (r: PendingCreditFacilityAccountIds) {
        PendingCreditFacilityAccountIds { collateral_account_id: new_random_id(), facility_account_id: new_random_id() }
    }
}

/// The accounts of a facility.
#[derive(Debug, Clone, Copy, PartialEq, Eq)]
pub struct CreditFacilityLedgerAccountIds {
    pub facility_account_id: u128,
    pub disbursed_receivable_not_yet_due_account_id: u128,
    pub disbursed_receivable_due_account_id: u128,
    pub disbursed_receivable_overdue_account_id: u128,
    pub disbursed_defaulted_account_id: u128,
    /// Holds the bitcoin collateral of the facility.
    pub collateral_account_id: u128,
    /// Holds the collateral that is being liquidated.
    pub collateral_in_liquidation_account_id: u128,
    /// Holds the collateral that was liquidated.
    pub liquidated_collateral_account_id: u128,
    /// Holds the money received from liquidations.
    pub proceeds_from_liquidation_account_id: u128,
    pub interest_receivable_not_yet_due_account_id: u128,
    pub interest_receivable_due_account_id: u128,
    pub interest_receivable_overdue_account_id: u128,
    pub interest_defaulted_account_id: u128,
    pub interest_income_account_id: u128,
    pub fee_income_account_id: u128,
    /// Holds money meant for payment allocation.
    pub payment_holding_account_id: u128,
    /// Holds what is owed and not yet covered by an unallocated payment.
    pub uncovered_outstanding_account_id: u128,
}

impl CreditFacilityLedgerAccountIds {
    /// The accounts of the facility that a pending facility becomes: it
    /// keeps the pending facility's facility and collateral accounts; every
    /// other account is new, with a random id.
    pub fn from_pending(proposal_ids: PendingCreditFacilityAccountIds) -> (r: CreditFacilityLedgerAccountIds)
        ensures
            r.facility_account_id == proposal_ids.facility_account_id,
            r.collateral_account_id == proposal_ids.collateral_account_id,
    {
        CreditFacilityLedgerAccountIds {
            facility_account_id: proposal_ids.facility_account_id,
            disbursed_receivable_not_yet_due_account_id: new_random_id(),
            disbursed_receivable_due_account_id: new_random_id(),
            disbursed_receivable_overdue_account_id: new_random_id(),
            disbursed_defaulted_account_id: new_random_id(),
            collateral_account_id: proposal_ids.collateral_account_id,
            collateral_in_liquidation_account_id: new_random_id(),
            liquidated_collateral_account_id: new_random_id(),
            proceeds_from_liquidation_account_id: new_random_id(),
            interest_receivable_not_yet_due_account_id: new_random_id(),
            interest_receivable_due_account_id: new_random_id(),
            interest_receivable_overdue_account_id: new_random_id(),
            interest_defaulted_account_id: new_random_id(),
            interest_income_account_id: new_random_id(),
            fee_income_account_id: new_random_id(),
            uncovered_outstanding_account_id: new_random_id(),
            payment_holding_account_id: new_random_id(),
        }
    }
}

/// The accounts that an interest accrual cycle posts to.
#[derive(Debug, Clone, Copy, PartialEq, Eq)]
pub struct InterestAccrualCycleLedgerAccountIds {
    pub receivable_not_yet_due_account_id: u128,
    pub receivable_due_account_id: u128,
    pub receivable_overdue_account_id: u128,
    pub defaulted_account_id: u128,
    pub interest_income_account_id: u128,
    pub uncovered_outstanding_account_id: u128,
}

/// The receivable accounts of an obligation, by stage.
#[derive(Debug, Clone, Copy, PartialEq, Eq)]
pub struct ObligationReceivableAccountIds {
    pub not_yet_due: u128,
    pub due: u128,
    pub overdue: u128,
}

/// The accounts that posting interest uses.
#[derive(Debug, Clone, Copy, PartialEq, Eq)]
pub struct InterestPostingAccountIds {
    pub receivable_not_yet_due: u128,
    pub income: u128,
    pub uncovered_outstanding: u128,
}

impl InterestAccrualCycleLedgerAccountIds {
    /// The interest accounts of a facility.
    pub fn from_facility(ids: CreditFacilityLedgerAccountIds) -> (r: InterestAccrualCycleLedgerAccountIds)
        ensures
            r.receivable_not_yet_due_account_id == ids.interest_receivable_not_yet_due_account_id,
            r.receivable_due_account_id == ids.interest_receivable_due_account_id,
            r.receivable_overdue_account_id == ids.interest_receivable_overdue_account_id,
            r.defaulted_account_id == ids.interest_defaulted_account_id,
            r.interest_income_account_id == ids.interest_income_account_id,
            r.uncovered_outstanding_account_id == ids.uncovered_outstanding_account_id,
    {
        InterestAccrualCycleLedgerAccountIds {
            receivable_not_yet_due_account_id: ids.interest_receivable_not_yet_due_account_id,
            receivable_due_account_id: ids.interest_receivable_due_account_id,
            receivable_overdue_account_id: ids.interest_receivable_overdue_account_id,
            defaulted_account_id: ids.interest_defaulted_account_id,
            interest_income_account_id: ids.interest_income_account_id,
            uncovered_outstanding_account_id: ids.uncovered_outstanding_account_id,
        }
    }

    /// The account of defaulted interest.
    pub fn defaulted_account_id(&self) -> (r: u128)
        ensures
            r == self.defaulted_account_id,
    {
        self.defaulted_account_id
    }

    /// The receivable accounts of the interest obligations of the cycle.
    pub fn obligation_receivables(&self) -> (r: ObligationReceivableAccountIds)
        ensures
            r.not_yet_due == self.receivable_not_yet_due_account_id,
            r.due == self.receivable_due_account_id,
            r.overdue == self.receivable_overdue_account_id,
    {
        ObligationReceivableAccountIds {
            not_yet_due: self.receivable_not_yet_due_account_id,
            due: self.receivable_due_account_id,
            overdue: self.receivable_overdue_account_id,
        }
    }

    /// The accounts that posting the cycle's interest uses.
    pub fn posting_accounts(&self) -> (r: InterestPostingAccountIds)
        ensures
            r.receivable_not_yet_due == self.receivable_not_yet_due_account_id,
            r.income == self.interest_income_account_id,
            r.uncovered_outstanding == self.uncovered_outstanding_account_id,
    {
        InterestPostingAccountIds {
            receivable_not_yet_due: self.receivable_not_yet_due_account_id,
            income: self.interest_income_account_id,
            uncovered_outstanding: self.uncovered_outstanding_account_id,
        }
    }
}

/// The account sets that a balance sheet statement is built from.
#[derive(Debug, Clone, Copy, PartialEq, Eq)]
pub struct BalanceSheetIds {
    pub id: u128,
    pub assets: u128,
    pub liabilities: u128,
    pub equity: u128,
    pub revenue: u128,
    pub cost_of_revenue: u128,
    pub expenses: u128,
}

/// The account sets that a profit and loss statement is built from.
#[derive(Debug, Clone, Copy, PartialEq, Eq)]
pub struct ProfitAndLossStatementIds {
    pub id: u128,
    pub revenue: u128,
    pub cost_of_revenue: u128,
    pub expenses: u128,
}

} // verus!
