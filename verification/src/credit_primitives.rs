//! The small vocabulary of the credit module: the statuses of its
//! entities, the numbering of interest accrual cycles, the kinds of
//! receivable accounts, and the entity types its ledger records refer to.
use vstd::prelude::*;
use crate::authz::chars_are;
use crate::credit_event::ObligationType;
use crate::entity_ref::EntityType;
use crate::ledger::{CustomerType, DisbursedReceivableAccountCategory, FacilityDurationType};
use crate::text::chars_of;

verus! {

/// The status of a credit facility.
#[derive(Debug, Clone, Copy, PartialEq, Eq)]
pub enum CreditFacilityStatus {
    Active,
    Matured,
    Closed,
}

/// The name a status is written with: the variant's name.
pub open spec fn credit_facility_status_name(s: CreditFacilityStatus) -> Seq<char> {
    match s {
        CreditFacilityStatus::Active => "Active"@,
        CreditFacilityStatus::Matured => "Matured"@,
        CreditFacilityStatus::Closed => "Closed"@,
    }
}

/// The CreditFacilityStatus that a name names, if any.
pub open spec fn credit_facility_status_named(t: Seq<char>) -> Option<CreditFacilityStatus> {
    if t == "Active"@ {
        Some(CreditFacilityStatus::Active)
    } else if t == "Matured"@ {
        Some(CreditFacilityStatus::Matured)
    } else if t == "Closed"@ {
        Some(CreditFacilityStatus::Closed)
    } else {
        None
    }
}

impl Default for CreditFacilityStatus {
    fn default() -> (r: CreditFacilityStatus)
        ensures
            r == CreditFacilityStatus::Active,
    {
        CreditFacilityStatus::Active
    }
}

impl CreditFacilityStatus {
    /// The name the status is written with.
    pub fn as_str(&self) -> (r: &'static str)
        ensures
            r@ == credit_facility_status_name(*self),
    {
        match self {
            CreditFacilityStatus::Active => "Active",
            CreditFacilityStatus::Matured => "Matured",
            CreditFacilityStatus::Closed => "Closed",
        }
    }

    /// The status a text names, if any.
    pub fn parse(s: &str) -> (r: Option<CreditFacilityStatus>)
        ensures
            r == credit_facility_status_named(s@),
    {
        let v = chars_of(s);
        if chars_are(&v, "Active") {
            return Some(CreditFacilityStatus::Active);
        }
        if chars_are(&v, "Matured") {
            return Some(CreditFacilityStatus::Matured);
        }
        if chars_are(&v, "Closed") {
            return Some(CreditFacilityStatus::Closed);
        }
        None
    }
}

/// A status's name names it.
pub proof fn law_credit_facility_status_name_round_trip(s: CreditFacilityStatus)
    ensures
        credit_facility_status_named(credit_facility_status_name(s)) == Some(s),
{
    reveal_strlit("Active");
    reveal_strlit("Matured");
    reveal_strlit("Closed");
    assert("Active"@.len() == 6 && "Matured"@.len() == 7);
    assert("Active"@[0] == 'A' && "Closed"@[0] == 'C');
    assert("Matured"@.len() == 7 && "Closed"@.len() == 6);
}

/// The status of a credit facility proposal.
#[derive(Debug, Clone, Copy, PartialEq, Eq)]
pub enum CreditFacilityProposalStatus {
    PendingCustomerApproval,
    CustomerDenied,
    PendingApproval,
    Approved,
    Denied,
}

/// The name a status is written with: the variant's name.
pub open spec fn credit_facility_proposal_status_name(s: CreditFacilityProposalStatus) -> Seq<char> {
    match s {
        CreditFacilityProposalStatus::PendingCustomerApproval => "PendingCustomerApproval"@,
        CreditFacilityProposalStatus::CustomerDenied => "CustomerDenied"@,
        CreditFacilityProposalStatus::PendingApproval => "PendingApproval"@,
        CreditFacilityProposalStatus::Approved => "Approved"@,
        CreditFacilityProposalStatus::Denied => "Denied"@,
    }
}

/// The CreditFacilityProposalStatus that a name names, if any.
pub open spec fn credit_facility_proposal_status_named(t: Seq<char>) -> Option<CreditFacilityProposalStatus> {
    if t == "PendingCustomerApproval"@ {
        Some(CreditFacilityProposalStatus::PendingCustomerApproval)
    } else if t == "CustomerDenied"@ {
        Some(CreditFacilityProposalStatus::CustomerDenied)
    } else if t == "PendingApproval"@ {
        Some(CreditFacilityProposalStatus::PendingApproval)
    } else if t == "Approved"@ {
        Some(CreditFacilityProposalStatus::Approved)
    } else if t == "Denied"@ {
        Some(CreditFacilityProposalStatus::Denied)
    } else {
        None
    }
}

impl Default for CreditFacilityProposalStatus {
    fn default() -> (r: CreditFacilityProposalStatus)
        ensures
            r == CreditFacilityProposalStatus::PendingCustomerApproval,
    {
        CreditFacilityProposalStatus::PendingCustomerApproval
    }
}

impl CreditFacilityProposalStatus {
    /// The name the status is written with.
    pub fn as_str(&self) -> (r: &'static str)
        ensures
            r@ == credit_facility_proposal_status_name(*self),
    {
        match self {
            CreditFacilityProposalStatus::PendingCustomerApproval => "PendingCustomerApproval",
            CreditFacilityProposalStatus::CustomerDenied => "CustomerDenied",
            CreditFacilityProposalStatus::PendingApproval => "PendingApproval",
            CreditFacilityProposalStatus::Approved => "Approved",
            CreditFacilityProposalStatus::Denied => "Denied",
        }
    }

    /// The status a text names, if any.
    pub fn parse(s: &str) -> (r: Option<CreditFacilityProposalStatus>)
        ensures
            r == credit_facility_proposal_status_named(s@),
    {
        let v = chars_of(s);
        if chars_are(&v, "PendingCustomerApproval") {
            return Some(CreditFacilityProposalStatus::PendingCustomerApproval);
        }
        if chars_are(&v, "CustomerDenied") {
            return Some(CreditFacilityProposalStatus::CustomerDenied);
        }
        if chars_are(&v, "PendingApproval") {
            return Some(CreditFacilityProposalStatus::PendingApproval);
        }
        if chars_are(&v, "Approved") {
            return Some(CreditFacilityProposalStatus::Approved);
        }
        if chars_are(&v, "Denied") {
            return Some(CreditFacilityProposalStatus::Denied);
        }
        None
    }
}

/// A status's name names it.
pub proof fn law_credit_facility_proposal_status_name_round_trip(s: CreditFacilityProposalStatus)
    ensures
        credit_facility_proposal_status_named(credit_facility_proposal_status_name(s)) == Some(s),
{
    reveal_strlit("PendingCustomerApproval");
    reveal_strlit("CustomerDenied");
    reveal_strlit("PendingApproval");
    reveal_strlit("Approved");
    reveal_strlit("Denied");
    assert("PendingCustomerApproval"@.len() == 23 && "CustomerDenied"@.len() == 14);
    assert("PendingCustomerApproval"@.len() == 23 && "PendingApproval"@.len() == 15);
    assert("PendingCustomerApproval"@.len() == 23 && "Approved"@.len() == 8);
    assert("PendingCustomerApproval"@.len() == 23 && "Denied"@.len() == 6);
    assert("CustomerDenied"@.len() == 14 && "PendingApproval"@.len() == 15);
    assert("CustomerDenied"@.len() == 14 && "Approved"@.len() == 8);
    assert("CustomerDenied"@.len() == 14 && "Denied"@.len() == 6);
    assert("PendingApproval"@.len() == 15 && "Approved"@.len() == 8);
    assert("PendingApproval"@.len() == 15 && "Denied"@.len() == 6);
    assert("Approved"@.len() == 8 && "Denied"@.len() == 6);
}

/// The status of a pending credit facility.
#[derive(Debug, Clone, Copy, PartialEq, Eq)]
pub enum PendingCreditFacilityStatus {
    PendingCollateralization,
    Completed,
}

/// The name a status is written with: the variant's name.
pub open spec fn pending_credit_facility_status_name(s: PendingCreditFacilityStatus) -> Seq<char> {
    match s {
        PendingCreditFacilityStatus::PendingCollateralization => "PendingCollateralization"@,
        PendingCreditFacilityStatus::Completed => "Completed"@,
    }
}

/// The PendingCreditFacilityStatus that a name names, if any.
pub open spec fn pending_credit_facility_status_named(t: Seq<char>) -> Option<PendingCreditFacilityStatus> {
    if t == "PendingCollateralization"@ {
        Some(PendingCreditFacilityStatus::PendingCollateralization)
    } else if t == "Completed"@ {
        Some(PendingCreditFacilityStatus::Completed)
    } else {
        None
    }
}

impl Default for PendingCreditFacilityStatus {
    fn default() -> (r: PendingCreditFacilityStatus)
        ensures
            r == PendingCreditFacilityStatus::PendingCollateralization,
    {
        PendingCreditFacilityStatus::PendingCollateralization
    }
}

impl PendingCreditFacilityStatus {
    /// The name the status is written with.
    pub fn as_str(&self) -> (r: &'static str)
        ensures
            r@ == pending_credit_facility_status_name(*self),
    {
        match self {
            PendingCreditFacilityStatus::PendingCollateralization => "PendingCollateralization",
            PendingCreditFacilityStatus::Completed => "Completed",
        }
    }

    /// The status a text names, if any.
    pub fn parse(s: &str) -> (r: Option<PendingCreditFacilityStatus>)
        ensures
            r == pending_credit_facility_status_named(s@),
    {
        let v = chars_of(s);
        if chars_are(&v, "PendingCollateralization") {
            return Some(PendingCreditFacilityStatus::PendingCollateralization);
        }
        if chars_are(&v, "Completed") {
            return Some(PendingCreditFacilityStatus::Completed);
        }
        None
    }
}

/// A status's name names it.
pub proof fn law_pending_credit_facility_status_name_round_trip(s: PendingCreditFacilityStatus)
    ensures
        pending_credit_facility_status_named(pending_credit_facility_status_name(s)) == Some(s),
{
    reveal_strlit("PendingCollateralization");
    reveal_strlit("Completed");
    assert("PendingCollateralization"@.len() == 24 && "Completed"@.len() == 9);
}

/// The status of a disbursal.
#[derive(Debug, Clone, Copy, PartialEq, Eq)]
pub enum DisbursalStatus {
    New,
    Approved,
    Denied,
    Confirmed,
}

/// The number of an interest accrual cycle of a facility, from 1.
#[derive(Debug, Clone, Copy, PartialEq, Eq, Hash)]
pub struct InterestAccrualCycleIdx(pub i32);

impl InterestAccrualCycleIdx {
    /// The first cycle.
    pub fn first() -> (r: InterestAccrualCycleIdx)
        ensures
            r.0 == 1,
    {
        InterestAccrualCycleIdx(1)
    }

    /// The cycle after this one.
    pub fn next(&self) -> (r: InterestAccrualCycleIdx)
        requires
            self.0 < i32::MAX,
        ensures
            r.0 == self.0 + 1,
    {
        InterestAccrualCycleIdx(self.0 + 1)
    }
}

/// What a balance update of a facility is for.
#[derive(Debug, Clone, Copy, PartialEq, Eq)]
pub enum BalanceUpdatedType {
    Disbursal,
    InterestAccrual,
}

impl BalanceUpdatedType {
    /// The balance update of an obligation of this type.
    pub fn from_obligation_type(t: ObligationType) -> (r: BalanceUpdatedType)
        ensures
            t == ObligationType::Disbursal ==> r == BalanceUpdatedType::Disbursal,
            t == ObligationType::Interest ==> r == BalanceUpdatedType::InterestAccrual,
    {
        match t {
            ObligationType::Disbursal => BalanceUpdatedType::Disbursal,
            ObligationType::Interest => BalanceUpdatedType::InterestAccrual,
        }
    }
}

/// The customer type a disbursed receivable account is kept for.
#[derive(Debug, Clone, Copy, PartialEq, Eq)]
pub enum DisbursedReceivableAccountType {
    Individual,
    GovernmentEntity,
    PrivateCompany,
    Bank,
    FinancialInstitution,
    ForeignAgencyOrSubsidiary,
    NonDomiciledCompany,
}

impl DisbursedReceivableAccountType {
    /// The receivable account type of a customer type.
    pub fn from_customer_type(c: CustomerType) -> (r: DisbursedReceivableAccountType)
        ensures
            c == CustomerType::Individual ==> r == DisbursedReceivableAccountType::Individual,
            c == CustomerType::GovernmentEntity ==> r == DisbursedReceivableAccountType::GovernmentEntity,
            c == CustomerType::PrivateCompany ==> r == DisbursedReceivableAccountType::PrivateCompany,
            c == CustomerType::Bank ==> r == DisbursedReceivableAccountType::Bank,
            c == CustomerType::FinancialInstitution ==> r == DisbursedReceivableAccountType::FinancialInstitution,
            c == CustomerType::ForeignAgencyOrSubsidiary ==> r == DisbursedReceivableAccountType::ForeignAgencyOrSubsidiary,
            c == CustomerType::NonDomiciledCompany ==> r == DisbursedReceivableAccountType::NonDomiciledCompany,
    {
        match c {
            CustomerType::Individual => DisbursedReceivableAccountType::Individual,
            CustomerType::GovernmentEntity => DisbursedReceivableAccountType::GovernmentEntity,
            CustomerType::PrivateCompany => DisbursedReceivableAccountType::PrivateCompany,
            CustomerType::Bank => DisbursedReceivableAccountType::Bank,
            CustomerType::FinancialInstitution => DisbursedReceivableAccountType::FinancialInstitution,
            CustomerType::ForeignAgencyOrSubsidiary => DisbursedReceivableAccountType::ForeignAgencyOrSubsidiary,
            CustomerType::NonDomiciledCompany => DisbursedReceivableAccountType::NonDomiciledCompany,
        }
    }
}

/// The customer type a interest receivable account is kept for.
#[derive(Debug, Clone, Copy, PartialEq, Eq)]
pub enum InterestReceivableAccountType {
    Individual,
    GovernmentEntity,
    PrivateCompany,
    Bank,
    FinancialInstitution,
    ForeignAgencyOrSubsidiary,
    NonDomiciledCompany,
}

impl InterestReceivableAccountType {
    /// The receivable account type of a customer type.
    pub fn from_customer_type(c: CustomerType) -> (r: InterestReceivableAccountType)
        ensures
            c == CustomerType::Individual ==> r == InterestReceivableAccountType::Individual,
            c == CustomerType::GovernmentEntity ==> r == InterestReceivableAccountType::GovernmentEntity,
            c == CustomerType::PrivateCompany ==> r == InterestReceivableAccountType::PrivateCompany,
            c == CustomerType::Bank ==> r == InterestReceivableAccountType::Bank,
            c == CustomerType::FinancialInstitution ==> r == InterestReceivableAccountType::FinancialInstitution,
            c == CustomerType::ForeignAgencyOrSubsidiary ==> r == InterestReceivableAccountType::ForeignAgencyOrSubsidiary,
            c == CustomerType::NonDomiciledCompany ==> r == InterestReceivableAccountType::NonDomiciledCompany,
    {
        match c {
            CustomerType::Individual => InterestReceivableAccountType::Individual,
            CustomerType::GovernmentEntity => InterestReceivableAccountType::GovernmentEntity,
            CustomerType::PrivateCompany => InterestReceivableAccountType::PrivateCompany,
            CustomerType::Bank => InterestReceivableAccountType::Bank,
            CustomerType::FinancialInstitution => InterestReceivableAccountType::FinancialInstitution,
            CustomerType::ForeignAgencyOrSubsidiary => InterestReceivableAccountType::ForeignAgencyOrSubsidiary,
            CustomerType::NonDomiciledCompany => InterestReceivableAccountType::NonDomiciledCompany,
        }
    }
}

/// The entity type of credit facilities in ledger records.
pub fn credit_facility_entity_type() -> (r: EntityType)
    ensures
        r.name@ == "CreditFacility"@,
{
    EntityType::new("CreditFacility")
}

/// The entity type of credit facility proposals in ledger records.
pub fn credit_facility_proposal_entity_type() -> (r: EntityType)
    ensures
        r.name@ == "CreditFacilityProposal"@,
{
    EntityType::new("CreditFacilityProposal")
}

/// The entity type of collaterals in ledger records.
pub fn collateral_entity_type() -> (r: EntityType)
    ensures
        r.name@ == "Collateral"@,
{
    EntityType::new("Collateral")
}

/// The entity type of disbursal transactions in ledger records.
pub fn disbursal_transaction_entity_type() -> (r: EntityType)
    ensures
        r.name@ == "Disbursal"@,
{
    EntityType::new("Disbursal")
}

} // verus!
