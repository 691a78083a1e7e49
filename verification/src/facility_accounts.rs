//! The ledger accounts and account sets of credit facilities: which
//! accounts a facility gets when it is activated and where they sit, and
//! how the module's account sets are attached to the chart of accounts.
use vstd::prelude::*;
use crate::accounting_config::DebitOrCredit;
use crate::chart_integration::{resolved_ids, ResolvedChartOfAccountsIntegrationConfig};
use crate::ids::{uuid_text, uuid_to_string};
use crate::ledger::{
    disbursed_internal_account_set_from_type, for_customer, interest_internal_account_set_from_type,
    CreditFacilityLedgerAccountIds, CustomerType, DisbursedReceivable, DisbursedReceivableAccountCategory,
    FacilityDurationType, InterestReceivable, InternalAccountSetDetails,
};
use crate::credit_primitives::credit_facility_entity_type;
use crate::entity_ref::EntityRef;
use crate::text::concat_str;

verus! {

/// An omnibus account of the module and the account set that holds it.
#[derive(Debug, Clone, Copy, PartialEq, Eq)]
pub struct LedgerOmnibusAccountIds {
    pub account_set_id: u128,
    pub account_id: u128,
}

/// The account sets that group the accounts of liquidations.
#[derive(Debug, Clone, Copy, PartialEq, Eq)]
pub struct LiquidationAccountSets {
    /// Groups the parts of collaterals sent for liquidation whose proceeds
    /// have not been received yet.
    pub collateral_in_liquidation: InternalAccountSetDetails,
    /// Groups the parts of collaterals whose proceeds have been received.
    pub liquidated_collateral: InternalAccountSetDetails,
    /// Groups the proceeds received from liquidations.
    pub proceeds_from_liquidation: InternalAccountSetDetails,
}

/// The module's own account sets, under which each facility's accounts
/// sit.
#[derive(Debug, Clone, Copy, PartialEq, Eq)]
pub struct CreditFacilityInternalAccountSets {
    pub facility: InternalAccountSetDetails,
    pub collateral: InternalAccountSetDetails,
    pub liquidation: LiquidationAccountSets,
    pub disbursed_receivable: DisbursedReceivable,
    pub disbursed_defaulted: InternalAccountSetDetails,
    pub interest_receivable: InterestReceivable,
    pub interest_defaulted: InternalAccountSetDetails,
    pub interest_income: InternalAccountSetDetails,
    pub fee_income: InternalAccountSetDetails,
    pub uncovered_outstanding: InternalAccountSetDetails,
    pub payment_holding: InternalAccountSetDetails,
}

/// The disbursed receivable sets of a category.
pub open spec fn term_sets(d: DisbursedReceivable, category: DisbursedReceivableAccountCategory) -> crate::ledger::ReceivableAccountSetsByCustomer {
    match category {
        DisbursedReceivableAccountCategory::ShortTerm => d.short_term,
        DisbursedReceivableAccountCategory::LongTerm => d.long_term,
        DisbursedReceivableAccountCategory::Overdue => d.overdue,
    }
}

/// A ledger account to create: its id, the account set it joins, its
/// external reference, name and description, its code (the id's text), its
/// normal balance (that of the set it joins) and the entity it belongs to,
/// recorded in its metadata.
#[derive(Debug)]
pub struct NewFacilityAccount {
    pub id: u128,
    pub parent: InternalAccountSetDetails,
    pub reference: String,
    pub name: String,
    pub description: String,
    pub code: String,
    pub normal_balance_type: DebitOrCredit,
    pub entity_ref: EntityRef,
}

/// An account to create, over character sequences.
pub struct NewFacilityAccountView {
    pub id: u128,
    pub parent: InternalAccountSetDetails,
    pub reference: Seq<char>,
    pub name: Seq<char>,
    pub description: Seq<char>,
    pub code: Seq<char>,
    pub normal_balance_type: DebitOrCredit,
    pub entity_type: Seq<char>,
    pub entity_id: u128,
}

impl View for NewFacilityAccount {
    type V = NewFacilityAccountView;

    open spec fn view(&self) -> NewFacilityAccountView {
        NewFacilityAccountView {
            id: self.id,
            parent: self.parent,
            reference: self.reference@,
            name: self.name@,
            description: self.description@,
            code: self.code@,
            normal_balance_type: self.normal_balance_type,
            entity_type: self.entity_ref.entity_type.name@,
            entity_id: self.entity_ref.entity_id,
        }
    }
}

/// The account `id` to create under `parent`, with a reference and a name
/// that end with the facility's id.
pub open spec fn facility_account(
    id: u128,
    parent: InternalAccountSetDetails,
    reference_prefix: Seq<char>,
    name_prefix: Seq<char>,
    credit_facility_id: u128,
) -> NewFacilityAccountView {
    NewFacilityAccountView {
        id,
        parent,
        reference: reference_prefix + uuid_text(credit_facility_id),
        name: name_prefix + uuid_text(credit_facility_id),
        description: name_prefix + uuid_text(credit_facility_id),
        code: uuid_text(id),
        normal_balance_type: parent.normal_balance_type,
        entity_type: "CreditFacility"@,
        entity_id: credit_facility_id,
    }
}

/// The category of the receivables of a facility of this term.
pub open spec fn category_of_duration(d: FacilityDurationType) -> DisbursedReceivableAccountCategory {
    match d {
        FacilityDurationType::LongTerm => DisbursedReceivableAccountCategory::LongTerm,
        FacilityDurationType::ShortTerm => DisbursedReceivableAccountCategory::ShortTerm,
    }
}

/// The accounts a facility gets when it is activated (its facility and
/// collateral accounts exist from its proposal), in the order they are
/// created: the disbursed receivables (by customer type and term, the
/// overdue one by customer type), the defaulted, interest, income and
/// holding accounts, and those of liquidations.
pub open spec fn facility_accounts(
    credit_facility_id: u128,
    ids: CreditFacilityLedgerAccountIds,
    customer_type: CustomerType,
    duration_type: FacilityDurationType,
    sets: CreditFacilityInternalAccountSets,
) -> Seq<NewFacilityAccountView> {
    seq![
        facility_account(ids.disbursed_receivable_not_yet_due_account_id, for_customer(term_sets(sets.disbursed_receivable, category_of_duration(duration_type)), customer_type), "credit-facility-disbursed-not-yet-due-receivable:"@, "Disbursed Receivable Not Yet Due Account for Credit Facility "@, credit_facility_id),
        facility_account(ids.disbursed_receivable_due_account_id, for_customer(term_sets(sets.disbursed_receivable, category_of_duration(duration_type)), customer_type), "credit-facility-disbursed-due-receivable:"@, "Disbursed Receivable Due Account for Credit Facility "@, credit_facility_id),
        facility_account(ids.disbursed_receivable_overdue_account_id, for_customer(sets.disbursed_receivable.overdue, customer_type), "credit-facility-disbursed-overdue-receivable:"@, "Disbursed Receivable Overdue Account for Credit Facility "@, credit_facility_id),
        facility_account(ids.disbursed_defaulted_account_id, sets.disbursed_defaulted, "credit-facility-disbursed-defaulted:"@, "Disbursed Defaulted Account for Credit Facility "@, credit_facility_id),
        facility_account(ids.interest_receivable_not_yet_due_account_id, for_customer(if duration_type == FacilityDurationType::ShortTerm { sets.interest_receivable.short_term } else { sets.interest_receivable.long_term }, customer_type), "credit-facility-interest-not-yet-due-receivable:"@, "Interest Receivable Not Yet Due Account for Credit Facility "@, credit_facility_id),
        facility_account(ids.interest_receivable_due_account_id, for_customer(if duration_type == FacilityDurationType::ShortTerm { sets.interest_receivable.short_term } else { sets.interest_receivable.long_term }, customer_type), "credit-facility-interest-due-receivable:"@, "Interest Receivable Due Account for Credit Facility "@, credit_facility_id),
        facility_account(ids.interest_receivable_overdue_account_id, for_customer(if duration_type == FacilityDurationType::ShortTerm { sets.interest_receivable.short_term } else { sets.interest_receivable.long_term }, customer_type), "credit-facility-interest-overdue-receivable:"@, "Interest Receivable Overdue Account for Credit Facility "@, credit_facility_id),
        facility_account(ids.interest_defaulted_account_id, sets.interest_defaulted, "credit-facility-interest-defaulted:"@, "Interest Defaulted Account for Credit Facility "@, credit_facility_id),
        facility_account(ids.interest_income_account_id, sets.interest_income, "credit-facility-interest-income:"@, "Interest Income Account for Credit Facility "@, credit_facility_id),
        facility_account(ids.fee_income_account_id, sets.fee_income, "credit-facility-fee-income:"@, "Fee Income Account for Credit Facility "@, credit_facility_id),
        facility_account(ids.uncovered_outstanding_account_id, sets.uncovered_outstanding, "credit-facility-uncovered-outstanding:"@, "Uncovered Outstanding Account for Credit Facility "@, credit_facility_id),
        facility_account(ids.payment_holding_account_id, sets.payment_holding, "credit-facility-payment-holding:"@, "Payment Holding Account for Credit Facility "@, credit_facility_id),
        facility_account(ids.collateral_in_liquidation_account_id, sets.liquidation.collateral_in_liquidation, "credit-facility-collateral-in-liquidation:"@, "Collateral in Liquidation Account for Credit Facility "@, credit_facility_id),
        facility_account(ids.liquidated_collateral_account_id, sets.liquidation.liquidated_collateral, "credit-facility-liquidated-collateral:"@, "Liquidated Collateral Account for Credit Facility "@, credit_facility_id),
        facility_account(ids.proceeds_from_liquidation_account_id, sets.liquidation.proceeds_from_liquidation, "credit-facility-proceeds-from-liquidation:"@, "Proceeds From Liquidation Account for Credit Facility "@, credit_facility_id),
    ]
}

/// Among `accounts` is one with the id, created under the set `parent`,
/// whose reference is `prefix` followed by the facility's id.
pub open spec fn creates_under(
    accounts: Seq<NewFacilityAccountView>,
    id: u128,
    parent: InternalAccountSetDetails,
    prefix: Seq<char>,
    credit_facility_id: u128,
) -> bool {
    exists|k: int|
        0 <= k < accounts.len() && (#[trigger] accounts[k]).id == id && accounts[k].parent == parent
            && accounts[k].reference == prefix + uuid_text(credit_facility_id)
            && accounts[k].normal_balance_type == parent.normal_balance_type
}

/// Each account of an activated facility is created under the internal
/// account set of its own kind, with that set's normal balance: the
/// receivables under the receivable sets of the facility's term (the
/// overdue one under the overdue sets) and customer type, the defaulted,
/// income, uncovered, holding and liquidation accounts under their own
/// sets — the fee income account under the fee income set, never under
/// interest income.
pub proof fn law_each_account_under_its_own_set(
    credit_facility_id: u128,
    ids: CreditFacilityLedgerAccountIds,
    customer_type: CustomerType,
    duration_type: FacilityDurationType,
    sets: CreditFacilityInternalAccountSets,
)
    ensures
        ({
            let a = facility_accounts(credit_facility_id, ids, customer_type, duration_type, sets);
            let f = credit_facility_id;
            let disbursed_term = if duration_type == FacilityDurationType::LongTerm {
                sets.disbursed_receivable.long_term
            } else {
                sets.disbursed_receivable.short_term
            };
            let interest_term = if duration_type == FacilityDurationType::LongTerm {
                sets.interest_receivable.long_term
            } else {
                sets.interest_receivable.short_term
            };
            &&& a.len() == 15
            &&& creates_under(a, ids.disbursed_receivable_not_yet_due_account_id, for_customer(disbursed_term, customer_type), "credit-facility-disbursed-not-yet-due-receivable:"@, f)
            &&& creates_under(a, ids.disbursed_receivable_due_account_id, for_customer(disbursed_term, customer_type), "credit-facility-disbursed-due-receivable:"@, f)
            &&& creates_under(a, ids.disbursed_receivable_overdue_account_id, for_customer(sets.disbursed_receivable.overdue, customer_type), "credit-facility-disbursed-overdue-receivable:"@, f)
            &&& creates_under(a, ids.disbursed_defaulted_account_id, sets.disbursed_defaulted, "credit-facility-disbursed-defaulted:"@, f)
            &&& creates_under(a, ids.interest_receivable_not_yet_due_account_id, for_customer(interest_term, customer_type), "credit-facility-interest-not-yet-due-receivable:"@, f)
            &&& creates_under(a, ids.interest_receivable_due_account_id, for_customer(interest_term, customer_type), "credit-facility-interest-due-receivable:"@, f)
            &&& creates_under(a, ids.interest_receivable_overdue_account_id, for_customer(interest_term, customer_type), "credit-facility-interest-overdue-receivable:"@, f)
            &&& creates_under(a, ids.interest_defaulted_account_id, sets.interest_defaulted, "credit-facility-interest-defaulted:"@, f)
            &&& creates_under(a, ids.interest_income_account_id, sets.interest_income, "credit-facility-interest-income:"@, f)
            &&& creates_under(a, ids.fee_income_account_id, sets.fee_income, "credit-facility-fee-income:"@, f)
            &&& creates_under(a, ids.uncovered_outstanding_account_id, sets.uncovered_outstanding, "credit-facility-uncovered-outstanding:"@, f)
            &&& creates_under(a, ids.payment_holding_account_id, sets.payment_holding, "credit-facility-payment-holding:"@, f)
            &&& creates_under(a, ids.collateral_in_liquidation_account_id, sets.liquidation.collateral_in_liquidation, "credit-facility-collateral-in-liquidation:"@, f)
            &&& creates_under(a, ids.liquidated_collateral_account_id, sets.liquidation.liquidated_collateral, "credit-facility-liquidated-collateral:"@, f)
            &&& creates_under(a, ids.proceeds_from_liquidation_account_id, sets.liquidation.proceeds_from_liquidation, "credit-facility-proceeds-from-liquidation:"@, f)
        }),
{
    let a = facility_accounts(credit_facility_id, ids, customer_type, duration_type, sets);
    assert(a[0] == a[0] && a[1] == a[1] && a[2] == a[2] && a[3] == a[3] && a[4] == a[4]);
    assert(a[5] == a[5] && a[6] == a[6] && a[7] == a[7] && a[8] == a[8] && a[9] == a[9]);
    assert(a[10] == a[10] && a[11] == a[11] && a[12] == a[12] && a[13] == a[13] && a[14] == a[14]);
}

/// Builds one account to create.
fn new_facility_account(
    id: u128,
    parent: InternalAccountSetDetails,
    reference_prefix: &str,
    name_prefix: &str,
    facility_text: &str,
    credit_facility_id: u128,
) -> (r: NewFacilityAccount)
    ensures
        r@ == (NewFacilityAccountView {
            id,
            parent,
            reference: reference_prefix@ + facility_text@,
            name: name_prefix@ + facility_text@,
            description: name_prefix@ + facility_text@,
            code: uuid_text(id),
            normal_balance_type: parent.normal_balance_type,
            entity_type: "CreditFacility"@,
            entity_id: credit_facility_id,
        }),
{
    NewFacilityAccount {
        id,
        parent,
        reference: concat_str(reference_prefix, facility_text),
        name: concat_str(name_prefix, facility_text),
        description: concat_str(name_prefix, facility_text),
        code: uuid_to_string(id),
        normal_balance_type: parent.normal_balance_type,
        entity_ref: EntityRef::new(credit_facility_entity_type(), credit_facility_id),
    }
}

/// The accounts a facility gets when it is activated, in the order they are
/// created.
pub fn facility_accounts_to_create(
    credit_facility_id: u128,
    ids: CreditFacilityLedgerAccountIds,
    customer_type: CustomerType,
    duration_type: FacilityDurationType,
    sets: &CreditFacilityInternalAccountSets,
) -> (r: Vec<NewFacilityAccount>)
    ensures
        r@.map_values(|a: NewFacilityAccount| a@) == facility_accounts(credit_facility_id, ids, customer_type, duration_type, *sets),
{
    let facility = uuid_to_string(credit_facility_id);
    let f = facility.as_str();
    let mut r: Vec<NewFacilityAccount> = Vec::new();
    r.push(new_facility_account(ids.disbursed_receivable_not_yet_due_account_id, disbursed_internal_account_set_from_type(&sets.disbursed_receivable, customer_type, DisbursedReceivableAccountCategory::from_duration_type(duration_type)), "credit-facility-disbursed-not-yet-due-receivable:", "Disbursed Receivable Not Yet Due Account for Credit Facility ", f, credit_facility_id));
    r.push(new_facility_account(ids.disbursed_receivable_due_account_id, disbursed_internal_account_set_from_type(&sets.disbursed_receivable, customer_type, DisbursedReceivableAccountCategory::from_duration_type(duration_type)), "credit-facility-disbursed-due-receivable:", "Disbursed Receivable Due Account for Credit Facility ", f, credit_facility_id));
    r.push(new_facility_account(ids.disbursed_receivable_overdue_account_id, disbursed_internal_account_set_from_type(&sets.disbursed_receivable, customer_type, DisbursedReceivableAccountCategory::Overdue), "credit-facility-disbursed-overdue-receivable:", "Disbursed Receivable Overdue Account for Credit Facility ", f, credit_facility_id));
    r.push(new_facility_account(ids.disbursed_defaulted_account_id, sets.disbursed_defaulted, "credit-facility-disbursed-defaulted:", "Disbursed Defaulted Account for Credit Facility ", f, credit_facility_id));
    r.push(new_facility_account(ids.interest_receivable_not_yet_due_account_id, interest_internal_account_set_from_type(&sets.interest_receivable, customer_type, duration_type), "credit-facility-interest-not-yet-due-receivable:", "Interest Receivable Not Yet Due Account for Credit Facility ", f, credit_facility_id));
    r.push(new_facility_account(ids.interest_receivable_due_account_id, interest_internal_account_set_from_type(&sets.interest_receivable, customer_type, duration_type), "credit-facility-interest-due-receivable:", "Interest Receivable Due Account for Credit Facility ", f, credit_facility_id));
    r.push(new_facility_account(ids.interest_receivable_overdue_account_id, interest_internal_account_set_from_type(&sets.interest_receivable, customer_type, duration_type), "credit-facility-interest-overdue-receivable:", "Interest Receivable Overdue Account for Credit Facility ", f, credit_facility_id));
    r.push(new_facility_account(ids.interest_defaulted_account_id, sets.interest_defaulted, "credit-facility-interest-defaulted:", "Interest Defaulted Account for Credit Facility ", f, credit_facility_id));
    r.push(new_facility_account(ids.interest_income_account_id, sets.interest_income, "credit-facility-interest-income:", "Interest Income Account for Credit Facility ", f, credit_facility_id));
    r.push(new_facility_account(ids.fee_income_account_id, sets.fee_income, "credit-facility-fee-income:", "Fee Income Account for Credit Facility ", f, credit_facility_id));
    r.push(new_facility_account(ids.uncovered_outstanding_account_id, sets.uncovered_outstanding, "credit-facility-uncovered-outstanding:", "Uncovered Outstanding Account for Credit Facility ", f, credit_facility_id));
    r.push(new_facility_account(ids.payment_holding_account_id, sets.payment_holding, "credit-facility-payment-holding:", "Payment Holding Account for Credit Facility ", f, credit_facility_id));
    r.push(new_facility_account(ids.collateral_in_liquidation_account_id, sets.liquidation.collateral_in_liquidation, "credit-facility-collateral-in-liquidation:", "Collateral in Liquidation Account for Credit Facility ", f, credit_facility_id));
    r.push(new_facility_account(ids.liquidated_collateral_account_id, sets.liquidation.liquidated_collateral, "credit-facility-liquidated-collateral:", "Liquidated Collateral Account for Credit Facility ", f, credit_facility_id));
    r.push(new_facility_account(ids.proceeds_from_liquidation_account_id, sets.liquidation.proceeds_from_liquidation, "credit-facility-proceeds-from-liquidation:", "Proceeds From Liquidation Account for Credit Facility ", f, credit_facility_id));
    assert(r@.map_values(|a: NewFacilityAccount| a@) =~= facility_accounts(credit_facility_id, ids, customer_type, duration_type, *sets));
    r
}

/// A change to the members of an account set.
#[derive(Debug, Clone, Copy, PartialEq, Eq)]
pub enum MembershipChange {
    Remove { parent: u128, member: u128 },
    Add { parent: u128, member: u128 },
}

/// The module's account sets that are attached to the chart, in the order
/// of the codes that are resolved: the three omnibus sets, the facility,
/// collateral and liquidation sets, the income, holding and defaulted sets,
/// then the receivable sets by term and customer type.
pub open spec fn attached_sets(
    facility_omnibus: LedgerOmnibusAccountIds,
    collateral_omnibus: LedgerOmnibusAccountIds,
    liquidation_proceeds_omnibus: LedgerOmnibusAccountIds,
    sets: CreditFacilityInternalAccountSets,
) -> Seq<u128> {
    seq![
        facility_omnibus.account_set_id,
        collateral_omnibus.account_set_id,
        liquidation_proceeds_omnibus.account_set_id,
        sets.facility.id,
        sets.collateral.id,
        sets.liquidation.collateral_in_liquidation.id,
        sets.liquidation.liquidated_collateral.id,
        sets.liquidation.proceeds_from_liquidation.id,
        sets.interest_income.id,
        sets.fee_income.id,
        sets.payment_holding.id,
        sets.disbursed_defaulted.id,
        sets.interest_defaulted.id,
        sets.disbursed_receivable.short_term.individual.id,
        sets.disbursed_receivable.short_term.government_entity.id,
        sets.disbursed_receivable.short_term.private_company.id,
        sets.disbursed_receivable.short_term.bank.id,
        sets.disbursed_receivable.short_term.financial_institution.id,
        sets.disbursed_receivable.short_term.foreign_agency_or_subsidiary.id,
        sets.disbursed_receivable.short_term.non_domiciled_company.id,
        sets.disbursed_receivable.long_term.individual.id,
        sets.disbursed_receivable.long_term.government_entity.id,
        sets.disbursed_receivable.long_term.private_company.id,
        sets.disbursed_receivable.long_term.bank.id,
        sets.disbursed_receivable.long_term.financial_institution.id,
        sets.disbursed_receivable.long_term.foreign_agency_or_subsidiary.id,
        sets.disbursed_receivable.long_term.non_domiciled_company.id,
        sets.interest_receivable.short_term.individual.id,
        sets.interest_receivable.short_term.government_entity.id,
        sets.interest_receivable.short_term.private_company.id,
        sets.interest_receivable.short_term.bank.id,
        sets.interest_receivable.short_term.financial_institution.id,
        sets.interest_receivable.short_term.foreign_agency_or_subsidiary.id,
        sets.interest_receivable.short_term.non_domiciled_company.id,
        sets.interest_receivable.long_term.individual.id,
        sets.interest_receivable.long_term.government_entity.id,
        sets.interest_receivable.long_term.private_company.id,
        sets.interest_receivable.long_term.bank.id,
        sets.interest_receivable.long_term.financial_institution.id,
        sets.interest_receivable.long_term.foreign_agency_or_subsidiary.id,
        sets.interest_receivable.long_term.non_domiciled_company.id,
        sets.disbursed_receivable.overdue.individual.id,
        sets.disbursed_receivable.overdue.government_entity.id,
        sets.disbursed_receivable.overdue.private_company.id,
        sets.disbursed_receivable.overdue.bank.id,
        sets.disbursed_receivable.overdue.financial_institution.id,
        sets.disbursed_receivable.overdue.foreign_agency_or_subsidiary.id,
        sets.disbursed_receivable.overdue.non_domiciled_company.id,
    ]
}

/// The changes that attach each set in `members` to its parent in
/// `parents` (at the same place), first taking it out of its previous
/// parent where there was one.
pub open spec fn attachment_changes(members: Seq<u128>, parents: Seq<u128>, previous: Option<Seq<u128>>) -> Seq<MembershipChange>
    decreases members.len(),
{
    if members.len() == 0 {
        Seq::empty()
    } else {
        let i = members.len() - 1;
        let add = MembershipChange::Add { parent: parents[i], member: members[i] };
        let step = match previous {
            Some(old) => seq![MembershipChange::Remove { parent: old[i], member: members[i] }, add],
            None => seq![add],
        };
        attachment_changes(members.drop_last(), parents, previous) + step
    }
}

/// The changes that attach the module's account sets to the chart as the
/// integration `new` resolves it, moving them from where `old` had put
/// them, if anywhere.
pub fn chart_attachment_changes(
    facility_omnibus: LedgerOmnibusAccountIds,
    collateral_omnibus: LedgerOmnibusAccountIds,
    liquidation_proceeds_omnibus: LedgerOmnibusAccountIds,
    sets: &CreditFacilityInternalAccountSets,
    new: &ResolvedChartOfAccountsIntegrationConfig,
    old: Option<&ResolvedChartOfAccountsIntegrationConfig>,
) -> (r: Vec<MembershipChange>)
    ensures
        r@ == attachment_changes(
            attached_sets(facility_omnibus, collateral_omnibus, liquidation_proceeds_omnibus, *sets),
            resolved_ids(new),
            match old {
                Some(o) => Some(resolved_ids(o)),
                None => None,
            },
        ),
{
    let members = attached_set_ids(facility_omnibus, collateral_omnibus, liquidation_proceeds_omnibus, sets);
    let parents = resolved_id_list(new);
    let previous = match old {
        Some(o) => Some(resolved_id_list(o)),
        None => None,
    };
    let ghost prev_view = match &previous {
        Some(p) => Some(p@),
        None => None::<Seq<u128>>,
    };
    let mut r: Vec<MembershipChange> = Vec::new();
    let mut i: usize = 0;
    while i < members.len()
        invariant
            members.len() == 48,
            parents.len() == 48,
            previous matches Some(p) ==> p.len() == 48,
            prev_view == match &previous {
                Some(p) => Some(p@),
                None => None::<Seq<u128>>,
            },
            i <= 48,
            r@ == attachment_changes(members@.take(i as int), parents@, prev_view),
        decreases 48 - i,
    {
        if let Some(p) = &previous {
            r.push(MembershipChange::Remove { parent: p[i], member: members[i] });
        }
        r.push(MembershipChange::Add { parent: parents[i], member: members[i] });
        assert(members@.take(i + 1).drop_last() == members@.take(i as int));
        i = i + 1;
    }
    assert(members@.take(48) == members@);
    r
}

/// The module's attached account sets, in order.
fn attached_set_ids(
    facility_omnibus: LedgerOmnibusAccountIds,
    collateral_omnibus: LedgerOmnibusAccountIds,
    liquidation_proceeds_omnibus: LedgerOmnibusAccountIds,
    sets: &CreditFacilityInternalAccountSets,
) -> (r: Vec<u128>)
    ensures
        r@ == attached_sets(facility_omnibus, collateral_omnibus, liquidation_proceeds_omnibus, *sets),
        r.len() == 48,
{
    let mut r: Vec<u128> = Vec::new();
    r.push(facility_omnibus.account_set_id);
    r.push(collateral_omnibus.account_set_id);
    r.push(liquidation_proceeds_omnibus.account_set_id);
    r.push(sets.facility.id);
    r.push(sets.collateral.id);
    r.push(sets.liquidation.collateral_in_liquidation.id);
    r.push(sets.liquidation.liquidated_collateral.id);
    r.push(sets.liquidation.proceeds_from_liquidation.id);
    r.push(sets.interest_income.id);
    r.push(sets.fee_income.id);
    r.push(sets.payment_holding.id);
    r.push(sets.disbursed_defaulted.id);
    r.push(sets.interest_defaulted.id);
    r.push(sets.disbursed_receivable.short_term.individual.id);
    r.push(sets.disbursed_receivable.short_term.government_entity.id);
    r.push(sets.disbursed_receivable.short_term.private_company.id);
    r.push(sets.disbursed_receivable.short_term.bank.id);
    r.push(sets.disbursed_receivable.short_term.financial_institution.id);
    r.push(sets.disbursed_receivable.short_term.foreign_agency_or_subsidiary.id);
    r.push(sets.disbursed_receivable.short_term.non_domiciled_company.id);
    r.push(sets.disbursed_receivable.long_term.individual.id);
    r.push(sets.disbursed_receivable.long_term.government_entity.id);
    r.push(sets.disbursed_receivable.long_term.private_company.id);
    r.push(sets.disbursed_receivable.long_term.bank.id);
    r.push(sets.disbursed_receivable.long_term.financial_institution.id);
    r.push(sets.disbursed_receivable.long_term.foreign_agency_or_subsidiary.id);
    r.push(sets.disbursed_receivable.long_term.non_domiciled_company.id);
    r.push(sets.interest_receivable.short_term.individual.id);
    r.push(sets.interest_receivable.short_term.government_entity.id);
    r.push(sets.interest_receivable.short_term.private_company.id);
    r.push(sets.interest_receivable.short_term.bank.id);
    r.push(sets.interest_receivable.short_term.financial_institution.id);
    r.push(sets.interest_receivable.short_term.foreign_agency_or_subsidiary.id);
    r.push(sets.interest_receivable.short_term.non_domiciled_company.id);
    r.push(sets.interest_receivable.long_term.individual.id);
    r.push(sets.interest_receivable.long_term.government_entity.id);
    r.push(sets.interest_receivable.long_term.private_company.id);
    r.push(sets.interest_receivable.long_term.bank.id);
    r.push(sets.interest_receivable.long_term.financial_institution.id);
    r.push(sets.interest_receivable.long_term.foreign_agency_or_subsidiary.id);
    r.push(sets.interest_receivable.long_term.non_domiciled_company.id);
    r.push(sets.disbursed_receivable.overdue.individual.id);
    r.push(sets.disbursed_receivable.overdue.government_entity.id);
    r.push(sets.disbursed_receivable.overdue.private_company.id);
    r.push(sets.disbursed_receivable.overdue.bank.id);
    r.push(sets.disbursed_receivable.overdue.financial_institution.id);
    r.push(sets.disbursed_receivable.overdue.foreign_agency_or_subsidiary.id);
    r.push(sets.disbursed_receivable.overdue.non_domiciled_company.id);
    assert(r@ =~= attached_sets(facility_omnibus, collateral_omnibus, liquidation_proceeds_omnibus, *sets));
    r
}

/// The resolved account set ids of an integration, in order.
fn resolved_id_list(c: &ResolvedChartOfAccountsIntegrationConfig) -> (r: Vec<u128>)
    ensures
        r@ == resolved_ids(c),
        r.len() == 48,
{
    let mut r: Vec<u128> = Vec::new();
    r.push(c.facility_omnibus_parent_account_set_id);
    r.push(c.collateral_omnibus_parent_account_set_id);
    r.push(c.liquidation_proceeds_omnibus_parent_account_set_id);
    r.push(c.facility_parent_account_set_id);
    r.push(c.collateral_parent_account_set_id);
    r.push(c.collateral_in_liquidation_parent_account_set_id);
    r.push(c.liquidated_collateral_parent_account_set_id);
    r.push(c.proceeds_from_liquidation_parent_account_set_id);
    r.push(c.interest_income_parent_account_set_id);
    r.push(c.fee_income_parent_account_set_id);
    r.push(c.payment_holding_parent_account_set_id);
    r.push(c.disbursed_defaulted_parent_account_set_id);
    r.push(c.interest_defaulted_parent_account_set_id);
    r.push(c.short_term_disbursed_integration_meta.short_term_individual_disbursed_receivable_parent_account_set_id);
    r.push(c.short_term_disbursed_integration_meta.short_term_government_entity_disbursed_receivable_parent_account_set_id);
    r.push(c.short_term_disbursed_integration_meta.short_term_private_company_disbursed_receivable_parent_account_set_id);
    r.push(c.short_term_disbursed_integration_meta.short_term_bank_disbursed_receivable_parent_account_set_id);
    r.push(c.short_term_disbursed_integration_meta.short_term_financial_institution_disbursed_receivable_parent_account_set_id);
    r.push(c.short_term_disbursed_integration_meta.short_term_foreign_agency_or_subsidiary_disbursed_receivable_parent_account_set_id);
    r.push(c.short_term_disbursed_integration_meta.short_term_non_domiciled_company_disbursed_receivable_parent_account_set_id);
    r.push(c.long_term_disbursed_integration_meta.long_term_individual_disbursed_receivable_parent_account_set_id);
    r.push(c.long_term_disbursed_integration_meta.long_term_government_entity_disbursed_receivable_parent_account_set_id);
    r.push(c.long_term_disbursed_integration_meta.long_term_private_company_disbursed_receivable_parent_account_set_id);
    r.push(c.long_term_disbursed_integration_meta.long_term_bank_disbursed_receivable_parent_account_set_id);
    r.push(c.long_term_disbursed_integration_meta.long_term_financial_institution_disbursed_receivable_parent_account_set_id);
    r.push(c.long_term_disbursed_integration_meta.long_term_foreign_agency_or_subsidiary_disbursed_receivable_parent_account_set_id);
    r.push(c.long_term_disbursed_integration_meta.long_term_non_domiciled_company_disbursed_receivable_parent_account_set_id);
    r.push(c.short_term_interest_integration_meta.short_term_individual_interest_receivable_parent_account_set_id);
    r.push(c.short_term_interest_integration_meta.short_term_government_entity_interest_receivable_parent_account_set_id);
    r.push(c.short_term_interest_integration_meta.short_term_private_company_interest_receivable_parent_account_set_id);
    r.push(c.short_term_interest_integration_meta.short_term_bank_interest_receivable_parent_account_set_id);
    r.push(c.short_term_interest_integration_meta.short_term_financial_institution_interest_receivable_parent_account_set_id);
    r.push(c.short_term_interest_integration_meta.short_term_foreign_agency_or_subsidiary_interest_receivable_parent_account_set_id);
    r.push(c.short_term_interest_integration_meta.short_term_non_domiciled_company_interest_receivable_parent_account_set_id);
    r.push(c.long_term_interest_integration_meta.long_term_individual_interest_receivable_parent_account_set_id);
    r.push(c.long_term_interest_integration_meta.long_term_government_entity_interest_receivable_parent_account_set_id);
    r.push(c.long_term_interest_integration_meta.long_term_private_company_interest_receivable_parent_account_set_id);
    r.push(c.long_term_interest_integration_meta.long_term_bank_interest_receivable_parent_account_set_id);
    r.push(c.long_term_interest_integration_meta.long_term_financial_institution_interest_receivable_parent_account_set_id);
    r.push(c.long_term_interest_integration_meta.long_term_foreign_agency_or_subsidiary_interest_receivable_parent_account_set_id);
    r.push(c.long_term_interest_integration_meta.long_term_non_domiciled_company_interest_receivable_parent_account_set_id);
    r.push(c.overdue_disbursed_integration_meta.overdue_individual_disbursed_receivable_parent_account_set_id);
    r.push(c.overdue_disbursed_integration_meta.overdue_government_entity_disbursed_receivable_parent_account_set_id);
    r.push(c.overdue_disbursed_integration_meta.overdue_private_company_disbursed_receivable_parent_account_set_id);
    r.push(c.overdue_disbursed_integration_meta.overdue_bank_disbursed_receivable_parent_account_set_id);
    r.push(c.overdue_disbursed_integration_meta.overdue_financial_institution_disbursed_receivable_parent_account_set_id);
    r.push(c.overdue_disbursed_integration_meta.overdue_foreign_agency_or_subsidiary_disbursed_receivable_parent_account_set_id);
    r.push(c.overdue_disbursed_integration_meta.overdue_non_domiciled_company_disbursed_receivable_parent_account_set_id);
    assert(r@ =~= resolved_ids(c));
    r
}

} // verus!
