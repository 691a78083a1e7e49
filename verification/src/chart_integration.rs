//! The chart-of-accounts integration of the credit module: the codes of
//! the chart under which its account sets live, and their resolution into
//! the account sets that the ledger attaches its own sets to.
use vstd::prelude::*;
use crate::account_code::AccountCode;
use crate::accounting_config::AccountCategory;
use crate::chart::{error_view, validated_lookup, Chart, ChartLookupError, LookupView};
use crate::ledger::{
    LongTermDisbursedIntegrationMeta, LongTermInterestIntegrationMeta, OverdueDisbursedIntegrationMeta,
    ShortTermDisbursedIntegrationMeta, ShortTermInterestIntegrationMeta,
};

verus! {

/// The codes of the chart under which the credit module's account sets
/// live.
#[derive(Debug)]
pub struct ChartOfAccountsIntegrationConfig {
    pub chart_of_accounts_id: u128,
    pub chart_of_account_facility_omnibus_parent_code: AccountCode,
    pub chart_of_account_collateral_omnibus_parent_code: AccountCode,
    pub chart_of_account_liquidation_proceeds_omnibus_parent_code: AccountCode,
    pub chart_of_account_payments_made_omnibus_parent_code: AccountCode,
    pub chart_of_account_interest_added_to_obligations_omnibus_parent_code: AccountCode,
    pub chart_of_account_facility_parent_code: AccountCode,
    pub chart_of_account_collateral_parent_code: AccountCode,
    pub chart_of_account_collateral_in_liquidation_parent_code: AccountCode,
    pub chart_of_account_liquidated_collateral_parent_code: AccountCode,
    pub chart_of_account_proceeds_from_liquidation_parent_code: AccountCode,
    pub chart_of_account_interest_income_parent_code: AccountCode,
    pub chart_of_account_fee_income_parent_code: AccountCode,
    pub chart_of_account_payment_holding_parent_code: AccountCode,
    pub chart_of_account_uncovered_outstanding_parent_code: AccountCode,
    pub chart_of_account_disbursed_defaulted_parent_code: AccountCode,
    pub chart_of_account_interest_defaulted_parent_code: AccountCode,
    pub chart_of_account_short_term_individual_disbursed_receivable_parent_code: AccountCode,
    pub chart_of_account_short_term_government_entity_disbursed_receivable_parent_code: AccountCode,
    pub chart_of_account_short_term_private_company_disbursed_receivable_parent_code: AccountCode,
    pub chart_of_account_short_term_bank_disbursed_receivable_parent_code: AccountCode,
    pub chart_of_account_short_term_financial_institution_disbursed_receivable_parent_code: AccountCode,
    pub chart_of_account_short_term_foreign_agency_or_subsidiary_disbursed_receivable_parent_code: AccountCode,
    pub chart_of_account_short_term_non_domiciled_company_disbursed_receivable_parent_code: AccountCode,
    pub chart_of_account_long_term_individual_disbursed_receivable_parent_code: AccountCode,
    pub chart_of_account_long_term_government_entity_disbursed_receivable_parent_code: AccountCode,
    pub chart_of_account_long_term_private_company_disbursed_receivable_parent_code: AccountCode,
    pub chart_of_account_long_term_bank_disbursed_receivable_parent_code: AccountCode,
    pub chart_of_account_long_term_financial_institution_disbursed_receivable_parent_code: AccountCode,
    pub chart_of_account_long_term_foreign_agency_or_subsidiary_disbursed_receivable_parent_code: AccountCode,
    pub chart_of_account_long_term_non_domiciled_company_disbursed_receivable_parent_code: AccountCode,
    pub chart_of_account_short_term_individual_interest_receivable_parent_code: AccountCode,
    pub chart_of_account_short_term_government_entity_interest_receivable_parent_code: AccountCode,
    pub chart_of_account_short_term_private_company_interest_receivable_parent_code: AccountCode,
    pub chart_of_account_short_term_bank_interest_receivable_parent_code: AccountCode,
    pub chart_of_account_short_term_financial_institution_interest_receivable_parent_code: AccountCode,
    pub chart_of_account_short_term_foreign_agency_or_subsidiary_interest_receivable_parent_code: AccountCode,
    pub chart_of_account_short_term_non_domiciled_company_interest_receivable_parent_code: AccountCode,
    pub chart_of_account_long_term_individual_interest_receivable_parent_code: AccountCode,
    pub chart_of_account_long_term_government_entity_interest_receivable_parent_code: AccountCode,
    pub chart_of_account_long_term_private_company_interest_receivable_parent_code: AccountCode,
    pub chart_of_account_long_term_bank_interest_receivable_parent_code: AccountCode,
    pub chart_of_account_long_term_financial_institution_interest_receivable_parent_code: AccountCode,
    pub chart_of_account_long_term_foreign_agency_or_subsidiary_interest_receivable_parent_code: AccountCode,
    pub chart_of_account_long_term_non_domiciled_company_interest_receivable_parent_code: AccountCode,
    pub chart_of_account_overdue_individual_disbursed_receivable_parent_code: AccountCode,
    pub chart_of_account_overdue_government_entity_disbursed_receivable_parent_code: AccountCode,
    pub chart_of_account_overdue_private_company_disbursed_receivable_parent_code: AccountCode,
    pub chart_of_account_overdue_bank_disbursed_receivable_parent_code: AccountCode,
    pub chart_of_account_overdue_financial_institution_disbursed_receivable_parent_code: AccountCode,
    pub chart_of_account_overdue_foreign_agency_or_subsidiary_disbursed_receivable_parent_code: AccountCode,
    pub chart_of_account_overdue_non_domiciled_company_disbursed_receivable_parent_code: AccountCode,
}

/// Why the integration cannot be resolved against a chart.
#[derive(Debug)]
pub enum ChartOfAccountsIntegrationError {
    ChartOfAccounts(ChartLookupError),
}

/// The integration with each code resolved into the account set it stands
/// for in the chart.
#[derive(Debug)]
pub struct ResolvedChartOfAccountsIntegrationConfig {
    pub config: ChartOfAccountsIntegrationConfig,
    pub facility_omnibus_parent_account_set_id: u128,
    pub collateral_omnibus_parent_account_set_id: u128,
    pub liquidation_proceeds_omnibus_parent_account_set_id: u128,
    pub facility_parent_account_set_id: u128,
    pub collateral_parent_account_set_id: u128,
    pub collateral_in_liquidation_parent_account_set_id: u128,
    pub liquidated_collateral_parent_account_set_id: u128,
    pub proceeds_from_liquidation_parent_account_set_id: u128,
    pub interest_income_parent_account_set_id: u128,
    pub fee_income_parent_account_set_id: u128,
    pub payment_holding_parent_account_set_id: u128,
    pub disbursed_defaulted_parent_account_set_id: u128,
    pub interest_defaulted_parent_account_set_id: u128,
    pub short_term_disbursed_integration_meta: ShortTermDisbursedIntegrationMeta,
    pub long_term_disbursed_integration_meta: LongTermDisbursedIntegrationMeta,
    pub short_term_interest_integration_meta: ShortTermInterestIntegrationMeta,
    pub long_term_interest_integration_meta: LongTermInterestIntegrationMeta,
    pub overdue_disbursed_integration_meta: OverdueDisbursedIntegrationMeta,
}

/// The number of codes that are resolved.
pub const RESOLVED_CODES: usize = 48;

/// The codes that are resolved, in the order in which they are resolved:
/// the omnibus and facility codes, the income codes, then the receivable
/// and defaulted codes.
pub open spec fn resolution_codes(c: &ChartOfAccountsIntegrationConfig) -> Seq<Seq<Seq<char>>> {
    seq![
        c.chart_of_account_facility_omnibus_parent_code@,
        c.chart_of_account_collateral_omnibus_parent_code@,
        c.chart_of_account_liquidation_proceeds_omnibus_parent_code@,
        c.chart_of_account_facility_parent_code@,
        c.chart_of_account_collateral_parent_code@,
        c.chart_of_account_collateral_in_liquidation_parent_code@,
        c.chart_of_account_liquidated_collateral_parent_code@,
        c.chart_of_account_proceeds_from_liquidation_parent_code@,
        c.chart_of_account_interest_income_parent_code@,
        c.chart_of_account_fee_income_parent_code@,
        c.chart_of_account_payment_holding_parent_code@,
        c.chart_of_account_disbursed_defaulted_parent_code@,
        c.chart_of_account_interest_defaulted_parent_code@,
        c.chart_of_account_short_term_individual_disbursed_receivable_parent_code@,
        c.chart_of_account_short_term_government_entity_disbursed_receivable_parent_code@,
        c.chart_of_account_short_term_private_company_disbursed_receivable_parent_code@,
        c.chart_of_account_short_term_bank_disbursed_receivable_parent_code@,
        c.chart_of_account_short_term_financial_institution_disbursed_receivable_parent_code@,
        c.chart_of_account_short_term_foreign_agency_or_subsidiary_disbursed_receivable_parent_code@,
        c.chart_of_account_short_term_non_domiciled_company_disbursed_receivable_parent_code@,
        c.chart_of_account_long_term_individual_disbursed_receivable_parent_code@,
        c.chart_of_account_long_term_government_entity_disbursed_receivable_parent_code@,
        c.chart_of_account_long_term_private_company_disbursed_receivable_parent_code@,
        c.chart_of_account_long_term_bank_disbursed_receivable_parent_code@,
        c.chart_of_account_long_term_financial_institution_disbursed_receivable_parent_code@,
        c.chart_of_account_long_term_foreign_agency_or_subsidiary_disbursed_receivable_parent_code@,
        c.chart_of_account_long_term_non_domiciled_company_disbursed_receivable_parent_code@,
        c.chart_of_account_short_term_individual_interest_receivable_parent_code@,
        c.chart_of_account_short_term_government_entity_interest_receivable_parent_code@,
        c.chart_of_account_short_term_private_company_interest_receivable_parent_code@,
        c.chart_of_account_short_term_bank_interest_receivable_parent_code@,
        c.chart_of_account_short_term_financial_institution_interest_receivable_parent_code@,
        c.chart_of_account_short_term_foreign_agency_or_subsidiary_interest_receivable_parent_code@,
        c.chart_of_account_short_term_non_domiciled_company_interest_receivable_parent_code@,
        c.chart_of_account_long_term_individual_interest_receivable_parent_code@,
        c.chart_of_account_long_term_government_entity_interest_receivable_parent_code@,
        c.chart_of_account_long_term_private_company_interest_receivable_parent_code@,
        c.chart_of_account_long_term_bank_interest_receivable_parent_code@,
        c.chart_of_account_long_term_financial_institution_interest_receivable_parent_code@,
        c.chart_of_account_long_term_foreign_agency_or_subsidiary_interest_receivable_parent_code@,
        c.chart_of_account_long_term_non_domiciled_company_interest_receivable_parent_code@,
        c.chart_of_account_overdue_individual_disbursed_receivable_parent_code@,
        c.chart_of_account_overdue_government_entity_disbursed_receivable_parent_code@,
        c.chart_of_account_overdue_private_company_disbursed_receivable_parent_code@,
        c.chart_of_account_overdue_bank_disbursed_receivable_parent_code@,
        c.chart_of_account_overdue_financial_institution_disbursed_receivable_parent_code@,
        c.chart_of_account_overdue_foreign_agency_or_subsidiary_disbursed_receivable_parent_code@,
        c.chart_of_account_overdue_non_domiciled_company_disbursed_receivable_parent_code@,
    ]
}

/// The category each resolved code must be in: off balance sheet for the
/// first eight, revenue for the two income codes, asset for the rest.
pub open spec fn resolution_category(i: int) -> AccountCategory {
    if i < 8 {
        AccountCategory::OffBalanceSheet
    } else if i < 10 {
        AccountCategory::Revenue
    } else {
        AccountCategory::Asset
    }
}

/// The lookup of the `i`-th resolved code in the chart.
pub open spec fn resolution_lookup(chart: &Chart, c: &ChartOfAccountsIntegrationConfig, i: int) -> LookupView {
    validated_lookup(chart, resolution_codes(c)[i], resolution_category(i))
}

/// The first resolved code from `i` on whose lookup fails.
pub open spec fn first_failed_from(chart: &Chart, c: &ChartOfAccountsIntegrationConfig, i: int) -> Option<int>
    decreases 48 - i,
{
    if i < 0 || i >= 48 {
        None
    } else if !(resolution_lookup(chart, c, i) is Found) {
        Some(i)
    } else {
        first_failed_from(chart, c, i + 1)
    }
}

/// The account set ids of a resolved integration, in the order in which
/// the codes are resolved.
pub open spec fn resolved_ids(r: &ResolvedChartOfAccountsIntegrationConfig) -> Seq<u128> {
    seq![
        r.facility_omnibus_parent_account_set_id,
        r.collateral_omnibus_parent_account_set_id,
        r.liquidation_proceeds_omnibus_parent_account_set_id,
        r.facility_parent_account_set_id,
        r.collateral_parent_account_set_id,
        r.collateral_in_liquidation_parent_account_set_id,
        r.liquidated_collateral_parent_account_set_id,
        r.proceeds_from_liquidation_parent_account_set_id,
        r.interest_income_parent_account_set_id,
        r.fee_income_parent_account_set_id,
        r.payment_holding_parent_account_set_id,
        r.disbursed_defaulted_parent_account_set_id,
        r.interest_defaulted_parent_account_set_id,
        r.short_term_disbursed_integration_meta.short_term_individual_disbursed_receivable_parent_account_set_id,
        r.short_term_disbursed_integration_meta.short_term_government_entity_disbursed_receivable_parent_account_set_id,
        r.short_term_disbursed_integration_meta.short_term_private_company_disbursed_receivable_parent_account_set_id,
        r.short_term_disbursed_integration_meta.short_term_bank_disbursed_receivable_parent_account_set_id,
        r.short_term_disbursed_integration_meta.short_term_financial_institution_disbursed_receivable_parent_account_set_id,
        r.short_term_disbursed_integration_meta.short_term_foreign_agency_or_subsidiary_disbursed_receivable_parent_account_set_id,
        r.short_term_disbursed_integration_meta.short_term_non_domiciled_company_disbursed_receivable_parent_account_set_id,
        r.long_term_disbursed_integration_meta.long_term_individual_disbursed_receivable_parent_account_set_id,
        r.long_term_disbursed_integration_meta.long_term_government_entity_disbursed_receivable_parent_account_set_id,
        r.long_term_disbursed_integration_meta.long_term_private_company_disbursed_receivable_parent_account_set_id,
        r.long_term_disbursed_integration_meta.long_term_bank_disbursed_receivable_parent_account_set_id,
        r.long_term_disbursed_integration_meta.long_term_financial_institution_disbursed_receivable_parent_account_set_id,
        r.long_term_disbursed_integration_meta.long_term_foreign_agency_or_subsidiary_disbursed_receivable_parent_account_set_id,
        r.long_term_disbursed_integration_meta.long_term_non_domiciled_company_disbursed_receivable_parent_account_set_id,
        r.short_term_interest_integration_meta.short_term_individual_interest_receivable_parent_account_set_id,
        r.short_term_interest_integration_meta.short_term_government_entity_interest_receivable_parent_account_set_id,
        r.short_term_interest_integration_meta.short_term_private_company_interest_receivable_parent_account_set_id,
        r.short_term_interest_integration_meta.short_term_bank_interest_receivable_parent_account_set_id,
        r.short_term_interest_integration_meta.short_term_financial_institution_interest_receivable_parent_account_set_id,
        r.short_term_interest_integration_meta.short_term_foreign_agency_or_subsidiary_interest_receivable_parent_account_set_id,
        r.short_term_interest_integration_meta.short_term_non_domiciled_company_interest_receivable_parent_account_set_id,
        r.long_term_interest_integration_meta.long_term_individual_interest_receivable_parent_account_set_id,
        r.long_term_interest_integration_meta.long_term_government_entity_interest_receivable_parent_account_set_id,
        r.long_term_interest_integration_meta.long_term_private_company_interest_receivable_parent_account_set_id,
        r.long_term_interest_integration_meta.long_term_bank_interest_receivable_parent_account_set_id,
        r.long_term_interest_integration_meta.long_term_financial_institution_interest_receivable_parent_account_set_id,
        r.long_term_interest_integration_meta.long_term_foreign_agency_or_subsidiary_interest_receivable_parent_account_set_id,
        r.long_term_interest_integration_meta.long_term_non_domiciled_company_interest_receivable_parent_account_set_id,
        r.overdue_disbursed_integration_meta.overdue_individual_disbursed_receivable_parent_account_set_id,
        r.overdue_disbursed_integration_meta.overdue_government_entity_disbursed_receivable_parent_account_set_id,
        r.overdue_disbursed_integration_meta.overdue_private_company_disbursed_receivable_parent_account_set_id,
        r.overdue_disbursed_integration_meta.overdue_bank_disbursed_receivable_parent_account_set_id,
        r.overdue_disbursed_integration_meta.overdue_financial_institution_disbursed_receivable_parent_account_set_id,
        r.overdue_disbursed_integration_meta.overdue_foreign_agency_or_subsidiary_disbursed_receivable_parent_account_set_id,
        r.overdue_disbursed_integration_meta.overdue_non_domiciled_company_disbursed_receivable_parent_account_set_id,
    ]
}

/// The `i`-th code that is resolved.
fn resolution_code(c: &ChartOfAccountsIntegrationConfig, i: usize) -> (r: &AccountCode)
    requires
        i < 48,
    ensures
        r@ == resolution_codes(c)[i as int],
{
    match i {
        0 => &c.chart_of_account_facility_omnibus_parent_code,
        1 => &c.chart_of_account_collateral_omnibus_parent_code,
        2 => &c.chart_of_account_liquidation_proceeds_omnibus_parent_code,
        3 => &c.chart_of_account_facility_parent_code,
        4 => &c.chart_of_account_collateral_parent_code,
        5 => &c.chart_of_account_collateral_in_liquidation_parent_code,
        6 => &c.chart_of_account_liquidated_collateral_parent_code,
        7 => &c.chart_of_account_proceeds_from_liquidation_parent_code,
        8 => &c.chart_of_account_interest_income_parent_code,
        9 => &c.chart_of_account_fee_income_parent_code,
        10 => &c.chart_of_account_payment_holding_parent_code,
        11 => &c.chart_of_account_disbursed_defaulted_parent_code,
        12 => &c.chart_of_account_interest_defaulted_parent_code,
        13 => &c.chart_of_account_short_term_individual_disbursed_receivable_parent_code,
        14 => &c.chart_of_account_short_term_government_entity_disbursed_receivable_parent_code,
        15 => &c.chart_of_account_short_term_private_company_disbursed_receivable_parent_code,
        16 => &c.chart_of_account_short_term_bank_disbursed_receivable_parent_code,
        17 => &c.chart_of_account_short_term_financial_institution_disbursed_receivable_parent_code,
        18 => &c.chart_of_account_short_term_foreign_agency_or_subsidiary_disbursed_receivable_parent_code,
        19 => &c.chart_of_account_short_term_non_domiciled_company_disbursed_receivable_parent_code,
        20 => &c.chart_of_account_long_term_individual_disbursed_receivable_parent_code,
        21 => &c.chart_of_account_long_term_government_entity_disbursed_receivable_parent_code,
        22 => &c.chart_of_account_long_term_private_company_disbursed_receivable_parent_code,
        23 => &c.chart_of_account_long_term_bank_disbursed_receivable_parent_code,
        24 => &c.chart_of_account_long_term_financial_institution_disbursed_receivable_parent_code,
        25 => &c.chart_of_account_long_term_foreign_agency_or_subsidiary_disbursed_receivable_parent_code,
        26 => &c.chart_of_account_long_term_non_domiciled_company_disbursed_receivable_parent_code,
        27 => &c.chart_of_account_short_term_individual_interest_receivable_parent_code,
        28 => &c.chart_of_account_short_term_government_entity_interest_receivable_parent_code,
        29 => &c.chart_of_account_short_term_private_company_interest_receivable_parent_code,
        30 => &c.chart_of_account_short_term_bank_interest_receivable_parent_code,
        31 => &c.chart_of_account_short_term_financial_institution_interest_receivable_parent_code,
        32 => &c.chart_of_account_short_term_foreign_agency_or_subsidiary_interest_receivable_parent_code,
        33 => &c.chart_of_account_short_term_non_domiciled_company_interest_receivable_parent_code,
        34 => &c.chart_of_account_long_term_individual_interest_receivable_parent_code,
        35 => &c.chart_of_account_long_term_government_entity_interest_receivable_parent_code,
        36 => &c.chart_of_account_long_term_private_company_interest_receivable_parent_code,
        37 => &c.chart_of_account_long_term_bank_interest_receivable_parent_code,
        38 => &c.chart_of_account_long_term_financial_institution_interest_receivable_parent_code,
        39 => &c.chart_of_account_long_term_foreign_agency_or_subsidiary_interest_receivable_parent_code,
        40 => &c.chart_of_account_long_term_non_domiciled_company_interest_receivable_parent_code,
        41 => &c.chart_of_account_overdue_individual_disbursed_receivable_parent_code,
        42 => &c.chart_of_account_overdue_government_entity_disbursed_receivable_parent_code,
        43 => &c.chart_of_account_overdue_private_company_disbursed_receivable_parent_code,
        44 => &c.chart_of_account_overdue_bank_disbursed_receivable_parent_code,
        45 => &c.chart_of_account_overdue_financial_institution_disbursed_receivable_parent_code,
        46 => &c.chart_of_account_overdue_foreign_agency_or_subsidiary_disbursed_receivable_parent_code,
        _ => &c.chart_of_account_overdue_non_domiciled_company_disbursed_receivable_parent_code,
    }
}

/// The category the `i`-th resolved code must be in.
fn resolution_category_of(i: usize) -> (r: AccountCategory)
    ensures
        r == resolution_category(i as int),
{
    if i < 8 {
        AccountCategory::OffBalanceSheet
    } else if i < 10 {
        AccountCategory::Revenue
    } else {
        AccountCategory::Asset
    }
}

/// Looks every resolved code up in order, stopping at the first that
/// fails.
fn resolve_ids(c: &ChartOfAccountsIntegrationConfig, chart: &Chart) -> (r: Result<Vec<u128>, ChartLookupError>)
    ensures
        match r {
            Ok(ids) => {
                &&& ids.len() == 48
                &&& first_failed_from(chart, c, 0) is None
                &&& forall|i: int| 0 <= i < 48 ==> resolution_lookup(chart, c, i) == LookupView::Found(#[trigger] ids@[i])
            },
            Err(e) => first_failed_from(chart, c, 0) matches Some(i) && resolution_lookup(chart, c, i)
                == error_view(e),
        },
{
    let mut ids: Vec<u128> = Vec::new();
    let mut i: usize = 0;
    while i < RESOLVED_CODES
        invariant
            i <= 48,
            ids.len() == i,
            forall|j: int| 0 <= j < i ==> resolution_lookup(chart, c, j) == LookupView::Found(#[trigger] ids@[j]),
            first_failed_from(chart, c, 0) == first_failed_from(chart, c, i as int),
        decreases 48 - i,
    {
        let code = resolution_code(c, i);
        let category = resolution_category_of(i);
        match chart.accounting_validated_account_set_id(code, category) {
            Ok(id) => {
                ids.push(id);
            },
            Err(e) => {
                return Err(e);
            },
        }
        i = i + 1;
    }
    Ok(ids)
}

impl ResolvedChartOfAccountsIntegrationConfig {
    /// Resolves each code of the integration into the account set it stands
    /// for in the chart, checked to be in the category the module needs;
    /// the first code that fails, in the order of resolution, is the error.
    pub fn try_new(config: ChartOfAccountsIntegrationConfig, chart: &Chart) -> (r: Result<
        ResolvedChartOfAccountsIntegrationConfig,
        ChartOfAccountsIntegrationError,
    >)
        ensures
            match r {
                Ok(res) => {
                    &&& res.config == config
                    &&& first_failed_from(chart, &config, 0) is None
                    &&& forall|i: int|
                        0 <= i < 48 ==> resolution_lookup(chart, &config, i) == LookupView::Found(
                            #[trigger] resolved_ids(&res)[i],
                        )
                },
                Err(ChartOfAccountsIntegrationError::ChartOfAccounts(e)) => first_failed_from(chart, &config, 0) matches Some(
                    i,
                ) && resolution_lookup(chart, &config, i) == error_view(e),
            },
    {
        let ids = match resolve_ids(&config, chart) {
            Ok(ids) => ids,
            Err(e) => return Err(ChartOfAccountsIntegrationError::ChartOfAccounts(e)),
        };
        let short_term_disbursed_integration_meta = ShortTermDisbursedIntegrationMeta {
            short_term_individual_disbursed_receivable_parent_account_set_id: ids[13],
            short_term_government_entity_disbursed_receivable_parent_account_set_id: ids[14],
            short_term_private_company_disbursed_receivable_parent_account_set_id: ids[15],
            short_term_bank_disbursed_receivable_parent_account_set_id: ids[16],
            short_term_financial_institution_disbursed_receivable_parent_account_set_id: ids[17],
            short_term_foreign_agency_or_subsidiary_disbursed_receivable_parent_account_set_id: ids[18],
            short_term_non_domiciled_company_disbursed_receivable_parent_account_set_id: ids[19],
        };
        let long_term_disbursed_integration_meta = LongTermDisbursedIntegrationMeta {
            long_term_individual_disbursed_receivable_parent_account_set_id: ids[20],
            long_term_government_entity_disbursed_receivable_parent_account_set_id: ids[21],
            long_term_private_company_disbursed_receivable_parent_account_set_id: ids[22],
            long_term_bank_disbursed_receivable_parent_account_set_id: ids[23],
            long_term_financial_institution_disbursed_receivable_parent_account_set_id: ids[24],
            long_term_foreign_agency_or_subsidiary_disbursed_receivable_parent_account_set_id: ids[25],
            long_term_non_domiciled_company_disbursed_receivable_parent_account_set_id: ids[26],
        };
        let short_term_interest_integration_meta = ShortTermInterestIntegrationMeta {
            short_term_individual_interest_receivable_parent_account_set_id: ids[27],
            short_term_government_entity_interest_receivable_parent_account_set_id: ids[28],
            short_term_private_company_interest_receivable_parent_account_set_id: ids[29],
            short_term_bank_interest_receivable_parent_account_set_id: ids[30],
            short_term_financial_institution_interest_receivable_parent_account_set_id: ids[31],
            short_term_foreign_agency_or_subsidiary_interest_receivable_parent_account_set_id: ids[32],
            short_term_non_domiciled_company_interest_receivable_parent_account_set_id: ids[33],
        };
        let long_term_interest_integration_meta = LongTermInterestIntegrationMeta {
            long_term_individual_interest_receivable_parent_account_set_id: ids[34],
            long_term_government_entity_interest_receivable_parent_account_set_id: ids[35],
            long_term_private_company_interest_receivable_parent_account_set_id: ids[36],
            long_term_bank_interest_receivable_parent_account_set_id: ids[37],
            long_term_financial_institution_interest_receivable_parent_account_set_id: ids[38],
            long_term_foreign_agency_or_subsidiary_interest_receivable_parent_account_set_id: ids[39],
            long_term_non_domiciled_company_interest_receivable_parent_account_set_id: ids[40],
        };
        let overdue_disbursed_integration_meta = OverdueDisbursedIntegrationMeta {
            overdue_individual_disbursed_receivable_parent_account_set_id: ids[41],
            overdue_government_entity_disbursed_receivable_parent_account_set_id: ids[42],
            overdue_private_company_disbursed_receivable_parent_account_set_id: ids[43],
            overdue_bank_disbursed_receivable_parent_account_set_id: ids[44],
            overdue_financial_institution_disbursed_receivable_parent_account_set_id: ids[45],
            overdue_foreign_agency_or_subsidiary_disbursed_receivable_parent_account_set_id: ids[46],
            overdue_non_domiciled_company_disbursed_receivable_parent_account_set_id: ids[47],
        };
        let res = ResolvedChartOfAccountsIntegrationConfig {
            config,
            facility_omnibus_parent_account_set_id: ids[0],
            collateral_omnibus_parent_account_set_id: ids[1],
            liquidation_proceeds_omnibus_parent_account_set_id: ids[2],
            facility_parent_account_set_id: ids[3],
            collateral_parent_account_set_id: ids[4],
            collateral_in_liquidation_parent_account_set_id: ids[5],
            liquidated_collateral_parent_account_set_id: ids[6],
            proceeds_from_liquidation_parent_account_set_id: ids[7],
            interest_income_parent_account_set_id: ids[8],
            fee_income_parent_account_set_id: ids[9],
            payment_holding_parent_account_set_id: ids[10],
            disbursed_defaulted_parent_account_set_id: ids[11],
            interest_defaulted_parent_account_set_id: ids[12],
            short_term_disbursed_integration_meta,
            long_term_disbursed_integration_meta,
            short_term_interest_integration_meta,
            long_term_interest_integration_meta,
            overdue_disbursed_integration_meta,
        };
        assert(resolved_ids(&res) =~= ids@);
        Ok(res)
    }
}

} // verus!
