use lana_core::account_code::AccountCode;
use lana_core::accounting_config::{AccountCategory, AccountingBaseConfig};
use lana_core::chart::{Chart, ChartLookupError, ChartNode};
use lana_core::accounting_config::DebitOrCredit;
use lana_core::facility_accounts::{
    chart_attachment_changes, CreditFacilityInternalAccountSets, LedgerOmnibusAccountIds, LiquidationAccountSets,
    MembershipChange,
};
use lana_core::ledger::{DisbursedReceivable, InterestReceivable, InternalAccountSetDetails, ReceivableAccountSetsByCustomer};
use lana_core::chart_integration::{
    ChartOfAccountsIntegrationConfig, ChartOfAccountsIntegrationError, ResolvedChartOfAccountsIntegrationConfig,
};

fn code(s: &str) -> AccountCode {
    s.parse().unwrap()
}

fn base_config() -> AccountingBaseConfig {
    AccountingBaseConfig::try_new(
        code("1"),
        code("2"),
        code("3"),
        code("32.01"),
        code("32.02"),
        code("4"),
        code("5"),
        code("6"),
    )
    .unwrap()
}

/// The code each field of the integration is given: off-balance-sheet
/// codes under 9, revenue codes under 4, asset codes under 1.
fn field_codes() -> Vec<(&'static str, String)> {
    vec![
        ("chart_of_account_facility_omnibus_parent_code", "9.01".to_string()),
        ("chart_of_account_collateral_omnibus_parent_code", "9.02".to_string()),
        ("chart_of_account_liquidation_proceeds_omnibus_parent_code", "9.03".to_string()),
        ("chart_of_account_payments_made_omnibus_parent_code", "8.01".to_string()),
        ("chart_of_account_interest_added_to_obligations_omnibus_parent_code", "8.02".to_string()),
        ("chart_of_account_facility_parent_code", "9.04".to_string()),
        ("chart_of_account_collateral_parent_code", "9.05".to_string()),
        ("chart_of_account_collateral_in_liquidation_parent_code", "9.06".to_string()),
        ("chart_of_account_liquidated_collateral_parent_code", "9.07".to_string()),
        ("chart_of_account_proceeds_from_liquidation_parent_code", "9.08".to_string()),
        ("chart_of_account_interest_income_parent_code", "4.01".to_string()),
        ("chart_of_account_fee_income_parent_code", "4.02".to_string()),
        ("chart_of_account_payment_holding_parent_code", "1.01".to_string()),
        ("chart_of_account_uncovered_outstanding_parent_code", "8.03".to_string()),
        ("chart_of_account_disbursed_defaulted_parent_code", "1.02".to_string()),
        ("chart_of_account_interest_defaulted_parent_code", "1.03".to_string()),
        ("chart_of_account_short_term_individual_disbursed_receivable_parent_code", "1.04".to_string()),
        ("chart_of_account_short_term_government_entity_disbursed_receivable_parent_code", "1.05".to_string()),
        ("chart_of_account_short_term_private_company_disbursed_receivable_parent_code", "1.06".to_string()),
        ("chart_of_account_short_term_bank_disbursed_receivable_parent_code", "1.07".to_string()),
        ("chart_of_account_short_term_financial_institution_disbursed_receivable_parent_code", "1.08".to_string()),
        ("chart_of_account_short_term_foreign_agency_or_subsidiary_disbursed_receivable_parent_code", "1.09".to_string()),
        ("chart_of_account_short_term_non_domiciled_company_disbursed_receivable_parent_code", "1.10".to_string()),
        ("chart_of_account_long_term_individual_disbursed_receivable_parent_code", "1.11".to_string()),
        ("chart_of_account_long_term_government_entity_disbursed_receivable_parent_code", "1.12".to_string()),
        ("chart_of_account_long_term_private_company_disbursed_receivable_parent_code", "1.13".to_string()),
        ("chart_of_account_long_term_bank_disbursed_receivable_parent_code", "1.14".to_string()),
        ("chart_of_account_long_term_financial_institution_disbursed_receivable_parent_code", "1.15".to_string()),
        ("chart_of_account_long_term_foreign_agency_or_subsidiary_disbursed_receivable_parent_code", "1.16".to_string()),
        ("chart_of_account_long_term_non_domiciled_company_disbursed_receivable_parent_code", "1.17".to_string()),
        ("chart_of_account_short_term_individual_interest_receivable_parent_code", "1.18".to_string()),
        ("chart_of_account_short_term_government_entity_interest_receivable_parent_code", "1.19".to_string()),
        ("chart_of_account_short_term_private_company_interest_receivable_parent_code", "1.20".to_string()),
        ("chart_of_account_short_term_bank_interest_receivable_parent_code", "1.21".to_string()),
        ("chart_of_account_short_term_financial_institution_interest_receivable_parent_code", "1.22".to_string()),
        ("chart_of_account_short_term_foreign_agency_or_subsidiary_interest_receivable_parent_code", "1.23".to_string()),
        ("chart_of_account_short_term_non_domiciled_company_interest_receivable_parent_code", "1.24".to_string()),
        ("chart_of_account_long_term_individual_interest_receivable_parent_code", "1.25".to_string()),
        ("chart_of_account_long_term_government_entity_interest_receivable_parent_code", "1.26".to_string()),
        ("chart_of_account_long_term_private_company_interest_receivable_parent_code", "1.27".to_string()),
        ("chart_of_account_long_term_bank_interest_receivable_parent_code", "1.28".to_string()),
        ("chart_of_account_long_term_financial_institution_interest_receivable_parent_code", "1.29".to_string()),
        ("chart_of_account_long_term_foreign_agency_or_subsidiary_interest_receivable_parent_code", "1.30".to_string()),
        ("chart_of_account_long_term_non_domiciled_company_interest_receivable_parent_code", "1.31".to_string()),
        ("chart_of_account_overdue_individual_disbursed_receivable_parent_code", "1.32".to_string()),
        ("chart_of_account_overdue_government_entity_disbursed_receivable_parent_code", "1.33".to_string()),
        ("chart_of_account_overdue_private_company_disbursed_receivable_parent_code", "1.34".to_string()),
        ("chart_of_account_overdue_bank_disbursed_receivable_parent_code", "1.35".to_string()),
        ("chart_of_account_overdue_financial_institution_disbursed_receivable_parent_code", "1.36".to_string()),
        ("chart_of_account_overdue_foreign_agency_or_subsidiary_disbursed_receivable_parent_code", "1.37".to_string()),
        ("chart_of_account_overdue_non_domiciled_company_disbursed_receivable_parent_code", "1.38".to_string()),
    ]
}

fn code_for(codes: &[(&'static str, String)], field: &str) -> AccountCode {
    code(&codes.iter().find(|(f, _)| *f == field).unwrap().1)
}

fn config_with(codes: &[(&'static str, String)]) -> ChartOfAccountsIntegrationConfig {
    ChartOfAccountsIntegrationConfig {
        chart_of_accounts_id: 7,
        chart_of_account_facility_omnibus_parent_code: code_for(codes, "chart_of_account_facility_omnibus_parent_code"),
        chart_of_account_collateral_omnibus_parent_code: code_for(codes, "chart_of_account_collateral_omnibus_parent_code"),
        chart_of_account_liquidation_proceeds_omnibus_parent_code: code_for(codes, "chart_of_account_liquidation_proceeds_omnibus_parent_code"),
        chart_of_account_payments_made_omnibus_parent_code: code_for(codes, "chart_of_account_payments_made_omnibus_parent_code"),
        chart_of_account_interest_added_to_obligations_omnibus_parent_code: code_for(codes, "chart_of_account_interest_added_to_obligations_omnibus_parent_code"),
        chart_of_account_facility_parent_code: code_for(codes, "chart_of_account_facility_parent_code"),
        chart_of_account_collateral_parent_code: code_for(codes, "chart_of_account_collateral_parent_code"),
        chart_of_account_collateral_in_liquidation_parent_code: code_for(codes, "chart_of_account_collateral_in_liquidation_parent_code"),
        chart_of_account_liquidated_collateral_parent_code: code_for(codes, "chart_of_account_liquidated_collateral_parent_code"),
        chart_of_account_proceeds_from_liquidation_parent_code: code_for(codes, "chart_of_account_proceeds_from_liquidation_parent_code"),
        chart_of_account_interest_income_parent_code: code_for(codes, "chart_of_account_interest_income_parent_code"),
        chart_of_account_fee_income_parent_code: code_for(codes, "chart_of_account_fee_income_parent_code"),
        chart_of_account_payment_holding_parent_code: code_for(codes, "chart_of_account_payment_holding_parent_code"),
        chart_of_account_uncovered_outstanding_parent_code: code_for(codes, "chart_of_account_uncovered_outstanding_parent_code"),
        chart_of_account_disbursed_defaulted_parent_code: code_for(codes, "chart_of_account_disbursed_defaulted_parent_code"),
        chart_of_account_interest_defaulted_parent_code: code_for(codes, "chart_of_account_interest_defaulted_parent_code"),
        chart_of_account_short_term_individual_disbursed_receivable_parent_code: code_for(codes, "chart_of_account_short_term_individual_disbursed_receivable_parent_code"),
        chart_of_account_short_term_government_entity_disbursed_receivable_parent_code: code_for(codes, "chart_of_account_short_term_government_entity_disbursed_receivable_parent_code"),
        chart_of_account_short_term_private_company_disbursed_receivable_parent_code: code_for(codes, "chart_of_account_short_term_private_company_disbursed_receivable_parent_code"),
        chart_of_account_short_term_bank_disbursed_receivable_parent_code: code_for(codes, "chart_of_account_short_term_bank_disbursed_receivable_parent_code"),
        chart_of_account_short_term_financial_institution_disbursed_receivable_parent_code: code_for(codes, "chart_of_account_short_term_financial_institution_disbursed_receivable_parent_code"),
        chart_of_account_short_term_foreign_agency_or_subsidiary_disbursed_receivable_parent_code: code_for(codes, "chart_of_account_short_term_foreign_agency_or_subsidiary_disbursed_receivable_parent_code"),
        chart_of_account_short_term_non_domiciled_company_disbursed_receivable_parent_code: code_for(codes, "chart_of_account_short_term_non_domiciled_company_disbursed_receivable_parent_code"),
        chart_of_account_long_term_individual_disbursed_receivable_parent_code: code_for(codes, "chart_of_account_long_term_individual_disbursed_receivable_parent_code"),
        chart_of_account_long_term_government_entity_disbursed_receivable_parent_code: code_for(codes, "chart_of_account_long_term_government_entity_disbursed_receivable_parent_code"),
        chart_of_account_long_term_private_company_disbursed_receivable_parent_code: code_for(codes, "chart_of_account_long_term_private_company_disbursed_receivable_parent_code"),
        chart_of_account_long_term_bank_disbursed_receivable_parent_code: code_for(codes, "chart_of_account_long_term_bank_disbursed_receivable_parent_code"),
        chart_of_account_long_term_financial_institution_disbursed_receivable_parent_code: code_for(codes, "chart_of_account_long_term_financial_institution_disbursed_receivable_parent_code"),
        chart_of_account_long_term_foreign_agency_or_subsidiary_disbursed_receivable_parent_code: code_for(codes, "chart_of_account_long_term_foreign_agency_or_subsidiary_disbursed_receivable_parent_code"),
        chart_of_account_long_term_non_domiciled_company_disbursed_receivable_parent_code: code_for(codes, "chart_of_account_long_term_non_domiciled_company_disbursed_receivable_parent_code"),
        chart_of_account_short_term_individual_interest_receivable_parent_code: code_for(codes, "chart_of_account_short_term_individual_interest_receivable_parent_code"),
        chart_of_account_short_term_government_entity_interest_receivable_parent_code: code_for(codes, "chart_of_account_short_term_government_entity_interest_receivable_parent_code"),
        chart_of_account_short_term_private_company_interest_receivable_parent_code: code_for(codes, "chart_of_account_short_term_private_company_interest_receivable_parent_code"),
        chart_of_account_short_term_bank_interest_receivable_parent_code: code_for(codes, "chart_of_account_short_term_bank_interest_receivable_parent_code"),
        chart_of_account_short_term_financial_institution_interest_receivable_parent_code: code_for(codes, "chart_of_account_short_term_financial_institution_interest_receivable_parent_code"),
        chart_of_account_short_term_foreign_agency_or_subsidiary_interest_receivable_parent_code: code_for(codes, "chart_of_account_short_term_foreign_agency_or_subsidiary_interest_receivable_parent_code"),
        chart_of_account_short_term_non_domiciled_company_interest_receivable_parent_code: code_for(codes, "chart_of_account_short_term_non_domiciled_company_interest_receivable_parent_code"),
        chart_of_account_long_term_individual_interest_receivable_parent_code: code_for(codes, "chart_of_account_long_term_individual_interest_receivable_parent_code"),
        chart_of_account_long_term_government_entity_interest_receivable_parent_code: code_for(codes, "chart_of_account_long_term_government_entity_interest_receivable_parent_code"),
        chart_of_account_long_term_private_company_interest_receivable_parent_code: code_for(codes, "chart_of_account_long_term_private_company_interest_receivable_parent_code"),
        chart_of_account_long_term_bank_interest_receivable_parent_code: code_for(codes, "chart_of_account_long_term_bank_interest_receivable_parent_code"),
        chart_of_account_long_term_financial_institution_interest_receivable_parent_code: code_for(codes, "chart_of_account_long_term_financial_institution_interest_receivable_parent_code"),
        chart_of_account_long_term_foreign_agency_or_subsidiary_interest_receivable_parent_code: code_for(codes, "chart_of_account_long_term_foreign_agency_or_subsidiary_interest_receivable_parent_code"),
        chart_of_account_long_term_non_domiciled_company_interest_receivable_parent_code: code_for(codes, "chart_of_account_long_term_non_domiciled_company_interest_receivable_parent_code"),
        chart_of_account_overdue_individual_disbursed_receivable_parent_code: code_for(codes, "chart_of_account_overdue_individual_disbursed_receivable_parent_code"),
        chart_of_account_overdue_government_entity_disbursed_receivable_parent_code: code_for(codes, "chart_of_account_overdue_government_entity_disbursed_receivable_parent_code"),
        chart_of_account_overdue_private_company_disbursed_receivable_parent_code: code_for(codes, "chart_of_account_overdue_private_company_disbursed_receivable_parent_code"),
        chart_of_account_overdue_bank_disbursed_receivable_parent_code: code_for(codes, "chart_of_account_overdue_bank_disbursed_receivable_parent_code"),
        chart_of_account_overdue_financial_institution_disbursed_receivable_parent_code: code_for(codes, "chart_of_account_overdue_financial_institution_disbursed_receivable_parent_code"),
        chart_of_account_overdue_foreign_agency_or_subsidiary_disbursed_receivable_parent_code: code_for(codes, "chart_of_account_overdue_foreign_agency_or_subsidiary_disbursed_receivable_parent_code"),
        chart_of_account_overdue_non_domiciled_company_disbursed_receivable_parent_code: code_for(codes, "chart_of_account_overdue_non_domiciled_company_disbursed_receivable_parent_code"),
    }
}

/// A chart holding every code of `codes`; the account set of the `i`-th
/// code is `1000 + i`.
fn chart_with(codes: &[(&'static str, String)], base_config: Option<AccountingBaseConfig>) -> Chart {
    let nodes = codes
        .iter()
        .enumerate()
        .map(|(i, (_, c))| ChartNode { code: code(c), account_set_id: 1000 + i as u128 })
        .collect();
    Chart { id: 7, nodes, base_config }
}

fn set_id_of(codes: &[(&'static str, String)], field: &str) -> u128 {
    1000 + codes.iter().position(|(f, _)| *f == field).unwrap() as u128
}

#[test]
fn resolves_every_code_into_its_account_set() {
    let codes = field_codes();
    let chart = chart_with(&codes, Some(base_config()));
    let resolved = ResolvedChartOfAccountsIntegrationConfig::try_new(config_with(&codes), &chart).unwrap();
    assert_eq!(
        resolved.facility_omnibus_parent_account_set_id,
        set_id_of(&codes, "chart_of_account_facility_omnibus_parent_code")
    );
    assert_eq!(
        resolved.fee_income_parent_account_set_id,
        set_id_of(&codes, "chart_of_account_fee_income_parent_code")
    );
    assert_eq!(
        resolved.interest_defaulted_parent_account_set_id,
        set_id_of(&codes, "chart_of_account_interest_defaulted_parent_code")
    );
    assert_eq!(
        resolved.overdue_disbursed_integration_meta.overdue_bank_disbursed_receivable_parent_account_set_id,
        set_id_of(&codes, "chart_of_account_overdue_bank_disbursed_receivable_parent_code")
    );
    assert_eq!(
        resolved
            .long_term_interest_integration_meta
            .long_term_non_domiciled_company_interest_receivable_parent_account_set_id,
        set_id_of(&codes, "chart_of_account_long_term_non_domiciled_company_interest_receivable_parent_code")
    );
    assert_eq!(resolved.config.chart_of_accounts_id, 7);
}

#[test]
fn fails_without_base_config() {
    let codes = field_codes();
    let chart = chart_with(&codes, None);
    let result = ResolvedChartOfAccountsIntegrationConfig::try_new(config_with(&codes), &chart);
    assert!(matches!(
        result,
        Err(ChartOfAccountsIntegrationError::ChartOfAccounts(ChartLookupError::AccountingBaseConfigNotFound))
    ));
}

#[test]
fn fails_on_code_missing_from_chart() {
    let codes = field_codes();
    let mut chart = chart_with(&codes, Some(base_config()));
    let missing = code_for(&codes, "chart_of_account_fee_income_parent_code");
    chart.nodes.retain(|n| n.code != missing);
    let result = ResolvedChartOfAccountsIntegrationConfig::try_new(config_with(&codes), &chart);
    match result {
        Err(ChartOfAccountsIntegrationError::ChartOfAccounts(ChartLookupError::CodeNotFoundInChart(c))) => {
            assert_eq!(c.to_string(), "4.02")
        }
        other => panic!("unexpected {:?}", other),
    }
}

#[test]
fn fails_on_code_in_wrong_category() {
    let mut codes = field_codes();
    let pos = codes.iter().position(|(f, _)| *f == "chart_of_account_payment_holding_parent_code").unwrap();
    codes[pos].1 = "4.77".to_string();
    let chart = chart_with(&codes, Some(base_config()));
    let result = ResolvedChartOfAccountsIntegrationConfig::try_new(config_with(&codes), &chart);
    match result {
        Err(ChartOfAccountsIntegrationError::ChartOfAccounts(ChartLookupError::InvalidAccountCategory {
            code,
            category,
        })) => {
            assert_eq!(code.to_string(), "4.77");
            assert_eq!(category, AccountCategory::Asset);
        }
        other => panic!("unexpected {:?}", other),
    }
}

#[test]
fn reports_the_first_failing_code_in_resolution_order() {
    let mut codes = field_codes();
    let late = codes.iter().position(|(f, _)| *f == "chart_of_account_overdue_bank_disbursed_receivable_parent_code").unwrap();
    codes[late].1 = "9.88".to_string();
    let early = codes.iter().position(|(f, _)| *f == "chart_of_account_facility_parent_code").unwrap();
    codes[early].1 = "1.88".to_string();
    let chart = chart_with(&codes, Some(base_config()));
    let result = ResolvedChartOfAccountsIntegrationConfig::try_new(config_with(&codes), &chart);
    match result {
        Err(ChartOfAccountsIntegrationError::ChartOfAccounts(ChartLookupError::InvalidAccountCategory {
            code,
            category,
        })) => {
            assert_eq!(code.to_string(), "1.88");
            assert_eq!(category, AccountCategory::OffBalanceSheet);
        }
        other => panic!("unexpected {:?}", other),
    }
}

#[test]
fn unresolved_codes_need_not_be_in_the_chart() {
    let codes = field_codes();
    let mut chart = chart_with(&codes, Some(base_config()));
    let unresolved = code_for(&codes, "chart_of_account_payments_made_omnibus_parent_code");
    chart.nodes.retain(|n| n.code != unresolved);
    assert!(ResolvedChartOfAccountsIntegrationConfig::try_new(config_with(&codes), &chart).is_ok());
}

fn set(id: u128) -> InternalAccountSetDetails {
    InternalAccountSetDetails { id, normal_balance_type: DebitOrCredit::Debit }
}

fn by_customer(base: u128) -> ReceivableAccountSetsByCustomer {
    ReceivableAccountSetsByCustomer {
        individual: set(base),
        government_entity: set(base + 1),
        private_company: set(base + 2),
        bank: set(base + 3),
        financial_institution: set(base + 4),
        foreign_agency_or_subsidiary: set(base + 5),
        non_domiciled_company: set(base + 6),
    }
}

fn internal_sets() -> CreditFacilityInternalAccountSets {
    CreditFacilityInternalAccountSets {
        facility: set(1),
        collateral: set(2),
        liquidation: LiquidationAccountSets {
            collateral_in_liquidation: set(3),
            liquidated_collateral: set(4),
            proceeds_from_liquidation: set(5),
        },
        disbursed_receivable: DisbursedReceivable {
            short_term: by_customer(100),
            long_term: by_customer(200),
            overdue: by_customer(300),
        },
        disbursed_defaulted: set(6),
        interest_receivable: InterestReceivable { short_term: by_customer(400), long_term: by_customer(500) },
        interest_defaulted: set(7),
        interest_income: set(8),
        fee_income: set(9),
        uncovered_outstanding: set(10),
        payment_holding: set(11),
    }
}

fn omnibus(id: u128) -> LedgerOmnibusAccountIds {
    LedgerOmnibusAccountIds { account_set_id: id, account_id: id + 1000 }
}

fn resolved() -> ResolvedChartOfAccountsIntegrationConfig {
    let codes = field_codes();
    let chart = chart_with(&codes, Some(base_config()));
    ResolvedChartOfAccountsIntegrationConfig::try_new(config_with(&codes), &chart).unwrap()
}

#[test]
fn first_attachment_only_adds() {
    let new = resolved();
    let changes = chart_attachment_changes(omnibus(90), omnibus(91), omnibus(92), &internal_sets(), &new, None);
    assert_eq!(changes.len(), 48);
    assert_eq!(
        changes[0],
        MembershipChange::Add { parent: new.facility_omnibus_parent_account_set_id, member: 90 }
    );
    assert_eq!(
        changes[47],
        MembershipChange::Add {
            parent: new.overdue_disbursed_integration_meta.overdue_non_domiciled_company_disbursed_receivable_parent_account_set_id,
            member: 306
        }
    );
    assert!(changes.iter().all(|c| matches!(c, MembershipChange::Add { .. })));
}

#[test]
fn reattachment_removes_from_the_old_parent_first() {
    let old = resolved();
    let new = resolved();
    let changes = chart_attachment_changes(omnibus(90), omnibus(91), omnibus(92), &internal_sets(), &new, Some(&old));
    assert_eq!(changes.len(), 96);
    assert_eq!(
        changes[6],
        MembershipChange::Remove { parent: old.facility_parent_account_set_id, member: 1 }
    );
    assert_eq!(changes[7], MembershipChange::Add { parent: new.facility_parent_account_set_id, member: 1 });
}
