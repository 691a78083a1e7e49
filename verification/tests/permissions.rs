use lana_core::accounting_authz::{
    AccountingCsvAction, ChartAction, CoreAccountingAction, CoreAccountingObject, FiscalYearAction,
    JournalAction, PERMISSION_SET_ACCOUNTING_VIEWER, PERMISSION_SET_ACCOUNTING_WRITER,
};
use lana_core::authz::{AllOrOne, ParseError};
use lana_core::credit_authz::{
    CoreCreditAction, CoreCreditObject, CreditFacilityAction, DisbursalAction, PERMISSION_SET_CREDIT_VIEWER,
    PERMISSION_SET_CREDIT_WRITER,
};
use lana_core::repayment_plan::RepaymentPlans;

#[test]
fn accounting_action_text_is_entity_colon_verb() {
    let a = CoreAccountingAction::Chart(ChartAction::ImportAccounts);
    assert_eq!(a.to_string(), "chart:import-accounts");
    let a = CoreAccountingAction::AccountingCsv(AccountingCsvAction::Download);
    assert_eq!(a.to_string(), "accounting-csv:download");
}

#[test]
fn accounting_actions_read_back() {
    for m in CoreAccountingAction::actions() {
        let text = format!("{}:{}", m.entity, m.action);
        let parsed = CoreAccountingAction::from_str(&text).unwrap();
        assert_eq!(parsed.to_string(), text);
        assert_eq!(parsed.permission_set(), m.permission_set);
    }
}

#[test]
fn accounting_action_parse_errors() {
    assert_eq!(CoreAccountingAction::from_str("chart:fly"), Err(ParseError::VariantNotFound));
    assert_eq!(CoreAccountingAction::from_str("planet:list"), Err(ParseError::VariantNotFound));
    // Everything after the first colon is the verb.
    assert_eq!(CoreAccountingAction::from_str("chart:list:more"), Err(ParseError::VariantNotFound));
    assert_eq!(
        CoreAccountingAction::from_str("fiscal-year:close-month"),
        Ok(CoreAccountingAction::FiscalYear(FiscalYearAction::CloseMonth))
    );
}

#[test]
fn accounting_permission_sets() {
    assert_eq!(ChartAction::List.permission_set(), PERMISSION_SET_ACCOUNTING_VIEWER);
    assert_eq!(ChartAction::CloseMonthly.permission_set(), PERMISSION_SET_ACCOUNTING_WRITER);
    assert_eq!(JournalAction::ReadEntries.permission_set(), "accounting_viewer");
    assert_eq!(FiscalYearAction::Close.permission_set(), "accounting_writer");
}

#[test]
fn accounting_actions_list_every_action_once() {
    let actions = CoreAccountingAction::actions();
    assert_eq!(actions.len(), 38);
    assert!(actions.iter().all(|m| m.module == "accounting"));
    let mut texts: Vec<String> = actions.iter().map(|m| format!("{}:{}", m.entity, m.action)).collect();
    texts.sort();
    texts.dedup();
    assert_eq!(texts.len(), 38);
}

#[test]
fn accounting_object_text_round_trips() {
    let id = uuid::Uuid::new_v4();
    let o = CoreAccountingObject::ledger_account(id.as_u128());
    let text = o.to_string();
    assert_eq!(text, format!("ledger-account/{}", id));
    assert_eq!(CoreAccountingObject::from_str(&text), Ok(o));
    let all = CoreAccountingObject::all_profit_and_loss_configuration();
    assert_eq!(all.to_string(), "profit-and-loss-configuration/*");
    assert_eq!(CoreAccountingObject::from_str("profit-and-loss-configuration/*"), Ok(all));
}

#[test]
fn accounting_object_reference_errors_name_the_entity() {
    assert_eq!(CoreAccountingObject::from_str("chart/not-a-uuid"), Err("could not parse CoreChartObject"));
    assert_eq!(
        CoreAccountingObject::from_str("ledger-transaction/x"),
        Err("could not parse LedgerAccount")
    );
}

#[test]
fn credit_action_text_and_parse() {
    let a = CoreCreditAction::CreditFacility(CreditFacilityAction::UpdateCollateralizationState);
    assert_eq!(a.to_string(), "credit-facility:update-collateralization-state");
    assert_eq!(CoreCreditAction::from_str(&a.to_string()), Ok(a));
    // The verb ends at a second colon.
    assert_eq!(
        CoreCreditAction::from_str("disbursal:settle:extra"),
        Ok(CoreCreditAction::Disbursal(DisbursalAction::Settle))
    );
    assert_eq!(CoreCreditAction::from_str("disbursal:fly"), Err(ParseError::VariantNotFound));
}

#[test]
fn credit_actions_read_back() {
    let actions = CoreCreditAction::actions();
    assert_eq!(actions.len(), 24);
    for m in actions {
        let parsed = CoreCreditAction::from_str(&format!("{}:{}", m.entity, m.action)).unwrap();
        assert_eq!(parsed.permission_set(), m.permission_set);
    }
    assert_eq!(CreditFacilityAction::Read.permission_set(), PERMISSION_SET_CREDIT_VIEWER);
    assert_eq!(CreditFacilityAction::Activate.permission_set(), PERMISSION_SET_CREDIT_WRITER);
}

#[test]
fn credit_object_text_round_trips() {
    let id = uuid::Uuid::new_v4();
    let o = CoreCreditObject::credit_facility(id.as_u128());
    assert_eq!(o.to_string(), format!("credit-facility/{}", id));
    assert_eq!(CoreCreditObject::from_str(&o.to_string()), Ok(o));
    assert_eq!(
        CoreCreditObject::chart_of_accounts_integration().to_string(),
        "chart-of-accounts-integration-config/*"
    );
    assert_eq!(CoreCreditObject::from_str("obligation/nope"), Err("could not parse CoreCreditObject"));
}

#[test]
fn repayment_plans_ask_to_read_the_facility() {
    let plans = RepaymentPlans::new(());
    let (object, action) = plans.read_permission(5);
    assert_eq!(object, CoreCreditObject::CreditFacility(AllOrOne::ById(5)));
    assert_eq!(action, CoreCreditAction::CreditFacility(CreditFacilityAction::Read));
}
