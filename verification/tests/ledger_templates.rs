use lana_core::accounting_config::DebitOrCredit;
use lana_core::initiator::LedgerTransactionInitiator;
use lana_core::receive_proceeds::{
    ReceiveProceedsFromLiquidation, ReceiveProceedsFromLiquidationParams, RECEIVE_PROCEEDS_FROM_LIQUIDATION,
};
use lana_core::tx_template::{Layer, ParamDataType, ParamValue, TemplateExpr};

fn param_name(e: &TemplateExpr) -> Option<&str> {
    match e {
        TemplateExpr::Param(p) => Some(p.as_str()),
        TemplateExpr::Text(_) => None,
    }
}

fn sample_params() -> ReceiveProceedsFromLiquidationParams {
    ReceiveProceedsFromLiquidationParams {
        journal_id: 1,
        fiat_liquidation_proceeds_omnibus_account_id: 2,
        fiat_proceeds_from_liquidation_account_id: 3,
        amount_received: 12_345,
        currency: "USD".to_string(),
        btc_in_liquidation_account_id: 4,
        btc_liquidated_account_id: 5,
        amount_liquidated: 150_000_000,
        effective: 738_000,
        initiated_by: LedgerTransactionInitiator::System,
    }
}

#[test]
fn template_has_the_code_and_four_settled_entries() {
    let t = ReceiveProceedsFromLiquidation::template(42);
    assert_eq!(t.id, 42);
    assert_eq!(t.code, RECEIVE_PROCEEDS_FROM_LIQUIDATION);
    assert_eq!(t.code, "RECEIVE_PROCEEDS_FROM_LIQUIDATION");
    assert_eq!(t.entries.len(), 4);
    assert!(t.entries.iter().all(|e| e.layer == Layer::Settled));
    let directions: Vec<DebitOrCredit> = t.entries.iter().map(|e| e.direction).collect();
    assert_eq!(
        directions,
        vec![DebitOrCredit::Debit, DebitOrCredit::Credit, DebitOrCredit::Debit, DebitOrCredit::Credit]
    );
    assert_eq!(param_name(&t.entries[0].account_id), Some("omnibus_account_id"));
    assert_eq!(param_name(&t.entries[1].account_id), Some("proceeds_account_id"));
    assert_eq!(param_name(&t.entries[2].account_id), Some("in_liquidation_account_id"));
    assert_eq!(param_name(&t.entries[3].account_id), Some("liquidated_account_id"));
    assert!(matches!(&t.entries[2].currency, TemplateExpr::Text(c) if c == "BTC"));
}

#[test]
fn template_balances_per_currency_and_amount() {
    let t = ReceiveProceedsFromLiquidation::template(1);
    for e in &t.entries {
        let key = (format!("{:?}", e.currency), format!("{:?}", e.units));
        let debits = t
            .entries
            .iter()
            .filter(|x| (format!("{:?}", x.currency), format!("{:?}", x.units)) == key && x.direction == DebitOrCredit::Debit)
            .count();
        let credits = t
            .entries
            .iter()
            .filter(|x| (format!("{:?}", x.currency), format!("{:?}", x.units)) == key && x.direction == DebitOrCredit::Credit)
            .count();
        assert_eq!(debits, credits);
    }
}

#[test]
fn template_reads_only_declared_params() {
    let t = ReceiveProceedsFromLiquidation::template(1);
    let declared: Vec<&str> = t.params.iter().map(|d| d.name.as_str()).collect();
    let mut read = vec![
        param_name(&t.transaction.journal_id),
        param_name(&t.transaction.effective),
        param_name(&t.transaction.metadata),
    ];
    for e in &t.entries {
        read.push(param_name(&e.currency));
        read.push(param_name(&e.account_id));
        read.push(param_name(&e.units));
    }
    for name in read.into_iter().flatten() {
        assert!(declared.contains(&name), "{name} is not declared");
    }
}

#[test]
fn definitions_have_the_declared_types() {
    let defs = ReceiveProceedsFromLiquidationParams::defs();
    assert_eq!(defs.len(), 10);
    assert_eq!(defs[0].name, "journal_id");
    assert_eq!(defs[0].data_type, ParamDataType::Uuid);
    assert_eq!(defs[3].name, "amount_received");
    assert_eq!(defs[3].data_type, ParamDataType::Decimal);
    assert_eq!(defs[8].name, "effective");
    assert_eq!(defs[8].data_type, ParamDataType::Date);
    assert_eq!(defs[9].name, "meta");
    assert_eq!(defs[9].data_type, ParamDataType::Json);
}

#[test]
fn params_bind_amounts_as_dollars_and_bitcoin() {
    let params = sample_params().into_params();
    let names: Vec<&str> = params.values.iter().map(|b| b.name.as_str()).collect();
    let defs = ReceiveProceedsFromLiquidationParams::defs();
    let def_names: Vec<&str> = defs.iter().map(|d| d.name.as_str()).collect();
    assert_eq!(names, def_names);
    assert!(matches!(params.values[3].value, ParamValue::Decimal { mantissa: 12_345, scale: 2 }));
    assert!(matches!(params.values[7].value, ParamValue::Decimal { mantissa: 150_000_000, scale: 8 }));
    assert!(matches!(&params.values[4].value, ParamValue::Text(c) if c == "USD"));
    assert!(matches!(params.values[8].value, ParamValue::Date(738_000)));
    assert!(matches!(
        params.values[9].value,
        ParamValue::Meta { initiated_by: LedgerTransactionInitiator::System }
    ));
}

#[test]
fn fresh_templates_get_fresh_ids() {
    let a = ReceiveProceedsFromLiquidation::new_template();
    let b = ReceiveProceedsFromLiquidation::new_template();
    assert_ne!(a.id, b.id);
    assert_eq!(a.entries.len(), b.entries.len());
}
