//! The template _Receive Proceeds From Liquidation_ records that (1) the
//! part of the collateral that was in liquidation has been liquidated, and
//! (2) fiat proceeds were received from the liquidator.
//!
//! Accounts in play:
//! - the fiat omnibus account, source of all proceeds from liquidations;
//! - the facility's fiat holding account, which holds the proceeds until
//!   they are allocated;
//! - the facility's bitcoin-in-liquidation account, the part of the
//!   collateral that is being liquidated;
//! - the facility's liquidated-bitcoin account, the part of the collateral
//!   that has been liquidated.
use vstd::prelude::*;
use crate::accounting_config::DebitOrCredit;
use crate::ids::new_random_id;
use crate::initiator::LedgerTransactionInitiator;
use crate::tx_template::{
    bound, definition, entries_balance, param, reads_only_declared, binds_declared, text,
    count_on_side, declared, BoundParam, DefinitionView, EntryView, ExprView, Layer,
    ParamDataType, ParamDefinition, ParamValue, Params, TemplateEntry, TemplateTransaction,
    TemplateView, TransactionView, TxTemplate, ValueView,
};

verus! {

/// The code under which the template is registered.
pub const RECEIVE_PROCEEDS_FROM_LIQUIDATION: &'static str = "RECEIVE_PROCEEDS_FROM_LIQUIDATION";

/// What one posting of the template records. Amounts are in cents
/// (`amount_received`) and satoshis (`amount_liquidated`); `effective` is a
/// day counted from the start of the common era.
#[derive(Debug)]
pub struct ReceiveProceedsFromLiquidationParams {
    pub journal_id: u128,
    pub fiat_liquidation_proceeds_omnibus_account_id: u128,
    pub fiat_proceeds_from_liquidation_account_id: u128,
    pub amount_received: u64,
    pub currency: String,
    pub btc_in_liquidation_account_id: u128,
    pub btc_liquidated_account_id: u128,
    pub amount_liquidated: u64,
    pub effective: i32,
    pub initiated_by: LedgerTransactionInitiator,
}

/// The parameters that the template declares, in order.
pub open spec fn receive_proceeds_definitions() -> Seq<DefinitionView> {
    seq![
        DefinitionView { name: "journal_id"@, data_type: ParamDataType::Uuid },
        DefinitionView { name: "omnibus_account_id"@, data_type: ParamDataType::Uuid },
        DefinitionView { name: "proceeds_account_id"@, data_type: ParamDataType::Uuid },
        DefinitionView { name: "amount_received"@, data_type: ParamDataType::Decimal },
        DefinitionView { name: "currency"@, data_type: ParamDataType::String },
        DefinitionView { name: "in_liquidation_account_id"@, data_type: ParamDataType::Uuid },
        DefinitionView { name: "liquidated_account_id"@, data_type: ParamDataType::Uuid },
        DefinitionView { name: "amount_liquidated"@, data_type: ParamDataType::Decimal },
        DefinitionView { name: "effective"@, data_type: ParamDataType::Date },
        DefinitionView { name: "meta"@, data_type: ParamDataType::Json },
    ]
}

/// The values that a posting binds, in the order of the definitions: the
/// amount received in dollars (cents over 100), the amount liquidated in
/// bitcoin (satoshis over 10^8).
pub open spec fn receive_proceeds_values(p: &ReceiveProceedsFromLiquidationParams) -> Seq<(Seq<char>, ValueView)> {
    seq![
        ("journal_id"@, ValueView::Uuid(p.journal_id)),
        ("omnibus_account_id"@, ValueView::Uuid(p.fiat_liquidation_proceeds_omnibus_account_id)),
        ("proceeds_account_id"@, ValueView::Uuid(p.fiat_proceeds_from_liquidation_account_id)),
        ("amount_received"@, ValueView::Decimal { mantissa: p.amount_received as i128, scale: 2 }),
        ("currency"@, ValueView::Text(p.currency@)),
        ("in_liquidation_account_id"@, ValueView::Uuid(p.btc_in_liquidation_account_id)),
        ("liquidated_account_id"@, ValueView::Uuid(p.btc_liquidated_account_id)),
        ("amount_liquidated"@, ValueView::Decimal { mantissa: p.amount_liquidated as i128, scale: 8 }),
        ("effective"@, ValueView::Date(p.effective)),
        ("meta"@, ValueView::Meta { initiated_by: p.initiated_by }),
    ]
}

/// The entries of the template: the proceeds move from the omnibus account
/// to the facility's holding account, in the posting's currency; the
/// liquidated bitcoin moves from the in-liquidation account to the
/// liquidated account. All on the settled layer.
pub open spec fn receive_proceeds_entries() -> Seq<EntryView> {
    seq![
        EntryView {
            entry_type: ExprView::Text("RECEIVE_PROCEEDS_FROM_LIQUIDATION_DR"@),
            currency: ExprView::Param("currency"@),
            account_id: ExprView::Param("omnibus_account_id"@),
            direction: DebitOrCredit::Debit,
            layer: Layer::Settled,
            units: ExprView::Param("amount_received"@),
        },
        EntryView {
            entry_type: ExprView::Text("RECEIVE_PROCEEDS_FROM_LIQUIDATION_CR"@),
            currency: ExprView::Param("currency"@),
            account_id: ExprView::Param("proceeds_account_id"@),
            direction: DebitOrCredit::Credit,
            layer: Layer::Settled,
            units: ExprView::Param("amount_received"@),
        },
        EntryView {
            entry_type: ExprView::Text("RECORD_COLLATERAL_LIQUIDATED_DR"@),
            currency: ExprView::Text("BTC"@),
            account_id: ExprView::Param("in_liquidation_account_id"@),
            direction: DebitOrCredit::Debit,
            layer: Layer::Settled,
            units: ExprView::Param("amount_liquidated"@),
        },
        EntryView {
            entry_type: ExprView::Text("RECORD_COLLATERAL_LIQUIDATED_CR"@),
            currency: ExprView::Text("BTC"@),
            account_id: ExprView::Param("liquidated_account_id"@),
            direction: DebitOrCredit::Credit,
            layer: Layer::Settled,
            units: ExprView::Param("amount_liquidated"@),
        },
    ]
}

/// The whole template, registered under the id `id`.
pub open spec fn receive_proceeds_template(id: u128) -> TemplateView {
    TemplateView {
        id,
        code: RECEIVE_PROCEEDS_FROM_LIQUIDATION@,
        transaction: TransactionView {
            journal_id: ExprView::Param("journal_id"@),
            effective: ExprView::Param("effective"@),
            metadata: ExprView::Param("meta"@),
            description: ExprView::Text("Record received proceeds from liquidation and collateral liquidated"@),
        },
        entries: receive_proceeds_entries(),
        params: receive_proceeds_definitions(),
    }
}

impl ReceiveProceedsFromLiquidationParams {
    /// The parameters that the template declares.
    pub fn defs() -> (r: Vec<ParamDefinition>)
        ensures
            r@.map_values(|d: ParamDefinition| d@) == receive_proceeds_definitions(),
    {
        let mut r: Vec<ParamDefinition> = Vec::new();
        r.push(definition("journal_id", ParamDataType::Uuid));
        r.push(definition("omnibus_account_id", ParamDataType::Uuid));
        r.push(definition("proceeds_account_id", ParamDataType::Uuid));
        r.push(definition("amount_received", ParamDataType::Decimal));
        r.push(definition("currency", ParamDataType::String));
        r.push(definition("in_liquidation_account_id", ParamDataType::Uuid));
        r.push(definition("liquidated_account_id", ParamDataType::Uuid));
        r.push(definition("amount_liquidated", ParamDataType::Decimal));
        r.push(definition("effective", ParamDataType::Date));
        r.push(definition("meta", ParamDataType::Json));
        assert(r@.map_values(|d: ParamDefinition| d@) =~= receive_proceeds_definitions());
        r
    }

    /// Binds the posting's values to the template's parameters.
    pub fn into_params(self) -> (r: Params)
        ensures
            r@ == receive_proceeds_values(&self),
    {
        let ghost p = self;
        let ReceiveProceedsFromLiquidationParams {
            journal_id,
            fiat_liquidation_proceeds_omnibus_account_id,
            fiat_proceeds_from_liquidation_account_id,
            amount_received,
            currency,
            btc_in_liquidation_account_id,
            btc_liquidated_account_id,
            amount_liquidated,
            effective,
            initiated_by,
        } = self;
        let mut values: Vec<BoundParam> = Vec::new();
        values.push(bound("journal_id", ParamValue::Uuid(journal_id)));
        values.push(bound("omnibus_account_id", ParamValue::Uuid(fiat_liquidation_proceeds_omnibus_account_id)));
        values.push(bound("proceeds_account_id", ParamValue::Uuid(fiat_proceeds_from_liquidation_account_id)));
        values.push(bound("amount_received", ParamValue::Decimal { mantissa: amount_received as i128, scale: 2 }));
        values.push(bound("currency", ParamValue::Text(currency)));
        values.push(bound("in_liquidation_account_id", ParamValue::Uuid(btc_in_liquidation_account_id)));
        values.push(bound("liquidated_account_id", ParamValue::Uuid(btc_liquidated_account_id)));
        values.push(bound("amount_liquidated", ParamValue::Decimal { mantissa: amount_liquidated as i128, scale: 8 }));
        values.push(bound("effective", ParamValue::Date(effective)));
        values.push(bound("meta", ParamValue::Meta { initiated_by }));
        let r = Params { values };
        assert(r@ =~= receive_proceeds_values(&p));
        r
    }
}

/// Builds one entry of the template.
fn entry(
    entry_type: &str,
    currency: crate::tx_template::TemplateExpr,
    account_param: &str,
    direction: DebitOrCredit,
    units_param: &str,
) -> (r: TemplateEntry)
    ensures
        r@ == (EntryView {
            entry_type: ExprView::Text(entry_type@),
            currency: currency@,
            account_id: ExprView::Param(account_param@),
            direction,
            layer: Layer::Settled,
            units: ExprView::Param(units_param@),
        }),
{
    TemplateEntry {
        entry_type: text(entry_type),
        currency,
        account_id: param(account_param),
        direction,
        layer: Layer::Settled,
        units: param(units_param),
    }
}

/// The template that records proceeds received from a liquidation.
pub struct ReceiveProceedsFromLiquidation;

impl ReceiveProceedsFromLiquidation {
    /// The template, registered under the id `id`.
    pub fn template(id: u128) -> (r: TxTemplate)
        ensures
            r@ == receive_proceeds_template(id),
    {
        let transaction = TemplateTransaction {
            journal_id: param("journal_id"),
            effective: param("effective"),
            metadata: param("meta"),
            description: text("Record received proceeds from liquidation and collateral liquidated"),
        };
        let mut entries: Vec<TemplateEntry> = Vec::new();
        entries.push(entry(
            "RECEIVE_PROCEEDS_FROM_LIQUIDATION_DR",
            param("currency"),
            "omnibus_account_id",
            DebitOrCredit::Debit,
            "amount_received",
        ));
        entries.push(entry(
            "RECEIVE_PROCEEDS_FROM_LIQUIDATION_CR",
            param("currency"),
            "proceeds_account_id",
            DebitOrCredit::Credit,
            "amount_received",
        ));
        entries.push(entry(
            "RECORD_COLLATERAL_LIQUIDATED_DR",
            text("BTC"),
            "in_liquidation_account_id",
            DebitOrCredit::Debit,
            "amount_liquidated",
        ));
        entries.push(entry(
            "RECORD_COLLATERAL_LIQUIDATED_CR",
            text("BTC"),
            "liquidated_account_id",
            DebitOrCredit::Credit,
            "amount_liquidated",
        ));
        let params = ReceiveProceedsFromLiquidationParams::defs();
        let r = TxTemplate {
            id,
            code: RECEIVE_PROCEEDS_FROM_LIQUIDATION.to_owned(),
            transaction,
            entries,
            params,
        };
        assert(r@.entries =~= receive_proceeds_entries());
        r
    }

    /// The template under a fresh random id, as it is registered when the
    /// ledger starts.
    pub fn new_template() -> (r: TxTemplate)
        ensures
            r@ == receive_proceeds_template(r.id),
    {
        let id = new_random_id();
        Self::template(id)
    }
}

/// Every parameter that the template reads is one it declares.
pub proof fn law_receive_proceeds_reads_only_declared(id: u128)
    ensures
        reads_only_declared(receive_proceeds_template(id)),
{
    let t = receive_proceeds_template(id);
    let d = t.params;
    assert(d[0].name == "journal_id"@);
    assert(d[1].name == "omnibus_account_id"@);
    assert(d[2].name == "proceeds_account_id"@);
    assert(d[3].name == "amount_received"@);
    assert(d[4].name == "currency"@);
    assert(d[5].name == "in_liquidation_account_id"@);
    assert(d[6].name == "liquidated_account_id"@);
    assert(d[7].name == "amount_liquidated"@);
    assert(d[8].name == "effective"@);
    assert(d[9].name == "meta"@);
    assert forall|i: int| 0 <= i < t.entries.len() implies {
        &&& declared(#[trigger] t.entries[i].entry_type, t.params)
        &&& declared(t.entries[i].currency, t.params)
        &&& declared(t.entries[i].account_id, t.params)
        &&& declared(t.entries[i].units, t.params)
    } by {
        assert(0 <= i < 4);
    }
}

/// Whatever values a posting binds, the template's debits and credits
/// balance: each currency, amount and layer is debited as often as it is
/// credited.
pub proof fn law_receive_proceeds_balances(id: u128)
    ensures
        entries_balance(receive_proceeds_template(id).entries),
{
    let es = receive_proceeds_entries();
    reveal_with_fuel(count_on_side, 5);
    assert forall|i: int| 0 <= i < es.len() implies count_on_side(
        es,
        #[trigger] es[i].currency,
        es[i].units,
        es[i].layer,
        DebitOrCredit::Debit,
    ) == count_on_side(es, es[i].currency, es[i].units, es[i].layer, DebitOrCredit::Credit) by {
        assert(es.drop_last().drop_last().drop_last().drop_last() =~= Seq::<EntryView>::empty());
    }
}

/// The parameters that a posting binds are exactly those that the
/// template declares, in order and each with a value of the declared type.
pub proof fn law_receive_proceeds_binds_declared(id: u128, p: &ReceiveProceedsFromLiquidationParams)
    ensures
        binds_declared(receive_proceeds_template(id).params, receive_proceeds_values(p)),
{
    let d = receive_proceeds_definitions();
    let v = receive_proceeds_values(p);
    assert forall|i: int| 0 <= i < d.len() implies {
        &&& (#[trigger] v[i]).0 == d[i].name
        &&& crate::tx_template::value_type(v[i].1) == d[i].data_type
    } by {
        assert(0 <= i < 10);
    }
}

} // verus!
