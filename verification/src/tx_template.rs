//! Transaction templates of the ledger: the entries a template posts, the
//! parameters it declares, and the values a caller binds to them.
use vstd::prelude::*;
use crate::accounting_config::DebitOrCredit;
use crate::initiator::LedgerTransactionInitiator;

verus! {

/// The type a template parameter is declared with.
#[derive(Debug, Clone, Copy, PartialEq, Eq)]
pub enum ParamDataType {
    String,
    Integer,
    Decimal,
    Boolean,
    Uuid,
    Date,
    Timestamp,
    Json,
}

/// The balance layer an entry posts to.
#[derive(Debug, Clone, Copy, PartialEq, Eq)]
pub enum Layer {
    Settled,
    Pending,
    Encumbrance,
}

/// An expression of a template: a parameter, by name, or a text literal.
#[derive(Debug)]
pub enum TemplateExpr {
    Param(String),
    Text(String),
}

/// What an expression is, over character sequences.
pub enum ExprView {
    Param(Seq<char>),
    Text(Seq<char>),
}

impl View for TemplateExpr {
    type V = ExprView;

    open spec fn view(&self) -> ExprView {
        match self {
            TemplateExpr::Param(s) => ExprView::Param(s@),
            TemplateExpr::Text(s) => ExprView::Text(s@),
        }
    }
}

/// The expression that reads the parameter `name`.
pub fn param(name: &str) -> (r: TemplateExpr)
    ensures
        r@ == ExprView::Param(name@),
{
    TemplateExpr::Param(name.to_owned())
}

/// The text literal `text`.
pub fn text(literal: &str) -> (r: TemplateExpr)
    ensures
        r@ == ExprView::Text(literal@),
{
    TemplateExpr::Text(literal.to_owned())
}

/// A parameter that a template declares.
#[derive(Debug)]
pub struct ParamDefinition {
    pub name: String,
    pub data_type: ParamDataType,
}

/// A declared parameter, over character sequences.
pub struct DefinitionView {
    pub name: Seq<char>,
    pub data_type: ParamDataType,
}

impl View for ParamDefinition {
    type V = DefinitionView;

    open spec fn view(&self) -> DefinitionView {
        DefinitionView { name: self.name@, data_type: self.data_type }
    }
}

/// Declares the parameter `name` of type `data_type`.
pub fn definition(name: &str, data_type: ParamDataType) -> (r: ParamDefinition)
    ensures
        r@ == (DefinitionView { name: name@, data_type }),
{
    ParamDefinition { name: name.to_owned(), data_type }
}

/// One entry that a template posts.
#[derive(Debug)]
pub struct TemplateEntry {
    pub entry_type: TemplateExpr,
    pub currency: TemplateExpr,
    pub account_id: TemplateExpr,
    pub direction: DebitOrCredit,
    pub layer: Layer,
    pub units: TemplateExpr,
}

/// An entry, over character sequences.
pub struct EntryView {
    pub entry_type: ExprView,
    pub currency: ExprView,
    pub account_id: ExprView,
    pub direction: DebitOrCredit,
    pub layer: Layer,
    pub units: ExprView,
}

impl View for TemplateEntry {
    type V = EntryView;

    open spec fn view(&self) -> EntryView {
        EntryView {
            entry_type: self.entry_type@,
            currency: self.currency@,
            account_id: self.account_id@,
            direction: self.direction,
            layer: self.layer,
            units: self.units@,
        }
    }
}

/// The transaction that a template records.
#[derive(Debug)]
pub struct TemplateTransaction {
    pub journal_id: TemplateExpr,
    pub effective: TemplateExpr,
    pub metadata: TemplateExpr,
    pub description: TemplateExpr,
}

/// A transaction, over character sequences.
pub struct TransactionView {
    pub journal_id: ExprView,
    pub effective: ExprView,
    pub metadata: ExprView,
    pub description: ExprView,
}

impl View for TemplateTransaction {
    type V = TransactionView;

    open spec fn view(&self) -> TransactionView {
        TransactionView {
            journal_id: self.journal_id@,
            effective: self.effective@,
            metadata: self.metadata@,
            description: self.description@,
        }
    }
}

/// A transaction template: its id and code, the transaction, the entries
/// and the parameters it declares.
#[derive(Debug)]
pub struct TxTemplate {
    pub id: u128,
    pub code: String,
    pub transaction: TemplateTransaction,
    pub entries: Vec<TemplateEntry>,
    pub params: Vec<ParamDefinition>,
}

/// A template, over character sequences.
pub struct TemplateView {
    pub id: u128,
    pub code: Seq<char>,
    pub transaction: TransactionView,
    pub entries: Seq<EntryView>,
    pub params: Seq<DefinitionView>,
}

impl View for TxTemplate {
    type V = TemplateView;

    open spec fn view(&self) -> TemplateView {
        TemplateView {
            id: self.id,
            code: self.code@,
            transaction: self.transaction@,
            entries: self.entries@.map_values(|e: TemplateEntry| e@),
            params: self.params@.map_values(|d: ParamDefinition| d@),
        }
    }
}

/// A value bound to a parameter. A decimal is `mantissa / 10^scale`; a
/// date is a day counted from the start of the common era; the metadata
/// names who initiated the transaction.
#[derive(Debug)]
pub enum ParamValue {
    Uuid(u128),
    Decimal { mantissa: i128, scale: u32 },
    Text(String),
    Date(i32),
    Meta { initiated_by: LedgerTransactionInitiator },
}

/// A bound value, over character sequences.
pub enum ValueView {
    Uuid(u128),
    Decimal { mantissa: i128, scale: u32 },
    Text(Seq<char>),
    Date(i32),
    Meta { initiated_by: LedgerTransactionInitiator },
}

impl View for ParamValue {
    type V = ValueView;

    open spec fn view(&self) -> ValueView {
        match self {
            ParamValue::Uuid(u) => ValueView::Uuid(*u),
            ParamValue::Decimal { mantissa, scale } => ValueView::Decimal { mantissa: *mantissa, scale: *scale },
            ParamValue::Text(s) => ValueView::Text(s@),
            ParamValue::Date(d) => ValueView::Date(*d),
            ParamValue::Meta { initiated_by } => ValueView::Meta { initiated_by: *initiated_by },
        }
    }
}

/// The declared type that a bound value has.
pub open spec fn value_type(v: ValueView) -> ParamDataType {
    match v {
        ValueView::Uuid(_) => ParamDataType::Uuid,
        ValueView::Decimal { .. } => ParamDataType::Decimal,
        ValueView::Text(_) => ParamDataType::String,
        ValueView::Date(_) => ParamDataType::Date,
        ValueView::Meta { .. } => ParamDataType::Json,
    }
}

/// A value bound to the parameter of a name.
#[derive(Debug)]
pub struct BoundParam {
    pub name: String,
    pub value: ParamValue,
}

/// The parameters bound for one posting of a template.
#[derive(Debug)]
pub struct Params {
    pub values: Vec<BoundParam>,
}

impl View for Params {
    type V = Seq<(Seq<char>, ValueView)>;

    open spec fn view(&self) -> Seq<(Seq<char>, ValueView)> {
        self.values@.map_values(|b: BoundParam| (b.name@, b.value@))
    }
}

/// Binds `value` to the parameter `name`.
pub fn bound(name: &str, value: ParamValue) -> (r: BoundParam)
    ensures
        r.name@ == name@,
        r.value@ == value@,
{
    BoundParam { name: name.to_owned(), value }
}

/// The expression reads a parameter declared in `defs`.
pub open spec fn declared(e: ExprView, defs: Seq<DefinitionView>) -> bool {
    match e {
        ExprView::Param(n) => exists|i: int| 0 <= i < defs.len() && #[trigger] defs[i].name == n,
        ExprView::Text(_) => true,
    }
}

/// Every parameter that the transaction or an entry reads is declared.
pub open spec fn reads_only_declared(t: TemplateView) -> bool {
    &&& declared(t.transaction.journal_id, t.params)
    &&& declared(t.transaction.effective, t.params)
    &&& declared(t.transaction.metadata, t.params)
    &&& declared(t.transaction.description, t.params)
    &&& forall|i: int|
        0 <= i < t.entries.len() ==> {
            &&& declared(#[trigger] t.entries[i].entry_type, t.params)
            &&& declared(t.entries[i].currency, t.params)
            &&& declared(t.entries[i].account_id, t.params)
            &&& declared(t.entries[i].units, t.params)
        }
}

/// The number of entries of `es` on `side` that post `units` of
/// `currency` to `layer`.
pub open spec fn count_on_side(
    es: Seq<EntryView>,
    currency: ExprView,
    units: ExprView,
    layer: Layer,
    side: DebitOrCredit,
) -> nat
    decreases es.len(),
{
    if es.len() == 0 {
        0
    } else {
        let e = es.last();
        count_on_side(es.drop_last(), currency, units, layer, side) + if e.currency == currency
            && e.units == units && e.layer == layer && e.direction == side {
            1nat
        } else {
            0nat
        }
    }
}

/// For every currency, amount and layer that an entry posts, as many
/// entries debit it as credit it: whatever values are bound, the template
/// posts balanced transactions.
pub open spec fn entries_balance(es: Seq<EntryView>) -> bool {
    forall|i: int|
        0 <= i < es.len() ==> count_on_side(
            es,
            #[trigger] es[i].currency,
            es[i].units,
            es[i].layer,
            DebitOrCredit::Debit,
        ) == count_on_side(es, es[i].currency, es[i].units, es[i].layer, DebitOrCredit::Credit)
}

/// The bound values fill the declared parameters one for one, in order,
/// each with a value of the declared type.
pub open spec fn binds_declared(defs: Seq<DefinitionView>, values: Seq<(Seq<char>, ValueView)>) -> bool {
    &&& values.len() == defs.len()
    &&& forall|i: int|
        0 <= i < defs.len() ==> {
            &&& (#[trigger] values[i]).0 == defs[i].name
            &&& value_type(values[i].1) == defs[i].data_type
        }
}

} // verus!
