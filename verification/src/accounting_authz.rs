//! The accounting module's permissions: its actions, the permission sets
//! that grant them, and the objects they act on.
use vstd::prelude::*;
use crate::authz::{
    action_mapping, after_first, all_or_one_from_text, all_or_one_text, before_first, chars_are, find_first,
    first_index_of, join_with, lacks, lemma_split_at_first, slice_chars, ActionMapping, ActionMappingView,
    AllOrOne, ParseError,
};
use crate::text::chars_of;

verus! {

/// The permission set `accounting_viewer`.
pub const PERMISSION_SET_ACCOUNTING_VIEWER: &'static str = "accounting_viewer";

/// The permission set `accounting_writer`.
pub const PERMISSION_SET_ACCOUNTING_WRITER: &'static str = "accounting_writer";

/// What can be done with the charts of accounts.
#[derive(Debug, Clone, Copy, PartialEq, Eq)]
pub enum ChartAction {
    Create,
    List,
    Update,
    ImportAccounts,
    CloseMonthly,
}

/// The kebab-case name of a charts of accounts action.
pub open spec fn chart_action_name(a: ChartAction) -> Seq<char> {
    match a {
        ChartAction::Create => "create"@,
        ChartAction::List => "list"@,
        ChartAction::Update => "update"@,
        ChartAction::ImportAccounts => "import-accounts"@,
        ChartAction::CloseMonthly => "close-monthly"@,
    }
}

/// The charts of accounts action that a name names, if any.
pub open spec fn chart_action_named(s: Seq<char>) -> Option<ChartAction> {
    if s == "create"@ {
        Some(ChartAction::Create)
    } else if s == "list"@ {
        Some(ChartAction::List)
    } else if s == "update"@ {
        Some(ChartAction::Update)
    } else if s == "import-accounts"@ {
        Some(ChartAction::ImportAccounts)
    } else if s == "close-monthly"@ {
        Some(ChartAction::CloseMonthly)
    } else {
        None
    }
}

/// The permission set that grants a charts of accounts action.
pub open spec fn chart_action_permission(a: ChartAction) -> Seq<char> {
    match a {
        ChartAction::Create => PERMISSION_SET_ACCOUNTING_WRITER@,
        ChartAction::List => PERMISSION_SET_ACCOUNTING_VIEWER@,
        ChartAction::Update => PERMISSION_SET_ACCOUNTING_WRITER@,
        ChartAction::ImportAccounts => PERMISSION_SET_ACCOUNTING_WRITER@,
        ChartAction::CloseMonthly => PERMISSION_SET_ACCOUNTING_WRITER@,
    }
}

/// The actions on the charts of accounts, in the order they are declared.
pub open spec fn chart_action_all() -> Seq<ChartAction> {
    seq![ChartAction::Create, ChartAction::List, ChartAction::Update, ChartAction::ImportAccounts, ChartAction::CloseMonthly]
}

impl ChartAction {
    /// The action's kebab-case name.
    pub fn as_str(&self) -> (r: &'static str)
        ensures
            r@ == chart_action_name(*self),
    {
        match self {
            ChartAction::Create => "create",
            ChartAction::List => "list",
            ChartAction::Update => "update",
            ChartAction::ImportAccounts => "import-accounts",
            ChartAction::CloseMonthly => "close-monthly",
        }
    }

    /// The action that the characters name, if any.
    pub fn from_chars(v: &Vec<char>) -> (r: Option<ChartAction>)
        ensures
            r == chart_action_named(v@),
    {
        if chars_are(v, "create") {
            return Some(ChartAction::Create);
        }
        if chars_are(v, "list") {
            return Some(ChartAction::List);
        }
        if chars_are(v, "update") {
            return Some(ChartAction::Update);
        }
        if chars_are(v, "import-accounts") {
            return Some(ChartAction::ImportAccounts);
        }
        if chars_are(v, "close-monthly") {
            return Some(ChartAction::CloseMonthly);
        }
        None
    }

    /// The action that a text names, if any.
    pub fn parse(s: &str) -> (r: Option<ChartAction>)
        ensures
            r == chart_action_named(s@),
    {
        let v = chars_of(s);
        Self::from_chars(&v)
    }

    /// The permission set that grants the action.
    pub fn permission_set(&self) -> (r: &'static str)
        ensures
            r@ == chart_action_permission(*self),
    {
        match self {
            ChartAction::Create => PERMISSION_SET_ACCOUNTING_WRITER,
            ChartAction::List => PERMISSION_SET_ACCOUNTING_VIEWER,
            ChartAction::Update => PERMISSION_SET_ACCOUNTING_WRITER,
            ChartAction::ImportAccounts => PERMISSION_SET_ACCOUNTING_WRITER,
            ChartAction::CloseMonthly => PERMISSION_SET_ACCOUNTING_WRITER,
        }
    }
}

proof fn lemma_chart_action_names(a: ChartAction)
    ensures
        chart_action_named(chart_action_name(a)) == Some(a),
        lacks(chart_action_name(a), ':'),
{
    reveal_strlit("create");
    reveal_strlit("list");
    reveal_strlit("update");
    reveal_strlit("import-accounts");
    reveal_strlit("close-monthly");
    assert("create"@.len() == 6 && "list"@.len() == 4);
    assert("create"@[0] == 'c' && "update"@[0] == 'u');
    assert("create"@.len() == 6 && "import-accounts"@.len() == 15);
    assert("create"@.len() == 6 && "close-monthly"@.len() == 13);
    assert("list"@.len() == 4 && "update"@.len() == 6);
    assert("list"@.len() == 4 && "import-accounts"@.len() == 15);
    assert("list"@.len() == 4 && "close-monthly"@.len() == 13);
    assert("update"@.len() == 6 && "import-accounts"@.len() == 15);
    assert("update"@.len() == 6 && "close-monthly"@.len() == 13);
    assert("import-accounts"@.len() == 15 && "close-monthly"@.len() == 13);
}

/// What can be done with the journals.
#[derive(Debug, Clone, Copy, PartialEq, Eq)]
pub enum JournalAction {
    ReadEntries,
}

/// The kebab-case name of a journals action.
pub open spec fn journal_action_name(a: JournalAction) -> Seq<char> {
    match a {
        JournalAction::ReadEntries => "read-entries"@,
    }
}

/// The journals action that a name names, if any.
pub open spec fn journal_action_named(s: Seq<char>) -> Option<JournalAction> {
    if s == "read-entries"@ {
        Some(JournalAction::ReadEntries)
    } else {
        None
    }
}

/// The permission set that grants a journals action.
pub open spec fn journal_action_permission(a: JournalAction) -> Seq<char> {
    match a {
        JournalAction::ReadEntries => PERMISSION_SET_ACCOUNTING_VIEWER@,
    }
}

/// The actions on the journals, in the order they are declared.
pub open spec fn journal_action_all() -> Seq<JournalAction> {
    seq![JournalAction::ReadEntries]
}

impl JournalAction {
    /// The action's kebab-case name.
    pub fn as_str(&self) -> (r: &'static str)
        ensures
            r@ == journal_action_name(*self),
    {
        match self {
            JournalAction::ReadEntries => "read-entries",
        }
    }

    /// The action that the characters name, if any.
    pub fn from_chars(v: &Vec<char>) -> (r: Option<JournalAction>)
        ensures
            r == journal_action_named(v@),
    {
        if chars_are(v, "read-entries") {
            return Some(JournalAction::ReadEntries);
        }
        None
    }

    /// The action that a text names, if any.
    pub fn parse(s: &str) -> (r: Option<JournalAction>)
        ensures
            r == journal_action_named(s@),
    {
        let v = chars_of(s);
        Self::from_chars(&v)
    }

    /// The permission set that grants the action.
    pub fn permission_set(&self) -> (r: &'static str)
        ensures
            r@ == journal_action_permission(*self),
    {
        match self {
            JournalAction::ReadEntries => PERMISSION_SET_ACCOUNTING_VIEWER,
        }
    }
}

proof fn lemma_journal_action_names(a: JournalAction)
    ensures
        journal_action_named(journal_action_name(a)) == Some(a),
        lacks(journal_action_name(a), ':'),
{
    reveal_strlit("read-entries");
}

/// What can be done with the ledger accounts.
#[derive(Debug, Clone, Copy, PartialEq, Eq)]
pub enum LedgerAccountAction {
    Read,
    List,
    ReadHistory,
}

/// The kebab-case name of a ledger accounts action.
pub open spec fn ledger_account_action_name(a: LedgerAccountAction) -> Seq<char> {
    match a {
        LedgerAccountAction::Read => "read"@,
        LedgerAccountAction::List => "list"@,
        LedgerAccountAction::ReadHistory => "read-history"@,
    }
}

/// The ledger accounts action that a name names, if any.
pub open spec fn ledger_account_action_named(s: Seq<char>) -> Option<LedgerAccountAction> {
    if s == "read"@ {
        Some(LedgerAccountAction::Read)
    } else if s == "list"@ {
        Some(LedgerAccountAction::List)
    } else if s == "read-history"@ {
        Some(LedgerAccountAction::ReadHistory)
    } else {
        None
    }
}

/// The permission set that grants a ledger accounts action.
pub open spec fn ledger_account_action_permission(a: LedgerAccountAction) -> Seq<char> {
    match a {
        LedgerAccountAction::Read => PERMISSION_SET_ACCOUNTING_VIEWER@,
        LedgerAccountAction::List => PERMISSION_SET_ACCOUNTING_VIEWER@,
        LedgerAccountAction::ReadHistory => PERMISSION_SET_ACCOUNTING_VIEWER@,
    }
}

/// The actions on the ledger accounts, in the order they are declared.
pub open spec fn ledger_account_action_all() -> Seq<LedgerAccountAction> {
    seq![LedgerAccountAction::Read, LedgerAccountAction::List, LedgerAccountAction::ReadHistory]
}

impl LedgerAccountAction {
    /// The action's kebab-case name.
    pub fn as_str(&self) -> (r: &'static str)
        ensures
            r@ == ledger_account_action_name(*self),
    {
        match self {
            LedgerAccountAction::Read => "read",
            LedgerAccountAction::List => "list",
            LedgerAccountAction::ReadHistory => "read-history",
        }
    }

    /// The action that the characters name, if any.
    pub fn from_chars(v: &Vec<char>) -> (r: Option<LedgerAccountAction>)
        ensures
            r == ledger_account_action_named(v@),
    {
        if chars_are(v, "read") {
            return Some(LedgerAccountAction::Read);
        }
        if chars_are(v, "list") {
            return Some(LedgerAccountAction::List);
        }
        if chars_are(v, "read-history") {
            return Some(LedgerAccountAction::ReadHistory);
        }
        None
    }

    /// The action that a text names, if any.
    pub fn parse(s: &str) -> (r: Option<LedgerAccountAction>)
        ensures
            r == ledger_account_action_named(s@),
    {
        let v = chars_of(s);
        Self::from_chars(&v)
    }

    /// The permission set that grants the action.
    pub fn permission_set(&self) -> (r: &'static str)
        ensures
            r@ == ledger_account_action_permission(*self),
    {
        match self {
            LedgerAccountAction::Read => PERMISSION_SET_ACCOUNTING_VIEWER,
            LedgerAccountAction::List => PERMISSION_SET_ACCOUNTING_VIEWER,
            LedgerAccountAction::ReadHistory => PERMISSION_SET_ACCOUNTING_VIEWER,
        }
    }
}

proof fn lemma_ledger_account_action_names(a: LedgerAccountAction)
    ensures
        ledger_account_action_named(ledger_account_action_name(a)) == Some(a),
        lacks(ledger_account_action_name(a), ':'),
{
    reveal_strlit("read");
    reveal_strlit("list");
    reveal_strlit("read-history");
    assert("read"@[0] == 'r' && "list"@[0] == 'l');
    assert("read"@.len() == 4 && "read-history"@.len() == 12);
    assert("list"@.len() == 4 && "read-history"@.len() == 12);
}

/// What can be done with the ledger transactions.
#[derive(Debug, Clone, Copy, PartialEq, Eq)]
pub enum LedgerTransactionAction {
    Read,
    List,
    ReadHistory,
}

/// The kebab-case name of a ledger transactions action.
pub open spec fn ledger_transaction_action_name(a: LedgerTransactionAction) -> Seq<char> {
    match a {
        LedgerTransactionAction::Read => "read"@,
        LedgerTransactionAction::List => "list"@,
        LedgerTransactionAction::ReadHistory => "read-history"@,
    }
}

/// The ledger transactions action that a name names, if any.
pub open spec fn ledger_transaction_action_named(s: Seq<char>) -> Option<LedgerTransactionAction> {
    if s == "read"@ {
        Some(LedgerTransactionAction::Read)
    } else if s == "list"@ {
        Some(LedgerTransactionAction::List)
    } else if s == "read-history"@ {
        Some(LedgerTransactionAction::ReadHistory)
    } else {
        None
    }
}

/// The permission set that grants a ledger transactions action.
pub open spec fn ledger_transaction_action_permission(a: LedgerTransactionAction) -> Seq<char> {
    match a {
        LedgerTransactionAction::Read => PERMISSION_SET_ACCOUNTING_VIEWER@,
        LedgerTransactionAction::List => PERMISSION_SET_ACCOUNTING_VIEWER@,
        LedgerTransactionAction::ReadHistory => PERMISSION_SET_ACCOUNTING_VIEWER@,
    }
}

/// The actions on the ledger transactions, in the order they are declared.
pub open spec fn ledger_transaction_action_all() -> Seq<LedgerTransactionAction> {
    seq![LedgerTransactionAction::Read, LedgerTransactionAction::List, LedgerTransactionAction::ReadHistory]
}

impl LedgerTransactionAction {
    /// The action's kebab-case name.
    pub fn as_str(&self) -> (r: &'static str)
        ensures
            r@ == ledger_transaction_action_name(*self),
    {
        match self {
            LedgerTransactionAction::Read => "read",
            LedgerTransactionAction::List => "list",
            LedgerTransactionAction::ReadHistory => "read-history",
        }
    }

    /// The action that the characters name, if any.
    pub fn from_chars(v: &Vec<char>) -> (r: Option<LedgerTransactionAction>)
        ensures
            r == ledger_transaction_action_named(v@),
    {
        if chars_are(v, "read") {
            return Some(LedgerTransactionAction::Read);
        }
        if chars_are(v, "list") {
            return Some(LedgerTransactionAction::List);
        }
        if chars_are(v, "read-history") {
            return Some(LedgerTransactionAction::ReadHistory);
        }
        None
    }

    /// The action that a text names, if any.
    pub fn parse(s: &str) -> (r: Option<LedgerTransactionAction>)
        ensures
            r == ledger_transaction_action_named(s@),
    {
        let v = chars_of(s);
        Self::from_chars(&v)
    }

    /// The permission set that grants the action.
    pub fn permission_set(&self) -> (r: &'static str)
        ensures
            r@ == ledger_transaction_action_permission(*self),
    {
        match self {
            LedgerTransactionAction::Read => PERMISSION_SET_ACCOUNTING_VIEWER,
            LedgerTransactionAction::List => PERMISSION_SET_ACCOUNTING_VIEWER,
            LedgerTransactionAction::ReadHistory => PERMISSION_SET_ACCOUNTING_VIEWER,
        }
    }
}

proof fn lemma_ledger_transaction_action_names(a: LedgerTransactionAction)
    ensures
        ledger_transaction_action_named(ledger_transaction_action_name(a)) == Some(a),
        lacks(ledger_transaction_action_name(a), ':'),
{
    reveal_strlit("read");
    reveal_strlit("list");
    reveal_strlit("read-history");
    assert("read"@[0] == 'r' && "list"@[0] == 'l');
    assert("read"@.len() == 4 && "read-history"@.len() == 12);
    assert("list"@.len() == 4 && "read-history"@.len() == 12);
}

/// What can be done with the transaction templates.
#[derive(Debug, Clone, Copy, PartialEq, Eq)]
pub enum TransactionTemplateAction {
    List,
}

/// The kebab-case name of a transaction templates action.
pub open spec fn transaction_template_action_name(a: TransactionTemplateAction) -> Seq<char> {
    match a {
        TransactionTemplateAction::List => "list"@,
    }
}

/// The transaction templates action that a name names, if any.
pub open spec fn transaction_template_action_named(s: Seq<char>) -> Option<TransactionTemplateAction> {
    if s == "list"@ {
        Some(TransactionTemplateAction::List)
    } else {
        None
    }
}

/// The permission set that grants a transaction templates action.
pub open spec fn transaction_template_action_permission(a: TransactionTemplateAction) -> Seq<char> {
    match a {
        TransactionTemplateAction::List => PERMISSION_SET_ACCOUNTING_VIEWER@,
    }
}

/// The actions on the transaction templates, in the order they are declared.
pub open spec fn transaction_template_action_all() -> Seq<TransactionTemplateAction> {
    seq![TransactionTemplateAction::List]
}

impl TransactionTemplateAction {
    /// The action's kebab-case name.
    pub fn as_str(&self) -> (r: &'static str)
        ensures
            r@ == transaction_template_action_name(*self),
    {
        match self {
            TransactionTemplateAction::List => "list",
        }
    }

    /// The action that the characters name, if any.
    pub fn from_chars(v: &Vec<char>) -> (r: Option<TransactionTemplateAction>)
        ensures
            r == transaction_template_action_named(v@),
    {
        if chars_are(v, "list") {
            return Some(TransactionTemplateAction::List);
        }
        None
    }

    /// The action that a text names, if any.
    pub fn parse(s: &str) -> (r: Option<TransactionTemplateAction>)
        ensures
            r == transaction_template_action_named(s@),
    {
        let v = chars_of(s);
        Self::from_chars(&v)
    }

    /// The permission set that grants the action.
    pub fn permission_set(&self) -> (r: &'static str)
        ensures
            r@ == transaction_template_action_permission(*self),
    {
        match self {
            TransactionTemplateAction::List => PERMISSION_SET_ACCOUNTING_VIEWER,
        }
    }
}

proof fn lemma_transaction_template_action_names(a: TransactionTemplateAction)
    ensures
        transaction_template_action_named(transaction_template_action_name(a)) == Some(a),
        lacks(transaction_template_action_name(a), ':'),
{
    reveal_strlit("list");
}

/// What can be done with the manual transactions.
#[derive(Debug, Clone, Copy, PartialEq, Eq)]
pub enum ManualTransactionAction {
    Read,
    Create,
    List,
}

/// The kebab-case name of a manual transactions action.
pub open spec fn manual_transaction_action_name(a: ManualTransactionAction) -> Seq<char> {
    match a {
        ManualTransactionAction::Read => "read"@,
        ManualTransactionAction::Create => "create"@,
        ManualTransactionAction::List => "list"@,
    }
}

/// The manual transactions action that a name names, if any.
pub open spec fn manual_transaction_action_named(s: Seq<char>) -> Option<ManualTransactionAction> {
    if s == "read"@ {
        Some(ManualTransactionAction::Read)
    } else if s == "create"@ {
        Some(ManualTransactionAction::Create)
    } else if s == "list"@ {
        Some(ManualTransactionAction::List)
    } else {
        None
    }
}

/// The permission set that grants a manual transactions action.
pub open spec fn manual_transaction_action_permission(a: ManualTransactionAction) -> Seq<char> {
    match a {
        ManualTransactionAction::Read => PERMISSION_SET_ACCOUNTING_VIEWER@,
        ManualTransactionAction::Create => PERMISSION_SET_ACCOUNTING_WRITER@,
        ManualTransactionAction::List => PERMISSION_SET_ACCOUNTING_VIEWER@,
    }
}

/// The actions on the manual transactions, in the order they are declared.
pub open spec fn manual_transaction_action_all() -> Seq<ManualTransactionAction> {
    seq![ManualTransactionAction::Read, ManualTransactionAction::Create, ManualTransactionAction::List]
}

impl ManualTransactionAction {
    /// The action's kebab-case name.
    pub fn as_str(&self) -> (r: &'static str)
        ensures
            r@ == manual_transaction_action_name(*self),
    {
        match self {
            ManualTransactionAction::Read => "read",
            ManualTransactionAction::Create => "create",
            ManualTransactionAction::List => "list",
        }
    }

    /// The action that the characters name, if any.
    pub fn from_chars(v: &Vec<char>) -> (r: Option<ManualTransactionAction>)
        ensures
            r == manual_transaction_action_named(v@),
    {
        if chars_are(v, "read") {
            return Some(ManualTransactionAction::Read);
        }
        if chars_are(v, "create") {
            return Some(ManualTransactionAction::Create);
        }
        if chars_are(v, "list") {
            return Some(ManualTransactionAction::List);
        }
        None
    }

    /// The action that a text names, if any.
    pub fn parse(s: &str) -> (r: Option<ManualTransactionAction>)
        ensures
            r == manual_transaction_action_named(s@),
    {
        let v = chars_of(s);
        Self::from_chars(&v)
    }

    /// The permission set that grants the action.
    pub fn permission_set(&self) -> (r: &'static str)
        ensures
            r@ == manual_transaction_action_permission(*self),
    {
        match self {
            ManualTransactionAction::Read => PERMISSION_SET_ACCOUNTING_VIEWER,
            ManualTransactionAction::Create => PERMISSION_SET_ACCOUNTING_WRITER,
            ManualTransactionAction::List => PERMISSION_SET_ACCOUNTING_VIEWER,
        }
    }
}

proof fn lemma_manual_transaction_action_names(a: ManualTransactionAction)
    ensures
        manual_transaction_action_named(manual_transaction_action_name(a)) == Some(a),
        lacks(manual_transaction_action_name(a), ':'),
{
    reveal_strlit("read");
    reveal_strlit("create");
    reveal_strlit("list");
    assert("read"@.len() == 4 && "create"@.len() == 6);
    assert("read"@[0] == 'r' && "list"@[0] == 'l');
    assert("create"@.len() == 6 && "list"@.len() == 4);
}

/// What can be done with the profit and loss statements.
#[derive(Debug, Clone, Copy, PartialEq, Eq)]
pub enum ProfitAndLossAction {
    Read,
    Create,
    Update,
}

/// The kebab-case name of a profit and loss statements action.
pub open spec fn profit_and_loss_action_name(a: ProfitAndLossAction) -> Seq<char> {
    match a {
        ProfitAndLossAction::Read => "read"@,
        ProfitAndLossAction::Create => "create"@,
        ProfitAndLossAction::Update => "update"@,
    }
}

/// The profit and loss statements action that a name names, if any.
pub open spec fn profit_and_loss_action_named(s: Seq<char>) -> Option<ProfitAndLossAction> {
    if s == "read"@ {
        Some(ProfitAndLossAction::Read)
    } else if s == "create"@ {
        Some(ProfitAndLossAction::Create)
    } else if s == "update"@ {
        Some(ProfitAndLossAction::Update)
    } else {
        None
    }
}

/// The permission set that grants a profit and loss statements action.
pub open spec fn profit_and_loss_action_permission(a: ProfitAndLossAction) -> Seq<char> {
    match a {
        ProfitAndLossAction::Read => PERMISSION_SET_ACCOUNTING_VIEWER@,
        ProfitAndLossAction::Create => PERMISSION_SET_ACCOUNTING_WRITER@,
        ProfitAndLossAction::Update => PERMISSION_SET_ACCOUNTING_WRITER@,
    }
}

/// The actions on the profit and loss statements, in the order they are declared.
pub open spec fn profit_and_loss_action_all() -> Seq<ProfitAndLossAction> {
    seq![ProfitAndLossAction::Read, ProfitAndLossAction::Create, ProfitAndLossAction::Update]
}

impl ProfitAndLossAction {
    /// The action's kebab-case name.
    pub fn as_str(&self) -> (r: &'static str)
        ensures
            r@ == profit_and_loss_action_name(*self),
    {
        match self {
            ProfitAndLossAction::Read => "read",
            ProfitAndLossAction::Create => "create",
            ProfitAndLossAction::Update => "update",
        }
    }

    /// The action that the characters name, if any.
    pub fn from_chars(v: &Vec<char>) -> (r: Option<ProfitAndLossAction>)
        ensures
            r == profit_and_loss_action_named(v@),
    {
        if chars_are(v, "read") {
            return Some(ProfitAndLossAction::Read);
        }
        if chars_are(v, "create") {
            return Some(ProfitAndLossAction::Create);
        }
        if chars_are(v, "update") {
            return Some(ProfitAndLossAction::Update);
        }
        None
    }

    /// The action that a text names, if any.
    pub fn parse(s: &str) -> (r: Option<ProfitAndLossAction>)
        ensures
            r == profit_and_loss_action_named(s@),
    {
        let v = chars_of(s);
        Self::from_chars(&v)
    }

    /// The permission set that grants the action.
    pub fn permission_set(&self) -> (r: &'static str)
        ensures
            r@ == profit_and_loss_action_permission(*self),
    {
        match self {
            ProfitAndLossAction::Read => PERMISSION_SET_ACCOUNTING_VIEWER,
            ProfitAndLossAction::Create => PERMISSION_SET_ACCOUNTING_WRITER,
            ProfitAndLossAction::Update => PERMISSION_SET_ACCOUNTING_WRITER,
        }
    }
}

proof fn lemma_profit_and_loss_action_names(a: ProfitAndLossAction)
    ensures
        profit_and_loss_action_named(profit_and_loss_action_name(a)) == Some(a),
        lacks(profit_and_loss_action_name(a), ':'),
{
    reveal_strlit("read");
    reveal_strlit("create");
    reveal_strlit("update");
    assert("read"@.len() == 4 && "create"@.len() == 6);
    assert("read"@.len() == 4 && "update"@.len() == 6);
    assert("create"@[0] == 'c' && "update"@[0] == 'u');
}

/// What can be done with the profit and loss configuration.
#[derive(Debug, Clone, Copy, PartialEq, Eq)]
pub enum ProfitAndLossConfigurationAction {
    Read,
    Update,
}

/// The kebab-case name of a profit and loss configuration action.
pub open spec fn profit_and_loss_configuration_action_name(a: ProfitAndLossConfigurationAction) -> Seq<char> {
    match a {
        ProfitAndLossConfigurationAction::Read => "read"@,
        ProfitAndLossConfigurationAction::Update => "update"@,
    }
}

/// The profit and loss configuration action that a name names, if any.
pub open spec fn profit_and_loss_configuration_action_named(s: Seq<char>) -> Option<ProfitAndLossConfigurationAction> {
    if s == "read"@ {
        Some(ProfitAndLossConfigurationAction::Read)
    } else if s == "update"@ {
        Some(ProfitAndLossConfigurationAction::Update)
    } else {
        None
    }
}

/// The permission set that grants a profit and loss configuration action.
pub open spec fn profit_and_loss_configuration_action_permission(a: ProfitAndLossConfigurationAction) -> Seq<char> {
    match a {
        ProfitAndLossConfigurationAction::Read => PERMISSION_SET_ACCOUNTING_VIEWER@,
        ProfitAndLossConfigurationAction::Update => PERMISSION_SET_ACCOUNTING_WRITER@,
    }
}

/// The actions on the profit and loss configuration, in the order they are declared.
pub open spec fn profit_and_loss_configuration_action_all() -> Seq<ProfitAndLossConfigurationAction> {
    seq![ProfitAndLossConfigurationAction::Read, ProfitAndLossConfigurationAction::Update]
}

impl ProfitAndLossConfigurationAction {
    /// The action's kebab-case name.
    pub fn as_str(&self) -> (r: &'static str)
        ensures
            r@ == profit_and_loss_configuration_action_name(*self),
    {
        match self {
            ProfitAndLossConfigurationAction::Read => "read",
            ProfitAndLossConfigurationAction::Update => "update",
        }
    }

    /// The action that the characters name, if any.
    pub fn from_chars(v: &Vec<char>) -> (r: Option<ProfitAndLossConfigurationAction>)
        ensures
            r == profit_and_loss_configuration_action_named(v@),
    {
        if chars_are(v, "read") {
            return Some(ProfitAndLossConfigurationAction::Read);
        }
        if chars_are(v, "update") {
            return Some(ProfitAndLossConfigurationAction::Update);
        }
        None
    }

    /// The action that a text names, if any.
    pub fn parse(s: &str) -> (r: Option<ProfitAndLossConfigurationAction>)
        ensures
            r == profit_and_loss_configuration_action_named(s@),
    {
        let v = chars_of(s);
        Self::from_chars(&v)
    }

    /// The permission set that grants the action.
    pub fn permission_set(&self) -> (r: &'static str)
        ensures
            r@ == profit_and_loss_configuration_action_permission(*self),
    {
        match self {
            ProfitAndLossConfigurationAction::Read => PERMISSION_SET_ACCOUNTING_VIEWER,
            ProfitAndLossConfigurationAction::Update => PERMISSION_SET_ACCOUNTING_WRITER,
        }
    }
}

proof fn lemma_profit_and_loss_configuration_action_names(a: ProfitAndLossConfigurationAction)
    ensures
        profit_and_loss_configuration_action_named(profit_and_loss_configuration_action_name(a)) == Some(a),
        lacks(profit_and_loss_configuration_action_name(a), ':'),
{
    reveal_strlit("read");
    reveal_strlit("update");
    assert("read"@.len() == 4 && "update"@.len() == 6);
}

/// What can be done with the balance sheets.
#[derive(Debug, Clone, Copy, PartialEq, Eq)]
pub enum BalanceSheetAction {
    Read,
    Create,
}

/// The kebab-case name of a balance sheets action.
pub open spec fn balance_sheet_action_name(a: BalanceSheetAction) -> Seq<char> {
    match a {
        BalanceSheetAction::Read => "read"@,
        BalanceSheetAction::Create => "create"@,
    }
}

/// The balance sheets action that a name names, if any.
pub open spec fn balance_sheet_action_named(s: Seq<char>) -> Option<BalanceSheetAction> {
    if s == "read"@ {
        Some(BalanceSheetAction::Read)
    } else if s == "create"@ {
        Some(BalanceSheetAction::Create)
    } else {
        None
    }
}

/// The permission set that grants a balance sheets action.
pub open spec fn balance_sheet_action_permission(a: BalanceSheetAction) -> Seq<char> {
    match a {
        BalanceSheetAction::Read => PERMISSION_SET_ACCOUNTING_VIEWER@,
        BalanceSheetAction::Create => PERMISSION_SET_ACCOUNTING_WRITER@,
    }
}

/// The actions on the balance sheets, in the order they are declared.
pub open spec fn balance_sheet_action_all() -> Seq<BalanceSheetAction> {
    seq![BalanceSheetAction::Read, BalanceSheetAction::Create]
}

impl BalanceSheetAction {
    /// The action's kebab-case name.
    pub fn as_str(&self) -> (r: &'static str)
        ensures
            r@ == balance_sheet_action_name(*self),
    {
        match self {
            BalanceSheetAction::Read => "read",
            BalanceSheetAction::Create => "create",
        }
    }

    /// The action that the characters name, if any.
    pub fn from_chars(v: &Vec<char>) -> (r: Option<BalanceSheetAction>)
        ensures
            r == balance_sheet_action_named(v@),
    {
        if chars_are(v, "read") {
            return Some(BalanceSheetAction::Read);
        }
        if chars_are(v, "create") {
            return Some(BalanceSheetAction::Create);
        }
        None
    }

    /// The action that a text names, if any.
    pub fn parse(s: &str) -> (r: Option<BalanceSheetAction>)
        ensures
            r == balance_sheet_action_named(s@),
    {
        let v = chars_of(s);
        Self::from_chars(&v)
    }

    /// The permission set that grants the action.
    pub fn permission_set(&self) -> (r: &'static str)
        ensures
            r@ == balance_sheet_action_permission(*self),
    {
        match self {
            BalanceSheetAction::Read => PERMISSION_SET_ACCOUNTING_VIEWER,
            BalanceSheetAction::Create => PERMISSION_SET_ACCOUNTING_WRITER,
        }
    }
}

proof fn lemma_balance_sheet_action_names(a: BalanceSheetAction)
    ensures
        balance_sheet_action_named(balance_sheet_action_name(a)) == Some(a),
        lacks(balance_sheet_action_name(a), ':'),
{
    reveal_strlit("read");
    reveal_strlit("create");
    assert("read"@.len() == 4 && "create"@.len() == 6);
}

/// What can be done with the balance sheet configuration.
#[derive(Debug, Clone, Copy, PartialEq, Eq)]
pub enum BalanceSheetConfigurationAction {
    Read,
    Update,
}

/// The kebab-case name of a balance sheet configuration action.
pub open spec fn balance_sheet_configuration_action_name(a: BalanceSheetConfigurationAction) -> Seq<char> {
    match a {
        BalanceSheetConfigurationAction::Read => "read"@,
        BalanceSheetConfigurationAction::Update => "update"@,
    }
}

/// The balance sheet configuration action that a name names, if any.
pub open spec fn balance_sheet_configuration_action_named(s: Seq<char>) -> Option<BalanceSheetConfigurationAction> {
    if s == "read"@ {
        Some(BalanceSheetConfigurationAction::Read)
    } else if s == "update"@ {
        Some(BalanceSheetConfigurationAction::Update)
    } else {
        None
    }
}

/// The permission set that grants a balance sheet configuration action.
pub open spec fn balance_sheet_configuration_action_permission(a: BalanceSheetConfigurationAction) -> Seq<char> {
    match a {
        BalanceSheetConfigurationAction::Read => PERMISSION_SET_ACCOUNTING_VIEWER@,
        BalanceSheetConfigurationAction::Update => PERMISSION_SET_ACCOUNTING_WRITER@,
    }
}

/// The actions on the balance sheet configuration, in the order they are declared.
pub open spec fn balance_sheet_configuration_action_all() -> Seq<BalanceSheetConfigurationAction> {
    seq![BalanceSheetConfigurationAction::Read, BalanceSheetConfigurationAction::Update]
}

impl BalanceSheetConfigurationAction {
    /// The action's kebab-case name.
    pub fn as_str(&self) -> (r: &'static str)
        ensures
            r@ == balance_sheet_configuration_action_name(*self),
    {
        match self {
            BalanceSheetConfigurationAction::Read => "read",
            BalanceSheetConfigurationAction::Update => "update",
        }
    }

    /// The action that the characters name, if any.
    pub fn from_chars(v: &Vec<char>) -> (r: Option<BalanceSheetConfigurationAction>)
        ensures
            r == balance_sheet_configuration_action_named(v@),
    {
        if chars_are(v, "read") {
            return Some(BalanceSheetConfigurationAction::Read);
        }
        if chars_are(v, "update") {
            return Some(BalanceSheetConfigurationAction::Update);
        }
        None
    }

    /// The action that a text names, if any.
    pub fn parse(s: &str) -> (r: Option<BalanceSheetConfigurationAction>)
        ensures
            r == balance_sheet_configuration_action_named(s@),
    {
        let v = chars_of(s);
        Self::from_chars(&v)
    }

    /// The permission set that grants the action.
    pub fn permission_set(&self) -> (r: &'static str)
        ensures
            r@ == balance_sheet_configuration_action_permission(*self),
    {
        match self {
            BalanceSheetConfigurationAction::Read => PERMISSION_SET_ACCOUNTING_VIEWER,
            BalanceSheetConfigurationAction::Update => PERMISSION_SET_ACCOUNTING_WRITER,
        }
    }
}

proof fn lemma_balance_sheet_configuration_action_names(a: BalanceSheetConfigurationAction)
    ensures
        balance_sheet_configuration_action_named(balance_sheet_configuration_action_name(a)) == Some(a),
        lacks(balance_sheet_configuration_action_name(a), ':'),
{
    reveal_strlit("read");
    reveal_strlit("update");
    assert("read"@.len() == 4 && "update"@.len() == 6);
}

/// What can be done with the accounting CSV exports.
#[derive(Debug, Clone, Copy, PartialEq, Eq)]
pub enum AccountingCsvAction {
    Create,
    Generate,
    Read,
    List,
    Download,
}

/// The kebab-case name of a accounting CSV exports action.
pub open spec fn accounting_csv_action_name(a: AccountingCsvAction) -> Seq<char> {
    match a {
        AccountingCsvAction::Create => "create"@,
        AccountingCsvAction::Generate => "generate"@,
        AccountingCsvAction::Read => "read"@,
        AccountingCsvAction::List => "list"@,
        AccountingCsvAction::Download => "download"@,
    }
}

/// The accounting CSV exports action that a name names, if any.
pub open spec fn accounting_csv_action_named(s: Seq<char>) -> Option<AccountingCsvAction> {
    if s == "create"@ {
        Some(AccountingCsvAction::Create)
    } else if s == "generate"@ {
        Some(AccountingCsvAction::Generate)
    } else if s == "read"@ {
        Some(AccountingCsvAction::Read)
    } else if s == "list"@ {
        Some(AccountingCsvAction::List)
    } else if s == "download"@ {
        Some(AccountingCsvAction::Download)
    } else {
        None
    }
}

/// The permission set that grants a accounting CSV exports action.
pub open spec fn accounting_csv_action_permission(a: AccountingCsvAction) -> Seq<char> {
    match a {
        AccountingCsvAction::Create => PERMISSION_SET_ACCOUNTING_WRITER@,
        AccountingCsvAction::Generate => PERMISSION_SET_ACCOUNTING_WRITER@,
        AccountingCsvAction::Read => PERMISSION_SET_ACCOUNTING_VIEWER@,
        AccountingCsvAction::List => PERMISSION_SET_ACCOUNTING_VIEWER@,
        AccountingCsvAction::Download => PERMISSION_SET_ACCOUNTING_VIEWER@,
    }
}

/// The actions on the accounting CSV exports, in the order they are declared.
pub open spec fn accounting_csv_action_all() -> Seq<AccountingCsvAction> {
    seq![AccountingCsvAction::Create, AccountingCsvAction::Generate, AccountingCsvAction::Read, AccountingCsvAction::List, AccountingCsvAction::Download]
}

impl AccountingCsvAction {
    /// The action's kebab-case name.
    pub fn as_str(&self) -> (r: &'static str)
        ensures
            r@ == accounting_csv_action_name(*self),
    {
        match self {
            AccountingCsvAction::Create => "create",
            AccountingCsvAction::Generate => "generate",
            AccountingCsvAction::Read => "read",
            AccountingCsvAction::List => "list",
            AccountingCsvAction::Download => "download",
        }
    }

    /// The action that the characters name, if any.
    pub fn from_chars(v: &Vec<char>) -> (r: Option<AccountingCsvAction>)
        ensures
            r == accounting_csv_action_named(v@),
    {
        if chars_are(v, "create") {
            return Some(AccountingCsvAction::Create);
        }
        if chars_are(v, "generate") {
            return Some(AccountingCsvAction::Generate);
        }
        if chars_are(v, "read") {
            return Some(AccountingCsvAction::Read);
        }
        if chars_are(v, "list") {
            return Some(AccountingCsvAction::List);
        }
        if chars_are(v, "download") {
            return Some(AccountingCsvAction::Download);
        }
        None
    }

    /// The action that a text names, if any.
    pub fn parse(s: &str) -> (r: Option<AccountingCsvAction>)
        ensures
            r == accounting_csv_action_named(s@),
    {
        let v = chars_of(s);
        Self::from_chars(&v)
    }

    /// The permission set that grants the action.
    pub fn permission_set(&self) -> (r: &'static str)
        ensures
            r@ == accounting_csv_action_permission(*self),
    {
        match self {
            AccountingCsvAction::Create => PERMISSION_SET_ACCOUNTING_WRITER,
            AccountingCsvAction::Generate => PERMISSION_SET_ACCOUNTING_WRITER,
            AccountingCsvAction::Read => PERMISSION_SET_ACCOUNTING_VIEWER,
            AccountingCsvAction::List => PERMISSION_SET_ACCOUNTING_VIEWER,
            AccountingCsvAction::Download => PERMISSION_SET_ACCOUNTING_VIEWER,
        }
    }
}

proof fn lemma_accounting_csv_action_names(a: AccountingCsvAction)
    ensures
        accounting_csv_action_named(accounting_csv_action_name(a)) == Some(a),
        lacks(accounting_csv_action_name(a), ':'),
{
    reveal_strlit("create");
    reveal_strlit("generate");
    reveal_strlit("read");
    reveal_strlit("list");
    reveal_strlit("download");
    assert("create"@.len() == 6 && "generate"@.len() == 8);
    assert("create"@.len() == 6 && "read"@.len() == 4);
    assert("create"@.len() == 6 && "list"@.len() == 4);
    assert("create"@.len() == 6 && "download"@.len() == 8);
    assert("generate"@.len() == 8 && "read"@.len() == 4);
    assert("generate"@.len() == 8 && "list"@.len() == 4);
    assert("generate"@[0] == 'g' && "download"@[0] == 'd');
    assert("read"@[0] == 'r' && "list"@[0] == 'l');
    assert("read"@.len() == 4 && "download"@.len() == 8);
    assert("list"@.len() == 4 && "download"@.len() == 8);
}

/// What can be done with the trial balances.
#[derive(Debug, Clone, Copy, PartialEq, Eq)]
pub enum TrialBalanceAction {
    Create,
    Read,
    Update,
}

/// The kebab-case name of a trial balances action.
pub open spec fn trial_balance_action_name(a: TrialBalanceAction) -> Seq<char> {
    match a {
        TrialBalanceAction::Create => "create"@,
        TrialBalanceAction::Read => "read"@,
        TrialBalanceAction::Update => "update"@,
    }
}

/// The trial balances action that a name names, if any.
pub open spec fn trial_balance_action_named(s: Seq<char>) -> Option<TrialBalanceAction> {
    if s == "create"@ {
        Some(TrialBalanceAction::Create)
    } else if s == "read"@ {
        Some(TrialBalanceAction::Read)
    } else if s == "update"@ {
        Some(TrialBalanceAction::Update)
    } else {
        None
    }
}

/// The permission set that grants a trial balances action.
pub open spec fn trial_balance_action_permission(a: TrialBalanceAction) -> Seq<char> {
    match a {
        TrialBalanceAction::Create => PERMISSION_SET_ACCOUNTING_WRITER@,
        TrialBalanceAction::Read => PERMISSION_SET_ACCOUNTING_VIEWER@,
        TrialBalanceAction::Update => PERMISSION_SET_ACCOUNTING_WRITER@,
    }
}

/// The actions on the trial balances, in the order they are declared.
pub open spec fn trial_balance_action_all() -> Seq<TrialBalanceAction> {
    seq![TrialBalanceAction::Create, TrialBalanceAction::Read, TrialBalanceAction::Update]
}

impl TrialBalanceAction {
    /// The action's kebab-case name.
    pub fn as_str(&self) -> (r: &'static str)
        ensures
            r@ == trial_balance_action_name(*self),
    {
        match self {
            TrialBalanceAction::Create => "create",
            TrialBalanceAction::Read => "read",
            TrialBalanceAction::Update => "update",
        }
    }

    /// The action that the characters name, if any.
    pub fn from_chars(v: &Vec<char>) -> (r: Option<TrialBalanceAction>)
        ensures
            r == trial_balance_action_named(v@),
    {
        if chars_are(v, "create") {
            return Some(TrialBalanceAction::Create);
        }
        if chars_are(v, "read") {
            return Some(TrialBalanceAction::Read);
        }
        if chars_are(v, "update") {
            return Some(TrialBalanceAction::Update);
        }
        None
    }

    /// The action that a text names, if any.
    pub fn parse(s: &str) -> (r: Option<TrialBalanceAction>)
        ensures
            r == trial_balance_action_named(s@),
    {
        let v = chars_of(s);
        Self::from_chars(&v)
    }

    /// The permission set that grants the action.
    pub fn permission_set(&self) -> (r: &'static str)
        ensures
            r@ == trial_balance_action_permission(*self),
    {
        match self {
            TrialBalanceAction::Create => PERMISSION_SET_ACCOUNTING_WRITER,
            TrialBalanceAction::Read => PERMISSION_SET_ACCOUNTING_VIEWER,
            TrialBalanceAction::Update => PERMISSION_SET_ACCOUNTING_WRITER,
        }
    }
}

proof fn lemma_trial_balance_action_names(a: TrialBalanceAction)
    ensures
        trial_balance_action_named(trial_balance_action_name(a)) == Some(a),
        lacks(trial_balance_action_name(a), ':'),
{
    reveal_strlit("create");
    reveal_strlit("read");
    reveal_strlit("update");
    assert("create"@.len() == 6 && "read"@.len() == 4);
    assert("create"@[0] == 'c' && "update"@[0] == 'u');
    assert("read"@.len() == 4 && "update"@.len() == 6);
}

/// What can be done with the fiscal years.
#[derive(Debug, Clone, Copy, PartialEq, Eq)]
pub enum FiscalYearAction {
    Create,
    Read,
    List,
    CloseMonth,
    Close,
}

/// The kebab-case name of a fiscal years action.
pub open spec fn fiscal_year_action_name(a: FiscalYearAction) -> Seq<char> {
    match a {
        FiscalYearAction::Create => "create"@,
        FiscalYearAction::Read => "read"@,
        FiscalYearAction::List => "list"@,
        FiscalYearAction::CloseMonth => "close-month"@,
        FiscalYearAction::Close => "close"@,
    }
}

/// The fiscal years action that a name names, if any.
pub open spec fn fiscal_year_action_named(s: Seq<char>) -> Option<FiscalYearAction> {
    if s == "create"@ {
        Some(FiscalYearAction::Create)
    } else if s == "read"@ {
        Some(FiscalYearAction::Read)
    } else if s == "list"@ {
        Some(FiscalYearAction::List)
    } else if s == "close-month"@ {
        Some(FiscalYearAction::CloseMonth)
    } else if s == "close"@ {
        Some(FiscalYearAction::Close)
    } else {
        None
    }
}

/// The permission set that grants a fiscal years action.
pub open spec fn fiscal_year_action_permission(a: FiscalYearAction) -> Seq<char> {
    match a {
        FiscalYearAction::Create => PERMISSION_SET_ACCOUNTING_WRITER@,
        FiscalYearAction::Read => PERMISSION_SET_ACCOUNTING_VIEWER@,
        FiscalYearAction::List => PERMISSION_SET_ACCOUNTING_VIEWER@,
        FiscalYearAction::CloseMonth => PERMISSION_SET_ACCOUNTING_WRITER@,
        FiscalYearAction::Close => PERMISSION_SET_ACCOUNTING_WRITER@,
    }
}

/// The actions on the fiscal years, in the order they are declared.
pub open spec fn fiscal_year_action_all() -> Seq<FiscalYearAction> {
    seq![FiscalYearAction::Create, FiscalYearAction::Read, FiscalYearAction::List, FiscalYearAction::CloseMonth, FiscalYearAction::Close]
}

impl FiscalYearAction {
    /// The action's kebab-case name.
    pub fn as_str(&self) -> (r: &'static str)
        ensures
            r@ == fiscal_year_action_name(*self),
    {
        match self {
            FiscalYearAction::Create => "create",
            FiscalYearAction::Read => "read",
            FiscalYearAction::List => "list",
            FiscalYearAction::CloseMonth => "close-month",
            FiscalYearAction::Close => "close",
        }
    }

    /// The action that the characters name, if any.
    pub fn from_chars(v: &Vec<char>) -> (r: Option<FiscalYearAction>)
        ensures
            r == fiscal_year_action_named(v@),
    {
        if chars_are(v, "create") {
            return Some(FiscalYearAction::Create);
        }
        if chars_are(v, "read") {
            return Some(FiscalYearAction::Read);
        }
        if chars_are(v, "list") {
            return Some(FiscalYearAction::List);
        }
        if chars_are(v, "close-month") {
            return Some(FiscalYearAction::CloseMonth);
        }
        if chars_are(v, "close") {
            return Some(FiscalYearAction::Close);
        }
        None
    }

    /// The action that a text names, if any.
    pub fn parse(s: &str) -> (r: Option<FiscalYearAction>)
        ensures
            r == fiscal_year_action_named(s@),
    {
        let v = chars_of(s);
        Self::from_chars(&v)
    }

    /// The permission set that grants the action.
    pub fn permission_set(&self) -> (r: &'static str)
        ensures
            r@ == fiscal_year_action_permission(*self),
    {
        match self {
            FiscalYearAction::Create => PERMISSION_SET_ACCOUNTING_WRITER,
            FiscalYearAction::Read => PERMISSION_SET_ACCOUNTING_VIEWER,
            FiscalYearAction::List => PERMISSION_SET_ACCOUNTING_VIEWER,
            FiscalYearAction::CloseMonth => PERMISSION_SET_ACCOUNTING_WRITER,
            FiscalYearAction::Close => PERMISSION_SET_ACCOUNTING_WRITER,
        }
    }
}

proof fn lemma_fiscal_year_action_names(a: FiscalYearAction)
    ensures
        fiscal_year_action_named(fiscal_year_action_name(a)) == Some(a),
        lacks(fiscal_year_action_name(a), ':'),
{
    reveal_strlit("create");
    reveal_strlit("read");
    reveal_strlit("list");
    reveal_strlit("close-month");
    reveal_strlit("close");
    assert("create"@.len() == 6 && "read"@.len() == 4);
    assert("create"@.len() == 6 && "list"@.len() == 4);
    assert("create"@.len() == 6 && "close-month"@.len() == 11);
    assert("create"@.len() == 6 && "close"@.len() == 5);
    assert("read"@[0] == 'r' && "list"@[0] == 'l');
    assert("read"@.len() == 4 && "close-month"@.len() == 11);
    assert("read"@.len() == 4 && "close"@.len() == 5);
    assert("list"@.len() == 4 && "close-month"@.len() == 11);
    assert("list"@.len() == 4 && "close"@.len() == 5);
    assert("close-month"@.len() == 11 && "close"@.len() == 5);
}

/// An action of the module: the entity it is on and what is done.
#[derive(Debug, Clone, Copy, PartialEq, Eq)]
pub enum CoreAccountingAction {
    Chart(ChartAction),
    Journal(JournalAction),
    LedgerAccount(LedgerAccountAction),
    LedgerTransaction(LedgerTransactionAction),
    TransactionTemplate(TransactionTemplateAction),
    ManualTransaction(ManualTransactionAction),
    ProfitAndLoss(ProfitAndLossAction),
    ProfitAndLossConfiguration(ProfitAndLossConfigurationAction),
    BalanceSheet(BalanceSheetAction),
    BalanceSheetConfiguration(BalanceSheetConfigurationAction),
    AccountingCsv(AccountingCsvAction),
    TrialBalance(TrialBalanceAction),
    FiscalYear(FiscalYearAction),
}

/// The text of an action: the entity's name, `:`, the action's name.
pub open spec fn accounting_action_text(a: CoreAccountingAction) -> Seq<char> {
    match a {
        CoreAccountingAction::Chart(x) => "chart"@ + seq![':'] + chart_action_name(x),
        CoreAccountingAction::Journal(x) => "journal"@ + seq![':'] + journal_action_name(x),
        CoreAccountingAction::LedgerAccount(x) => "ledger-account"@ + seq![':'] + ledger_account_action_name(x),
        CoreAccountingAction::LedgerTransaction(x) => "ledger-transaction"@ + seq![':'] + ledger_transaction_action_name(x),
        CoreAccountingAction::TransactionTemplate(x) => "transaction-template"@ + seq![':'] + transaction_template_action_name(x),
        CoreAccountingAction::ManualTransaction(x) => "manual-transaction"@ + seq![':'] + manual_transaction_action_name(x),
        CoreAccountingAction::ProfitAndLoss(x) => "profit-and-loss"@ + seq![':'] + profit_and_loss_action_name(x),
        CoreAccountingAction::ProfitAndLossConfiguration(x) => "profit-and-loss-configuration"@ + seq![':'] + profit_and_loss_configuration_action_name(x),
        CoreAccountingAction::BalanceSheet(x) => "balance-sheet"@ + seq![':'] + balance_sheet_action_name(x),
        CoreAccountingAction::BalanceSheetConfiguration(x) => "balance-sheet-configuration"@ + seq![':'] + balance_sheet_configuration_action_name(x),
        CoreAccountingAction::AccountingCsv(x) => "accounting-csv"@ + seq![':'] + accounting_csv_action_name(x),
        CoreAccountingAction::TrialBalance(x) => "trial-balance"@ + seq![':'] + trial_balance_action_name(x),
        CoreAccountingAction::FiscalYear(x) => "fiscal-year"@ + seq![':'] + fiscal_year_action_name(x),
    }
}

/// The verb of an action text: all that follows its first `:`.
pub open spec fn accounting_action_verb(s: Seq<char>) -> Seq<char> {
    after_first(s, ':')
}

/// The action that a text names: its entity before the first `:`, its
/// verb after; a name of neither is an error.
pub open spec fn accounting_action_parsed(s: Seq<char>) -> Result<CoreAccountingAction, ParseError> {
    let entity = before_first(s, ':');
    let verb = accounting_action_verb(s);
    if entity == "chart"@ {
        match chart_action_named(verb) {
            Some(x) => Ok(CoreAccountingAction::Chart(x)),
            None => Err(ParseError::VariantNotFound),
        }
    } else if entity == "journal"@ {
        match journal_action_named(verb) {
            Some(x) => Ok(CoreAccountingAction::Journal(x)),
            None => Err(ParseError::VariantNotFound),
        }
    } else if entity == "ledger-account"@ {
        match ledger_account_action_named(verb) {
            Some(x) => Ok(CoreAccountingAction::LedgerAccount(x)),
            None => Err(ParseError::VariantNotFound),
        }
    } else if entity == "ledger-transaction"@ {
        match ledger_transaction_action_named(verb) {
            Some(x) => Ok(CoreAccountingAction::LedgerTransaction(x)),
            None => Err(ParseError::VariantNotFound),
        }
    } else if entity == "transaction-template"@ {
        match transaction_template_action_named(verb) {
            Some(x) => Ok(CoreAccountingAction::TransactionTemplate(x)),
            None => Err(ParseError::VariantNotFound),
        }
    } else if entity == "manual-transaction"@ {
        match manual_transaction_action_named(verb) {
            Some(x) => Ok(CoreAccountingAction::ManualTransaction(x)),
            None => Err(ParseError::VariantNotFound),
        }
    } else if entity == "profit-and-loss"@ {
        match profit_and_loss_action_named(verb) {
            Some(x) => Ok(CoreAccountingAction::ProfitAndLoss(x)),
            None => Err(ParseError::VariantNotFound),
        }
    } else if entity == "profit-and-loss-configuration"@ {
        match profit_and_loss_configuration_action_named(verb) {
            Some(x) => Ok(CoreAccountingAction::ProfitAndLossConfiguration(x)),
            None => Err(ParseError::VariantNotFound),
        }
    } else if entity == "balance-sheet"@ {
        match balance_sheet_action_named(verb) {
            Some(x) => Ok(CoreAccountingAction::BalanceSheet(x)),
            None => Err(ParseError::VariantNotFound),
        }
    } else if entity == "balance-sheet-configuration"@ {
        match balance_sheet_configuration_action_named(verb) {
            Some(x) => Ok(CoreAccountingAction::BalanceSheetConfiguration(x)),
            None => Err(ParseError::VariantNotFound),
        }
    } else if entity == "accounting-csv"@ {
        match accounting_csv_action_named(verb) {
            Some(x) => Ok(CoreAccountingAction::AccountingCsv(x)),
            None => Err(ParseError::VariantNotFound),
        }
    } else if entity == "trial-balance"@ {
        match trial_balance_action_named(verb) {
            Some(x) => Ok(CoreAccountingAction::TrialBalance(x)),
            None => Err(ParseError::VariantNotFound),
        }
    } else if entity == "fiscal-year"@ {
        match fiscal_year_action_named(verb) {
            Some(x) => Ok(CoreAccountingAction::FiscalYear(x)),
            None => Err(ParseError::VariantNotFound),
        }
    } else {
        Err(ParseError::VariantNotFound)
    }
}

/// The permission set that grants an action.
pub open spec fn accounting_action_permission(a: CoreAccountingAction) -> Seq<char> {
    match a {
        CoreAccountingAction::Chart(x) => chart_action_permission(x),
        CoreAccountingAction::Journal(x) => journal_action_permission(x),
        CoreAccountingAction::LedgerAccount(x) => ledger_account_action_permission(x),
        CoreAccountingAction::LedgerTransaction(x) => ledger_transaction_action_permission(x),
        CoreAccountingAction::TransactionTemplate(x) => transaction_template_action_permission(x),
        CoreAccountingAction::ManualTransaction(x) => manual_transaction_action_permission(x),
        CoreAccountingAction::ProfitAndLoss(x) => profit_and_loss_action_permission(x),
        CoreAccountingAction::ProfitAndLossConfiguration(x) => profit_and_loss_configuration_action_permission(x),
        CoreAccountingAction::BalanceSheet(x) => balance_sheet_action_permission(x),
        CoreAccountingAction::BalanceSheetConfiguration(x) => balance_sheet_configuration_action_permission(x),
        CoreAccountingAction::AccountingCsv(x) => accounting_csv_action_permission(x),
        CoreAccountingAction::TrialBalance(x) => trial_balance_action_permission(x),
        CoreAccountingAction::FiscalYear(x) => fiscal_year_action_permission(x),
    }
}

/// The mapping the permission store records for an action.
pub open spec fn accounting_action_mapping(a: CoreAccountingAction) -> ActionMappingView {
    match a {
        CoreAccountingAction::Chart(x) => ActionMappingView {
            module: "accounting"@,
            entity: "chart"@,
            action: chart_action_name(x),
            permission_set: chart_action_permission(x),
        },
        CoreAccountingAction::Journal(x) => ActionMappingView {
            module: "accounting"@,
            entity: "journal"@,
            action: journal_action_name(x),
            permission_set: journal_action_permission(x),
        },
        CoreAccountingAction::LedgerAccount(x) => ActionMappingView {
            module: "accounting"@,
            entity: "ledger-account"@,
            action: ledger_account_action_name(x),
            permission_set: ledger_account_action_permission(x),
        },
        CoreAccountingAction::LedgerTransaction(x) => ActionMappingView {
            module: "accounting"@,
            entity: "ledger-transaction"@,
            action: ledger_transaction_action_name(x),
            permission_set: ledger_transaction_action_permission(x),
        },
        CoreAccountingAction::TransactionTemplate(x) => ActionMappingView {
            module: "accounting"@,
            entity: "transaction-template"@,
            action: transaction_template_action_name(x),
            permission_set: transaction_template_action_permission(x),
        },
        CoreAccountingAction::ManualTransaction(x) => ActionMappingView {
            module: "accounting"@,
            entity: "manual-transaction"@,
            action: manual_transaction_action_name(x),
            permission_set: manual_transaction_action_permission(x),
        },
        CoreAccountingAction::ProfitAndLoss(x) => ActionMappingView {
            module: "accounting"@,
            entity: "profit-and-loss"@,
            action: profit_and_loss_action_name(x),
            permission_set: profit_and_loss_action_permission(x),
        },
        CoreAccountingAction::ProfitAndLossConfiguration(x) => ActionMappingView {
            module: "accounting"@,
            entity: "profit-and-loss-configuration"@,
            action: profit_and_loss_configuration_action_name(x),
            permission_set: profit_and_loss_configuration_action_permission(x),
        },
        CoreAccountingAction::BalanceSheet(x) => ActionMappingView {
            module: "accounting"@,
            entity: "balance-sheet"@,
            action: balance_sheet_action_name(x),
            permission_set: balance_sheet_action_permission(x),
        },
        CoreAccountingAction::BalanceSheetConfiguration(x) => ActionMappingView {
            module: "accounting"@,
            entity: "balance-sheet-configuration"@,
            action: balance_sheet_configuration_action_name(x),
            permission_set: balance_sheet_configuration_action_permission(x),
        },
        CoreAccountingAction::AccountingCsv(x) => ActionMappingView {
            module: "accounting"@,
            entity: "accounting-csv"@,
            action: accounting_csv_action_name(x),
            permission_set: accounting_csv_action_permission(x),
        },
        CoreAccountingAction::TrialBalance(x) => ActionMappingView {
            module: "accounting"@,
            entity: "trial-balance"@,
            action: trial_balance_action_name(x),
            permission_set: trial_balance_action_permission(x),
        },
        CoreAccountingAction::FiscalYear(x) => ActionMappingView {
            module: "accounting"@,
            entity: "fiscal-year"@,
            action: fiscal_year_action_name(x),
            permission_set: fiscal_year_action_permission(x),
        },
    }
}

/// Every action of the module, entity by entity and, within an entity, in
/// the order its actions are declared.
pub open spec fn accounting_all_actions() -> Seq<CoreAccountingAction> {
    chart_action_all().map_values(|x: ChartAction| CoreAccountingAction::Chart(x))
        + journal_action_all().map_values(|x: JournalAction| CoreAccountingAction::Journal(x))
        + ledger_account_action_all().map_values(|x: LedgerAccountAction| CoreAccountingAction::LedgerAccount(x))
        + ledger_transaction_action_all().map_values(|x: LedgerTransactionAction| CoreAccountingAction::LedgerTransaction(x))
        + transaction_template_action_all().map_values(|x: TransactionTemplateAction| CoreAccountingAction::TransactionTemplate(x))
        + manual_transaction_action_all().map_values(|x: ManualTransactionAction| CoreAccountingAction::ManualTransaction(x))
        + profit_and_loss_action_all().map_values(|x: ProfitAndLossAction| CoreAccountingAction::ProfitAndLoss(x))
        + profit_and_loss_configuration_action_all().map_values(|x: ProfitAndLossConfigurationAction| CoreAccountingAction::ProfitAndLossConfiguration(x))
        + balance_sheet_action_all().map_values(|x: BalanceSheetAction| CoreAccountingAction::BalanceSheet(x))
        + balance_sheet_configuration_action_all().map_values(|x: BalanceSheetConfigurationAction| CoreAccountingAction::BalanceSheetConfiguration(x))
        + accounting_csv_action_all().map_values(|x: AccountingCsvAction| CoreAccountingAction::AccountingCsv(x))
        + trial_balance_action_all().map_values(|x: TrialBalanceAction| CoreAccountingAction::TrialBalance(x))
        + fiscal_year_action_all().map_values(|x: FiscalYearAction| CoreAccountingAction::FiscalYear(x))
}

/// What the permission store records for every action of the module, in
/// the order of accounting_all_actions.
pub open spec fn accounting_all_action_mappings() -> Seq<ActionMappingView> {
    chart_action_all().map_values(|x: ChartAction| accounting_action_mapping(CoreAccountingAction::Chart(x)))
        + journal_action_all().map_values(|x: JournalAction| accounting_action_mapping(CoreAccountingAction::Journal(x)))
        + ledger_account_action_all().map_values(|x: LedgerAccountAction| accounting_action_mapping(CoreAccountingAction::LedgerAccount(x)))
        + ledger_transaction_action_all().map_values(|x: LedgerTransactionAction| accounting_action_mapping(CoreAccountingAction::LedgerTransaction(x)))
        + transaction_template_action_all().map_values(|x: TransactionTemplateAction| accounting_action_mapping(CoreAccountingAction::TransactionTemplate(x)))
        + manual_transaction_action_all().map_values(|x: ManualTransactionAction| accounting_action_mapping(CoreAccountingAction::ManualTransaction(x)))
        + profit_and_loss_action_all().map_values(|x: ProfitAndLossAction| accounting_action_mapping(CoreAccountingAction::ProfitAndLoss(x)))
        + profit_and_loss_configuration_action_all().map_values(|x: ProfitAndLossConfigurationAction| accounting_action_mapping(CoreAccountingAction::ProfitAndLossConfiguration(x)))
        + balance_sheet_action_all().map_values(|x: BalanceSheetAction| accounting_action_mapping(CoreAccountingAction::BalanceSheet(x)))
        + balance_sheet_configuration_action_all().map_values(|x: BalanceSheetConfigurationAction| accounting_action_mapping(CoreAccountingAction::BalanceSheetConfiguration(x)))
        + accounting_csv_action_all().map_values(|x: AccountingCsvAction| accounting_action_mapping(CoreAccountingAction::AccountingCsv(x)))
        + trial_balance_action_all().map_values(|x: TrialBalanceAction| accounting_action_mapping(CoreAccountingAction::TrialBalance(x)))
        + fiscal_year_action_all().map_values(|x: FiscalYearAction| accounting_action_mapping(CoreAccountingAction::FiscalYear(x)))
}

/// What the permission store records for the actions on the charts of accounts.
fn chart_action_mappings() -> (r: Vec<ActionMapping>)
    ensures
        r@.map_values(|m: ActionMapping| m@) == chart_action_all().map_values(|x: ChartAction| accounting_action_mapping(CoreAccountingAction::Chart(x))),
{
    let mut r: Vec<ActionMapping> = Vec::new();
    r.push(action_mapping("accounting", "chart", "create", ChartAction::Create.permission_set()));
    r.push(action_mapping("accounting", "chart", "list", ChartAction::List.permission_set()));
    r.push(action_mapping("accounting", "chart", "update", ChartAction::Update.permission_set()));
    r.push(action_mapping("accounting", "chart", "import-accounts", ChartAction::ImportAccounts.permission_set()));
    r.push(action_mapping("accounting", "chart", "close-monthly", ChartAction::CloseMonthly.permission_set()));
    assert(r@.map_values(|m: ActionMapping| m@) =~= chart_action_all().map_values(|x: ChartAction| accounting_action_mapping(CoreAccountingAction::Chart(x))));
    r
}

/// What the permission store records for the actions on the journals.
fn journal_action_mappings() -> (r: Vec<ActionMapping>)
    ensures
        r@.map_values(|m: ActionMapping| m@) == journal_action_all().map_values(|x: JournalAction| accounting_action_mapping(CoreAccountingAction::Journal(x))),
{
    let mut r: Vec<ActionMapping> = Vec::new();
    r.push(action_mapping("accounting", "journal", "read-entries", JournalAction::ReadEntries.permission_set()));
    assert(r@.map_values(|m: ActionMapping| m@) =~= journal_action_all().map_values(|x: JournalAction| accounting_action_mapping(CoreAccountingAction::Journal(x))));
    r
}

/// What the permission store records for the actions on the ledger accounts.
fn ledger_account_action_mappings() -> (r: Vec<ActionMapping>)
    ensures
        r@.map_values(|m: ActionMapping| m@) == ledger_account_action_all().map_values(|x: LedgerAccountAction| accounting_action_mapping(CoreAccountingAction::LedgerAccount(x))),
{
    let mut r: Vec<ActionMapping> = Vec::new();
    r.push(action_mapping("accounting", "ledger-account", "read", LedgerAccountAction::Read.permission_set()));
    r.push(action_mapping("accounting", "ledger-account", "list", LedgerAccountAction::List.permission_set()));
    r.push(action_mapping("accounting", "ledger-account", "read-history", LedgerAccountAction::ReadHistory.permission_set()));
    assert(r@.map_values(|m: ActionMapping| m@) =~= ledger_account_action_all().map_values(|x: LedgerAccountAction| accounting_action_mapping(CoreAccountingAction::LedgerAccount(x))));
    r
}

/// What the permission store records for the actions on the ledger transactions.
fn ledger_transaction_action_mappings() -> (r: Vec<ActionMapping>)
    ensures
        r@.map_values(|m: ActionMapping| m@) == ledger_transaction_action_all().map_values(|x: LedgerTransactionAction| accounting_action_mapping(CoreAccountingAction::LedgerTransaction(x))),
{
    let mut r: Vec<ActionMapping> = Vec::new();
    r.push(action_mapping("accounting", "ledger-transaction", "read", LedgerTransactionAction::Read.permission_set()));
    r.push(action_mapping("accounting", "ledger-transaction", "list", LedgerTransactionAction::List.permission_set()));
    r.push(action_mapping("accounting", "ledger-transaction", "read-history", LedgerTransactionAction::ReadHistory.permission_set()));
    assert(r@.map_values(|m: ActionMapping| m@) =~= ledger_transaction_action_all().map_values(|x: LedgerTransactionAction| accounting_action_mapping(CoreAccountingAction::LedgerTransaction(x))));
    r
}

/// What the permission store records for the actions on the transaction templates.
fn transaction_template_action_mappings() -> (r: Vec<ActionMapping>)
    ensures
        r@.map_values(|m: ActionMapping| m@) == transaction_template_action_all().map_values(|x: TransactionTemplateAction| accounting_action_mapping(CoreAccountingAction::TransactionTemplate(x))),
{
    let mut r: Vec<ActionMapping> = Vec::new();
    r.push(action_mapping("accounting", "transaction-template", "list", TransactionTemplateAction::List.permission_set()));
    assert(r@.map_values(|m: ActionMapping| m@) =~= transaction_template_action_all().map_values(|x: TransactionTemplateAction| accounting_action_mapping(CoreAccountingAction::TransactionTemplate(x))));
    r
}

/// What the permission store records for the actions on the manual transactions.
fn manual_transaction_action_mappings() -> (r: Vec<ActionMapping>)
    ensures
        r@.map_values(|m: ActionMapping| m@) == manual_transaction_action_all().map_values(|x: ManualTransactionAction| accounting_action_mapping(CoreAccountingAction::ManualTransaction(x))),
{
    let mut r: Vec<ActionMapping> = Vec::new();
    r.push(action_mapping("accounting", "manual-transaction", "read", ManualTransactionAction::Read.permission_set()));
    r.push(action_mapping("accounting", "manual-transaction", "create", ManualTransactionAction::Create.permission_set()));
    r.push(action_mapping("accounting", "manual-transaction", "list", ManualTransactionAction::List.permission_set()));
    assert(r@.map_values(|m: ActionMapping| m@) =~= manual_transaction_action_all().map_values(|x: ManualTransactionAction| accounting_action_mapping(CoreAccountingAction::ManualTransaction(x))));
    r
}

/// What the permission store records for the actions on the profit and loss statements.
fn profit_and_loss_action_mappings() -> (r: Vec<ActionMapping>)
    ensures
        r@.map_values(|m: ActionMapping| m@) == profit_and_loss_action_all().map_values(|x: ProfitAndLossAction| accounting_action_mapping(CoreAccountingAction::ProfitAndLoss(x))),
{
    let mut r: Vec<ActionMapping> = Vec::new();
    r.push(action_mapping("accounting", "profit-and-loss", "read", ProfitAndLossAction::Read.permission_set()));
    r.push(action_mapping("accounting", "profit-and-loss", "create", ProfitAndLossAction::Create.permission_set()));
    r.push(action_mapping("accounting", "profit-and-loss", "update", ProfitAndLossAction::Update.permission_set()));
    assert(r@.map_values(|m: ActionMapping| m@) =~= profit_and_loss_action_all().map_values(|x: ProfitAndLossAction| accounting_action_mapping(CoreAccountingAction::ProfitAndLoss(x))));
    r
}

/// What the permission store records for the actions on the profit and loss configuration.
fn profit_and_loss_configuration_action_mappings() -> (r: Vec<ActionMapping>)
    ensures
        r@.map_values(|m: ActionMapping| m@) == profit_and_loss_configuration_action_all().map_values(|x: ProfitAndLossConfigurationAction| accounting_action_mapping(CoreAccountingAction::ProfitAndLossConfiguration(x))),
{
    let mut r: Vec<ActionMapping> = Vec::new();
    r.push(action_mapping("accounting", "profit-and-loss-configuration", "read", ProfitAndLossConfigurationAction::Read.permission_set()));
    r.push(action_mapping("accounting", "profit-and-loss-configuration", "update", ProfitAndLossConfigurationAction::Update.permission_set()));
    assert(r@.map_values(|m: ActionMapping| m@) =~= profit_and_loss_configuration_action_all().map_values(|x: ProfitAndLossConfigurationAction| accounting_action_mapping(CoreAccountingAction::ProfitAndLossConfiguration(x))));
    r
}

/// What the permission store records for the actions on the balance sheets.
fn balance_sheet_action_mappings() -> (r: Vec<ActionMapping>)
    ensures
        r@.map_values(|m: ActionMapping| m@) == balance_sheet_action_all().map_values(|x: BalanceSheetAction| accounting_action_mapping(CoreAccountingAction::BalanceSheet(x))),
{
    let mut r: Vec<ActionMapping> = Vec::new();
    r.push(action_mapping("accounting", "balance-sheet", "read", BalanceSheetAction::Read.permission_set()));
    r.push(action_mapping("accounting", "balance-sheet", "create", BalanceSheetAction::Create.permission_set()));
    assert(r@.map_values(|m: ActionMapping| m@) =~= balance_sheet_action_all().map_values(|x: BalanceSheetAction| accounting_action_mapping(CoreAccountingAction::BalanceSheet(x))));
    r
}

/// What the permission store records for the actions on the balance sheet configuration.
fn balance_sheet_configuration_action_mappings() -> (r: Vec<ActionMapping>)
    ensures
        r@.map_values(|m: ActionMapping| m@) == balance_sheet_configuration_action_all().map_values(|x: BalanceSheetConfigurationAction| accounting_action_mapping(CoreAccountingAction::BalanceSheetConfiguration(x))),
{
    let mut r: Vec<ActionMapping> = Vec::new();
    r.push(action_mapping("accounting", "balance-sheet-configuration", "read", BalanceSheetConfigurationAction::Read.permission_set()));
    r.push(action_mapping("accounting", "balance-sheet-configuration", "update", BalanceSheetConfigurationAction::Update.permission_set()));
    assert(r@.map_values(|m: ActionMapping| m@) =~= balance_sheet_configuration_action_all().map_values(|x: BalanceSheetConfigurationAction| accounting_action_mapping(CoreAccountingAction::BalanceSheetConfiguration(x))));
    r
}

/// What the permission store records for the actions on the accounting CSV exports.
fn accounting_csv_action_mappings() -> (r: Vec<ActionMapping>)
    ensures
        r@.map_values(|m: ActionMapping| m@) == accounting_csv_action_all().map_values(|x: AccountingCsvAction| accounting_action_mapping(CoreAccountingAction::AccountingCsv(x))),
{
    let mut r: Vec<ActionMapping> = Vec::new();
    r.push(action_mapping("accounting", "accounting-csv", "create", AccountingCsvAction::Create.permission_set()));
    r.push(action_mapping("accounting", "accounting-csv", "generate", AccountingCsvAction::Generate.permission_set()));
    r.push(action_mapping("accounting", "accounting-csv", "read", AccountingCsvAction::Read.permission_set()));
    r.push(action_mapping("accounting", "accounting-csv", "list", AccountingCsvAction::List.permission_set()));
    r.push(action_mapping("accounting", "accounting-csv", "download", AccountingCsvAction::Download.permission_set()));
    assert(r@.map_values(|m: ActionMapping| m@) =~= accounting_csv_action_all().map_values(|x: AccountingCsvAction| accounting_action_mapping(CoreAccountingAction::AccountingCsv(x))));
    r
}

/// What the permission store records for the actions on the trial balances.
fn trial_balance_action_mappings() -> (r: Vec<ActionMapping>)
    ensures
        r@.map_values(|m: ActionMapping| m@) == trial_balance_action_all().map_values(|x: TrialBalanceAction| accounting_action_mapping(CoreAccountingAction::TrialBalance(x))),
{
    let mut r: Vec<ActionMapping> = Vec::new();
    r.push(action_mapping("accounting", "trial-balance", "create", TrialBalanceAction::Create.permission_set()));
    r.push(action_mapping("accounting", "trial-balance", "read", TrialBalanceAction::Read.permission_set()));
    r.push(action_mapping("accounting", "trial-balance", "update", TrialBalanceAction::Update.permission_set()));
    assert(r@.map_values(|m: ActionMapping| m@) =~= trial_balance_action_all().map_values(|x: TrialBalanceAction| accounting_action_mapping(CoreAccountingAction::TrialBalance(x))));
    r
}

/// What the permission store records for the actions on the fiscal years.
fn fiscal_year_action_mappings() -> (r: Vec<ActionMapping>)
    ensures
        r@.map_values(|m: ActionMapping| m@) == fiscal_year_action_all().map_values(|x: FiscalYearAction| accounting_action_mapping(CoreAccountingAction::FiscalYear(x))),
{
    let mut r: Vec<ActionMapping> = Vec::new();
    r.push(action_mapping("accounting", "fiscal-year", "create", FiscalYearAction::Create.permission_set()));
    r.push(action_mapping("accounting", "fiscal-year", "read", FiscalYearAction::Read.permission_set()));
    r.push(action_mapping("accounting", "fiscal-year", "list", FiscalYearAction::List.permission_set()));
    r.push(action_mapping("accounting", "fiscal-year", "close-month", FiscalYearAction::CloseMonth.permission_set()));
    r.push(action_mapping("accounting", "fiscal-year", "close", FiscalYearAction::Close.permission_set()));
    assert(r@.map_values(|m: ActionMapping| m@) =~= fiscal_year_action_all().map_values(|x: FiscalYearAction| accounting_action_mapping(CoreAccountingAction::FiscalYear(x))));
    r
}

impl CoreAccountingAction {
    /// The action's text: the entity's name, `:`, the action's name.
    pub fn to_string(&self) -> (r: String)
        ensures
            r@ == accounting_action_text(*self),
    {
        match self {
            CoreAccountingAction::Chart(x) => join_with("chart", ':', x.as_str()),
            CoreAccountingAction::Journal(x) => join_with("journal", ':', x.as_str()),
            CoreAccountingAction::LedgerAccount(x) => join_with("ledger-account", ':', x.as_str()),
            CoreAccountingAction::LedgerTransaction(x) => join_with("ledger-transaction", ':', x.as_str()),
            CoreAccountingAction::TransactionTemplate(x) => join_with("transaction-template", ':', x.as_str()),
            CoreAccountingAction::ManualTransaction(x) => join_with("manual-transaction", ':', x.as_str()),
            CoreAccountingAction::ProfitAndLoss(x) => join_with("profit-and-loss", ':', x.as_str()),
            CoreAccountingAction::ProfitAndLossConfiguration(x) => join_with("profit-and-loss-configuration", ':', x.as_str()),
            CoreAccountingAction::BalanceSheet(x) => join_with("balance-sheet", ':', x.as_str()),
            CoreAccountingAction::BalanceSheetConfiguration(x) => join_with("balance-sheet-configuration", ':', x.as_str()),
            CoreAccountingAction::AccountingCsv(x) => join_with("accounting-csv", ':', x.as_str()),
            CoreAccountingAction::TrialBalance(x) => join_with("trial-balance", ':', x.as_str()),
            CoreAccountingAction::FiscalYear(x) => join_with("fiscal-year", ':', x.as_str()),
        }
    }

    /// The action that a text names. The text must hold a `:`.
    pub fn from_str(s: &str) -> (r: Result<CoreAccountingAction, ParseError>)
        requires
            first_index_of(s@, ':') < s@.len(),
        ensures
            r == accounting_action_parsed(s@),
    {
        let v = chars_of(s);
        let colon = find_first(&v, ':');
        let entity = slice_chars(&v, 0, colon);
        let rest = slice_chars(&v, colon + 1, v.len());
        let verb = rest;
        assert(verb@ == after_first(s@, ':'));
        assert(entity@ == before_first(s@, ':'));
        if chars_are(&entity, "chart") {
            return match ChartAction::from_chars(&verb) {
                Some(x) => Ok(CoreAccountingAction::Chart(x)),
                None => Err(ParseError::VariantNotFound),
            };
        }
        if chars_are(&entity, "journal") {
            return match JournalAction::from_chars(&verb) {
                Some(x) => Ok(CoreAccountingAction::Journal(x)),
                None => Err(ParseError::VariantNotFound),
            };
        }
        if chars_are(&entity, "ledger-account") {
            return match LedgerAccountAction::from_chars(&verb) {
                Some(x) => Ok(CoreAccountingAction::LedgerAccount(x)),
                None => Err(ParseError::VariantNotFound),
            };
        }
        if chars_are(&entity, "ledger-transaction") {
            return match LedgerTransactionAction::from_chars(&verb) {
                Some(x) => Ok(CoreAccountingAction::LedgerTransaction(x)),
                None => Err(ParseError::VariantNotFound),
            };
        }
        if chars_are(&entity, "transaction-template") {
            return match TransactionTemplateAction::from_chars(&verb) {
                Some(x) => Ok(CoreAccountingAction::TransactionTemplate(x)),
                None => Err(ParseError::VariantNotFound),
            };
        }
        if chars_are(&entity, "manual-transaction") {
            return match ManualTransactionAction::from_chars(&verb) {
                Some(x) => Ok(CoreAccountingAction::ManualTransaction(x)),
                None => Err(ParseError::VariantNotFound),
            };
        }
        if chars_are(&entity, "profit-and-loss") {
            return match ProfitAndLossAction::from_chars(&verb) {
                Some(x) => Ok(CoreAccountingAction::ProfitAndLoss(x)),
                None => Err(ParseError::VariantNotFound),
            };
        }
        if chars_are(&entity, "profit-and-loss-configuration") {
            return match ProfitAndLossConfigurationAction::from_chars(&verb) {
                Some(x) => Ok(CoreAccountingAction::ProfitAndLossConfiguration(x)),
                None => Err(ParseError::VariantNotFound),
            };
        }
        if chars_are(&entity, "balance-sheet") {
            return match BalanceSheetAction::from_chars(&verb) {
                Some(x) => Ok(CoreAccountingAction::BalanceSheet(x)),
                None => Err(ParseError::VariantNotFound),
            };
        }
        if chars_are(&entity, "balance-sheet-configuration") {
            return match BalanceSheetConfigurationAction::from_chars(&verb) {
                Some(x) => Ok(CoreAccountingAction::BalanceSheetConfiguration(x)),
                None => Err(ParseError::VariantNotFound),
            };
        }
        if chars_are(&entity, "accounting-csv") {
            return match AccountingCsvAction::from_chars(&verb) {
                Some(x) => Ok(CoreAccountingAction::AccountingCsv(x)),
                None => Err(ParseError::VariantNotFound),
            };
        }
        if chars_are(&entity, "trial-balance") {
            return match TrialBalanceAction::from_chars(&verb) {
                Some(x) => Ok(CoreAccountingAction::TrialBalance(x)),
                None => Err(ParseError::VariantNotFound),
            };
        }
        if chars_are(&entity, "fiscal-year") {
            return match FiscalYearAction::from_chars(&verb) {
                Some(x) => Ok(CoreAccountingAction::FiscalYear(x)),
                None => Err(ParseError::VariantNotFound),
            };
        }
        Err(ParseError::VariantNotFound)
    }

    /// The permission set that grants the action.
    pub fn permission_set(&self) -> (r: &'static str)
        ensures
            r@ == accounting_action_permission(*self),
    {
        match self {
            CoreAccountingAction::Chart(x) => x.permission_set(),
            CoreAccountingAction::Journal(x) => x.permission_set(),
            CoreAccountingAction::LedgerAccount(x) => x.permission_set(),
            CoreAccountingAction::LedgerTransaction(x) => x.permission_set(),
            CoreAccountingAction::TransactionTemplate(x) => x.permission_set(),
            CoreAccountingAction::ManualTransaction(x) => x.permission_set(),
            CoreAccountingAction::ProfitAndLoss(x) => x.permission_set(),
            CoreAccountingAction::ProfitAndLossConfiguration(x) => x.permission_set(),
            CoreAccountingAction::BalanceSheet(x) => x.permission_set(),
            CoreAccountingAction::BalanceSheetConfiguration(x) => x.permission_set(),
            CoreAccountingAction::AccountingCsv(x) => x.permission_set(),
            CoreAccountingAction::TrialBalance(x) => x.permission_set(),
            CoreAccountingAction::FiscalYear(x) => x.permission_set(),
        }
    }

    /// The mappings of every action of the module to its permission set,
    /// entity by entity, each entity's actions in the order they are
    /// declared.
    pub fn actions() -> (r: Vec<ActionMapping>)
        ensures
            r@.map_values(|m: ActionMapping| m@) == accounting_all_action_mappings(),
    {
        let mut r: Vec<ActionMapping> = Vec::new();
        let ghost before = r@.map_values(|m: ActionMapping| m@);
        let mut part = chart_action_mappings();
        let ghost added = part@.map_values(|m: ActionMapping| m@);
        r.append(&mut part);
        assert(r@.map_values(|m: ActionMapping| m@) =~= before + added);
        let ghost before = r@.map_values(|m: ActionMapping| m@);
        let mut part = journal_action_mappings();
        let ghost added = part@.map_values(|m: ActionMapping| m@);
        r.append(&mut part);
        assert(r@.map_values(|m: ActionMapping| m@) =~= before + added);
        let ghost before = r@.map_values(|m: ActionMapping| m@);
        let mut part = ledger_account_action_mappings();
        let ghost added = part@.map_values(|m: ActionMapping| m@);
        r.append(&mut part);
        assert(r@.map_values(|m: ActionMapping| m@) =~= before + added);
        let ghost before = r@.map_values(|m: ActionMapping| m@);
        let mut part = ledger_transaction_action_mappings();
        let ghost added = part@.map_values(|m: ActionMapping| m@);
        r.append(&mut part);
        assert(r@.map_values(|m: ActionMapping| m@) =~= before + added);
        let ghost before = r@.map_values(|m: ActionMapping| m@);
        let mut part = transaction_template_action_mappings();
        let ghost added = part@.map_values(|m: ActionMapping| m@);
        r.append(&mut part);
        assert(r@.map_values(|m: ActionMapping| m@) =~= before + added);
        let ghost before = r@.map_values(|m: ActionMapping| m@);
        let mut part = manual_transaction_action_mappings();
        let ghost added = part@.map_values(|m: ActionMapping| m@);
        r.append(&mut part);
        assert(r@.map_values(|m: ActionMapping| m@) =~= before + added);
        let ghost before = r@.map_values(|m: ActionMapping| m@);
        let mut part = profit_and_loss_action_mappings();
        let ghost added = part@.map_values(|m: ActionMapping| m@);
        r.append(&mut part);
        assert(r@.map_values(|m: ActionMapping| m@) =~= before + added);
        let ghost before = r@.map_values(|m: ActionMapping| m@);
        let mut part = profit_and_loss_configuration_action_mappings();
        let ghost added = part@.map_values(|m: ActionMapping| m@);
        r.append(&mut part);
        assert(r@.map_values(|m: ActionMapping| m@) =~= before + added);
        let ghost before = r@.map_values(|m: ActionMapping| m@);
        let mut part = balance_sheet_action_mappings();
        let ghost added = part@.map_values(|m: ActionMapping| m@);
        r.append(&mut part);
        assert(r@.map_values(|m: ActionMapping| m@) =~= before + added);
        let ghost before = r@.map_values(|m: ActionMapping| m@);
        let mut part = balance_sheet_configuration_action_mappings();
        let ghost added = part@.map_values(|m: ActionMapping| m@);
        r.append(&mut part);
        assert(r@.map_values(|m: ActionMapping| m@) =~= before + added);
        let ghost before = r@.map_values(|m: ActionMapping| m@);
        let mut part = accounting_csv_action_mappings();
        let ghost added = part@.map_values(|m: ActionMapping| m@);
        r.append(&mut part);
        assert(r@.map_values(|m: ActionMapping| m@) =~= before + added);
        let ghost before = r@.map_values(|m: ActionMapping| m@);
        let mut part = trial_balance_action_mappings();
        let ghost added = part@.map_values(|m: ActionMapping| m@);
        r.append(&mut part);
        assert(r@.map_values(|m: ActionMapping| m@) =~= before + added);
        let ghost before = r@.map_values(|m: ActionMapping| m@);
        let mut part = fiscal_year_action_mappings();
        let ghost added = part@.map_values(|m: ActionMapping| m@);
        r.append(&mut part);
        assert(r@.map_values(|m: ActionMapping| m@) =~= before + added);
        r
    }
}

proof fn lemma_chart_action_text_round_trip(x: ChartAction)
    ensures
        first_index_of(accounting_action_text(CoreAccountingAction::Chart(x)), ':') < accounting_action_text(CoreAccountingAction::Chart(x)).len(),
        accounting_action_parsed(accounting_action_text(CoreAccountingAction::Chart(x))) == Ok::<CoreAccountingAction, ParseError>(CoreAccountingAction::Chart(x)),
{
    reveal_strlit("chart");
    assert(lacks("chart"@, ':'));
    lemma_chart_action_names(x);
    lemma_split_at_first("chart"@, ':', chart_action_name(x));
}

proof fn lemma_journal_action_text_round_trip(x: JournalAction)
    ensures
        first_index_of(accounting_action_text(CoreAccountingAction::Journal(x)), ':') < accounting_action_text(CoreAccountingAction::Journal(x)).len(),
        accounting_action_parsed(accounting_action_text(CoreAccountingAction::Journal(x))) == Ok::<CoreAccountingAction, ParseError>(CoreAccountingAction::Journal(x)),
{
    reveal_strlit("journal");
    reveal_strlit("chart");
    assert("chart"@.len() == 5 && "journal"@.len() == 7);
    assert(lacks("journal"@, ':'));
    lemma_journal_action_names(x);
    lemma_split_at_first("journal"@, ':', journal_action_name(x));
}

proof fn lemma_ledger_account_action_text_round_trip(x: LedgerAccountAction)
    ensures
        first_index_of(accounting_action_text(CoreAccountingAction::LedgerAccount(x)), ':') < accounting_action_text(CoreAccountingAction::LedgerAccount(x)).len(),
        accounting_action_parsed(accounting_action_text(CoreAccountingAction::LedgerAccount(x))) == Ok::<CoreAccountingAction, ParseError>(CoreAccountingAction::LedgerAccount(x)),
{
    reveal_strlit("ledger-account");
    reveal_strlit("chart");
    assert("chart"@.len() == 5 && "ledger-account"@.len() == 14);
    reveal_strlit("journal");
    assert("journal"@.len() == 7 && "ledger-account"@.len() == 14);
    assert(lacks("ledger-account"@, ':'));
    lemma_ledger_account_action_names(x);
    lemma_split_at_first("ledger-account"@, ':', ledger_account_action_name(x));
}

proof fn lemma_ledger_transaction_action_text_round_trip(x: LedgerTransactionAction)
    ensures
        first_index_of(accounting_action_text(CoreAccountingAction::LedgerTransaction(x)), ':') < accounting_action_text(CoreAccountingAction::LedgerTransaction(x)).len(),
        accounting_action_parsed(accounting_action_text(CoreAccountingAction::LedgerTransaction(x))) == Ok::<CoreAccountingAction, ParseError>(CoreAccountingAction::LedgerTransaction(x)),
{
    reveal_strlit("ledger-transaction");
    reveal_strlit("chart");
    assert("chart"@.len() == 5 && "ledger-transaction"@.len() == 18);
    reveal_strlit("journal");
    assert("journal"@.len() == 7 && "ledger-transaction"@.len() == 18);
    reveal_strlit("ledger-account");
    assert("ledger-account"@.len() == 14 && "ledger-transaction"@.len() == 18);
    assert(lacks("ledger-transaction"@, ':'));
    lemma_ledger_transaction_action_names(x);
    lemma_split_at_first("ledger-transaction"@, ':', ledger_transaction_action_name(x));
}

proof fn lemma_transaction_template_action_text_round_trip(x: TransactionTemplateAction)
    ensures
        first_index_of(accounting_action_text(CoreAccountingAction::TransactionTemplate(x)), ':') < accounting_action_text(CoreAccountingAction::TransactionTemplate(x)).len(),
        accounting_action_parsed(accounting_action_text(CoreAccountingAction::TransactionTemplate(x))) == Ok::<CoreAccountingAction, ParseError>(CoreAccountingAction::TransactionTemplate(x)),
{
    reveal_strlit("transaction-template");
    reveal_strlit("chart");
    assert("chart"@.len() == 5 && "transaction-template"@.len() == 20);
    reveal_strlit("journal");
    assert("journal"@.len() == 7 && "transaction-template"@.len() == 20);
    reveal_strlit("ledger-account");
    assert("ledger-account"@.len() == 14 && "transaction-template"@.len() == 20);
    reveal_strlit("ledger-transaction");
    assert("ledger-transaction"@.len() == 18 && "transaction-template"@.len() == 20);
    assert(lacks("transaction-template"@, ':'));
    lemma_transaction_template_action_names(x);
    lemma_split_at_first("transaction-template"@, ':', transaction_template_action_name(x));
}

proof fn lemma_manual_transaction_action_text_round_trip(x: ManualTransactionAction)
    ensures
        first_index_of(accounting_action_text(CoreAccountingAction::ManualTransaction(x)), ':') < accounting_action_text(CoreAccountingAction::ManualTransaction(x)).len(),
        accounting_action_parsed(accounting_action_text(CoreAccountingAction::ManualTransaction(x))) == Ok::<CoreAccountingAction, ParseError>(CoreAccountingAction::ManualTransaction(x)),
{
    reveal_strlit("manual-transaction");
    reveal_strlit("chart");
    assert("chart"@.len() == 5 && "manual-transaction"@.len() == 18);
    reveal_strlit("journal");
    assert("journal"@.len() == 7 && "manual-transaction"@.len() == 18);
    reveal_strlit("ledger-account");
    assert("ledger-account"@.len() == 14 && "manual-transaction"@.len() == 18);
    reveal_strlit("ledger-transaction");
    assert("ledger-transaction"@[0] == 'l' && "manual-transaction"@[0] == 'm');
    reveal_strlit("transaction-template");
    assert("transaction-template"@.len() == 20 && "manual-transaction"@.len() == 18);
    assert(lacks("manual-transaction"@, ':'));
    lemma_manual_transaction_action_names(x);
    lemma_split_at_first("manual-transaction"@, ':', manual_transaction_action_name(x));
}

proof fn lemma_profit_and_loss_action_text_round_trip(x: ProfitAndLossAction)
    ensures
        first_index_of(accounting_action_text(CoreAccountingAction::ProfitAndLoss(x)), ':') < accounting_action_text(CoreAccountingAction::ProfitAndLoss(x)).len(),
        accounting_action_parsed(accounting_action_text(CoreAccountingAction::ProfitAndLoss(x))) == Ok::<CoreAccountingAction, ParseError>(CoreAccountingAction::ProfitAndLoss(x)),
{
    reveal_strlit("profit-and-loss");
    reveal_strlit("chart");
    assert("chart"@.len() == 5 && "profit-and-loss"@.len() == 15);
    reveal_strlit("journal");
    assert("journal"@.len() == 7 && "profit-and-loss"@.len() == 15);
    reveal_strlit("ledger-account");
    assert("ledger-account"@.len() == 14 && "profit-and-loss"@.len() == 15);
    reveal_strlit("ledger-transaction");
    assert("ledger-transaction"@.len() == 18 && "profit-and-loss"@.len() == 15);
    reveal_strlit("transaction-template");
    assert("transaction-template"@.len() == 20 && "profit-and-loss"@.len() == 15);
    reveal_strlit("manual-transaction");
    assert("manual-transaction"@.len() == 18 && "profit-and-loss"@.len() == 15);
    assert(lacks("profit-and-loss"@, ':'));
    lemma_profit_and_loss_action_names(x);
    lemma_split_at_first("profit-and-loss"@, ':', profit_and_loss_action_name(x));
}

proof fn lemma_profit_and_loss_configuration_action_text_round_trip(x: ProfitAndLossConfigurationAction)
    ensures
        first_index_of(accounting_action_text(CoreAccountingAction::ProfitAndLossConfiguration(x)), ':') < accounting_action_text(CoreAccountingAction::ProfitAndLossConfiguration(x)).len(),
        accounting_action_parsed(accounting_action_text(CoreAccountingAction::ProfitAndLossConfiguration(x))) == Ok::<CoreAccountingAction, ParseError>(CoreAccountingAction::ProfitAndLossConfiguration(x)),
{
    reveal_strlit("profit-and-loss-configuration");
    reveal_strlit("chart");
    assert("chart"@.len() == 5 && "profit-and-loss-configuration"@.len() == 29);
    reveal_strlit("journal");
    assert("journal"@.len() == 7 && "profit-and-loss-configuration"@.len() == 29);
    reveal_strlit("ledger-account");
    assert("ledger-account"@.len() == 14 && "profit-and-loss-configuration"@.len() == 29);
    reveal_strlit("ledger-transaction");
    assert("ledger-transaction"@.len() == 18 && "profit-and-loss-configuration"@.len() == 29);
    reveal_strlit("transaction-template");
    assert("transaction-template"@.len() == 20 && "profit-and-loss-configuration"@.len() == 29);
    reveal_strlit("manual-transaction");
    assert("manual-transaction"@.len() == 18 && "profit-and-loss-configuration"@.len() == 29);
    reveal_strlit("profit-and-loss");
    assert("profit-and-loss"@.len() == 15 && "profit-and-loss-configuration"@.len() == 29);
    assert(lacks("profit-and-loss-configuration"@, ':'));
    lemma_profit_and_loss_configuration_action_names(x);
    lemma_split_at_first("profit-and-loss-configuration"@, ':', profit_and_loss_configuration_action_name(x));
}

proof fn lemma_balance_sheet_action_text_round_trip(x: BalanceSheetAction)
    ensures
        first_index_of(accounting_action_text(CoreAccountingAction::BalanceSheet(x)), ':') < accounting_action_text(CoreAccountingAction::BalanceSheet(x)).len(),
        accounting_action_parsed(accounting_action_text(CoreAccountingAction::BalanceSheet(x))) == Ok::<CoreAccountingAction, ParseError>(CoreAccountingAction::BalanceSheet(x)),
{
    reveal_strlit("balance-sheet");
    reveal_strlit("chart");
    assert("chart"@.len() == 5 && "balance-sheet"@.len() == 13);
    reveal_strlit("journal");
    assert("journal"@.len() == 7 && "balance-sheet"@.len() == 13);
    reveal_strlit("ledger-account");
    assert("ledger-account"@.len() == 14 && "balance-sheet"@.len() == 13);
    reveal_strlit("ledger-transaction");
    assert("ledger-transaction"@.len() == 18 && "balance-sheet"@.len() == 13);
    reveal_strlit("transaction-template");
    assert("transaction-template"@.len() == 20 && "balance-sheet"@.len() == 13);
    reveal_strlit("manual-transaction");
    assert("manual-transaction"@.len() == 18 && "balance-sheet"@.len() == 13);
    reveal_strlit("profit-and-loss");
    assert("profit-and-loss"@.len() == 15 && "balance-sheet"@.len() == 13);
    reveal_strlit("profit-and-loss-configuration");
    assert("profit-and-loss-configuration"@.len() == 29 && "balance-sheet"@.len() == 13);
    assert(lacks("balance-sheet"@, ':'));
    lemma_balance_sheet_action_names(x);
    lemma_split_at_first("balance-sheet"@, ':', balance_sheet_action_name(x));
}

proof fn lemma_balance_sheet_configuration_action_text_round_trip(x: BalanceSheetConfigurationAction)
    ensures
        first_index_of(accounting_action_text(CoreAccountingAction::BalanceSheetConfiguration(x)), ':') < accounting_action_text(CoreAccountingAction::BalanceSheetConfiguration(x)).len(),
        accounting_action_parsed(accounting_action_text(CoreAccountingAction::BalanceSheetConfiguration(x))) == Ok::<CoreAccountingAction, ParseError>(CoreAccountingAction::BalanceSheetConfiguration(x)),
{
    reveal_strlit("balance-sheet-configuration");
    reveal_strlit("chart");
    assert("chart"@.len() == 5 && "balance-sheet-configuration"@.len() == 27);
    reveal_strlit("journal");
    assert("journal"@.len() == 7 && "balance-sheet-configuration"@.len() == 27);
    reveal_strlit("ledger-account");
    assert("ledger-account"@.len() == 14 && "balance-sheet-configuration"@.len() == 27);
    reveal_strlit("ledger-transaction");
    assert("ledger-transaction"@.len() == 18 && "balance-sheet-configuration"@.len() == 27);
    reveal_strlit("transaction-template");
    assert("transaction-template"@.len() == 20 && "balance-sheet-configuration"@.len() == 27);
    reveal_strlit("manual-transaction");
    assert("manual-transaction"@.len() == 18 && "balance-sheet-configuration"@.len() == 27);
    reveal_strlit("profit-and-loss");
    assert("profit-and-loss"@.len() == 15 && "balance-sheet-configuration"@.len() == 27);
    reveal_strlit("profit-and-loss-configuration");
    assert("profit-and-loss-configuration"@.len() == 29 && "balance-sheet-configuration"@.len() == 27);
    reveal_strlit("balance-sheet");
    assert("balance-sheet"@.len() == 13 && "balance-sheet-configuration"@.len() == 27);
    assert(lacks("balance-sheet-configuration"@, ':'));
    lemma_balance_sheet_configuration_action_names(x);
    lemma_split_at_first("balance-sheet-configuration"@, ':', balance_sheet_configuration_action_name(x));
}

proof fn lemma_accounting_csv_action_text_round_trip(x: AccountingCsvAction)
    ensures
        first_index_of(accounting_action_text(CoreAccountingAction::AccountingCsv(x)), ':') < accounting_action_text(CoreAccountingAction::AccountingCsv(x)).len(),
        accounting_action_parsed(accounting_action_text(CoreAccountingAction::AccountingCsv(x))) == Ok::<CoreAccountingAction, ParseError>(CoreAccountingAction::AccountingCsv(x)),
{
    reveal_strlit("accounting-csv");
    reveal_strlit("chart");
    assert("chart"@.len() == 5 && "accounting-csv"@.len() == 14);
    reveal_strlit("journal");
    assert("journal"@.len() == 7 && "accounting-csv"@.len() == 14);
    reveal_strlit("ledger-account");
    assert("ledger-account"@[0] == 'l' && "accounting-csv"@[0] == 'a');
    reveal_strlit("ledger-transaction");
    assert("ledger-transaction"@.len() == 18 && "accounting-csv"@.len() == 14);
    reveal_strlit("transaction-template");
    assert("transaction-template"@.len() == 20 && "accounting-csv"@.len() == 14);
    reveal_strlit("manual-transaction");
    assert("manual-transaction"@.len() == 18 && "accounting-csv"@.len() == 14);
    reveal_strlit("profit-and-loss");
    assert("profit-and-loss"@.len() == 15 && "accounting-csv"@.len() == 14);
    reveal_strlit("profit-and-loss-configuration");
    assert("profit-and-loss-configuration"@.len() == 29 && "accounting-csv"@.len() == 14);
    reveal_strlit("balance-sheet");
    assert("balance-sheet"@.len() == 13 && "accounting-csv"@.len() == 14);
    reveal_strlit("balance-sheet-configuration");
    assert("balance-sheet-configuration"@.len() == 27 && "accounting-csv"@.len() == 14);
    assert(lacks("accounting-csv"@, ':'));
    lemma_accounting_csv_action_names(x);
    lemma_split_at_first("accounting-csv"@, ':', accounting_csv_action_name(x));
}

proof fn lemma_trial_balance_action_text_round_trip(x: TrialBalanceAction)
    ensures
        first_index_of(accounting_action_text(CoreAccountingAction::TrialBalance(x)), ':') < accounting_action_text(CoreAccountingAction::TrialBalance(x)).len(),
        accounting_action_parsed(accounting_action_text(CoreAccountingAction::TrialBalance(x))) == Ok::<CoreAccountingAction, ParseError>(CoreAccountingAction::TrialBalance(x)),
{
    reveal_strlit("trial-balance");
    reveal_strlit("chart");
    assert("chart"@.len() == 5 && "trial-balance"@.len() == 13);
    reveal_strlit("journal");
    assert("journal"@.len() == 7 && "trial-balance"@.len() == 13);
    reveal_strlit("ledger-account");
    assert("ledger-account"@.len() == 14 && "trial-balance"@.len() == 13);
    reveal_strlit("ledger-transaction");
    assert("ledger-transaction"@.len() == 18 && "trial-balance"@.len() == 13);
    reveal_strlit("transaction-template");
    assert("transaction-template"@.len() == 20 && "trial-balance"@.len() == 13);
    reveal_strlit("manual-transaction");
    assert("manual-transaction"@.len() == 18 && "trial-balance"@.len() == 13);
    reveal_strlit("profit-and-loss");
    assert("profit-and-loss"@.len() == 15 && "trial-balance"@.len() == 13);
    reveal_strlit("profit-and-loss-configuration");
    assert("profit-and-loss-configuration"@.len() == 29 && "trial-balance"@.len() == 13);
    reveal_strlit("balance-sheet");
    assert("balance-sheet"@[0] == 'b' && "trial-balance"@[0] == 't');
    reveal_strlit("balance-sheet-configuration");
    assert("balance-sheet-configuration"@.len() == 27 && "trial-balance"@.len() == 13);
    reveal_strlit("accounting-csv");
    assert("accounting-csv"@.len() == 14 && "trial-balance"@.len() == 13);
    assert(lacks("trial-balance"@, ':'));
    lemma_trial_balance_action_names(x);
    lemma_split_at_first("trial-balance"@, ':', trial_balance_action_name(x));
}

proof fn lemma_fiscal_year_action_text_round_trip(x: FiscalYearAction)
    ensures
        first_index_of(accounting_action_text(CoreAccountingAction::FiscalYear(x)), ':') < accounting_action_text(CoreAccountingAction::FiscalYear(x)).len(),
        accounting_action_parsed(accounting_action_text(CoreAccountingAction::FiscalYear(x))) == Ok::<CoreAccountingAction, ParseError>(CoreAccountingAction::FiscalYear(x)),
{
    reveal_strlit("fiscal-year");
    reveal_strlit("chart");
    assert("chart"@.len() == 5 && "fiscal-year"@.len() == 11);
    reveal_strlit("journal");
    assert("journal"@.len() == 7 && "fiscal-year"@.len() == 11);
    reveal_strlit("ledger-account");
    assert("ledger-account"@.len() == 14 && "fiscal-year"@.len() == 11);
    reveal_strlit("ledger-transaction");
    assert("ledger-transaction"@.len() == 18 && "fiscal-year"@.len() == 11);
    reveal_strlit("transaction-template");
    assert("transaction-template"@.len() == 20 && "fiscal-year"@.len() == 11);
    reveal_strlit("manual-transaction");
    assert("manual-transaction"@.len() == 18 && "fiscal-year"@.len() == 11);
    reveal_strlit("profit-and-loss");
    assert("profit-and-loss"@.len() == 15 && "fiscal-year"@.len() == 11);
    reveal_strlit("profit-and-loss-configuration");
    assert("profit-and-loss-configuration"@.len() == 29 && "fiscal-year"@.len() == 11);
    reveal_strlit("balance-sheet");
    assert("balance-sheet"@.len() == 13 && "fiscal-year"@.len() == 11);
    reveal_strlit("balance-sheet-configuration");
    assert("balance-sheet-configuration"@.len() == 27 && "fiscal-year"@.len() == 11);
    reveal_strlit("accounting-csv");
    assert("accounting-csv"@.len() == 14 && "fiscal-year"@.len() == 11);
    reveal_strlit("trial-balance");
    assert("trial-balance"@.len() == 13 && "fiscal-year"@.len() == 11);
    assert(lacks("fiscal-year"@, ':'));
    lemma_fiscal_year_action_names(x);
    lemma_split_at_first("fiscal-year"@, ':', fiscal_year_action_name(x));
}

/// An action's text names the action: reading it back gives the action.
pub proof fn law_accounting_action_text_round_trip(a: CoreAccountingAction)
    ensures
        first_index_of(accounting_action_text(a), ':') < accounting_action_text(a).len(),
        accounting_action_parsed(accounting_action_text(a)) == Ok::<CoreAccountingAction, ParseError>(a),
{
    match a {
        CoreAccountingAction::Chart(x) => lemma_chart_action_text_round_trip(x),
        CoreAccountingAction::Journal(x) => lemma_journal_action_text_round_trip(x),
        CoreAccountingAction::LedgerAccount(x) => lemma_ledger_account_action_text_round_trip(x),
        CoreAccountingAction::LedgerTransaction(x) => lemma_ledger_transaction_action_text_round_trip(x),
        CoreAccountingAction::TransactionTemplate(x) => lemma_transaction_template_action_text_round_trip(x),
        CoreAccountingAction::ManualTransaction(x) => lemma_manual_transaction_action_text_round_trip(x),
        CoreAccountingAction::ProfitAndLoss(x) => lemma_profit_and_loss_action_text_round_trip(x),
        CoreAccountingAction::ProfitAndLossConfiguration(x) => lemma_profit_and_loss_configuration_action_text_round_trip(x),
        CoreAccountingAction::BalanceSheet(x) => lemma_balance_sheet_action_text_round_trip(x),
        CoreAccountingAction::BalanceSheetConfiguration(x) => lemma_balance_sheet_configuration_action_text_round_trip(x),
        CoreAccountingAction::AccountingCsv(x) => lemma_accounting_csv_action_text_round_trip(x),
        CoreAccountingAction::TrialBalance(x) => lemma_trial_balance_action_text_round_trip(x),
        CoreAccountingAction::FiscalYear(x) => lemma_fiscal_year_action_text_round_trip(x),
    }
}

proof fn lemma_chart_action_listed(x: ChartAction)
    ensures
        accounting_all_action_mappings().contains(accounting_action_mapping(CoreAccountingAction::Chart(x))),
{
    broadcast use vstd::seq_lib::lemma_seq_concat_contains_all_elements;

    let part = chart_action_all().map_values(|y: ChartAction| accounting_action_mapping(CoreAccountingAction::Chart(y)));
    match x {
        ChartAction::Create => assert(part[0] == accounting_action_mapping(CoreAccountingAction::Chart(x))),
        ChartAction::List => assert(part[1] == accounting_action_mapping(CoreAccountingAction::Chart(x))),
        ChartAction::Update => assert(part[2] == accounting_action_mapping(CoreAccountingAction::Chart(x))),
        ChartAction::ImportAccounts => assert(part[3] == accounting_action_mapping(CoreAccountingAction::Chart(x))),
        ChartAction::CloseMonthly => assert(part[4] == accounting_action_mapping(CoreAccountingAction::Chart(x))),
    }
    assert(part.contains(accounting_action_mapping(CoreAccountingAction::Chart(x))));
}

proof fn lemma_journal_action_listed(x: JournalAction)
    ensures
        accounting_all_action_mappings().contains(accounting_action_mapping(CoreAccountingAction::Journal(x))),
{
    broadcast use vstd::seq_lib::lemma_seq_concat_contains_all_elements;

    let part = journal_action_all().map_values(|y: JournalAction| accounting_action_mapping(CoreAccountingAction::Journal(y)));
    match x {
        JournalAction::ReadEntries => assert(part[0] == accounting_action_mapping(CoreAccountingAction::Journal(x))),
    }
    assert(part.contains(accounting_action_mapping(CoreAccountingAction::Journal(x))));
}

proof fn lemma_ledger_account_action_listed(x: LedgerAccountAction)
    ensures
        accounting_all_action_mappings().contains(accounting_action_mapping(CoreAccountingAction::LedgerAccount(x))),
{
    broadcast use vstd::seq_lib::lemma_seq_concat_contains_all_elements;

    let part = ledger_account_action_all().map_values(|y: LedgerAccountAction| accounting_action_mapping(CoreAccountingAction::LedgerAccount(y)));
    match x {
        LedgerAccountAction::Read => assert(part[0] == accounting_action_mapping(CoreAccountingAction::LedgerAccount(x))),
        LedgerAccountAction::List => assert(part[1] == accounting_action_mapping(CoreAccountingAction::LedgerAccount(x))),
        LedgerAccountAction::ReadHistory => assert(part[2] == accounting_action_mapping(CoreAccountingAction::LedgerAccount(x))),
    }
    assert(part.contains(accounting_action_mapping(CoreAccountingAction::LedgerAccount(x))));
}

proof fn lemma_ledger_transaction_action_listed(x: LedgerTransactionAction)
    ensures
        accounting_all_action_mappings().contains(accounting_action_mapping(CoreAccountingAction::LedgerTransaction(x))),
{
    broadcast use vstd::seq_lib::lemma_seq_concat_contains_all_elements;

    let part = ledger_transaction_action_all().map_values(|y: LedgerTransactionAction| accounting_action_mapping(CoreAccountingAction::LedgerTransaction(y)));
    match x {
        LedgerTransactionAction::Read => assert(part[0] == accounting_action_mapping(CoreAccountingAction::LedgerTransaction(x))),
        LedgerTransactionAction::List => assert(part[1] == accounting_action_mapping(CoreAccountingAction::LedgerTransaction(x))),
        LedgerTransactionAction::ReadHistory => assert(part[2] == accounting_action_mapping(CoreAccountingAction::LedgerTransaction(x))),
    }
    assert(part.contains(accounting_action_mapping(CoreAccountingAction::LedgerTransaction(x))));
}

proof fn lemma_transaction_template_action_listed(x: TransactionTemplateAction)
    ensures
        accounting_all_action_mappings().contains(accounting_action_mapping(CoreAccountingAction::TransactionTemplate(x))),
{
    broadcast use vstd::seq_lib::lemma_seq_concat_contains_all_elements;

    let part = transaction_template_action_all().map_values(|y: TransactionTemplateAction| accounting_action_mapping(CoreAccountingAction::TransactionTemplate(y)));
    match x {
        TransactionTemplateAction::List => assert(part[0] == accounting_action_mapping(CoreAccountingAction::TransactionTemplate(x))),
    }
    assert(part.contains(accounting_action_mapping(CoreAccountingAction::TransactionTemplate(x))));
}

proof fn lemma_manual_transaction_action_listed(x: ManualTransactionAction)
    ensures
        accounting_all_action_mappings().contains(accounting_action_mapping(CoreAccountingAction::ManualTransaction(x))),
{
    broadcast use vstd::seq_lib::lemma_seq_concat_contains_all_elements;

    let part = manual_transaction_action_all().map_values(|y: ManualTransactionAction| accounting_action_mapping(CoreAccountingAction::ManualTransaction(y)));
    match x {
        ManualTransactionAction::Read => assert(part[0] == accounting_action_mapping(CoreAccountingAction::ManualTransaction(x))),
        ManualTransactionAction::Create => assert(part[1] == accounting_action_mapping(CoreAccountingAction::ManualTransaction(x))),
        ManualTransactionAction::List => assert(part[2] == accounting_action_mapping(CoreAccountingAction::ManualTransaction(x))),
    }
    assert(part.contains(accounting_action_mapping(CoreAccountingAction::ManualTransaction(x))));
}

proof fn lemma_profit_and_loss_action_listed(x: ProfitAndLossAction)
    ensures
        accounting_all_action_mappings().contains(accounting_action_mapping(CoreAccountingAction::ProfitAndLoss(x))),
{
    broadcast use vstd::seq_lib::lemma_seq_concat_contains_all_elements;

    let part = profit_and_loss_action_all().map_values(|y: ProfitAndLossAction| accounting_action_mapping(CoreAccountingAction::ProfitAndLoss(y)));
    match x {
        ProfitAndLossAction::Read => assert(part[0] == accounting_action_mapping(CoreAccountingAction::ProfitAndLoss(x))),
        ProfitAndLossAction::Create => assert(part[1] == accounting_action_mapping(CoreAccountingAction::ProfitAndLoss(x))),
        ProfitAndLossAction::Update => assert(part[2] == accounting_action_mapping(CoreAccountingAction::ProfitAndLoss(x))),
    }
    assert(part.contains(accounting_action_mapping(CoreAccountingAction::ProfitAndLoss(x))));
}

proof fn lemma_profit_and_loss_configuration_action_listed(x: ProfitAndLossConfigurationAction)
    ensures
        accounting_all_action_mappings().contains(accounting_action_mapping(CoreAccountingAction::ProfitAndLossConfiguration(x))),
{
    broadcast use vstd::seq_lib::lemma_seq_concat_contains_all_elements;

    let part = profit_and_loss_configuration_action_all().map_values(|y: ProfitAndLossConfigurationAction| accounting_action_mapping(CoreAccountingAction::ProfitAndLossConfiguration(y)));
    match x {
        ProfitAndLossConfigurationAction::Read => assert(part[0] == accounting_action_mapping(CoreAccountingAction::ProfitAndLossConfiguration(x))),
        ProfitAndLossConfigurationAction::Update => assert(part[1] == accounting_action_mapping(CoreAccountingAction::ProfitAndLossConfiguration(x))),
    }
    assert(part.contains(accounting_action_mapping(CoreAccountingAction::ProfitAndLossConfiguration(x))));
}

proof fn lemma_balance_sheet_action_listed(x: BalanceSheetAction)
    ensures
        accounting_all_action_mappings().contains(accounting_action_mapping(CoreAccountingAction::BalanceSheet(x))),
{
    broadcast use vstd::seq_lib::lemma_seq_concat_contains_all_elements;

    let part = balance_sheet_action_all().map_values(|y: BalanceSheetAction| accounting_action_mapping(CoreAccountingAction::BalanceSheet(y)));
    match x {
        BalanceSheetAction::Read => assert(part[0] == accounting_action_mapping(CoreAccountingAction::BalanceSheet(x))),
        BalanceSheetAction::Create => assert(part[1] == accounting_action_mapping(CoreAccountingAction::BalanceSheet(x))),
    }
    assert(part.contains(accounting_action_mapping(CoreAccountingAction::BalanceSheet(x))));
}

proof fn lemma_balance_sheet_configuration_action_listed(x: BalanceSheetConfigurationAction)
    ensures
        accounting_all_action_mappings().contains(accounting_action_mapping(CoreAccountingAction::BalanceSheetConfiguration(x))),
{
    broadcast use vstd::seq_lib::lemma_seq_concat_contains_all_elements;

    let part = balance_sheet_configuration_action_all().map_values(|y: BalanceSheetConfigurationAction| accounting_action_mapping(CoreAccountingAction::BalanceSheetConfiguration(y)));
    match x {
        BalanceSheetConfigurationAction::Read => assert(part[0] == accounting_action_mapping(CoreAccountingAction::BalanceSheetConfiguration(x))),
        BalanceSheetConfigurationAction::Update => assert(part[1] == accounting_action_mapping(CoreAccountingAction::BalanceSheetConfiguration(x))),
    }
    assert(part.contains(accounting_action_mapping(CoreAccountingAction::BalanceSheetConfiguration(x))));
}

proof fn lemma_accounting_csv_action_listed(x: AccountingCsvAction)
    ensures
        accounting_all_action_mappings().contains(accounting_action_mapping(CoreAccountingAction::AccountingCsv(x))),
{
    broadcast use vstd::seq_lib::lemma_seq_concat_contains_all_elements;

    let part = accounting_csv_action_all().map_values(|y: AccountingCsvAction| accounting_action_mapping(CoreAccountingAction::AccountingCsv(y)));
    match x {
        AccountingCsvAction::Create => assert(part[0] == accounting_action_mapping(CoreAccountingAction::AccountingCsv(x))),
        AccountingCsvAction::Generate => assert(part[1] == accounting_action_mapping(CoreAccountingAction::AccountingCsv(x))),
        AccountingCsvAction::Read => assert(part[2] == accounting_action_mapping(CoreAccountingAction::AccountingCsv(x))),
        AccountingCsvAction::List => assert(part[3] == accounting_action_mapping(CoreAccountingAction::AccountingCsv(x))),
        AccountingCsvAction::Download => assert(part[4] == accounting_action_mapping(CoreAccountingAction::AccountingCsv(x))),
    }
    assert(part.contains(accounting_action_mapping(CoreAccountingAction::AccountingCsv(x))));
}

proof fn lemma_trial_balance_action_listed(x: TrialBalanceAction)
    ensures
        accounting_all_action_mappings().contains(accounting_action_mapping(CoreAccountingAction::TrialBalance(x))),
{
    broadcast use vstd::seq_lib::lemma_seq_concat_contains_all_elements;

    let part = trial_balance_action_all().map_values(|y: TrialBalanceAction| accounting_action_mapping(CoreAccountingAction::TrialBalance(y)));
    match x {
        TrialBalanceAction::Create => assert(part[0] == accounting_action_mapping(CoreAccountingAction::TrialBalance(x))),
        TrialBalanceAction::Read => assert(part[1] == accounting_action_mapping(CoreAccountingAction::TrialBalance(x))),
        TrialBalanceAction::Update => assert(part[2] == accounting_action_mapping(CoreAccountingAction::TrialBalance(x))),
    }
    assert(part.contains(accounting_action_mapping(CoreAccountingAction::TrialBalance(x))));
}

proof fn lemma_fiscal_year_action_listed(x: FiscalYearAction)
    ensures
        accounting_all_action_mappings().contains(accounting_action_mapping(CoreAccountingAction::FiscalYear(x))),
{
    broadcast use vstd::seq_lib::lemma_seq_concat_contains_all_elements;

    let part = fiscal_year_action_all().map_values(|y: FiscalYearAction| accounting_action_mapping(CoreAccountingAction::FiscalYear(y)));
    match x {
        FiscalYearAction::Create => assert(part[0] == accounting_action_mapping(CoreAccountingAction::FiscalYear(x))),
        FiscalYearAction::Read => assert(part[1] == accounting_action_mapping(CoreAccountingAction::FiscalYear(x))),
        FiscalYearAction::List => assert(part[2] == accounting_action_mapping(CoreAccountingAction::FiscalYear(x))),
        FiscalYearAction::CloseMonth => assert(part[3] == accounting_action_mapping(CoreAccountingAction::FiscalYear(x))),
        FiscalYearAction::Close => assert(part[4] == accounting_action_mapping(CoreAccountingAction::FiscalYear(x))),
    }
    assert(part.contains(accounting_action_mapping(CoreAccountingAction::FiscalYear(x))));
}

/// Every action of the module is in the list of actions, mapped to the
/// permission set that grants it.
pub proof fn law_accounting_every_action_is_listed(a: CoreAccountingAction)
    ensures
        accounting_all_action_mappings().contains(accounting_action_mapping(a)),
        accounting_action_mapping(a).permission_set == accounting_action_permission(a),
{
    match a {
        CoreAccountingAction::Chart(x) => lemma_chart_action_listed(x),
        CoreAccountingAction::Journal(x) => lemma_journal_action_listed(x),
        CoreAccountingAction::LedgerAccount(x) => lemma_ledger_account_action_listed(x),
        CoreAccountingAction::LedgerTransaction(x) => lemma_ledger_transaction_action_listed(x),
        CoreAccountingAction::TransactionTemplate(x) => lemma_transaction_template_action_listed(x),
        CoreAccountingAction::ManualTransaction(x) => lemma_manual_transaction_action_listed(x),
        CoreAccountingAction::ProfitAndLoss(x) => lemma_profit_and_loss_action_listed(x),
        CoreAccountingAction::ProfitAndLossConfiguration(x) => lemma_profit_and_loss_configuration_action_listed(x),
        CoreAccountingAction::BalanceSheet(x) => lemma_balance_sheet_action_listed(x),
        CoreAccountingAction::BalanceSheetConfiguration(x) => lemma_balance_sheet_configuration_action_listed(x),
        CoreAccountingAction::AccountingCsv(x) => lemma_accounting_csv_action_listed(x),
        CoreAccountingAction::TrialBalance(x) => lemma_trial_balance_action_listed(x),
        CoreAccountingAction::FiscalYear(x) => lemma_fiscal_year_action_listed(x),
    }
}

/// An object of the module's permissions: an entity, and all of its kind
/// or the one with an id.
#[derive(Debug, Clone, Copy, PartialEq, Eq)]
pub enum CoreAccountingObject {
    Chart(AllOrOne),
    Journal(AllOrOne),
    LedgerAccount(AllOrOne),
    LedgerTransaction(AllOrOne),
    TransactionTemplate(AllOrOne),
    ManualTransaction(AllOrOne),
    ProfitAndLoss(AllOrOne),
    ProfitAndLossConfiguration(AllOrOne),
    BalanceSheet(AllOrOne),
    BalanceSheetConfiguration(AllOrOne),
    AccountingCsv(AllOrOne),
    TrialBalance(AllOrOne),
    FiscalYear(AllOrOne),
}

/// The text of an object: the entity's name, `/`, `*` or the id.
pub open spec fn accounting_object_text(o: CoreAccountingObject) -> Seq<char> {
    match o {
        CoreAccountingObject::Chart(r) => "chart"@ + seq!['/'] + all_or_one_text(r),
        CoreAccountingObject::Journal(r) => "journal"@ + seq!['/'] + all_or_one_text(r),
        CoreAccountingObject::LedgerAccount(r) => "ledger-account"@ + seq!['/'] + all_or_one_text(r),
        CoreAccountingObject::LedgerTransaction(r) => "ledger-transaction"@ + seq!['/'] + all_or_one_text(r),
        CoreAccountingObject::TransactionTemplate(r) => "transaction-template"@ + seq!['/'] + all_or_one_text(r),
        CoreAccountingObject::ManualTransaction(r) => "manual-transaction"@ + seq!['/'] + all_or_one_text(r),
        CoreAccountingObject::ProfitAndLoss(r) => "profit-and-loss"@ + seq!['/'] + all_or_one_text(r),
        CoreAccountingObject::ProfitAndLossConfiguration(r) => "profit-and-loss-configuration"@ + seq!['/'] + all_or_one_text(r),
        CoreAccountingObject::BalanceSheet(r) => "balance-sheet"@ + seq!['/'] + all_or_one_text(r),
        CoreAccountingObject::BalanceSheetConfiguration(r) => "balance-sheet-configuration"@ + seq!['/'] + all_or_one_text(r),
        CoreAccountingObject::AccountingCsv(r) => "accounting-csv"@ + seq!['/'] + all_or_one_text(r),
        CoreAccountingObject::TrialBalance(r) => "trial-balance"@ + seq!['/'] + all_or_one_text(r),
        CoreAccountingObject::FiscalYear(r) => "fiscal-year"@ + seq!['/'] + all_or_one_text(r),
    }
}

/// The entity names of the module's objects.
pub open spec fn accounting_object_entity_known(e: Seq<char>) -> bool {
    e == "chart"@
        || e == "journal"@
        || e == "ledger-account"@
        || e == "ledger-transaction"@
        || e == "transaction-template"@
        || e == "manual-transaction"@
        || e == "profit-and-loss"@
        || e == "profit-and-loss-configuration"@
        || e == "balance-sheet"@
        || e == "balance-sheet-configuration"@
        || e == "accounting-csv"@
        || e == "trial-balance"@
        || e == "fiscal-year"@
}

/// The object that a text names: its entity before the first `/`, its
/// reference after; a reference that is neither `*` nor a UUID is an
/// error with the entity's message.
pub open spec fn accounting_object_parsed(s: Seq<char>) -> Result<CoreAccountingObject, Seq<char>> {
    let entity = before_first(s, '/');
    let reference = all_or_one_from_text(after_first(s, '/'));
    if entity == "chart"@ {
        match reference {
            Some(r) => Ok(CoreAccountingObject::Chart(r)),
            None => Err("could not parse CoreChartObject"@),
        }
    } else if entity == "journal"@ {
        match reference {
            Some(r) => Ok(CoreAccountingObject::Journal(r)),
            None => Err("could not parse CoreJournalObject"@),
        }
    } else if entity == "ledger-account"@ {
        match reference {
            Some(r) => Ok(CoreAccountingObject::LedgerAccount(r)),
            None => Err("could not parse LedgerAccount"@),
        }
    } else if entity == "ledger-transaction"@ {
        match reference {
            Some(r) => Ok(CoreAccountingObject::LedgerTransaction(r)),
            None => Err("could not parse LedgerAccount"@),
        }
    } else if entity == "transaction-template"@ {
        match reference {
            Some(r) => Ok(CoreAccountingObject::TransactionTemplate(r)),
            None => Err("could not parse TransactionTemplate"@),
        }
    } else if entity == "manual-transaction"@ {
        match reference {
            Some(r) => Ok(CoreAccountingObject::ManualTransaction(r)),
            None => Err("could not parse ManualTransaction"@),
        }
    } else if entity == "profit-and-loss"@ {
        match reference {
            Some(r) => Ok(CoreAccountingObject::ProfitAndLoss(r)),
            None => Err("could not parse ProfitAndLoss"@),
        }
    } else if entity == "profit-and-loss-configuration"@ {
        match reference {
            Some(r) => Ok(CoreAccountingObject::ProfitAndLossConfiguration(r)),
            None => Err("could not parse ProfitAndLossConfiguration"@),
        }
    } else if entity == "balance-sheet"@ {
        match reference {
            Some(r) => Ok(CoreAccountingObject::BalanceSheet(r)),
            None => Err("could not parse BalanceSheet"@),
        }
    } else if entity == "balance-sheet-configuration"@ {
        match reference {
            Some(r) => Ok(CoreAccountingObject::BalanceSheetConfiguration(r)),
            None => Err("could not parse BalanceSheetConfiguration"@),
        }
    } else if entity == "accounting-csv"@ {
        match reference {
            Some(r) => Ok(CoreAccountingObject::AccountingCsv(r)),
            None => Err("could not parse AccountingCsv"@),
        }
    } else if entity == "trial-balance"@ {
        match reference {
            Some(r) => Ok(CoreAccountingObject::TrialBalance(r)),
            None => Err("could not parse TrialBalance"@),
        }
    } else if entity == "fiscal-year"@ {
        match reference {
            Some(r) => Ok(CoreAccountingObject::FiscalYear(r)),
            None => Err("could not parse FiscalYear"@),
        }
    } else {
        Err(Seq::empty())
    }
}

impl CoreAccountingObject {
    /// The charts of accounts with the id `id`.
    pub fn chart(id: u128) -> (r: CoreAccountingObject)
        ensures
            r == CoreAccountingObject::Chart(AllOrOne::ById(id)),
    {
        CoreAccountingObject::Chart(AllOrOne::ById(id))
    }

    /// All charts of accounts objects.
    pub fn all_charts() -> (r: CoreAccountingObject)
        ensures
            r == CoreAccountingObject::Chart(AllOrOne::All),
    {
        CoreAccountingObject::Chart(AllOrOne::All)
    }

    /// All journals objects.
    pub fn all_journals() -> (r: CoreAccountingObject)
        ensures
            r == CoreAccountingObject::Journal(AllOrOne::All),
    {
        CoreAccountingObject::Journal(AllOrOne::All)
    }

    /// The journals with the id `id`.
    pub fn journal(id: u128) -> (r: CoreAccountingObject)
        ensures
            r == CoreAccountingObject::Journal(AllOrOne::ById(id)),
    {
        CoreAccountingObject::Journal(AllOrOne::ById(id))
    }

    /// All ledger accounts objects.
    pub fn all_ledger_accounts() -> (r: CoreAccountingObject)
        ensures
            r == CoreAccountingObject::LedgerAccount(AllOrOne::All),
    {
        CoreAccountingObject::LedgerAccount(AllOrOne::All)
    }

    /// The ledger accounts with the id `id`.
    pub fn ledger_account(id: u128) -> (r: CoreAccountingObject)
        ensures
            r == CoreAccountingObject::LedgerAccount(AllOrOne::ById(id)),
    {
        CoreAccountingObject::LedgerAccount(AllOrOne::ById(id))
    }

    /// All ledger transactions objects.
    pub fn all_ledger_transactions() -> (r: CoreAccountingObject)
        ensures
            r == CoreAccountingObject::LedgerTransaction(AllOrOne::All),
    {
        CoreAccountingObject::LedgerTransaction(AllOrOne::All)
    }

    /// All transaction templates objects.
    pub fn all_transaction_templates() -> (r: CoreAccountingObject)
        ensures
            r == CoreAccountingObject::TransactionTemplate(AllOrOne::All),
    {
        CoreAccountingObject::TransactionTemplate(AllOrOne::All)
    }

    /// The ledger transactions with the id `id`.
    pub fn ledger_transaction(id: u128) -> (r: CoreAccountingObject)
        ensures
            r == CoreAccountingObject::LedgerTransaction(AllOrOne::ById(id)),
    {
        CoreAccountingObject::LedgerTransaction(AllOrOne::ById(id))
    }

    /// All manual transactions objects.
    pub fn all_manual_transactions() -> (r: CoreAccountingObject)
        ensures
            r == CoreAccountingObject::ManualTransaction(AllOrOne::All),
    {
        CoreAccountingObject::ManualTransaction(AllOrOne::All)
    }

    /// The manual transactions with the id `id`.
    pub fn manual_transaction(id: u128) -> (r: CoreAccountingObject)
        ensures
            r == CoreAccountingObject::ManualTransaction(AllOrOne::ById(id)),
    {
        CoreAccountingObject::ManualTransaction(AllOrOne::ById(id))
    }

    /// All profit and loss statements objects.
    pub fn all_profit_and_loss() -> (r: CoreAccountingObject)
        ensures
            r == CoreAccountingObject::ProfitAndLoss(AllOrOne::All),
    {
        CoreAccountingObject::ProfitAndLoss(AllOrOne::All)
    }

    /// The profit and loss statements with the id `id`.
    pub fn profit_and_loss(id: u128) -> (r: CoreAccountingObject)
        ensures
            r == CoreAccountingObject::ProfitAndLoss(AllOrOne::ById(id)),
    {
        CoreAccountingObject::ProfitAndLoss(AllOrOne::ById(id))
    }

    /// All profit and loss configuration objects.
    pub fn all_profit_and_loss_configuration() -> (r: CoreAccountingObject)
        ensures
            r == CoreAccountingObject::ProfitAndLossConfiguration(AllOrOne::All),
    {
        CoreAccountingObject::ProfitAndLossConfiguration(AllOrOne::All)
    }

    /// The balance sheets with the id `id`.
    pub fn balance_sheet(id: u128) -> (r: CoreAccountingObject)
        ensures
            r == CoreAccountingObject::BalanceSheet(AllOrOne::ById(id)),
    {
        CoreAccountingObject::BalanceSheet(AllOrOne::ById(id))
    }

    /// All balance sheets objects.
    pub fn all_balance_sheet() -> (r: CoreAccountingObject)
        ensures
            r == CoreAccountingObject::BalanceSheet(AllOrOne::All),
    {
        CoreAccountingObject::BalanceSheet(AllOrOne::All)
    }

    /// All balance sheet configuration objects.
    pub fn all_balance_sheet_configuration() -> (r: CoreAccountingObject)
        ensures
            r == CoreAccountingObject::BalanceSheetConfiguration(AllOrOne::All),
    {
        CoreAccountingObject::BalanceSheetConfiguration(AllOrOne::All)
    }

    /// The accounting CSV exports with the id `id`.
    pub fn accounting_csv(id: u128) -> (r: CoreAccountingObject)
        ensures
            r == CoreAccountingObject::AccountingCsv(AllOrOne::ById(id)),
    {
        CoreAccountingObject::AccountingCsv(AllOrOne::ById(id))
    }

    /// All accounting CSV exports objects.
    pub fn all_accounting_csvs() -> (r: CoreAccountingObject)
        ensures
            r == CoreAccountingObject::AccountingCsv(AllOrOne::All),
    {
        CoreAccountingObject::AccountingCsv(AllOrOne::All)
    }

    /// All trial balances objects.
    pub fn all_trial_balance() -> (r: CoreAccountingObject)
        ensures
            r == CoreAccountingObject::TrialBalance(AllOrOne::All),
    {
        CoreAccountingObject::TrialBalance(AllOrOne::All)
    }

    /// The fiscal years with the id `id`.
    pub fn fiscal_year(id: u128) -> (r: CoreAccountingObject)
        ensures
            r == CoreAccountingObject::FiscalYear(AllOrOne::ById(id)),
    {
        CoreAccountingObject::FiscalYear(AllOrOne::ById(id))
    }

    /// All fiscal years objects.
    pub fn all_fiscal_years() -> (r: CoreAccountingObject)
        ensures
            r == CoreAccountingObject::FiscalYear(AllOrOne::All),
    {
        CoreAccountingObject::FiscalYear(AllOrOne::All)
    }

    /// The object's text: the entity's name, `/`, `*` or the id. Reading
    /// the text back gives the object.
    pub fn to_string(&self) -> (r: String)
        ensures
            r@ == accounting_object_text(*self),
            first_index_of(r@, '/') < r@.len(),
            accounting_object_entity_known(before_first(r@, '/')),
            accounting_object_parsed(r@) == Ok::<CoreAccountingObject, Seq<char>>(*self),
    {
        proof {
            reveal_strlit("chart");
            reveal_strlit("journal");
            reveal_strlit("ledger-account");
            reveal_strlit("ledger-transaction");
            reveal_strlit("transaction-template");
            reveal_strlit("manual-transaction");
            reveal_strlit("profit-and-loss");
            reveal_strlit("profit-and-loss-configuration");
            reveal_strlit("balance-sheet");
            reveal_strlit("balance-sheet-configuration");
            reveal_strlit("accounting-csv");
            reveal_strlit("trial-balance");
            reveal_strlit("fiscal-year");
        }
        match self {
            CoreAccountingObject::Chart(r) => {
                let t = r.to_string();
                proof { lemma_split_at_first("chart"@, '/', t@); }
                join_with("chart", '/', t.as_str())
            },
            CoreAccountingObject::Journal(r) => {
                let t = r.to_string();
                proof { lemma_split_at_first("journal"@, '/', t@); }
                join_with("journal", '/', t.as_str())
            },
            CoreAccountingObject::LedgerAccount(r) => {
                let t = r.to_string();
                proof { lemma_split_at_first("ledger-account"@, '/', t@); }
                join_with("ledger-account", '/', t.as_str())
            },
            CoreAccountingObject::LedgerTransaction(r) => {
                let t = r.to_string();
                proof { lemma_split_at_first("ledger-transaction"@, '/', t@); }
                join_with("ledger-transaction", '/', t.as_str())
            },
            CoreAccountingObject::TransactionTemplate(r) => {
                let t = r.to_string();
                proof { lemma_split_at_first("transaction-template"@, '/', t@); }
                join_with("transaction-template", '/', t.as_str())
            },
            CoreAccountingObject::ManualTransaction(r) => {
                let t = r.to_string();
                proof { lemma_split_at_first("manual-transaction"@, '/', t@); }
                join_with("manual-transaction", '/', t.as_str())
            },
            CoreAccountingObject::ProfitAndLoss(r) => {
                let t = r.to_string();
                proof { lemma_split_at_first("profit-and-loss"@, '/', t@); }
                join_with("profit-and-loss", '/', t.as_str())
            },
            CoreAccountingObject::ProfitAndLossConfiguration(r) => {
                let t = r.to_string();
                proof { lemma_split_at_first("profit-and-loss-configuration"@, '/', t@); }
                join_with("profit-and-loss-configuration", '/', t.as_str())
            },
            CoreAccountingObject::BalanceSheet(r) => {
                let t = r.to_string();
                proof { lemma_split_at_first("balance-sheet"@, '/', t@); }
                join_with("balance-sheet", '/', t.as_str())
            },
            CoreAccountingObject::BalanceSheetConfiguration(r) => {
                let t = r.to_string();
                proof { lemma_split_at_first("balance-sheet-configuration"@, '/', t@); }
                join_with("balance-sheet-configuration", '/', t.as_str())
            },
            CoreAccountingObject::AccountingCsv(r) => {
                let t = r.to_string();
                proof { lemma_split_at_first("accounting-csv"@, '/', t@); }
                join_with("accounting-csv", '/', t.as_str())
            },
            CoreAccountingObject::TrialBalance(r) => {
                let t = r.to_string();
                proof { lemma_split_at_first("trial-balance"@, '/', t@); }
                join_with("trial-balance", '/', t.as_str())
            },
            CoreAccountingObject::FiscalYear(r) => {
                let t = r.to_string();
                proof { lemma_split_at_first("fiscal-year"@, '/', t@); }
                join_with("fiscal-year", '/', t.as_str())
            },
        }
    }

    /// The object that a text names. The text must hold a `/` and name an
    /// entity of the module before it.
    pub fn from_str(s: &str) -> (r: Result<CoreAccountingObject, &'static str>)
        requires
            first_index_of(s@, '/') < s@.len(),
            accounting_object_entity_known(before_first(s@, '/')),
        ensures
            match r {
                Ok(o) => accounting_object_parsed(s@) == Ok::<CoreAccountingObject, Seq<char>>(o),
                Err(m) => accounting_object_parsed(s@) == Err::<CoreAccountingObject, Seq<char>>(m@),
            },
    {
        let v = chars_of(s);
        let slash = find_first(&v, '/');
        assert(v@ == s@ && slash < v.len());
        let entity = slice_chars(&v, 0, slash);
        let rest = slice_chars(&v, slash + 1, v.len());
        assert(entity@ == before_first(s@, '/'));
        assert(rest@ == after_first(s@, '/'));
        let reference = AllOrOne::from_chars(&rest);
        if chars_are(&entity, "chart") {
            return match reference {
                Some(r) => Ok(CoreAccountingObject::Chart(r)),
                None => Err("could not parse CoreChartObject"),
            };
        }
        if chars_are(&entity, "journal") {
            return match reference {
                Some(r) => Ok(CoreAccountingObject::Journal(r)),
                None => Err("could not parse CoreJournalObject"),
            };
        }
        if chars_are(&entity, "ledger-account") {
            return match reference {
                Some(r) => Ok(CoreAccountingObject::LedgerAccount(r)),
                None => Err("could not parse LedgerAccount"),
            };
        }
        if chars_are(&entity, "ledger-transaction") {
            return match reference {
                Some(r) => Ok(CoreAccountingObject::LedgerTransaction(r)),
                None => Err("could not parse LedgerAccount"),
            };
        }
        if chars_are(&entity, "transaction-template") {
            return match reference {
                Some(r) => Ok(CoreAccountingObject::TransactionTemplate(r)),
                None => Err("could not parse TransactionTemplate"),
            };
        }
        if chars_are(&entity, "manual-transaction") {
            return match reference {
                Some(r) => Ok(CoreAccountingObject::ManualTransaction(r)),
                None => Err("could not parse ManualTransaction"),
            };
        }
        if chars_are(&entity, "profit-and-loss") {
            return match reference {
                Some(r) => Ok(CoreAccountingObject::ProfitAndLoss(r)),
                None => Err("could not parse ProfitAndLoss"),
            };
        }
        if chars_are(&entity, "profit-and-loss-configuration") {
            return match reference {
                Some(r) => Ok(CoreAccountingObject::ProfitAndLossConfiguration(r)),
                None => Err("could not parse ProfitAndLossConfiguration"),
            };
        }
        if chars_are(&entity, "balance-sheet") {
            return match reference {
                Some(r) => Ok(CoreAccountingObject::BalanceSheet(r)),
                None => Err("could not parse BalanceSheet"),
            };
        }
        if chars_are(&entity, "balance-sheet-configuration") {
            return match reference {
                Some(r) => Ok(CoreAccountingObject::BalanceSheetConfiguration(r)),
                None => Err("could not parse BalanceSheetConfiguration"),
            };
        }
        if chars_are(&entity, "accounting-csv") {
            return match reference {
                Some(r) => Ok(CoreAccountingObject::AccountingCsv(r)),
                None => Err("could not parse AccountingCsv"),
            };
        }
        if chars_are(&entity, "trial-balance") {
            return match reference {
                Some(r) => Ok(CoreAccountingObject::TrialBalance(r)),
                None => Err("could not parse TrialBalance"),
            };
        }
            return match reference {
                Some(r) => Ok(CoreAccountingObject::FiscalYear(r)),
                None => Err("could not parse FiscalYear"),
            };
    }
}

} // verus!
