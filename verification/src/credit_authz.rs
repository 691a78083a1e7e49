//! The credit module's permissions: its actions, the permission sets that
//! grant them, and the objects they act on.
use vstd::prelude::*;
use crate::authz::{
    action_mapping, after_first, all_or_one_from_text, all_or_one_text, before_first, chars_are, find_first,
    first_index_of, join_with, lacks, lemma_split_at_first, slice_chars, ActionMapping, ActionMappingView,
    AllOrOne, ParseError,
};
use crate::text::chars_of;

verus! {

/// The permission set `credit_viewer`.
pub const PERMISSION_SET_CREDIT_VIEWER: &'static str = "credit_viewer";

/// The permission set `credit_writer`.
pub const PERMISSION_SET_CREDIT_WRITER: &'static str = "credit_writer";

/// The permission set `collection_viewer`.
pub const PERMISSION_SET_COLLECTION_VIEWER: &'static str = "collection_viewer";

/// The permission set `collection_writer`.
pub const PERMISSION_SET_COLLECTION_WRITER: &'static str = "collection_writer";

/// The permission set `collection_payment_date`.
pub const PERMISSION_SET_COLLECTION_PAYMENT_DATE: &'static str = "collection_payment_date";

/// What can be done with the credit facilities.
#[derive(Debug, Clone, Copy, PartialEq, Eq)]
pub enum CreditFacilityAction {
    Create,
    Read,
    List,
    ConcludeApprovalProcess,
    Activate,
    UpdateCollateral,
    RecordInterest,
    Complete,
    UpdateCollateralizationState,
    CustomerApprove,
}

/// The kebab-case name of a credit facilities action.
pub open spec fn credit_facility_action_name(a: CreditFacilityAction) -> Seq<char> {
    match a {
        CreditFacilityAction::Create => "create"@,
        CreditFacilityAction::Read => "read"@,
        CreditFacilityAction::List => "list"@,
        CreditFacilityAction::ConcludeApprovalProcess => "conclude-approval-process"@,
        CreditFacilityAction::Activate => "activate"@,
        CreditFacilityAction::UpdateCollateral => "update-collateral"@,
        CreditFacilityAction::RecordInterest => "record-interest"@,
        CreditFacilityAction::Complete => "complete"@,
        CreditFacilityAction::UpdateCollateralizationState => "update-collateralization-state"@,
        CreditFacilityAction::CustomerApprove => "customer-approve"@,
    }
}

/// The credit facilities action that a name names, if any.
pub open spec fn credit_facility_action_named(s: Seq<char>) -> Option<CreditFacilityAction> {
    if s == "create"@ {
        Some(CreditFacilityAction::Create)
    } else if s == "read"@ {
        Some(CreditFacilityAction::Read)
    } else if s == "list"@ {
        Some(CreditFacilityAction::List)
    } else if s == "conclude-approval-process"@ {
        Some(CreditFacilityAction::ConcludeApprovalProcess)
    } else if s == "activate"@ {
        Some(CreditFacilityAction::Activate)
    } else if s == "update-collateral"@ {
        Some(CreditFacilityAction::UpdateCollateral)
    } else if s == "record-interest"@ {
        Some(CreditFacilityAction::RecordInterest)
    } else if s == "complete"@ {
        Some(CreditFacilityAction::Complete)
    } else if s == "update-collateralization-state"@ {
        Some(CreditFacilityAction::UpdateCollateralizationState)
    } else if s == "customer-approve"@ {
        Some(CreditFacilityAction::CustomerApprove)
    } else {
        None
    }
}

/// The permission set that grants a credit facilities action.
pub open spec fn credit_facility_action_permission(a: CreditFacilityAction) -> Seq<char> {
    match a {
        CreditFacilityAction::Create => PERMISSION_SET_CREDIT_WRITER@,
        CreditFacilityAction::Read => PERMISSION_SET_CREDIT_VIEWER@,
        CreditFacilityAction::List => PERMISSION_SET_CREDIT_VIEWER@,
        CreditFacilityAction::ConcludeApprovalProcess => PERMISSION_SET_CREDIT_WRITER@,
        CreditFacilityAction::Activate => PERMISSION_SET_CREDIT_WRITER@,
        CreditFacilityAction::UpdateCollateral => PERMISSION_SET_CREDIT_WRITER@,
        CreditFacilityAction::RecordInterest => PERMISSION_SET_CREDIT_WRITER@,
        CreditFacilityAction::Complete => PERMISSION_SET_CREDIT_WRITER@,
        CreditFacilityAction::UpdateCollateralizationState => PERMISSION_SET_CREDIT_WRITER@,
        CreditFacilityAction::CustomerApprove => PERMISSION_SET_CREDIT_WRITER@,
    }
}

/// The actions on the credit facilities, in the order they are declared.
pub open spec fn credit_facility_action_all() -> Seq<CreditFacilityAction> {
    seq![CreditFacilityAction::Create, CreditFacilityAction::Read, CreditFacilityAction::List, CreditFacilityAction::ConcludeApprovalProcess, CreditFacilityAction::Activate, CreditFacilityAction::UpdateCollateral, CreditFacilityAction::RecordInterest, CreditFacilityAction::Complete, CreditFacilityAction::UpdateCollateralizationState, CreditFacilityAction::CustomerApprove]
}

impl CreditFacilityAction {
    /// The action's kebab-case name.
    pub fn as_str(&self) -> (r: &'static str)
        ensures
            r@ == credit_facility_action_name(*self),
    {
        match self {
            CreditFacilityAction::Create => "create",
            CreditFacilityAction::Read => "read",
            CreditFacilityAction::List => "list",
            CreditFacilityAction::ConcludeApprovalProcess => "conclude-approval-process",
            CreditFacilityAction::Activate => "activate",
            CreditFacilityAction::UpdateCollateral => "update-collateral",
            CreditFacilityAction::RecordInterest => "record-interest",
            CreditFacilityAction::Complete => "complete",
            CreditFacilityAction::UpdateCollateralizationState => "update-collateralization-state",
            CreditFacilityAction::CustomerApprove => "customer-approve",
        }
    }

    /// The action that the characters name, if any.
    pub fn from_chars(v: &Vec<char>) -> (r: Option<CreditFacilityAction>)
        ensures
            r == credit_facility_action_named(v@),
    {
        if chars_are(v, "create") {
            return Some(CreditFacilityAction::Create);
        }
        if chars_are(v, "read") {
            return Some(CreditFacilityAction::Read);
        }
        if chars_are(v, "list") {
            return Some(CreditFacilityAction::List);
        }
        if chars_are(v, "conclude-approval-process") {
            return Some(CreditFacilityAction::ConcludeApprovalProcess);
        }
        if chars_are(v, "activate") {
            return Some(CreditFacilityAction::Activate);
        }
        if chars_are(v, "update-collateral") {
            return Some(CreditFacilityAction::UpdateCollateral);
        }
        if chars_are(v, "record-interest") {
            return Some(CreditFacilityAction::RecordInterest);
        }
        if chars_are(v, "complete") {
            return Some(CreditFacilityAction::Complete);
        }
        if chars_are(v, "update-collateralization-state") {
            return Some(CreditFacilityAction::UpdateCollateralizationState);
        }
        if chars_are(v, "customer-approve") {
            return Some(CreditFacilityAction::CustomerApprove);
        }
        None
    }

    /// The action that a text names, if any.
    pub fn parse(s: &str) -> (r: Option<CreditFacilityAction>)
        ensures
            r == credit_facility_action_named(s@),
    {
        let v = chars_of(s);
        Self::from_chars(&v)
    }

    /// The permission set that grants the action.
    pub fn permission_set(&self) -> (r: &'static str)
        ensures
            r@ == credit_facility_action_permission(*self),
    {
        match self {
            CreditFacilityAction::Create => PERMISSION_SET_CREDIT_WRITER,
            CreditFacilityAction::Read => PERMISSION_SET_CREDIT_VIEWER,
            CreditFacilityAction::List => PERMISSION_SET_CREDIT_VIEWER,
            CreditFacilityAction::ConcludeApprovalProcess => PERMISSION_SET_CREDIT_WRITER,
            CreditFacilityAction::Activate => PERMISSION_SET_CREDIT_WRITER,
            CreditFacilityAction::UpdateCollateral => PERMISSION_SET_CREDIT_WRITER,
            CreditFacilityAction::RecordInterest => PERMISSION_SET_CREDIT_WRITER,
            CreditFacilityAction::Complete => PERMISSION_SET_CREDIT_WRITER,
            CreditFacilityAction::UpdateCollateralizationState => PERMISSION_SET_CREDIT_WRITER,
            CreditFacilityAction::CustomerApprove => PERMISSION_SET_CREDIT_WRITER,
        }
    }
}

proof fn lemma_credit_facility_action_names(a: CreditFacilityAction)
    ensures
        credit_facility_action_named(credit_facility_action_name(a)) == Some(a),
        lacks(credit_facility_action_name(a), ':'),
{
    reveal_strlit("create");
    reveal_strlit("read");
    reveal_strlit("list");
    reveal_strlit("conclude-approval-process");
    reveal_strlit("activate");
    reveal_strlit("update-collateral");
    reveal_strlit("record-interest");
    reveal_strlit("complete");
    reveal_strlit("update-collateralization-state");
    reveal_strlit("customer-approve");
    assert("create"@.len() == 6 && "read"@.len() == 4);
    assert("create"@.len() == 6 && "list"@.len() == 4);
    assert("create"@.len() == 6 && "conclude-approval-process"@.len() == 25);
    assert("create"@.len() == 6 && "activate"@.len() == 8);
    assert("create"@.len() == 6 && "update-collateral"@.len() == 17);
    assert("create"@.len() == 6 && "record-interest"@.len() == 15);
    assert("create"@.len() == 6 && "complete"@.len() == 8);
    assert("create"@.len() == 6 && "update-collateralization-state"@.len() == 30);
    assert("create"@.len() == 6 && "customer-approve"@.len() == 16);
    assert("read"@[0] == 'r' && "list"@[0] == 'l');
    assert("read"@.len() == 4 && "conclude-approval-process"@.len() == 25);
    assert("read"@.len() == 4 && "activate"@.len() == 8);
    assert("read"@.len() == 4 && "update-collateral"@.len() == 17);
    assert("read"@.len() == 4 && "record-interest"@.len() == 15);
    assert("read"@.len() == 4 && "complete"@.len() == 8);
    assert("read"@.len() == 4 && "update-collateralization-state"@.len() == 30);
    assert("read"@.len() == 4 && "customer-approve"@.len() == 16);
    assert("list"@.len() == 4 && "conclude-approval-process"@.len() == 25);
    assert("list"@.len() == 4 && "activate"@.len() == 8);
    assert("list"@.len() == 4 && "update-collateral"@.len() == 17);
    assert("list"@.len() == 4 && "record-interest"@.len() == 15);
    assert("list"@.len() == 4 && "complete"@.len() == 8);
    assert("list"@.len() == 4 && "update-collateralization-state"@.len() == 30);
    assert("list"@.len() == 4 && "customer-approve"@.len() == 16);
    assert("conclude-approval-process"@.len() == 25 && "activate"@.len() == 8);
    assert("conclude-approval-process"@.len() == 25 && "update-collateral"@.len() == 17);
    assert("conclude-approval-process"@.len() == 25 && "record-interest"@.len() == 15);
    assert("conclude-approval-process"@.len() == 25 && "complete"@.len() == 8);
    assert("conclude-approval-process"@.len() == 25 && "update-collateralization-state"@.len() == 30);
    assert("conclude-approval-process"@.len() == 25 && "customer-approve"@.len() == 16);
    assert("activate"@.len() == 8 && "update-collateral"@.len() == 17);
    assert("activate"@.len() == 8 && "record-interest"@.len() == 15);
    assert("activate"@[0] == 'a' && "complete"@[0] == 'c');
    assert("activate"@.len() == 8 && "update-collateralization-state"@.len() == 30);
    assert("activate"@.len() == 8 && "customer-approve"@.len() == 16);
    assert("update-collateral"@.len() == 17 && "record-interest"@.len() == 15);
    assert("update-collateral"@.len() == 17 && "complete"@.len() == 8);
    assert("update-collateral"@.len() == 17 && "update-collateralization-state"@.len() == 30);
    assert("update-collateral"@.len() == 17 && "customer-approve"@.len() == 16);
    assert("record-interest"@.len() == 15 && "complete"@.len() == 8);
    assert("record-interest"@.len() == 15 && "update-collateralization-state"@.len() == 30);
    assert("record-interest"@.len() == 15 && "customer-approve"@.len() == 16);
    assert("complete"@.len() == 8 && "update-collateralization-state"@.len() == 30);
    assert("complete"@.len() == 8 && "customer-approve"@.len() == 16);
    assert("update-collateralization-state"@.len() == 30 && "customer-approve"@.len() == 16);
}

/// What can be done with the chart of accounts integration.
#[derive(Debug, Clone, Copy, PartialEq, Eq)]
pub enum ChartOfAccountsIntegrationConfigAction {
    Read,
    Update,
}

/// The kebab-case name of a chart of accounts integration action.
pub open spec fn chart_of_accounts_integration_config_action_name(a: ChartOfAccountsIntegrationConfigAction) -> Seq<char> {
    match a {
        ChartOfAccountsIntegrationConfigAction::Read => "read"@,
        ChartOfAccountsIntegrationConfigAction::Update => "update"@,
    }
}

/// The chart of accounts integration action that a name names, if any.
pub open spec fn chart_of_accounts_integration_config_action_named(s: Seq<char>) -> Option<ChartOfAccountsIntegrationConfigAction> {
    if s == "read"@ {
        Some(ChartOfAccountsIntegrationConfigAction::Read)
    } else if s == "update"@ {
        Some(ChartOfAccountsIntegrationConfigAction::Update)
    } else {
        None
    }
}

/// The permission set that grants a chart of accounts integration action.
pub open spec fn chart_of_accounts_integration_config_action_permission(a: ChartOfAccountsIntegrationConfigAction) -> Seq<char> {
    match a {
        ChartOfAccountsIntegrationConfigAction::Read => PERMISSION_SET_CREDIT_VIEWER@,
        ChartOfAccountsIntegrationConfigAction::Update => PERMISSION_SET_CREDIT_WRITER@,
    }
}

/// The actions on the chart of accounts integration, in the order they are declared.
pub open spec fn chart_of_accounts_integration_config_action_all() -> Seq<ChartOfAccountsIntegrationConfigAction> {
    seq![ChartOfAccountsIntegrationConfigAction::Read, ChartOfAccountsIntegrationConfigAction::Update]
}

impl ChartOfAccountsIntegrationConfigAction {
    /// The action's kebab-case name.
    pub fn as_str(&self) -> (r: &'static str)
        ensures
            r@ == chart_of_accounts_integration_config_action_name(*self),
    {
        match self {
            ChartOfAccountsIntegrationConfigAction::Read => "read",
            ChartOfAccountsIntegrationConfigAction::Update => "update",
        }
    }

    /// The action that the characters name, if any.
    pub fn from_chars(v: &Vec<char>) -> (r: Option<ChartOfAccountsIntegrationConfigAction>)
        ensures
            r == chart_of_accounts_integration_config_action_named(v@),
    {
        if chars_are(v, "read") {
            return Some(ChartOfAccountsIntegrationConfigAction::Read);
        }
        if chars_are(v, "update") {
            return Some(ChartOfAccountsIntegrationConfigAction::Update);
        }
        None
    }

    /// The action that a text names, if any.
    pub fn parse(s: &str) -> (r: Option<ChartOfAccountsIntegrationConfigAction>)
        ensures
            r == chart_of_accounts_integration_config_action_named(s@),
    {
        let v = chars_of(s);
        Self::from_chars(&v)
    }

    /// The permission set that grants the action.
    pub fn permission_set(&self) -> (r: &'static str)
        ensures
            r@ == chart_of_accounts_integration_config_action_permission(*self),
    {
        match self {
            ChartOfAccountsIntegrationConfigAction::Read => PERMISSION_SET_CREDIT_VIEWER,
            ChartOfAccountsIntegrationConfigAction::Update => PERMISSION_SET_CREDIT_WRITER,
        }
    }
}

proof fn lemma_chart_of_accounts_integration_config_action_names(a: ChartOfAccountsIntegrationConfigAction)
    ensures
        chart_of_accounts_integration_config_action_named(chart_of_accounts_integration_config_action_name(a)) == Some(a),
        lacks(chart_of_accounts_integration_config_action_name(a), ':'),
{
    reveal_strlit("read");
    reveal_strlit("update");
    assert("read"@.len() == 4 && "update"@.len() == 6);
}

/// What can be done with the collaterals.
#[derive(Debug, Clone, Copy, PartialEq, Eq)]
pub enum CollateralAction {
    RecordLiquidationUpdate,
    RecordPaymentReceived,
}

/// The kebab-case name of a collaterals action.
pub open spec fn collateral_action_name(a: CollateralAction) -> Seq<char> {
    match a {
        CollateralAction::RecordLiquidationUpdate => "record-liquidation-update"@,
        CollateralAction::RecordPaymentReceived => "record-payment-received"@,
    }
}

/// The collaterals action that a name names, if any.
pub open spec fn collateral_action_named(s: Seq<char>) -> Option<CollateralAction> {
    if s == "record-liquidation-update"@ {
        Some(CollateralAction::RecordLiquidationUpdate)
    } else if s == "record-payment-received"@ {
        Some(CollateralAction::RecordPaymentReceived)
    } else {
        None
    }
}

/// The permission set that grants a collaterals action.
pub open spec fn collateral_action_permission(a: CollateralAction) -> Seq<char> {
    match a {
        CollateralAction::RecordLiquidationUpdate => PERMISSION_SET_CREDIT_WRITER@,
        CollateralAction::RecordPaymentReceived => PERMISSION_SET_CREDIT_WRITER@,
    }
}

/// The actions on the collaterals, in the order they are declared.
pub open spec fn collateral_action_all() -> Seq<CollateralAction> {
    seq![CollateralAction::RecordLiquidationUpdate, CollateralAction::RecordPaymentReceived]
}

impl CollateralAction {
    /// The action's kebab-case name.
    pub fn as_str(&self) -> (r: &'static str)
        ensures
            r@ == collateral_action_name(*self),
    {
        match self {
            CollateralAction::RecordLiquidationUpdate => "record-liquidation-update",
            CollateralAction::RecordPaymentReceived => "record-payment-received",
        }
    }

    /// The action that the characters name, if any.
    pub fn from_chars(v: &Vec<char>) -> (r: Option<CollateralAction>)
        ensures
            r == collateral_action_named(v@),
    {
        if chars_are(v, "record-liquidation-update") {
            return Some(CollateralAction::RecordLiquidationUpdate);
        }
        if chars_are(v, "record-payment-received") {
            return Some(CollateralAction::RecordPaymentReceived);
        }
        None
    }

    /// The action that a text names, if any.
    pub fn parse(s: &str) -> (r: Option<CollateralAction>)
        ensures
            r == collateral_action_named(s@),
    {
        let v = chars_of(s);
        Self::from_chars(&v)
    }

    /// The permission set that grants the action.
    pub fn permission_set(&self) -> (r: &'static str)
        ensures
            r@ == collateral_action_permission(*self),
    {
        match self {
            CollateralAction::RecordLiquidationUpdate => PERMISSION_SET_CREDIT_WRITER,
            CollateralAction::RecordPaymentReceived => PERMISSION_SET_CREDIT_WRITER,
        }
    }
}

proof fn lemma_collateral_action_names(a: CollateralAction)
    ensures
        collateral_action_named(collateral_action_name(a)) == Some(a),
        lacks(collateral_action_name(a), ':'),
{
    reveal_strlit("record-liquidation-update");
    reveal_strlit("record-payment-received");
    assert("record-liquidation-update"@.len() == 25 && "record-payment-received"@.len() == 23);
}

/// What can be done with the disbursals.
#[derive(Debug, Clone, Copy, PartialEq, Eq)]
pub enum DisbursalAction {
    Initiate,
    Settle,
    List,
    Read,
}

/// The kebab-case name of a disbursals action.
pub open spec fn disbursal_action_name(a: DisbursalAction) -> Seq<char> {
    match a {
        DisbursalAction::Initiate => "initiate"@,
        DisbursalAction::Settle => "settle"@,
        DisbursalAction::List => "list"@,
        DisbursalAction::Read => "read"@,
    }
}

/// The disbursals action that a name names, if any.
pub open spec fn disbursal_action_named(s: Seq<char>) -> Option<DisbursalAction> {
    if s == "initiate"@ {
        Some(DisbursalAction::Initiate)
    } else if s == "settle"@ {
        Some(DisbursalAction::Settle)
    } else if s == "list"@ {
        Some(DisbursalAction::List)
    } else if s == "read"@ {
        Some(DisbursalAction::Read)
    } else {
        None
    }
}

/// The permission set that grants a disbursals action.
pub open spec fn disbursal_action_permission(a: DisbursalAction) -> Seq<char> {
    match a {
        DisbursalAction::Initiate => PERMISSION_SET_CREDIT_WRITER@,
        DisbursalAction::Settle => PERMISSION_SET_CREDIT_WRITER@,
        DisbursalAction::List => PERMISSION_SET_CREDIT_VIEWER@,
        DisbursalAction::Read => PERMISSION_SET_CREDIT_VIEWER@,
    }
}

/// The actions on the disbursals, in the order they are declared.
pub open spec fn disbursal_action_all() -> Seq<DisbursalAction> {
    seq![DisbursalAction::Initiate, DisbursalAction::Settle, DisbursalAction::List, DisbursalAction::Read]
}

impl DisbursalAction {
    /// The action's kebab-case name.
    pub fn as_str(&self) -> (r: &'static str)
        ensures
            r@ == disbursal_action_name(*self),
    {
        match self {
            DisbursalAction::Initiate => "initiate",
            DisbursalAction::Settle => "settle",
            DisbursalAction::List => "list",
            DisbursalAction::Read => "read",
        }
    }

    /// The action that the characters name, if any.
    pub fn from_chars(v: &Vec<char>) -> (r: Option<DisbursalAction>)
        ensures
            r == disbursal_action_named(v@),
    {
        if chars_are(v, "initiate") {
            return Some(DisbursalAction::Initiate);
        }
        if chars_are(v, "settle") {
            return Some(DisbursalAction::Settle);
        }
        if chars_are(v, "list") {
            return Some(DisbursalAction::List);
        }
        if chars_are(v, "read") {
            return Some(DisbursalAction::Read);
        }
        None
    }

    /// The action that a text names, if any.
    pub fn parse(s: &str) -> (r: Option<DisbursalAction>)
        ensures
            r == disbursal_action_named(s@),
    {
        let v = chars_of(s);
        Self::from_chars(&v)
    }

    /// The permission set that grants the action.
    pub fn permission_set(&self) -> (r: &'static str)
        ensures
            r@ == disbursal_action_permission(*self),
    {
        match self {
            DisbursalAction::Initiate => PERMISSION_SET_CREDIT_WRITER,
            DisbursalAction::Settle => PERMISSION_SET_CREDIT_WRITER,
            DisbursalAction::List => PERMISSION_SET_CREDIT_VIEWER,
            DisbursalAction::Read => PERMISSION_SET_CREDIT_VIEWER,
        }
    }
}

proof fn lemma_disbursal_action_names(a: DisbursalAction)
    ensures
        disbursal_action_named(disbursal_action_name(a)) == Some(a),
        lacks(disbursal_action_name(a), ':'),
{
    reveal_strlit("initiate");
    reveal_strlit("settle");
    reveal_strlit("list");
    reveal_strlit("read");
    assert("initiate"@.len() == 8 && "settle"@.len() == 6);
    assert("initiate"@.len() == 8 && "list"@.len() == 4);
    assert("initiate"@.len() == 8 && "read"@.len() == 4);
    assert("settle"@.len() == 6 && "list"@.len() == 4);
    assert("settle"@.len() == 6 && "read"@.len() == 4);
    assert("list"@[0] == 'l' && "read"@[0] == 'r');
}

/// What can be done with the liquidations.
#[derive(Debug, Clone, Copy, PartialEq, Eq)]
pub enum LiquidationAction {
    List,
    Read,
}

/// The kebab-case name of a liquidations action.
pub open spec fn liquidation_action_name(a: LiquidationAction) -> Seq<char> {
    match a {
        LiquidationAction::List => "list"@,
        LiquidationAction::Read => "read"@,
    }
}

/// The liquidations action that a name names, if any.
pub open spec fn liquidation_action_named(s: Seq<char>) -> Option<LiquidationAction> {
    if s == "list"@ {
        Some(LiquidationAction::List)
    } else if s == "read"@ {
        Some(LiquidationAction::Read)
    } else {
        None
    }
}

/// The permission set that grants a liquidations action.
pub open spec fn liquidation_action_permission(a: LiquidationAction) -> Seq<char> {
    match a {
        LiquidationAction::List => PERMISSION_SET_CREDIT_VIEWER@,
        LiquidationAction::Read => PERMISSION_SET_CREDIT_VIEWER@,
    }
}

/// The actions on the liquidations, in the order they are declared.
pub open spec fn liquidation_action_all() -> Seq<LiquidationAction> {
    seq![LiquidationAction::List, LiquidationAction::Read]
}

impl LiquidationAction {
    /// The action's kebab-case name.
    pub fn as_str(&self) -> (r: &'static str)
        ensures
            r@ == liquidation_action_name(*self),
    {
        match self {
            LiquidationAction::List => "list",
            LiquidationAction::Read => "read",
        }
    }

    /// The action that the characters name, if any.
    pub fn from_chars(v: &Vec<char>) -> (r: Option<LiquidationAction>)
        ensures
            r == liquidation_action_named(v@),
    {
        if chars_are(v, "list") {
            return Some(LiquidationAction::List);
        }
        if chars_are(v, "read") {
            return Some(LiquidationAction::Read);
        }
        None
    }

    /// The action that a text names, if any.
    pub fn parse(s: &str) -> (r: Option<LiquidationAction>)
        ensures
            r == liquidation_action_named(s@),
    {
        let v = chars_of(s);
        Self::from_chars(&v)
    }

    /// The permission set that grants the action.
    pub fn permission_set(&self) -> (r: &'static str)
        ensures
            r@ == liquidation_action_permission(*self),
    {
        match self {
            LiquidationAction::List => PERMISSION_SET_CREDIT_VIEWER,
            LiquidationAction::Read => PERMISSION_SET_CREDIT_VIEWER,
        }
    }
}

proof fn lemma_liquidation_action_names(a: LiquidationAction)
    ensures
        liquidation_action_named(liquidation_action_name(a)) == Some(a),
        lacks(liquidation_action_name(a), ':'),
{
    reveal_strlit("list");
    reveal_strlit("read");
    assert("list"@[0] == 'l' && "read"@[0] == 'r');
}

/// What can be done with the obligations.
#[derive(Debug, Clone, Copy, PartialEq, Eq)]
pub enum ObligationAction {
    Read,
    UpdateStatus,
    RecordPaymentAllocation,
    RecordPaymentAllocationWithDate,
}

/// The kebab-case name of a obligations action.
pub open spec fn obligation_action_name(a: ObligationAction) -> Seq<char> {
    match a {
        ObligationAction::Read => "read"@,
        ObligationAction::UpdateStatus => "update-status"@,
        ObligationAction::RecordPaymentAllocation => "record-payment-allocation"@,
        ObligationAction::RecordPaymentAllocationWithDate => "record-payment-allocation-with-date"@,
    }
}

/// The obligations action that a name names, if any.
pub open spec fn obligation_action_named(s: Seq<char>) -> Option<ObligationAction> {
    if s == "read"@ {
        Some(ObligationAction::Read)
    } else if s == "update-status"@ {
        Some(ObligationAction::UpdateStatus)
    } else if s == "record-payment-allocation"@ {
        Some(ObligationAction::RecordPaymentAllocation)
    } else if s == "record-payment-allocation-with-date"@ {
        Some(ObligationAction::RecordPaymentAllocationWithDate)
    } else {
        None
    }
}

/// The permission set that grants a obligations action.
pub open spec fn obligation_action_permission(a: ObligationAction) -> Seq<char> {
    match a {
        ObligationAction::Read => PERMISSION_SET_COLLECTION_VIEWER@,
        ObligationAction::UpdateStatus => PERMISSION_SET_COLLECTION_WRITER@,
        ObligationAction::RecordPaymentAllocation => PERMISSION_SET_COLLECTION_WRITER@,
        ObligationAction::RecordPaymentAllocationWithDate => PERMISSION_SET_COLLECTION_PAYMENT_DATE@,
    }
}

/// The actions on the obligations, in the order they are declared.
pub open spec fn obligation_action_all() -> Seq<ObligationAction> {
    seq![ObligationAction::Read, ObligationAction::UpdateStatus, ObligationAction::RecordPaymentAllocation, ObligationAction::RecordPaymentAllocationWithDate]
}

impl ObligationAction {
    /// The action's kebab-case name.
    pub fn as_str(&self) -> (r: &'static str)
        ensures
            r@ == obligation_action_name(*self),
    {
        match self {
            ObligationAction::Read => "read",
            ObligationAction::UpdateStatus => "update-status",
            ObligationAction::RecordPaymentAllocation => "record-payment-allocation",
            ObligationAction::RecordPaymentAllocationWithDate => "record-payment-allocation-with-date",
        }
    }

    /// The action that the characters name, if any.
    pub fn from_chars(v: &Vec<char>) -> (r: Option<ObligationAction>)
        ensures
            r == obligation_action_named(v@),
    {
        if chars_are(v, "read") {
            return Some(ObligationAction::Read);
        }
        if chars_are(v, "update-status") {
            return Some(ObligationAction::UpdateStatus);
        }
        if chars_are(v, "record-payment-allocation") {
            return Some(ObligationAction::RecordPaymentAllocation);
        }
        if chars_are(v, "record-payment-allocation-with-date") {
            return Some(ObligationAction::RecordPaymentAllocationWithDate);
        }
        None
    }

    /// The action that a text names, if any.
    pub fn parse(s: &str) -> (r: Option<ObligationAction>)
        ensures
            r == obligation_action_named(s@),
    {
        let v = chars_of(s);
        Self::from_chars(&v)
    }

    /// The permission set that grants the action.
    pub fn permission_set(&self) -> (r: &'static str)
        ensures
            r@ == obligation_action_permission(*self),
    {
        match self {
            ObligationAction::Read => PERMISSION_SET_COLLECTION_VIEWER,
            ObligationAction::UpdateStatus => PERMISSION_SET_COLLECTION_WRITER,
            ObligationAction::RecordPaymentAllocation => PERMISSION_SET_COLLECTION_WRITER,
            ObligationAction::RecordPaymentAllocationWithDate => PERMISSION_SET_COLLECTION_PAYMENT_DATE,
        }
    }
}

proof fn lemma_obligation_action_names(a: ObligationAction)
    ensures
        obligation_action_named(obligation_action_name(a)) == Some(a),
        lacks(obligation_action_name(a), ':'),
{
    reveal_strlit("read");
    reveal_strlit("update-status");
    reveal_strlit("record-payment-allocation");
    reveal_strlit("record-payment-allocation-with-date");
    assert("read"@.len() == 4 && "update-status"@.len() == 13);
    assert("read"@.len() == 4 && "record-payment-allocation"@.len() == 25);
    assert("read"@.len() == 4 && "record-payment-allocation-with-date"@.len() == 35);
    assert("update-status"@.len() == 13 && "record-payment-allocation"@.len() == 25);
    assert("update-status"@.len() == 13 && "record-payment-allocation-with-date"@.len() == 35);
    assert("record-payment-allocation"@.len() == 25 && "record-payment-allocation-with-date"@.len() == 35);
}

/// An action of the module: the entity it is on and what is done.
#[derive(Debug, Clone, Copy, PartialEq, Eq)]
pub enum CoreCreditAction {
    CreditFacility(CreditFacilityAction),
    ChartOfAccountsIntegrationConfig(ChartOfAccountsIntegrationConfigAction),
    Collateral(CollateralAction),
    Disbursal(DisbursalAction),
    Liquidation(LiquidationAction),
    Obligation(ObligationAction),
}

/// The text of an action: the entity's name, `:`, the action's name.
pub open spec fn credit_action_text(a: CoreCreditAction) -> Seq<char> {
    match a {
        CoreCreditAction::CreditFacility(x) => "credit-facility"@ + seq![':'] + credit_facility_action_name(x),
        CoreCreditAction::ChartOfAccountsIntegrationConfig(x) => "chart-of-accounts-integration-config"@ + seq![':'] + chart_of_accounts_integration_config_action_name(x),
        CoreCreditAction::Collateral(x) => "collateral"@ + seq![':'] + collateral_action_name(x),
        CoreCreditAction::Disbursal(x) => "disbursal"@ + seq![':'] + disbursal_action_name(x),
        CoreCreditAction::Liquidation(x) => "liquidation"@ + seq![':'] + liquidation_action_name(x),
        CoreCreditAction::Obligation(x) => "obligation"@ + seq![':'] + obligation_action_name(x),
    }
}

/// The verb of an action text: what follows its first `:`, up to the
/// next `:` if there is one.
pub open spec fn credit_action_verb(s: Seq<char>) -> Seq<char> {
    before_first(after_first(s, ':'), ':')
}

/// The action that a text names: its entity before the first `:`, its
/// verb after; a name of neither is an error.
pub open spec fn credit_action_parsed(s: Seq<char>) -> Result<CoreCreditAction, ParseError> {
    let entity = before_first(s, ':');
    let verb = credit_action_verb(s);
    if entity == "credit-facility"@ {
        match credit_facility_action_named(verb) {
            Some(x) => Ok(CoreCreditAction::CreditFacility(x)),
            None => Err(ParseError::VariantNotFound),
        }
    } else if entity == "chart-of-accounts-integration-config"@ {
        match chart_of_accounts_integration_config_action_named(verb) {
            Some(x) => Ok(CoreCreditAction::ChartOfAccountsIntegrationConfig(x)),
            None => Err(ParseError::VariantNotFound),
        }
    } else if entity == "collateral"@ {
        match collateral_action_named(verb) {
            Some(x) => Ok(CoreCreditAction::Collateral(x)),
            None => Err(ParseError::VariantNotFound),
        }
    } else if entity == "disbursal"@ {
        match disbursal_action_named(verb) {
            Some(x) => Ok(CoreCreditAction::Disbursal(x)),
            None => Err(ParseError::VariantNotFound),
        }
    } else if entity == "liquidation"@ {
        match liquidation_action_named(verb) {
            Some(x) => Ok(CoreCreditAction::Liquidation(x)),
            None => Err(ParseError::VariantNotFound),
        }
    } else if entity == "obligation"@ {
        match obligation_action_named(verb) {
            Some(x) => Ok(CoreCreditAction::Obligation(x)),
            None => Err(ParseError::VariantNotFound),
        }
    } else {
        Err(ParseError::VariantNotFound)
    }
}

/// The permission set that grants an action.
pub open spec fn credit_action_permission(a: CoreCreditAction) -> Seq<char> {
    match a {
        CoreCreditAction::CreditFacility(x) => credit_facility_action_permission(x),
        CoreCreditAction::ChartOfAccountsIntegrationConfig(x) => chart_of_accounts_integration_config_action_permission(x),
        CoreCreditAction::Collateral(x) => collateral_action_permission(x),
        CoreCreditAction::Disbursal(x) => disbursal_action_permission(x),
        CoreCreditAction::Liquidation(x) => liquidation_action_permission(x),
        CoreCreditAction::Obligation(x) => obligation_action_permission(x),
    }
}

/// The mapping the permission store records for an action.
pub open spec fn credit_action_mapping(a: CoreCreditAction) -> ActionMappingView {
    match a {
        CoreCreditAction::CreditFacility(x) => ActionMappingView {
            module: "credit"@,
            entity: "credit-facility"@,
            action: credit_facility_action_name(x),
            permission_set: credit_facility_action_permission(x),
        },
        CoreCreditAction::ChartOfAccountsIntegrationConfig(x) => ActionMappingView {
            module: "credit"@,
            entity: "chart-of-accounts-integration-config"@,
            action: chart_of_accounts_integration_config_action_name(x),
            permission_set: chart_of_accounts_integration_config_action_permission(x),
        },
        CoreCreditAction::Collateral(x) => ActionMappingView {
            module: "credit"@,
            entity: "collateral"@,
            action: collateral_action_name(x),
            permission_set: collateral_action_permission(x),
        },
        CoreCreditAction::Disbursal(x) => ActionMappingView {
            module: "credit"@,
            entity: "disbursal"@,
            action: disbursal_action_name(x),
            permission_set: disbursal_action_permission(x),
        },
        CoreCreditAction::Liquidation(x) => ActionMappingView {
            module: "credit"@,
            entity: "liquidation"@,
            action: liquidation_action_name(x),
            permission_set: liquidation_action_permission(x),
        },
        CoreCreditAction::Obligation(x) => ActionMappingView {
            module: "credit"@,
            entity: "obligation"@,
            action: obligation_action_name(x),
            permission_set: obligation_action_permission(x),
        },
    }
}

/// Every action of the module, entity by entity and, within an entity, in
/// the order its actions are declared.
pub open spec fn credit_all_actions() -> Seq<CoreCreditAction> {
    credit_facility_action_all().map_values(|x: CreditFacilityAction| CoreCreditAction::CreditFacility(x))
        + chart_of_accounts_integration_config_action_all().map_values(|x: ChartOfAccountsIntegrationConfigAction| CoreCreditAction::ChartOfAccountsIntegrationConfig(x))
        + collateral_action_all().map_values(|x: CollateralAction| CoreCreditAction::Collateral(x))
        + disbursal_action_all().map_values(|x: DisbursalAction| CoreCreditAction::Disbursal(x))
        + liquidation_action_all().map_values(|x: LiquidationAction| CoreCreditAction::Liquidation(x))
        + obligation_action_all().map_values(|x: ObligationAction| CoreCreditAction::Obligation(x))
}

/// What the permission store records for every action of the module, in
/// the order of credit_all_actions.
pub open spec fn credit_all_action_mappings() -> Seq<ActionMappingView> {
    credit_facility_action_all().map_values(|x: CreditFacilityAction| credit_action_mapping(CoreCreditAction::CreditFacility(x)))
        + chart_of_accounts_integration_config_action_all().map_values(|x: ChartOfAccountsIntegrationConfigAction| credit_action_mapping(CoreCreditAction::ChartOfAccountsIntegrationConfig(x)))
        + collateral_action_all().map_values(|x: CollateralAction| credit_action_mapping(CoreCreditAction::Collateral(x)))
        + disbursal_action_all().map_values(|x: DisbursalAction| credit_action_mapping(CoreCreditAction::Disbursal(x)))
        + liquidation_action_all().map_values(|x: LiquidationAction| credit_action_mapping(CoreCreditAction::Liquidation(x)))
        + obligation_action_all().map_values(|x: ObligationAction| credit_action_mapping(CoreCreditAction::Obligation(x)))
}

/// What the permission store records for the actions on the credit facilities.
fn credit_facility_action_mappings() -> (r: Vec<ActionMapping>)
    ensures
        r@.map_values(|m: ActionMapping| m@) == credit_facility_action_all().map_values(|x: CreditFacilityAction| credit_action_mapping(CoreCreditAction::CreditFacility(x))),
{
    let mut r: Vec<ActionMapping> = Vec::new();
    r.push(action_mapping("credit", "credit-facility", "create", CreditFacilityAction::Create.permission_set()));
    r.push(action_mapping("credit", "credit-facility", "read", CreditFacilityAction::Read.permission_set()));
    r.push(action_mapping("credit", "credit-facility", "list", CreditFacilityAction::List.permission_set()));
    r.push(action_mapping("credit", "credit-facility", "conclude-approval-process", CreditFacilityAction::ConcludeApprovalProcess.permission_set()));
    r.push(action_mapping("credit", "credit-facility", "activate", CreditFacilityAction::Activate.permission_set()));
    r.push(action_mapping("credit", "credit-facility", "update-collateral", CreditFacilityAction::UpdateCollateral.permission_set()));
    r.push(action_mapping("credit", "credit-facility", "record-interest", CreditFacilityAction::RecordInterest.permission_set()));
    r.push(action_mapping("credit", "credit-facility", "complete", CreditFacilityAction::Complete.permission_set()));
    r.push(action_mapping("credit", "credit-facility", "update-collateralization-state", CreditFacilityAction::UpdateCollateralizationState.permission_set()));
    r.push(action_mapping("credit", "credit-facility", "customer-approve", CreditFacilityAction::CustomerApprove.permission_set()));
    assert(r@.map_values(|m: ActionMapping| m@) =~= credit_facility_action_all().map_values(|x: CreditFacilityAction| credit_action_mapping(CoreCreditAction::CreditFacility(x))));
    r
}

/// What the permission store records for the actions on the chart of accounts integration.
fn chart_of_accounts_integration_config_action_mappings() -> (r: Vec<ActionMapping>)
    ensures
        r@.map_values(|m: ActionMapping| m@) == chart_of_accounts_integration_config_action_all().map_values(|x: ChartOfAccountsIntegrationConfigAction| credit_action_mapping(CoreCreditAction::ChartOfAccountsIntegrationConfig(x))),
{
    let mut r: Vec<ActionMapping> = Vec::new();
    r.push(action_mapping("credit", "chart-of-accounts-integration-config", "read", ChartOfAccountsIntegrationConfigAction::Read.permission_set()));
    r.push(action_mapping("credit", "chart-of-accounts-integration-config", "update", ChartOfAccountsIntegrationConfigAction::Update.permission_set()));
    assert(r@.map_values(|m: ActionMapping| m@) =~= chart_of_accounts_integration_config_action_all().map_values(|x: ChartOfAccountsIntegrationConfigAction| credit_action_mapping(CoreCreditAction::ChartOfAccountsIntegrationConfig(x))));
    r
}

/// What the permission store records for the actions on the collaterals.
fn collateral_action_mappings() -> (r: Vec<ActionMapping>)
    ensures
        r@.map_values(|m: ActionMapping| m@) == collateral_action_all().map_values(|x: CollateralAction| credit_action_mapping(CoreCreditAction::Collateral(x))),
{
    let mut r: Vec<ActionMapping> = Vec::new();
    r.push(action_mapping("credit", "collateral", "record-liquidation-update", CollateralAction::RecordLiquidationUpdate.permission_set()));
    r.push(action_mapping("credit", "collateral", "record-payment-received", CollateralAction::RecordPaymentReceived.permission_set()));
    assert(r@.map_values(|m: ActionMapping| m@) =~= collateral_action_all().map_values(|x: CollateralAction| credit_action_mapping(CoreCreditAction::Collateral(x))));
    r
}

/// What the permission store records for the actions on the disbursals.
fn disbursal_action_mappings() -> (r: Vec<ActionMapping>)
    ensures
        r@.map_values(|m: ActionMapping| m@) == disbursal_action_all().map_values(|x: DisbursalAction| credit_action_mapping(CoreCreditAction::Disbursal(x))),
{
    let mut r: Vec<ActionMapping> = Vec::new();
    r.push(action_mapping("credit", "disbursal", "initiate", DisbursalAction::Initiate.permission_set()));
    r.push(action_mapping("credit", "disbursal", "settle", DisbursalAction::Settle.permission_set()));
    r.push(action_mapping("credit", "disbursal", "list", DisbursalAction::List.permission_set()));
    r.push(action_mapping("credit", "disbursal", "read", DisbursalAction::Read.permission_set()));
    assert(r@.map_values(|m: ActionMapping| m@) =~= disbursal_action_all().map_values(|x: DisbursalAction| credit_action_mapping(CoreCreditAction::Disbursal(x))));
    r
}

/// What the permission store records for the actions on the liquidations.
fn liquidation_action_mappings() -> (r: Vec<ActionMapping>)
    ensures
        r@.map_values(|m: ActionMapping| m@) == liquidation_action_all().map_values(|x: LiquidationAction| credit_action_mapping(CoreCreditAction::Liquidation(x))),
{
    let mut r: Vec<ActionMapping> = Vec::new();
    r.push(action_mapping("credit", "liquidation", "list", LiquidationAction::List.permission_set()));
    r.push(action_mapping("credit", "liquidation", "read", LiquidationAction::Read.permission_set()));
    assert(r@.map_values(|m: ActionMapping| m@) =~= liquidation_action_all().map_values(|x: LiquidationAction| credit_action_mapping(CoreCreditAction::Liquidation(x))));
    r
}

/// What the permission store records for the actions on the obligations.
fn obligation_action_mappings() -> (r: Vec<ActionMapping>)
    ensures
        r@.map_values(|m: ActionMapping| m@) == obligation_action_all().map_values(|x: ObligationAction| credit_action_mapping(CoreCreditAction::Obligation(x))),
{
    let mut r: Vec<ActionMapping> = Vec::new();
    r.push(action_mapping("credit", "obligation", "read", ObligationAction::Read.permission_set()));
    r.push(action_mapping("credit", "obligation", "update-status", ObligationAction::UpdateStatus.permission_set()));
    r.push(action_mapping("credit", "obligation", "record-payment-allocation", ObligationAction::RecordPaymentAllocation.permission_set()));
    r.push(action_mapping("credit", "obligation", "record-payment-allocation-with-date", ObligationAction::RecordPaymentAllocationWithDate.permission_set()));
    assert(r@.map_values(|m: ActionMapping| m@) =~= obligation_action_all().map_values(|x: ObligationAction| credit_action_mapping(CoreCreditAction::Obligation(x))));
    r
}

impl CoreCreditAction {
    /// The action's text: the entity's name, `:`, the action's name.
    pub fn to_string(&self) -> (r: String)
        ensures
            r@ == credit_action_text(*self),
    {
        match self {
            CoreCreditAction::CreditFacility(x) => join_with("credit-facility", ':', x.as_str()),
            CoreCreditAction::ChartOfAccountsIntegrationConfig(x) => join_with("chart-of-accounts-integration-config", ':', x.as_str()),
            CoreCreditAction::Collateral(x) => join_with("collateral", ':', x.as_str()),
            CoreCreditAction::Disbursal(x) => join_with("disbursal", ':', x.as_str()),
            CoreCreditAction::Liquidation(x) => join_with("liquidation", ':', x.as_str()),
            CoreCreditAction::Obligation(x) => join_with("obligation", ':', x.as_str()),
        }
    }

    /// The action that a text names. The text must hold a `:`.
    pub fn from_str(s: &str) -> (r: Result<CoreCreditAction, ParseError>)
        requires
            first_index_of(s@, ':') < s@.len(),
        ensures
            r == credit_action_parsed(s@),
    {
        let v = chars_of(s);
        let colon = find_first(&v, ':');
        let entity = slice_chars(&v, 0, colon);
        let rest = slice_chars(&v, colon + 1, v.len());
        let second = find_first(&rest, ':');
        let verb = slice_chars(&rest, 0, second);
        assert(rest@ == after_first(s@, ':'));
        assert(verb@ == before_first(after_first(s@, ':'), ':'));
        assert(entity@ == before_first(s@, ':'));
        if chars_are(&entity, "credit-facility") {
            return match CreditFacilityAction::from_chars(&verb) {
                Some(x) => Ok(CoreCreditAction::CreditFacility(x)),
                None => Err(ParseError::VariantNotFound),
            };
        }
        if chars_are(&entity, "chart-of-accounts-integration-config") {
            return match ChartOfAccountsIntegrationConfigAction::from_chars(&verb) {
                Some(x) => Ok(CoreCreditAction::ChartOfAccountsIntegrationConfig(x)),
                None => Err(ParseError::VariantNotFound),
            };
        }
        if chars_are(&entity, "collateral") {
            return match CollateralAction::from_chars(&verb) {
                Some(x) => Ok(CoreCreditAction::Collateral(x)),
                None => Err(ParseError::VariantNotFound),
            };
        }
        if chars_are(&entity, "disbursal") {
            return match DisbursalAction::from_chars(&verb) {
                Some(x) => Ok(CoreCreditAction::Disbursal(x)),
                None => Err(ParseError::VariantNotFound),
            };
        }
        if chars_are(&entity, "liquidation") {
            return match LiquidationAction::from_chars(&verb) {
                Some(x) => Ok(CoreCreditAction::Liquidation(x)),
                None => Err(ParseError::VariantNotFound),
            };
        }
        if chars_are(&entity, "obligation") {
            return match ObligationAction::from_chars(&verb) {
                Some(x) => Ok(CoreCreditAction::Obligation(x)),
                None => Err(ParseError::VariantNotFound),
            };
        }
        Err(ParseError::VariantNotFound)
    }

    /// The permission set that grants the action.
    pub fn permission_set(&self) -> (r: &'static str)
        ensures
            r@ == credit_action_permission(*self),
    {
        match self {
            CoreCreditAction::CreditFacility(x) => x.permission_set(),
            CoreCreditAction::ChartOfAccountsIntegrationConfig(x) => x.permission_set(),
            CoreCreditAction::Collateral(x) => x.permission_set(),
            CoreCreditAction::Disbursal(x) => x.permission_set(),
            CoreCreditAction::Liquidation(x) => x.permission_set(),
            CoreCreditAction::Obligation(x) => x.permission_set(),
        }
    }

    /// The mappings of every action of the module to its permission set,
    /// entity by entity, each entity's actions in the order they are
    /// declared.
    pub fn actions() -> (r: Vec<ActionMapping>)
        ensures
            r@.map_values(|m: ActionMapping| m@) == credit_all_action_mappings(),
    {
        let mut r: Vec<ActionMapping> = Vec::new();
        let ghost before = r@.map_values(|m: ActionMapping| m@);
        let mut part = credit_facility_action_mappings();
        let ghost added = part@.map_values(|m: ActionMapping| m@);
        r.append(&mut part);
        assert(r@.map_values(|m: ActionMapping| m@) =~= before + added);
        let ghost before = r@.map_values(|m: ActionMapping| m@);
        let mut part = chart_of_accounts_integration_config_action_mappings();
        let ghost added = part@.map_values(|m: ActionMapping| m@);
        r.append(&mut part);
        assert(r@.map_values(|m: ActionMapping| m@) =~= before + added);
        let ghost before = r@.map_values(|m: ActionMapping| m@);
        let mut part = collateral_action_mappings();
        let ghost added = part@.map_values(|m: ActionMapping| m@);
        r.append(&mut part);
        assert(r@.map_values(|m: ActionMapping| m@) =~= before + added);
        let ghost before = r@.map_values(|m: ActionMapping| m@);
        let mut part = disbursal_action_mappings();
        let ghost added = part@.map_values(|m: ActionMapping| m@);
        r.append(&mut part);
        assert(r@.map_values(|m: ActionMapping| m@) =~= before + added);
        let ghost before = r@.map_values(|m: ActionMapping| m@);
        let mut part = liquidation_action_mappings();
        let ghost added = part@.map_values(|m: ActionMapping| m@);
        r.append(&mut part);
        assert(r@.map_values(|m: ActionMapping| m@) =~= before + added);
        let ghost before = r@.map_values(|m: ActionMapping| m@);
        let mut part = obligation_action_mappings();
        let ghost added = part@.map_values(|m: ActionMapping| m@);
        r.append(&mut part);
        assert(r@.map_values(|m: ActionMapping| m@) =~= before + added);
        r
    }
}

proof fn lemma_credit_facility_action_text_round_trip(x: CreditFacilityAction)
    ensures
        first_index_of(credit_action_text(CoreCreditAction::CreditFacility(x)), ':') < credit_action_text(CoreCreditAction::CreditFacility(x)).len(),
        credit_action_parsed(credit_action_text(CoreCreditAction::CreditFacility(x))) == Ok::<CoreCreditAction, ParseError>(CoreCreditAction::CreditFacility(x)),
{
    reveal_strlit("credit-facility");
    assert(lacks("credit-facility"@, ':'));
    lemma_credit_facility_action_names(x);
    lemma_split_at_first("credit-facility"@, ':', credit_facility_action_name(x));
    lemma_no_colon_verb(credit_facility_action_name(x));
}

proof fn lemma_chart_of_accounts_integration_config_action_text_round_trip(x: ChartOfAccountsIntegrationConfigAction)
    ensures
        first_index_of(credit_action_text(CoreCreditAction::ChartOfAccountsIntegrationConfig(x)), ':') < credit_action_text(CoreCreditAction::ChartOfAccountsIntegrationConfig(x)).len(),
        credit_action_parsed(credit_action_text(CoreCreditAction::ChartOfAccountsIntegrationConfig(x))) == Ok::<CoreCreditAction, ParseError>(CoreCreditAction::ChartOfAccountsIntegrationConfig(x)),
{
    reveal_strlit("chart-of-accounts-integration-config");
    reveal_strlit("credit-facility");
    assert("credit-facility"@.len() == 15 && "chart-of-accounts-integration-config"@.len() == 36);
    assert(lacks("chart-of-accounts-integration-config"@, ':'));
    lemma_chart_of_accounts_integration_config_action_names(x);
    lemma_split_at_first("chart-of-accounts-integration-config"@, ':', chart_of_accounts_integration_config_action_name(x));
    lemma_no_colon_verb(chart_of_accounts_integration_config_action_name(x));
}

proof fn lemma_collateral_action_text_round_trip(x: CollateralAction)
    ensures
        first_index_of(credit_action_text(CoreCreditAction::Collateral(x)), ':') < credit_action_text(CoreCreditAction::Collateral(x)).len(),
        credit_action_parsed(credit_action_text(CoreCreditAction::Collateral(x))) == Ok::<CoreCreditAction, ParseError>(CoreCreditAction::Collateral(x)),
{
    reveal_strlit("collateral");
    reveal_strlit("credit-facility");
    assert("credit-facility"@.len() == 15 && "collateral"@.len() == 10);
    reveal_strlit("chart-of-accounts-integration-config");
    assert("chart-of-accounts-integration-config"@.len() == 36 && "collateral"@.len() == 10);
    assert(lacks("collateral"@, ':'));
    lemma_collateral_action_names(x);
    lemma_split_at_first("collateral"@, ':', collateral_action_name(x));
    lemma_no_colon_verb(collateral_action_name(x));
}

proof fn lemma_disbursal_action_text_round_trip(x: DisbursalAction)
    ensures
        first_index_of(credit_action_text(CoreCreditAction::Disbursal(x)), ':') < credit_action_text(CoreCreditAction::Disbursal(x)).len(),
        credit_action_parsed(credit_action_text(CoreCreditAction::Disbursal(x))) == Ok::<CoreCreditAction, ParseError>(CoreCreditAction::Disbursal(x)),
{
    reveal_strlit("disbursal");
    reveal_strlit("credit-facility");
    assert("credit-facility"@.len() == 15 && "disbursal"@.len() == 9);
    reveal_strlit("chart-of-accounts-integration-config");
    assert("chart-of-accounts-integration-config"@.len() == 36 && "disbursal"@.len() == 9);
    reveal_strlit("collateral");
    assert("collateral"@.len() == 10 && "disbursal"@.len() == 9);
    assert(lacks("disbursal"@, ':'));
    lemma_disbursal_action_names(x);
    lemma_split_at_first("disbursal"@, ':', disbursal_action_name(x));
    lemma_no_colon_verb(disbursal_action_name(x));
}

proof fn lemma_liquidation_action_text_round_trip(x: LiquidationAction)
    ensures
        first_index_of(credit_action_text(CoreCreditAction::Liquidation(x)), ':') < credit_action_text(CoreCreditAction::Liquidation(x)).len(),
        credit_action_parsed(credit_action_text(CoreCreditAction::Liquidation(x))) == Ok::<CoreCreditAction, ParseError>(CoreCreditAction::Liquidation(x)),
{
    reveal_strlit("liquidation");
    reveal_strlit("credit-facility");
    assert("credit-facility"@.len() == 15 && "liquidation"@.len() == 11);
    reveal_strlit("chart-of-accounts-integration-config");
    assert("chart-of-accounts-integration-config"@.len() == 36 && "liquidation"@.len() == 11);
    reveal_strlit("collateral");
    assert("collateral"@.len() == 10 && "liquidation"@.len() == 11);
    reveal_strlit("disbursal");
    assert("disbursal"@.len() == 9 && "liquidation"@.len() == 11);
    assert(lacks("liquidation"@, ':'));
    lemma_liquidation_action_names(x);
    lemma_split_at_first("liquidation"@, ':', liquidation_action_name(x));
    lemma_no_colon_verb(liquidation_action_name(x));
}

proof fn lemma_obligation_action_text_round_trip(x: ObligationAction)
    ensures
        first_index_of(credit_action_text(CoreCreditAction::Obligation(x)), ':') < credit_action_text(CoreCreditAction::Obligation(x)).len(),
        credit_action_parsed(credit_action_text(CoreCreditAction::Obligation(x))) == Ok::<CoreCreditAction, ParseError>(CoreCreditAction::Obligation(x)),
{
    reveal_strlit("obligation");
    reveal_strlit("credit-facility");
    assert("credit-facility"@.len() == 15 && "obligation"@.len() == 10);
    reveal_strlit("chart-of-accounts-integration-config");
    assert("chart-of-accounts-integration-config"@.len() == 36 && "obligation"@.len() == 10);
    reveal_strlit("collateral");
    assert("collateral"@[0] == 'c' && "obligation"@[0] == 'o');
    reveal_strlit("disbursal");
    assert("disbursal"@.len() == 9 && "obligation"@.len() == 10);
    reveal_strlit("liquidation");
    assert("liquidation"@.len() == 11 && "obligation"@.len() == 10);
    assert(lacks("obligation"@, ':'));
    lemma_obligation_action_names(x);
    lemma_split_at_first("obligation"@, ':', obligation_action_name(x));
    lemma_no_colon_verb(obligation_action_name(x));
}

/// An action's text names the action: reading it back gives the action.
pub proof fn law_credit_action_text_round_trip(a: CoreCreditAction)
    ensures
        first_index_of(credit_action_text(a), ':') < credit_action_text(a).len(),
        credit_action_parsed(credit_action_text(a)) == Ok::<CoreCreditAction, ParseError>(a),
{
    match a {
        CoreCreditAction::CreditFacility(x) => lemma_credit_facility_action_text_round_trip(x),
        CoreCreditAction::ChartOfAccountsIntegrationConfig(x) => lemma_chart_of_accounts_integration_config_action_text_round_trip(x),
        CoreCreditAction::Collateral(x) => lemma_collateral_action_text_round_trip(x),
        CoreCreditAction::Disbursal(x) => lemma_disbursal_action_text_round_trip(x),
        CoreCreditAction::Liquidation(x) => lemma_liquidation_action_text_round_trip(x),
        CoreCreditAction::Obligation(x) => lemma_obligation_action_text_round_trip(x),
    }
}

proof fn lemma_no_colon_verb(v: Seq<char>)
    requires
        lacks(v, ':'),
    ensures
        before_first(v, ':') == v,
{
    crate::authz::lemma_first_index_of(v, ':');
    if first_index_of(v, ':') < v.len() {
        assert(v[first_index_of(v, ':')] == ':');
    }
    assert(v.take(v.len() as int) == v);
}

proof fn lemma_credit_facility_action_listed(x: CreditFacilityAction)
    ensures
        credit_all_action_mappings().contains(credit_action_mapping(CoreCreditAction::CreditFacility(x))),
{
    broadcast use vstd::seq_lib::lemma_seq_concat_contains_all_elements;

    let part = credit_facility_action_all().map_values(|y: CreditFacilityAction| credit_action_mapping(CoreCreditAction::CreditFacility(y)));
    match x {
        CreditFacilityAction::Create => assert(part[0] == credit_action_mapping(CoreCreditAction::CreditFacility(x))),
        CreditFacilityAction::Read => assert(part[1] == credit_action_mapping(CoreCreditAction::CreditFacility(x))),
        CreditFacilityAction::List => assert(part[2] == credit_action_mapping(CoreCreditAction::CreditFacility(x))),
        CreditFacilityAction::ConcludeApprovalProcess => assert(part[3] == credit_action_mapping(CoreCreditAction::CreditFacility(x))),
        CreditFacilityAction::Activate => assert(part[4] == credit_action_mapping(CoreCreditAction::CreditFacility(x))),
        CreditFacilityAction::UpdateCollateral => assert(part[5] == credit_action_mapping(CoreCreditAction::CreditFacility(x))),
        CreditFacilityAction::RecordInterest => assert(part[6] == credit_action_mapping(CoreCreditAction::CreditFacility(x))),
        CreditFacilityAction::Complete => assert(part[7] == credit_action_mapping(CoreCreditAction::CreditFacility(x))),
        CreditFacilityAction::UpdateCollateralizationState => assert(part[8] == credit_action_mapping(CoreCreditAction::CreditFacility(x))),
        CreditFacilityAction::CustomerApprove => assert(part[9] == credit_action_mapping(CoreCreditAction::CreditFacility(x))),
    }
    assert(part.contains(credit_action_mapping(CoreCreditAction::CreditFacility(x))));
}

proof fn lemma_chart_of_accounts_integration_config_action_listed(x: ChartOfAccountsIntegrationConfigAction)
    ensures
        credit_all_action_mappings().contains(credit_action_mapping(CoreCreditAction::ChartOfAccountsIntegrationConfig(x))),
{
    broadcast use vstd::seq_lib::lemma_seq_concat_contains_all_elements;

    let part = chart_of_accounts_integration_config_action_all().map_values(|y: ChartOfAccountsIntegrationConfigAction| credit_action_mapping(CoreCreditAction::ChartOfAccountsIntegrationConfig(y)));
    match x {
        ChartOfAccountsIntegrationConfigAction::Read => assert(part[0] == credit_action_mapping(CoreCreditAction::ChartOfAccountsIntegrationConfig(x))),
        ChartOfAccountsIntegrationConfigAction::Update => assert(part[1] == credit_action_mapping(CoreCreditAction::ChartOfAccountsIntegrationConfig(x))),
    }
    assert(part.contains(credit_action_mapping(CoreCreditAction::ChartOfAccountsIntegrationConfig(x))));
}

proof fn lemma_collateral_action_listed(x: CollateralAction)
    ensures
        credit_all_action_mappings().contains(credit_action_mapping(CoreCreditAction::Collateral(x))),
{
    broadcast use vstd::seq_lib::lemma_seq_concat_contains_all_elements;

    let part = collateral_action_all().map_values(|y: CollateralAction| credit_action_mapping(CoreCreditAction::Collateral(y)));
    match x {
        CollateralAction::RecordLiquidationUpdate => assert(part[0] == credit_action_mapping(CoreCreditAction::Collateral(x))),
        CollateralAction::RecordPaymentReceived => assert(part[1] == credit_action_mapping(CoreCreditAction::Collateral(x))),
    }
    assert(part.contains(credit_action_mapping(CoreCreditAction::Collateral(x))));
}

proof fn lemma_disbursal_action_listed(x: DisbursalAction)
    ensures
        credit_all_action_mappings().contains(credit_action_mapping(CoreCreditAction::Disbursal(x))),
{
    broadcast use vstd::seq_lib::lemma_seq_concat_contains_all_elements;

    let part = disbursal_action_all().map_values(|y: DisbursalAction| credit_action_mapping(CoreCreditAction::Disbursal(y)));
    match x {
        DisbursalAction::Initiate => assert(part[0] == credit_action_mapping(CoreCreditAction::Disbursal(x))),
        DisbursalAction::Settle => assert(part[1] == credit_action_mapping(CoreCreditAction::Disbursal(x))),
        DisbursalAction::List => assert(part[2] == credit_action_mapping(CoreCreditAction::Disbursal(x))),
        DisbursalAction::Read => assert(part[3] == credit_action_mapping(CoreCreditAction::Disbursal(x))),
    }
    assert(part.contains(credit_action_mapping(CoreCreditAction::Disbursal(x))));
}

proof fn lemma_liquidation_action_listed(x: LiquidationAction)
    ensures
        credit_all_action_mappings().contains(credit_action_mapping(CoreCreditAction::Liquidation(x))),
{
    broadcast use vstd::seq_lib::lemma_seq_concat_contains_all_elements;

    let part = liquidation_action_all().map_values(|y: LiquidationAction| credit_action_mapping(CoreCreditAction::Liquidation(y)));
    match x {
        LiquidationAction::List => assert(part[0] == credit_action_mapping(CoreCreditAction::Liquidation(x))),
        LiquidationAction::Read => assert(part[1] == credit_action_mapping(CoreCreditAction::Liquidation(x))),
    }
    assert(part.contains(credit_action_mapping(CoreCreditAction::Liquidation(x))));
}

proof fn lemma_obligation_action_listed(x: ObligationAction)
    ensures
        credit_all_action_mappings().contains(credit_action_mapping(CoreCreditAction::Obligation(x))),
{
    broadcast use vstd::seq_lib::lemma_seq_concat_contains_all_elements;

    let part = obligation_action_all().map_values(|y: ObligationAction| credit_action_mapping(CoreCreditAction::Obligation(y)));
    match x {
        ObligationAction::Read => assert(part[0] == credit_action_mapping(CoreCreditAction::Obligation(x))),
        ObligationAction::UpdateStatus => assert(part[1] == credit_action_mapping(CoreCreditAction::Obligation(x))),
        ObligationAction::RecordPaymentAllocation => assert(part[2] == credit_action_mapping(CoreCreditAction::Obligation(x))),
        ObligationAction::RecordPaymentAllocationWithDate => assert(part[3] == credit_action_mapping(CoreCreditAction::Obligation(x))),
    }
    assert(part.contains(credit_action_mapping(CoreCreditAction::Obligation(x))));
}

/// Every action of the module is in the list of actions, mapped to the
/// permission set that grants it.
pub proof fn law_credit_every_action_is_listed(a: CoreCreditAction)
    ensures
        credit_all_action_mappings().contains(credit_action_mapping(a)),
        credit_action_mapping(a).permission_set == credit_action_permission(a),
{
    match a {
        CoreCreditAction::CreditFacility(x) => lemma_credit_facility_action_listed(x),
        CoreCreditAction::ChartOfAccountsIntegrationConfig(x) => lemma_chart_of_accounts_integration_config_action_listed(x),
        CoreCreditAction::Collateral(x) => lemma_collateral_action_listed(x),
        CoreCreditAction::Disbursal(x) => lemma_disbursal_action_listed(x),
        CoreCreditAction::Liquidation(x) => lemma_liquidation_action_listed(x),
        CoreCreditAction::Obligation(x) => lemma_obligation_action_listed(x),
    }
}

/// An object of the module's permissions: an entity, and all of its kind
/// or the one with an id.
#[derive(Debug, Clone, Copy, PartialEq, Eq)]
pub enum CoreCreditObject {
    CreditFacility(AllOrOne),
    ChartOfAccountsIntegrationConfig(AllOrOne),
    Collateral(AllOrOne),
    Disbursal(AllOrOne),
    Liquidation(AllOrOne),
    Obligation(AllOrOne),
}

/// The text of an object: the entity's name, `/`, `*` or the id.
pub open spec fn credit_object_text(o: CoreCreditObject) -> Seq<char> {
    match o {
        CoreCreditObject::CreditFacility(r) => "credit-facility"@ + seq!['/'] + all_or_one_text(r),
        CoreCreditObject::ChartOfAccountsIntegrationConfig(r) => "chart-of-accounts-integration-config"@ + seq!['/'] + all_or_one_text(r),
        CoreCreditObject::Collateral(r) => "collateral"@ + seq!['/'] + all_or_one_text(r),
        CoreCreditObject::Disbursal(r) => "disbursal"@ + seq!['/'] + all_or_one_text(r),
        CoreCreditObject::Liquidation(r) => "liquidation"@ + seq!['/'] + all_or_one_text(r),
        CoreCreditObject::Obligation(r) => "obligation"@ + seq!['/'] + all_or_one_text(r),
    }
}

/// The entity names of the module's objects.
pub open spec fn credit_object_entity_known(e: Seq<char>) -> bool {
    e == "credit-facility"@
        || e == "chart-of-accounts-integration-config"@
        || e == "collateral"@
        || e == "disbursal"@
        || e == "liquidation"@
        || e == "obligation"@
}

/// The object that a text names: its entity before the first `/`, its
/// reference after; a reference that is neither `*` nor a UUID is an
/// error with the entity's message.
pub open spec fn credit_object_parsed(s: Seq<char>) -> Result<CoreCreditObject, Seq<char>> {
    let entity = before_first(s, '/');
    let reference = all_or_one_from_text(after_first(s, '/'));
    if entity == "credit-facility"@ {
        match reference {
            Some(r) => Ok(CoreCreditObject::CreditFacility(r)),
            None => Err("could not parse CoreCreditObject"@),
        }
    } else if entity == "chart-of-accounts-integration-config"@ {
        match reference {
            Some(r) => Ok(CoreCreditObject::ChartOfAccountsIntegrationConfig(r)),
            None => Err("could not parse CoreCreditObject"@),
        }
    } else if entity == "collateral"@ {
        match reference {
            Some(r) => Ok(CoreCreditObject::Collateral(r)),
            None => Err("could not parse CoreCreditObject"@),
        }
    } else if entity == "disbursal"@ {
        match reference {
            Some(r) => Ok(CoreCreditObject::Disbursal(r)),
            None => Err("could not parse CoreCreditObject"@),
        }
    } else if entity == "liquidation"@ {
        match reference {
            Some(r) => Ok(CoreCreditObject::Liquidation(r)),
            None => Err("could not parse CoreCreditObject"@),
        }
    } else if entity == "obligation"@ {
        match reference {
            Some(r) => Ok(CoreCreditObject::Obligation(r)),
            None => Err("could not parse CoreCreditObject"@),
        }
    } else {
        Err(Seq::empty())
    }
}

impl CoreCreditObject {
    /// All credit facilities objects.
    pub fn all_credit_facilities() -> (r: CoreCreditObject)
        ensures
            r == CoreCreditObject::CreditFacility(AllOrOne::All),
    {
        CoreCreditObject::CreditFacility(AllOrOne::All)
    }

    /// The credit facilities with the id `id`.
    pub fn credit_facility(id: u128) -> (r: CoreCreditObject)
        ensures
            r == CoreCreditObject::CreditFacility(AllOrOne::ById(id)),
    {
        CoreCreditObject::CreditFacility(AllOrOne::ById(id))
    }

    /// All chart of accounts integration objects.
    pub fn chart_of_accounts_integration() -> (r: CoreCreditObject)
        ensures
            r == CoreCreditObject::ChartOfAccountsIntegrationConfig(AllOrOne::All),
    {
        CoreCreditObject::ChartOfAccountsIntegrationConfig(AllOrOne::All)
    }

    /// The collaterals with the id `id`.
    pub fn collateral(id: u128) -> (r: CoreCreditObject)
        ensures
            r == CoreCreditObject::Collateral(AllOrOne::ById(id)),
    {
        CoreCreditObject::Collateral(AllOrOne::ById(id))
    }

    /// All collaterals objects.
    pub fn all_collaterals() -> (r: CoreCreditObject)
        ensures
            r == CoreCreditObject::Collateral(AllOrOne::All),
    {
        CoreCreditObject::Collateral(AllOrOne::All)
    }

    /// The disbursals with the id `id`.
    pub fn disbursal(id: u128) -> (r: CoreCreditObject)
        ensures
            r == CoreCreditObject::Disbursal(AllOrOne::ById(id)),
    {
        CoreCreditObject::Disbursal(AllOrOne::ById(id))
    }

    /// All disbursals objects.
    pub fn all_disbursals() -> (r: CoreCreditObject)
        ensures
            r == CoreCreditObject::Disbursal(AllOrOne::All),
    {
        CoreCreditObject::Disbursal(AllOrOne::All)
    }

    /// The liquidations with the id `id`.
    pub fn liquidation(id: u128) -> (r: CoreCreditObject)
        ensures
            r == CoreCreditObject::Liquidation(AllOrOne::ById(id)),
    {
        CoreCreditObject::Liquidation(AllOrOne::ById(id))
    }

    /// All liquidations objects.
    pub fn all_liquidations() -> (r: CoreCreditObject)
        ensures
            r == CoreCreditObject::Liquidation(AllOrOne::All),
    {
        CoreCreditObject::Liquidation(AllOrOne::All)
    }

    /// The obligations with the id `id`.
    pub fn obligation(id: u128) -> (r: CoreCreditObject)
        ensures
            r == CoreCreditObject::Obligation(AllOrOne::ById(id)),
    {
        CoreCreditObject::Obligation(AllOrOne::ById(id))
    }

    /// All obligations objects.
    pub fn all_obligations() -> (r: CoreCreditObject)
        ensures
            r == CoreCreditObject::Obligation(AllOrOne::All),
    {
        CoreCreditObject::Obligation(AllOrOne::All)
    }

    /// The object's text: the entity's name, `/`, `*` or the id. Reading
    /// the text back gives the object.
    pub fn to_string(&self) -> (r: String)
        ensures
            r@ == credit_object_text(*self),
            first_index_of(r@, '/') < r@.len(),
            credit_object_entity_known(before_first(r@, '/')),
            credit_object_parsed(r@) == Ok::<CoreCreditObject, Seq<char>>(*self),
    {
        proof {
            reveal_strlit("credit-facility");
            reveal_strlit("chart-of-accounts-integration-config");
            reveal_strlit("collateral");
            reveal_strlit("disbursal");
            reveal_strlit("liquidation");
            reveal_strlit("obligation");
        }
        match self {
            CoreCreditObject::CreditFacility(r) => {
                let t = r.to_string();
                proof { lemma_split_at_first("credit-facility"@, '/', t@); }
                join_with("credit-facility", '/', t.as_str())
            },
            CoreCreditObject::ChartOfAccountsIntegrationConfig(r) => {
                let t = r.to_string();
                proof { lemma_split_at_first("chart-of-accounts-integration-config"@, '/', t@); }
                join_with("chart-of-accounts-integration-config", '/', t.as_str())
            },
            CoreCreditObject::Collateral(r) => {
                let t = r.to_string();
                proof { lemma_split_at_first("collateral"@, '/', t@); }
                join_with("collateral", '/', t.as_str())
            },
            CoreCreditObject::Disbursal(r) => {
                let t = r.to_string();
                proof { lemma_split_at_first("disbursal"@, '/', t@); }
                join_with("disbursal", '/', t.as_str())
            },
            CoreCreditObject::Liquidation(r) => {
                let t = r.to_string();
                proof { lemma_split_at_first("liquidation"@, '/', t@); }
                join_with("liquidation", '/', t.as_str())
            },
            CoreCreditObject::Obligation(r) => {
                let t = r.to_string();
                proof { lemma_split_at_first("obligation"@, '/', t@); }
                join_with("obligation", '/', t.as_str())
            },
        }
    }

    /// The object that a text names. The text must hold a `/` and name an
    /// entity of the module before it.
    pub fn from_str(s: &str) -> (r: Result<CoreCreditObject, &'static str>)
        requires
            first_index_of(s@, '/') < s@.len(),
            credit_object_entity_known(before_first(s@, '/')),
        ensures
            match r {
                Ok(o) => credit_object_parsed(s@) == Ok::<CoreCreditObject, Seq<char>>(o),
                Err(m) => credit_object_parsed(s@) == Err::<CoreCreditObject, Seq<char>>(m@),
            },
    {
        let v = chars_of(s);
        let slash = find_first(&v, '/');
        assert(v@ == s@ && slash < v.len());
        let entity = slice_chars(&v, 0, slash);
        let rest = slice_chars(&v, slash + 1, v.len());
        assert(entity@ == before_first(s@, '/'));
        assert(rest@ == after_first(s@, '/'));
        let reference = AllOrOne::from_chars(&rest);
        if chars_are(&entity, "credit-facility") {
            return match reference {
                Some(r) => Ok(CoreCreditObject::CreditFacility(r)),
                None => Err("could not parse CoreCreditObject"),
            };
        }
        if chars_are(&entity, "chart-of-accounts-integration-config") {
            return match reference {
                Some(r) => Ok(CoreCreditObject::ChartOfAccountsIntegrationConfig(r)),
                None => Err("could not parse CoreCreditObject"),
            };
        }
        if chars_are(&entity, "collateral") {
            return match reference {
                Some(r) => Ok(CoreCreditObject::Collateral(r)),
                None => Err("could not parse CoreCreditObject"),
            };
        }
        if chars_are(&entity, "disbursal") {
            return match reference {
                Some(r) => Ok(CoreCreditObject::Disbursal(r)),
                None => Err("could not parse CoreCreditObject"),
            };
        }
        if chars_are(&entity, "liquidation") {
            return match reference {
                Some(r) => Ok(CoreCreditObject::Liquidation(r)),
                None => Err("could not parse CoreCreditObject"),
            };
        }
            return match reference {
                Some(r) => Ok(CoreCreditObject::Obligation(r)),
                None => Err("could not parse CoreCreditObject"),
            };
    }
}

} // verus!
