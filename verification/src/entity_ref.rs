//! Records of the accounting module that name things: the entity a ledger
//! record belongs to, an account named by id or by code, the account sets
//! the base configuration resolves to, and the details of a closing
//! transaction.
use vstd::prelude::*;
use crate::account_code::{code_parses_to, AccountCode, AccountCodeParseError, AccountName};
use crate::accounting_config::AccountingBaseConfig;
use crate::ids::{parse_uuid, parsed_uuid};
use crate::text::concat_str;

verus! {

/// The type of an entity that ledger records refer to.
#[derive(Debug, Clone, PartialEq, Eq, Hash)]
pub struct EntityType {
    pub name: String,
}

impl EntityType {
    /// The entity type of the given name.
    pub fn new(entity_type: &str) -> (r: EntityType)
        ensures
            r.name@ == entity_type@,
    {
        EntityType { name: entity_type.to_owned() }
    }
}

/// The entity a ledger record belongs to: its type and its id.
#[derive(Debug, Clone)]
pub struct EntityRef {
    pub entity_type: EntityType,
    pub entity_id: u128,
}

impl EntityRef {
    /// The entity of this type and id.
    pub fn new(entity_type: EntityType, id: u128) -> (r: EntityRef)
        ensures
            r.entity_type == entity_type,
            r.entity_id == id,
    {
        EntityRef { entity_type, entity_id: id }
    }
}

/// A ledger account named by its id or by its code in the chart.
#[derive(Debug)]
pub enum AccountIdOrCode {
    Id(u128),
    Code(AccountCode),
}

impl AccountIdOrCode {
    /// The account a text names: by id where the text is a UUID, else by
    /// the code it spells; a text that is neither is the code's error.
    pub fn from_str(s: &str) -> (r: Result<AccountIdOrCode, AccountCodeParseError>)
        ensures
            parsed_uuid(s@) matches Some(id) ==> r matches Ok(AccountIdOrCode::Id(i)) && i == id,
            parsed_uuid(s@) is None ==> match r {
                Ok(AccountIdOrCode::Code(c)) => code_parses_to(s@, Ok(c)),
                Ok(AccountIdOrCode::Id(_)) => false,
                Err(e) => code_parses_to(s@, Err(e)),
            },
    {
        match parse_uuid(s) {
            Some(id) => Ok(AccountIdOrCode::Id(id)),
            None => match AccountCode::from_str(s) {
                Ok(c) => Ok(AccountIdOrCode::Code(c)),
                Err(e) => Err(e),
            },
        }
    }
}

/// The base configuration with each of its codes resolved to the account
/// set it stands for.
#[derive(Debug)]
pub struct ResolvedAccountingBaseConfig {
    pub config: AccountingBaseConfig,
    pub assets: u128,
    pub liabilities: u128,
    pub equity: u128,
    pub equity_retained_earnings_gain: u128,
    pub equity_retained_earnings_loss: u128,
    pub revenue: u128,
    pub cost_of_revenue: u128,
    pub expenses: u128,
}

/// An account set of the chart: its id, code and name.
#[derive(Debug)]
pub struct AccountInfo {
    pub account_set_id: u128,
    pub code: AccountCode,
    pub name: AccountName,
}

/// The account sets that closing a period moves balances between.
#[derive(Debug, Clone, Copy, PartialEq, Eq)]
pub struct ClosingAccountSetIds {
    pub revenue: u128,
    pub cost_of_revenue: u128,
    pub expenses: u128,
    pub equity_retained_earnings: u128,
    pub equity_retained_losses: u128,
}

/// What a closing transaction records: its description and id, and the
/// days (counted from the start of the common era) whose balances it
/// closes.
#[derive(Debug)]
pub struct ClosingTxDetails {
    pub description: String,
    pub tx_id: u128,
    pub effective_balances_until: i32,
    pub effective_balances_from: i32,
}

impl ClosingTxDetails {
    /// The name of the retained earnings account the closing creates:
    /// `NET_INCOME_` and the description.
    pub fn retained_earnings_account_name(&self) -> (r: String)
        ensures
            r@ == "NET_INCOME_"@ + self.description@,
    {
        concat_str("NET_INCOME_", self.description.as_str())
    }
}

} // verus!
