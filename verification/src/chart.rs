//! A chart of accounts as the credit module reads it: the account set that
//! each code of the chart stands for, and the base configuration that
//! places codes in categories.
use vstd::prelude::*;
use crate::account_code::AccountCode;
use crate::accounting_config::{in_account_category, AccountCategory, AccountingBaseConfig, BaseConfigView};

verus! {

/// A code of the chart and the account set it stands for.
#[derive(Debug)]
pub struct ChartNode {
    pub code: AccountCode,
    pub account_set_id: u128,
}

/// A chart of accounts: its nodes, and the base configuration that was
/// set for it, if any.
#[derive(Debug)]
pub struct Chart {
    pub id: u128,
    pub nodes: Vec<ChartNode>,
    pub base_config: Option<AccountingBaseConfig>,
}

/// Why a code cannot be used as the parent of a module's accounts.
#[derive(Debug)]
pub enum ChartLookupError {
    AccountingBaseConfigNotFound,
    CodeNotFoundInChart(AccountCode),
    InvalidAccountCategory { code: AccountCode, category: AccountCategory },
}

/// What a lookup gives, over mathematical values.
pub enum LookupView {
    Found(u128),
    AccountingBaseConfigNotFound,
    CodeNotFoundInChart(Seq<Seq<char>>),
    InvalidAccountCategory(Seq<Seq<char>>, AccountCategory),
}

/// The lookup outcome that an error reports.
pub open spec fn error_view(e: ChartLookupError) -> LookupView {
    match e {
        ChartLookupError::AccountingBaseConfigNotFound => LookupView::AccountingBaseConfigNotFound,
        ChartLookupError::CodeNotFoundInChart(code) => LookupView::CodeNotFoundInChart(code@),
        ChartLookupError::InvalidAccountCategory { code, category } => LookupView::InvalidAccountCategory(
            code@,
            category,
        ),
    }
}

/// The nodes of the chart, over mathematical values.
pub open spec fn chart_nodes(c: &Chart) -> Seq<(Seq<Seq<char>>, u128)> {
    c.nodes@.map_values(|n: ChartNode| (n.code@, n.account_set_id))
}

/// The first node from `i` on that has the code `code`.
pub open spec fn node_from(nodes: Seq<(Seq<Seq<char>>, u128)>, code: Seq<Seq<char>>, i: int) -> Option<int>
    decreases nodes.len() - i,
{
    if i < 0 || i >= nodes.len() {
        None
    } else if nodes[i].0 == code {
        Some(i)
    } else {
        node_from(nodes, code, i + 1)
    }
}

/// The account set that `code` stands for, checked to be in `category`:
/// the chart must have its base configuration, hold the code, and the
/// configuration must place the code in the category.
pub open spec fn validated_lookup(c: &Chart, code: Seq<Seq<char>>, category: AccountCategory) -> LookupView {
    match c.base_config {
        None => LookupView::AccountingBaseConfigNotFound,
        Some(config) => match node_from(chart_nodes(c), code, 0) {
            None => LookupView::CodeNotFoundInChart(code),
            Some(i) => if in_account_category(config@, code, category) {
                LookupView::Found(chart_nodes(c)[i].1)
            } else {
                LookupView::InvalidAccountCategory(code, category)
            },
        },
    }
}

impl Chart {
    /// The account set that `code` stands for, checked to be in `category`.
    pub fn accounting_validated_account_set_id(&self, code: &AccountCode, category: AccountCategory) -> (r: Result<u128, ChartLookupError>)
        ensures
            match r {
                Ok(id) => validated_lookup(self, code@, category) == LookupView::Found(id),
                Err(e) => validated_lookup(self, code@, category) == error_view(e),
            },
    {
        let config = match &self.base_config {
            None => return Err(ChartLookupError::AccountingBaseConfigNotFound),
            Some(config) => config,
        };
        let ghost nodes = chart_nodes(self);
        let mut i: usize = 0;
        while i < self.nodes.len()
            invariant
                i <= self.nodes.len(),
                nodes == chart_nodes(self),
                self.base_config == Some(*config),
                node_from(nodes, code@, 0) == node_from(nodes, code@, i as int),
            decreases self.nodes.len() - i,
        {
            assert(nodes[i as int] == (self.nodes@[i as int].code@, self.nodes@[i as int].account_set_id));
            if self.nodes[i].code.same_code(code) {
                if config.is_account_in_category(code, category) {
                    return Ok(self.nodes[i].account_set_id);
                } else {
                    return Err(ChartLookupError::InvalidAccountCategory { code: code.duplicate(), category });
                }
            }
            i = i + 1;
        }
        Err(ChartLookupError::CodeNotFoundInChart(code.duplicate()))
    }
}

} // verus!
