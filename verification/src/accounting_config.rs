//! The accounting base configuration: which top-level codes of the chart hold
//! assets, liabilities, equity, revenue, cost of revenue and expenses.
use vstd::prelude::*;
use crate::account_code::{
    code_is_parent_of, join_dots, sections_view, AccountCode, AccountCodeError, AccountCodeSection,
    AccountName,
};

verus! {

/// The normal balance side of a ledger account.
#[derive(Debug, Clone, Copy, PartialEq, Eq)]
pub enum DebitOrCredit {
    Debit,
    Credit,
}

impl Default for DebitOrCredit {
    fn default() -> (r: DebitOrCredit)
        ensures
            r == DebitOrCredit::Credit,
    {
        DebitOrCredit::Credit
    }
}

/// What a new ledger account is: its code, its name, its parent in the chart.
#[derive(Debug)]
pub struct AccountSpec {
    pub parent: Option<AccountCode>,
    pub code: AccountCode,
    pub name: AccountName,
    pub normal_balance_type: DebitOrCredit,
}

impl AccountSpec {
    /// The account of the given sections under `parent`; `InvalidParent` when
    /// the parent is given and is not an ancestor of the code.
    pub fn try_new(
        parent: Option<AccountCode>,
        sections: Vec<AccountCodeSection>,
        name: AccountName,
        normal_balance_type: DebitOrCredit,
    ) -> (r: Result<AccountSpec, AccountCodeError>)
        ensures
            match r {
                Ok(spec) => {
                    &&& spec.code@ == sections_view(sections@)
                    &&& spec.parent == parent
                    &&& spec.name@ == name@
                    &&& spec.normal_balance_type == normal_balance_type
                    &&& (parent matches Some(p) ==> code_is_parent_of(p@, sections_view(sections@)))
                },
                Err(e) => {
                    &&& e == AccountCodeError::InvalidParent
                    &&& parent matches Some(p)
                    &&& !code_is_parent_of(p@, sections_view(sections@))
                },
            },
    {
        let code = AccountCode::new(sections);
        let parent_copy = match &parent {
            Some(p) => Some(p.duplicate()),
            None => None,
        };
        match code.check_valid_parent(parent_copy) {
            Ok(()) => Ok(AccountSpec { parent, code, name, normal_balance_type }),
            Err(e) => Err(e),
        }
    }

    /// Whether the account has a parent.
    pub fn has_parent(&self) -> (r: bool)
        ensures
            r == self.parent is Some,
    {
        self.parent.is_some()
    }
}

/// Why an accounting base configuration was refused; the text is the written
/// form of the code at fault.
#[derive(Debug, Clone, PartialEq, Eq)]
pub enum AccountingBaseConfigError {
    DuplicateAccountCode(String),
    AccountCodeNotTopLevel(String),
    RetainedEarningsCodeNotChildOfEquity(String),
}

/// The categories of the accounts of a chart.
#[derive(Debug, Clone, Copy, PartialEq, Eq)]
pub enum AccountCategory {
    OffBalanceSheet,
    Asset,
    Liability,
    Equity,
    Revenue,
    CostOfRevenue,
    Expenses,
}

/// The codes of the chart under which each category of accounts lives.
#[derive(Debug, PartialEq, Eq)]
pub struct AccountingBaseConfig {
    pub assets_code: AccountCode,
    pub liabilities_code: AccountCode,
    pub equity_code: AccountCode,
    pub equity_retained_earnings_gain_code: AccountCode,
    pub equity_retained_earnings_loss_code: AccountCode,
    pub revenue_code: AccountCode,
    pub cost_of_revenue_code: AccountCode,
    pub expenses_code: AccountCode,
}

/// The view of a configuration: its eight codes.
pub struct BaseConfigView {
    pub assets: Seq<Seq<char>>,
    pub liabilities: Seq<Seq<char>>,
    pub equity: Seq<Seq<char>>,
    pub retained_earnings_gain: Seq<Seq<char>>,
    pub retained_earnings_loss: Seq<Seq<char>>,
    pub revenue: Seq<Seq<char>>,
    pub cost_of_revenue: Seq<Seq<char>>,
    pub expenses: Seq<Seq<char>>,
}

impl View for AccountingBaseConfig {
    type V = BaseConfigView;

    open spec fn view(&self) -> BaseConfigView {
        BaseConfigView {
            assets: self.assets_code@,
            liabilities: self.liabilities_code@,
            equity: self.equity_code@,
            retained_earnings_gain: self.equity_retained_earnings_gain_code@,
            retained_earnings_loss: self.equity_retained_earnings_loss_code@,
            revenue: self.revenue_code@,
            cost_of_revenue: self.cost_of_revenue_code@,
            expenses: self.expenses_code@,
        }
    }
}

/// The codes of the six balance-sheet categories, in the order in which the
/// configuration is checked: assets, liabilities, equity, revenue, cost of
/// revenue, expenses.
pub open spec fn category_codes(v: BaseConfigView) -> Seq<Seq<Seq<char>>> {
    seq![v.assets, v.liabilities, v.equity, v.revenue, v.cost_of_revenue, v.expenses]
}

/// A top-level code of the chart: one section of one digit.
pub open spec fn is_top_level(c: Seq<Seq<char>>) -> bool {
    c.len() == 1 && c[0].len() == 1
}

/// `code` is the category code `top` or one of its descendants.
pub open spec fn in_category(top: Seq<Seq<char>>, code: Seq<Seq<char>>) -> bool {
    top == code || code_is_parent_of(top, code)
}

/// What is wrong with a configuration, in the order it is checked.
pub enum BaseConfigProblem {
    /// The first category code (in check order) that is not top level.
    NotTopLevel(Seq<Seq<char>>),
    /// The first category code that repeats an earlier one.
    Duplicate(Seq<Seq<char>>),
    /// The equity code, when a retained earnings code is not its descendant.
    RetainedEarningsNotChildOfEquity(Seq<Seq<char>>),
}

/// The index of the first code, from `i` on, that is not top level.
pub open spec fn first_not_top_level(codes: Seq<Seq<Seq<char>>>, i: int) -> Option<int>
    decreases codes.len() - i,
{
    if i < 0 || i >= codes.len() {
        None
    } else if !is_top_level(codes[i]) {
        Some(i)
    } else {
        first_not_top_level(codes, i + 1)
    }
}

/// The index of the first code, from `j` on, that equals an earlier one.
pub open spec fn first_duplicate(codes: Seq<Seq<Seq<char>>>, j: int) -> Option<int>
    decreases codes.len() - j,
{
    if j < 0 || j >= codes.len() {
        None
    } else if exists|i: int| 0 <= i < j && #[trigger] codes[i] == codes[j] {
        Some(j)
    } else {
        first_duplicate(codes, j + 1)
    }
}

/// What is wrong with the configuration `v`, if anything: every category code
/// must be top level, no two may be equal, and both retained earnings codes
/// must be descendants of the equity code.
pub open spec fn base_config_problem(v: BaseConfigView) -> Option<BaseConfigProblem> {
    let codes = category_codes(v);
    match first_not_top_level(codes, 0) {
        Some(i) => Some(BaseConfigProblem::NotTopLevel(codes[i])),
        None => match first_duplicate(codes, 0) {
            Some(j) => Some(BaseConfigProblem::Duplicate(codes[j])),
            None => if !code_is_parent_of(v.equity, v.retained_earnings_gain) || !code_is_parent_of(
                v.equity,
                v.retained_earnings_loss,
            ) {
                Some(BaseConfigProblem::RetainedEarningsNotChildOfEquity(v.equity))
            } else {
                None
            },
        },
    }
}

/// The error `e` reports the problem `p`.
pub open spec fn reports(e: AccountingBaseConfigError, p: BaseConfigProblem) -> bool {
    match p {
        BaseConfigProblem::NotTopLevel(c) => e matches AccountingBaseConfigError::AccountCodeNotTopLevel(s)
            && s@ == join_dots(c),
        BaseConfigProblem::Duplicate(c) => e matches AccountingBaseConfigError::DuplicateAccountCode(s)
            && s@ == join_dots(c),
        BaseConfigProblem::RetainedEarningsNotChildOfEquity(c) => e matches AccountingBaseConfigError::RetainedEarningsCodeNotChildOfEquity(s)
            && s@ == join_dots(c),
    }
}

/// A configuration that the checks accept.
pub open spec fn base_config_valid(v: BaseConfigView) -> bool {
    base_config_problem(v) is None
}

/// Off the balance sheet: in none of the six categories.
pub open spec fn off_balance_sheet(v: BaseConfigView, code: Seq<Seq<char>>) -> bool {
    !(exists|i: int| 0 <= i < 6 && in_category(#[trigger] category_codes(v)[i], code))
}

/// `code` is in `category` under the configuration `v`.
pub open spec fn in_account_category(v: BaseConfigView, code: Seq<Seq<char>>, category: AccountCategory) -> bool {
    match category {
        AccountCategory::OffBalanceSheet => off_balance_sheet(v, code),
        AccountCategory::Asset => in_category(v.assets, code),
        AccountCategory::Liability => in_category(v.liabilities, code),
        AccountCategory::Equity => in_category(v.equity, code),
        AccountCategory::Revenue => in_category(v.revenue, code),
        AccountCategory::CostOfRevenue => in_category(v.cost_of_revenue, code),
        AccountCategory::Expenses => in_category(v.expenses, code),
    }
}

fn code_in_category(top: &AccountCode, code: &AccountCode) -> (r: bool)
    ensures
        r == in_category(top@, code@),
{
    top.same_code(code) || top.is_parent_of(code.sections())
}

impl AccountingBaseConfig {
    /// The configuration of the given codes, or the first problem found:
    /// a category code that is not top level, then one that repeats an
    /// earlier one, then a retained earnings code that is not under equity.
    pub fn try_new(
        assets_code: AccountCode,
        liabilities_code: AccountCode,
        equity_code: AccountCode,
        equity_retained_earnings_gain_code: AccountCode,
        equity_retained_earnings_loss_code: AccountCode,
        revenue_code: AccountCode,
        cost_of_revenue_code: AccountCode,
        expenses_code: AccountCode,
    ) -> (r: Result<AccountingBaseConfig, AccountingBaseConfigError>)
        ensures
            ({
                let v = BaseConfigView {
                    assets: assets_code@,
                    liabilities: liabilities_code@,
                    equity: equity_code@,
                    retained_earnings_gain: equity_retained_earnings_gain_code@,
                    retained_earnings_loss: equity_retained_earnings_loss_code@,
                    revenue: revenue_code@,
                    cost_of_revenue: cost_of_revenue_code@,
                    expenses: expenses_code@,
                };
                match base_config_problem(v) {
                    None => r matches Ok(c) && c@ == v,
                    Some(p) => r matches Err(e) && reports(e, p),
                }
            }),
    {
        let config = AccountingBaseConfig {
            assets_code,
            liabilities_code,
            equity_code,
            equity_retained_earnings_gain_code,
            equity_retained_earnings_loss_code,
            revenue_code,
            cost_of_revenue_code,
            expenses_code,
        };
        match config.validate() {
            Ok(()) => Ok(config),
            Err(e) => Err(e),
        }
    }

    fn validate(&self) -> (r: Result<(), AccountingBaseConfigError>)
        ensures
            match base_config_problem(self@) {
                None => r is Ok,
                Some(p) => r matches Err(e) && reports(e, p),
            },
    {
        let ghost codes = category_codes(self@);
        let a = &self.assets_code;
        let l = &self.liabilities_code;
        let e = &self.equity_code;
        let rv = &self.revenue_code;
        let c = &self.cost_of_revenue_code;
        let x = &self.expenses_code;
        proof {
            reveal_with_fuel(first_not_top_level, 7);
            reveal_with_fuel(first_duplicate, 7);
        }
        if !a.is_top_level_chart_code() {
            return Err(AccountingBaseConfigError::AccountCodeNotTopLevel(a.to_string()));
        }
        if !l.is_top_level_chart_code() {
            return Err(AccountingBaseConfigError::AccountCodeNotTopLevel(l.to_string()));
        }
        if !e.is_top_level_chart_code() {
            return Err(AccountingBaseConfigError::AccountCodeNotTopLevel(e.to_string()));
        }
        if !rv.is_top_level_chart_code() {
            return Err(AccountingBaseConfigError::AccountCodeNotTopLevel(rv.to_string()));
        }
        if !c.is_top_level_chart_code() {
            return Err(AccountingBaseConfigError::AccountCodeNotTopLevel(c.to_string()));
        }
        if !x.is_top_level_chart_code() {
            return Err(AccountingBaseConfigError::AccountCodeNotTopLevel(x.to_string()));
        }
        assert(first_not_top_level(codes, 0) is None);
        if l.same_code(a) {
            assert(codes[0] == codes[1]);
            return Err(AccountingBaseConfigError::DuplicateAccountCode(l.to_string()));
        }
        assert(!(exists|i: int| 0 <= i < 1 && #[trigger] codes[i] == codes[1]));
        if e.same_code(a) || e.same_code(l) {
            assert(codes[0] == codes[2] || codes[1] == codes[2]);
            return Err(AccountingBaseConfigError::DuplicateAccountCode(e.to_string()));
        }
        assert(!(exists|i: int| 0 <= i < 2 && #[trigger] codes[i] == codes[2]));
        if rv.same_code(a) || rv.same_code(l) || rv.same_code(e) {
            assert(codes[0] == codes[3] || codes[1] == codes[3] || codes[2] == codes[3]);
            return Err(AccountingBaseConfigError::DuplicateAccountCode(rv.to_string()));
        }
        assert(!(exists|i: int| 0 <= i < 3 && #[trigger] codes[i] == codes[3]));
        if c.same_code(a) || c.same_code(l) || c.same_code(e) || c.same_code(rv) {
            assert(codes[0] == codes[4] || codes[1] == codes[4] || codes[2] == codes[4] || codes[3]
                == codes[4]);
            return Err(AccountingBaseConfigError::DuplicateAccountCode(c.to_string()));
        }
        assert(!(exists|i: int| 0 <= i < 4 && #[trigger] codes[i] == codes[4]));
        if x.same_code(a) || x.same_code(l) || x.same_code(e) || x.same_code(rv) || x.same_code(c) {
            assert(codes[0] == codes[5] || codes[1] == codes[5] || codes[2] == codes[5] || codes[3]
                == codes[5] || codes[4] == codes[5]);
            return Err(AccountingBaseConfigError::DuplicateAccountCode(x.to_string()));
        }
        assert(!(exists|i: int| 0 <= i < 5 && #[trigger] codes[i] == codes[5]));
        assert(first_duplicate(codes, 0) is None);
        if !e.is_parent_of(self.equity_retained_earnings_gain_code.sections()) || !e.is_parent_of(
            self.equity_retained_earnings_loss_code.sections(),
        ) {
            return Err(AccountingBaseConfigError::RetainedEarningsCodeNotChildOfEquity(e.to_string()));
        }
        Ok(())
    }

    /// Whether the code is off the balance sheet: neither one of the six
    /// category codes nor a descendant of one.
    pub fn is_off_balance_sheet_account_set_or_account(&self, code: &AccountCode) -> (r: bool)
        ensures
            r == off_balance_sheet(self@, code@),
    {
        let ghost codes = category_codes(self@);
        let in_any = code_in_category(&self.assets_code, code) || code_in_category(
            &self.liabilities_code,
            code,
        ) || code_in_category(&self.equity_code, code) || code_in_category(&self.revenue_code, code)
            || code_in_category(&self.cost_of_revenue_code, code) || code_in_category(
            &self.expenses_code,
            code,
        );
        proof {
            if in_any {
                if in_category(codes[0], code@) {
                } else if in_category(codes[1], code@) {
                } else if in_category(codes[2], code@) {
                } else if in_category(codes[3], code@) {
                } else if in_category(codes[4], code@) {
                } else {
                    assert(in_category(codes[5], code@));
                }
            } else {
                assert forall|i: int| 0 <= i < 6 implies !in_category(#[trigger] codes[i], code@) by {
                    if i == 0 {
                    } else if i == 1 {
                    } else if i == 2 {
                    } else if i == 3 {
                    } else if i == 4 {
                    } else {
                    }
                }
            }
        }
        !in_any
    }

    /// Whether the code is the assets code or under it.
    pub fn is_assets_account_set_or_account(&self, code: &AccountCode) -> (r: bool)
        ensures
            r == in_category(self@.assets, code@),
    {
        code_in_category(&self.assets_code, code)
    }

    /// Whether the code is the liabilities code or under it.
    pub fn is_liabilities_account_set_or_account(&self, code: &AccountCode) -> (r: bool)
        ensures
            r == in_category(self@.liabilities, code@),
    {
        code_in_category(&self.liabilities_code, code)
    }

    /// Whether the code is the equity code or under it.
    pub fn is_equity_account_set_or_account(&self, code: &AccountCode) -> (r: bool)
        ensures
            r == in_category(self@.equity, code@),
    {
        code_in_category(&self.equity_code, code)
    }

    /// Whether the code is the revenue code or under it.
    pub fn is_revenue_account_set_or_account(&self, code: &AccountCode) -> (r: bool)
        ensures
            r == in_category(self@.revenue, code@),
    {
        code_in_category(&self.revenue_code, code)
    }

    /// Whether the code is the cost of revenue code or under it.
    pub fn is_cost_of_revenue_account_set_or_account(&self, code: &AccountCode) -> (r: bool)
        ensures
            r == in_category(self@.cost_of_revenue, code@),
    {
        code_in_category(&self.cost_of_revenue_code, code)
    }

    /// Whether the code is the expenses code or under it.
    pub fn is_expenses_account_set_or_account(&self, code: &AccountCode) -> (r: bool)
        ensures
            r == in_category(self@.expenses, code@),
    {
        code_in_category(&self.expenses_code, code)
    }

    /// Whether the code belongs to the category.
    pub fn is_account_in_category(&self, code: &AccountCode, category: AccountCategory) -> (r: bool)
        ensures
            r == in_account_category(self@, code@, category),
    {
        match category {
            AccountCategory::OffBalanceSheet => self.is_off_balance_sheet_account_set_or_account(code),
            AccountCategory::Asset => self.is_assets_account_set_or_account(code),
            AccountCategory::Liability => self.is_liabilities_account_set_or_account(code),
            AccountCategory::Equity => self.is_equity_account_set_or_account(code),
            AccountCategory::Revenue => self.is_revenue_account_set_or_account(code),
            AccountCategory::CostOfRevenue => self.is_cost_of_revenue_account_set_or_account(code),
            AccountCategory::Expenses => self.is_expenses_account_set_or_account(code),
        }
    }

    /// The code of a balance-sheet category; none for off balance sheet.
    pub fn code_for_category(&self, category: AccountCategory) -> (r: Option<&AccountCode>)
        ensures
            match category {
                AccountCategory::OffBalanceSheet => r is None,
                AccountCategory::Asset => r == Some(&self.assets_code),
                AccountCategory::Liability => r == Some(&self.liabilities_code),
                AccountCategory::Equity => r == Some(&self.equity_code),
                AccountCategory::Revenue => r == Some(&self.revenue_code),
                AccountCategory::CostOfRevenue => r == Some(&self.cost_of_revenue_code),
                AccountCategory::Expenses => r == Some(&self.expenses_code),
            },
    {
        match category {
            AccountCategory::OffBalanceSheet => None,
            AccountCategory::Asset => Some(&self.assets_code),
            AccountCategory::Liability => Some(&self.liabilities_code),
            AccountCategory::Equity => Some(&self.equity_code),
            AccountCategory::Revenue => Some(&self.revenue_code),
            AccountCategory::CostOfRevenue => Some(&self.cost_of_revenue_code),
            AccountCategory::Expenses => Some(&self.expenses_code),
        }
    }
}

/// The codes that closing a fiscal period works on.
#[derive(Debug)]
pub struct ClosingAccountCodes {
    pub revenue: AccountCode,
    pub cost_of_revenue: AccountCode,
    pub expenses: AccountCode,
    pub equity_retained_earnings: AccountCode,
    pub equity_retained_losses: AccountCode,
}

impl ClosingAccountCodes {
    /// The closing codes of a configuration.
    pub fn from_config(config: &AccountingBaseConfig) -> (r: ClosingAccountCodes)
        ensures
            r.revenue@ == config@.revenue,
            r.cost_of_revenue@ == config@.cost_of_revenue,
            r.expenses@ == config@.expenses,
            r.equity_retained_earnings@ == config@.retained_earnings_gain,
            r.equity_retained_losses@ == config@.retained_earnings_loss,
    {
        ClosingAccountCodes {
            revenue: config.revenue_code.duplicate(),
            cost_of_revenue: config.cost_of_revenue_code.duplicate(),
            expenses: config.expenses_code.duplicate(),
            equity_retained_earnings: config.equity_retained_earnings_gain_code.duplicate(),
            equity_retained_losses: config.equity_retained_earnings_loss_code.duplicate(),
        }
    }
}

} // verus!
