//! Laws of the accounting base configuration: under a configuration that the
//! checks accept, every account code falls in exactly one category.
use vstd::prelude::*;
use crate::accounting_config::{
    base_config_valid, base_config_problem, category_codes, first_duplicate, first_not_top_level,
    in_account_category, in_category, is_top_level, off_balance_sheet, AccountCategory,
    BaseConfigView,
};
use crate::account_code::code_is_parent_of;

verus! {

proof fn lemma_valid_codes(v: BaseConfigView)
    requires
        base_config_valid(v),
    ensures
        forall|i: int| 0 <= i < 6 ==> is_top_level(#[trigger] category_codes(v)[i]),
        forall|i: int, j: int| 0 <= i < j < 6 ==> category_codes(v)[i] != category_codes(v)[j],
        code_is_parent_of(v.equity, v.retained_earnings_gain),
        code_is_parent_of(v.equity, v.retained_earnings_loss),
{
    let codes = category_codes(v);
    reveal_with_fuel(first_not_top_level, 7);
    reveal_with_fuel(first_duplicate, 7);
    assert(first_not_top_level(codes, 0) is None);
    assert(first_duplicate(codes, 0) is None);
    assert forall|i: int| 0 <= i < 6 implies is_top_level(#[trigger] codes[i]) by {
        if i == 0 {} else if i == 1 {} else if i == 2 {} else if i == 3 {} else if i == 4 {} else {}
    }
    assert forall|i: int, j: int| 0 <= i < j < 6 implies codes[i] != codes[j] by {
        if j == 1 {
            assert(!(exists|k: int| 0 <= k < 1 && #[trigger] codes[k] == codes[1]));
        } else if j == 2 {
            assert(!(exists|k: int| 0 <= k < 2 && #[trigger] codes[k] == codes[2]));
        } else if j == 3 {
            assert(!(exists|k: int| 0 <= k < 3 && #[trigger] codes[k] == codes[3]));
        } else if j == 4 {
            assert(!(exists|k: int| 0 <= k < 4 && #[trigger] codes[k] == codes[4]));
        } else {
            assert(!(exists|k: int| 0 <= k < 5 && #[trigger] codes[k] == codes[5]));
        }
    }
}

proof fn lemma_in_top_level(top: Seq<Seq<char>>, code: Seq<Seq<char>>)
    requires
        is_top_level(top),
        in_category(top, code),
    ensures
        code.len() > 0,
        code[0].len() > 0,
        code[0][0] == top[0][0],
{
    if top != code {
        assert(top[0].is_prefix_of(code[0]));
        assert(top[0][0] == code[0].subrange(0, 1)[0]);
    }
}

/// Under an accepted configuration no code is in two of the six
/// balance-sheet categories: their top-level codes are distinct digits.
pub proof fn law_categories_disjoint(v: BaseConfigView, code: Seq<Seq<char>>, i: int, j: int)
    requires
        base_config_valid(v),
        0 <= i < j < 6,
    ensures
        !(in_category(category_codes(v)[i], code) && in_category(category_codes(v)[j], code)),
{
    let codes = category_codes(v);
    lemma_valid_codes(v);
    if in_category(codes[i], code) && in_category(codes[j], code) {
        lemma_in_top_level(codes[i], code);
        lemma_in_top_level(codes[j], code);
        assert(codes[i][0] =~= codes[j][0]);
        assert(codes[i] =~= codes[j]);
    }
}

/// The place of a balance-sheet category among the six category codes; -1
/// for off balance sheet.
pub open spec fn category_index(c: AccountCategory) -> int {
    match c {
        AccountCategory::OffBalanceSheet => -1,
        AccountCategory::Asset => 0,
        AccountCategory::Liability => 1,
        AccountCategory::Equity => 2,
        AccountCategory::Revenue => 3,
        AccountCategory::CostOfRevenue => 4,
        AccountCategory::Expenses => 5,
    }
}

/// Under an accepted configuration every code is in exactly one of the seven
/// categories: off balance sheet, or exactly one balance-sheet category.
pub proof fn law_exactly_one_category(v: BaseConfigView, code: Seq<Seq<char>>, c1: AccountCategory, c2: AccountCategory)
    requires
        base_config_valid(v),
        in_account_category(v, code, c1),
        in_account_category(v, code, c2),
    ensures
        c1 == c2,
{
    let codes = category_codes(v);
    let i1 = category_index(c1);
    let i2 = category_index(c2);
    if i1 >= 0 {
        assert(in_category(codes[i1], code));
    }
    if i2 >= 0 {
        assert(in_category(codes[i2], code));
    }
    if i1 < i2 && i1 >= 0 {
        law_categories_disjoint(v, code, i1, i2);
    } else if i2 < i1 && i2 >= 0 {
        law_categories_disjoint(v, code, i2, i1);
    } else if i1 == -1 && i2 >= 0 {
        assert(!off_balance_sheet(v, code));
    } else if i2 == -1 && i1 >= 0 {
        assert(!off_balance_sheet(v, code));
    }
}

/// Every code is in at least one category (off balance sheet when in no
/// other).
pub proof fn law_some_category(v: BaseConfigView, code: Seq<Seq<char>>)
    ensures
        exists|c: AccountCategory| in_account_category(v, code, c),
{
    let codes = category_codes(v);
    if off_balance_sheet(v, code) {
        assert(in_account_category(v, code, AccountCategory::OffBalanceSheet));
    } else {
        let i = choose|i: int| 0 <= i < 6 && in_category(#[trigger] codes[i], code);
        if i == 0 {
            assert(in_account_category(v, code, AccountCategory::Asset));
        } else if i == 1 {
            assert(in_account_category(v, code, AccountCategory::Liability));
        } else if i == 2 {
            assert(in_account_category(v, code, AccountCategory::Equity));
        } else if i == 3 {
            assert(in_account_category(v, code, AccountCategory::Revenue));
        } else if i == 4 {
            assert(in_account_category(v, code, AccountCategory::CostOfRevenue));
        } else {
            assert(in_account_category(v, code, AccountCategory::Expenses));
        }
    }
}

/// Under an accepted configuration both retained earnings codes are equity
/// accounts, and so are on the balance sheet.
pub proof fn law_retained_earnings_are_equity(v: BaseConfigView)
    requires
        base_config_valid(v),
    ensures
        in_account_category(v, v.retained_earnings_gain, AccountCategory::Equity),
        in_account_category(v, v.retained_earnings_loss, AccountCategory::Equity),
        !off_balance_sheet(v, v.retained_earnings_gain),
        !off_balance_sheet(v, v.retained_earnings_loss),
{
    lemma_valid_codes(v);
    assert(category_codes(v)[2] == v.equity);
}

} // verus!
