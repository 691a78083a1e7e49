//! The entries of a facility's repayment plan, and the order in which the
//! plan lists them.
use vstd::prelude::*;
use vstd::relations::{sorted_by, total_ordering};
use vstd::seq_lib::lemma_sorted_unique;

verus! {

broadcast use vstd::seq_lib::group_to_multiset_ensures;

/// What an entry is to be repaid for.
#[derive(Debug, Clone, Copy, PartialEq, Eq)]
pub enum RepaymentType {
    Disbursal,
    Interest,
}

/// Where an entry stands: planned but not yet owed, owed, or repaid.
#[derive(Debug, Clone, Copy, PartialEq, Eq)]
pub enum RepaymentStatus {
    Upcoming,
    NotYetDue,
    Due,
    Overdue,
    Defaulted,
    Paid,
}

/// One entry of a repayment plan. Money is in cents; `due_at`,
/// `overdue_at`, `defaulted_at` and `effective` are days counted from the
/// start of the common era; `recorded_at` is an instant.
#[derive(Debug, Clone, Copy, PartialEq, Eq)]
pub struct CreditFacilityRepaymentPlanEntry {
    pub repayment_type: RepaymentType,
    pub obligation_id: Option<u128>,
    pub status: RepaymentStatus,
    pub initial: u64,
    pub outstanding: u64,
    pub due_at: i32,
    pub overdue_at: Option<i32>,
    pub defaulted_at: Option<i32>,
    pub recorded_at: i64,
    pub effective: i32,
}

impl CreditFacilityRepaymentPlanEntry {
    /// The entry stands for an obligation that exists (or a repaid accrual),
    /// not one that is only planned.
    pub fn is_not_upcoming(&self) -> (r: bool)
        ensures
            r == (self.status != RepaymentStatus::Upcoming),
    {
        !matches!(self.status, RepaymentStatus::Upcoming)
    }
}

/// The rank of a repayment type in the order of entries.
pub open spec fn type_rank(t: RepaymentType) -> int {
    match t {
        RepaymentType::Disbursal => 0,
        RepaymentType::Interest => 1,
    }
}

/// The rank of a status in the order of entries.
pub open spec fn status_rank(s: RepaymentStatus) -> int {
    match s {
        RepaymentStatus::Upcoming => 0,
        RepaymentStatus::NotYetDue => 1,
        RepaymentStatus::Due => 2,
        RepaymentStatus::Overdue => 3,
        RepaymentStatus::Defaulted => 4,
        RepaymentStatus::Paid => 5,
    }
}

/// `a` comes before `b` among optional values: nothing comes first.
pub open spec fn opt_before_u128(a: Option<u128>, b: Option<u128>) -> bool {
    match (a, b) {
        (None, Some(_)) => true,
        (Some(x), Some(y)) => x < y,
        _ => false,
    }
}

/// `a` comes before `b` among optional days: nothing comes first.
pub open spec fn opt_before_i32(a: Option<i32>, b: Option<i32>) -> bool {
    match (a, b) {
        (None, Some(_)) => true,
        (Some(x), Some(y)) => x < y,
        _ => false,
    }
}

/// The order of the plan: by when an entry is recorded, then by its due
/// day; the other fields, in the order they are declared, break ties, so
/// that two entries are in order both ways only when they are equal.
pub open spec fn entry_le(a: CreditFacilityRepaymentPlanEntry, b: CreditFacilityRepaymentPlanEntry) -> bool {
    a.recorded_at < b.recorded_at || (a.recorded_at == b.recorded_at && le_by_due(a, b))
}

/// The order from the due day on.
pub open spec fn le_by_due(a: CreditFacilityRepaymentPlanEntry, b: CreditFacilityRepaymentPlanEntry) -> bool {
    a.due_at < b.due_at || (a.due_at == b.due_at && le_by_type(a, b))
}

/// The order from the repayment type on.
pub open spec fn le_by_type(a: CreditFacilityRepaymentPlanEntry, b: CreditFacilityRepaymentPlanEntry) -> bool {
    type_rank(a.repayment_type) < type_rank(b.repayment_type) || (a.repayment_type == b.repayment_type
        && le_by_obligation(a, b))
}

/// The order from the obligation on.
pub open spec fn le_by_obligation(a: CreditFacilityRepaymentPlanEntry, b: CreditFacilityRepaymentPlanEntry) -> bool {
    opt_before_u128(a.obligation_id, b.obligation_id) || (a.obligation_id == b.obligation_id && le_by_status(a, b))
}

/// The order from the status on.
pub open spec fn le_by_status(a: CreditFacilityRepaymentPlanEntry, b: CreditFacilityRepaymentPlanEntry) -> bool {
    status_rank(a.status) < status_rank(b.status) || (a.status == b.status && le_by_amounts(a, b))
}

/// The order from the amounts on.
pub open spec fn le_by_amounts(a: CreditFacilityRepaymentPlanEntry, b: CreditFacilityRepaymentPlanEntry) -> bool {
    a.initial < b.initial || (a.initial == b.initial && (a.outstanding < b.outstanding || (a.outstanding
        == b.outstanding && le_by_dates(a, b))))
}

/// The order from the overdue day on.
pub open spec fn le_by_dates(a: CreditFacilityRepaymentPlanEntry, b: CreditFacilityRepaymentPlanEntry) -> bool {
    opt_before_i32(a.overdue_at, b.overdue_at) || (a.overdue_at == b.overdue_at && (opt_before_i32(
        a.defaulted_at,
        b.defaulted_at,
    ) || (a.defaulted_at == b.defaulted_at && a.effective <= b.effective)))
}

/// The order of the plan as a relation.
pub open spec fn entry_order() -> spec_fn(CreditFacilityRepaymentPlanEntry, CreditFacilityRepaymentPlanEntry) -> bool {
    |a: CreditFacilityRepaymentPlanEntry, b: CreditFacilityRepaymentPlanEntry| entry_le(a, b)
}

/// The entries in the order of the plan.
pub open spec fn sorted_entries(s: Seq<CreditFacilityRepaymentPlanEntry>) -> Seq<CreditFacilityRepaymentPlanEntry> {
    s.sort_by(entry_order())
}

/// The order of the plan is total: any two entries are in order one way or
/// the other, and both ways only when they are equal.
pub proof fn lemma_entry_order_total()
    ensures
        total_ordering(entry_order()),
{
    let r = entry_order();
    assert forall|x: CreditFacilityRepaymentPlanEntry, y: CreditFacilityRepaymentPlanEntry|
        #[trigger] r(x, y) && #[trigger] r(y, x) implies x == y by {
        assert(entry_le(x, y) && entry_le(y, x));
    }
    assert forall|x: CreditFacilityRepaymentPlanEntry, y: CreditFacilityRepaymentPlanEntry, z: CreditFacilityRepaymentPlanEntry|
        #[trigger] r(x, y) && #[trigger] r(y, z) implies r(x, z) by {
        assert(entry_le(x, y) && entry_le(y, z));
        lemma_entry_le_transitive(x, y, z);
    }
    assert forall|x: CreditFacilityRepaymentPlanEntry, y: CreditFacilityRepaymentPlanEntry|
        #[trigger] r(x, y) || #[trigger] r(y, x) by {
        assert(entry_le(x, y) || entry_le(y, x));
    }
    assert forall|x: CreditFacilityRepaymentPlanEntry| #[trigger] r(x, x) by {
        assert(entry_le(x, x));
    }
}

proof fn lemma_entry_le_transitive(
    x: CreditFacilityRepaymentPlanEntry,
    y: CreditFacilityRepaymentPlanEntry,
    z: CreditFacilityRepaymentPlanEntry,
)
    requires
        entry_le(x, y),
        entry_le(y, z),
    ensures
        entry_le(x, z),
{
}

/// Whether `a` comes no later than `b` in the order of the plan.
pub fn entry_le_exec(a: &CreditFacilityRepaymentPlanEntry, b: &CreditFacilityRepaymentPlanEntry) -> (r: bool)
    ensures
        r == entry_le(*a, *b),
{
    if a.recorded_at != b.recorded_at {
        return a.recorded_at < b.recorded_at;
    }
    if a.due_at != b.due_at {
        return a.due_at < b.due_at;
    }
    let (ta, tb) = (type_rank_exec(a.repayment_type), type_rank_exec(b.repayment_type));
    if ta != tb {
        return ta < tb;
    }
    match (a.obligation_id, b.obligation_id) {
        (None, Some(_)) => return true,
        (Some(_), None) => return false,
        (Some(x), Some(y)) => {
            if x != y {
                return x < y;
            }
        },
        (None, None) => {},
    }
    let (sa, sb) = (status_rank_exec(a.status), status_rank_exec(b.status));
    if sa != sb {
        return sa < sb;
    }
    if a.initial != b.initial {
        return a.initial < b.initial;
    }
    if a.outstanding != b.outstanding {
        return a.outstanding < b.outstanding;
    }
    match (a.overdue_at, b.overdue_at) {
        (None, Some(_)) => return true,
        (Some(_), None) => return false,
        (Some(x), Some(y)) => {
            if x != y {
                return x < y;
            }
        },
        (None, None) => {},
    }
    match (a.defaulted_at, b.defaulted_at) {
        (None, Some(_)) => return true,
        (Some(_), None) => return false,
        (Some(x), Some(y)) => {
            if x != y {
                return x < y;
            }
        },
        (None, None) => {},
    }
    a.effective <= b.effective
}

fn type_rank_exec(t: RepaymentType) -> (r: u8)
    ensures
        r == type_rank(t),
{
    match t {
        RepaymentType::Disbursal => 0,
        RepaymentType::Interest => 1,
    }
}

fn status_rank_exec(s: RepaymentStatus) -> (r: u8)
    ensures
        r == status_rank(s),
{
    match s {
        RepaymentStatus::Upcoming => 0,
        RepaymentStatus::NotYetDue => 1,
        RepaymentStatus::Due => 2,
        RepaymentStatus::Overdue => 3,
        RepaymentStatus::Defaulted => 4,
        RepaymentStatus::Paid => 5,
    }
}

/// The entries in the order of the plan (an insertion sort).
pub fn sort_entries(v: Vec<CreditFacilityRepaymentPlanEntry>) -> (r: Vec<CreditFacilityRepaymentPlanEntry>)
    ensures
        r@ == sorted_entries(v@),
{
    proof {
        lemma_entry_order_total();
    }
    let ghost ord = entry_order();
    let mut r: Vec<CreditFacilityRepaymentPlanEntry> = Vec::new();
    let n = v.len();
    let mut i: usize = 0;
    while i < n
        invariant
            n == v.len(),
            i <= n,
            ord == entry_order(),
            total_ordering(ord),
            sorted_by(r@, ord),
            r@.to_multiset() == v@.take(i as int).to_multiset(),
        decreases n - i,
    {
        let x = v[i];
        let mut p: usize = 0;
        while p < r.len() && entry_le_exec(&r[p], &x)
            invariant
                p <= r.len(),
                forall|j: int| 0 <= j < p ==> entry_le(#[trigger] r@[j], x),
            decreases r.len() - p,
        {
            p = p + 1;
        }
        let ghost old_r = r@;
        proof {
            if p < old_r.len() {
                assert(!entry_le(old_r[p as int], x));
                assert(ord(x, old_r[p as int]) || ord(old_r[p as int], x));
            }
            assert forall|j: int| p <= j < old_r.len() implies entry_le(x, #[trigger] old_r[j]) by {
                assert(ord(old_r[p as int], old_r[j]) || p as int == j);
                assert(ord(x, old_r[p as int]));
            }
        }
        r.insert(p, x);
        proof {
            assert(r@ == old_r.insert(p as int, x));
            assert forall|a: int, b: int| 0 <= a < b < r@.len() implies #[trigger] ord(r@[a], r@[b]) by {
                if b < p {
                    assert(ord(old_r[a], old_r[b]));
                } else if b == p {
                    assert(entry_le(old_r[a], x));
                } else if a < p {
                    assert(entry_le(old_r[a], x));
                    assert(entry_le(x, old_r[b - 1]));
                    assert(ord(old_r[a], x) && ord(x, old_r[b - 1]));
                } else if a == p {
                    assert(entry_le(x, old_r[b - 1]));
                } else {
                    assert(ord(old_r[a - 1], old_r[b - 1]));
                }
            }
            assert(v@.take(i + 1) == v@.take(i as int).push(x));
        }
        i = i + 1;
    }
    proof {
        assert(v@.take(n as int) == v@);
        v@.lemma_sort_by_ensures(ord);
        lemma_sorted_unique(r@, v@.sort_by(ord), ord);
    }
    r
}

} // verus!
