//! How a payment is spread over the obligations of its beneficiary: each
//! obligation in turn takes what it still owes, as far as the payment goes.
use vstd::prelude::*;

verus! {

/// An obligation as the allocation of a payment sees it: its id and what it
/// still owes, in cents.
#[derive(Debug, Clone, Copy, PartialEq, Eq)]
pub struct OutstandingObligation {
    pub id: u128,
    pub outstanding: u64,
}

/// A part of a payment allocated to an obligation, in cents.
#[derive(Debug, Clone, Copy, PartialEq, Eq)]
pub struct AllocationDraft {
    pub obligation_id: u128,
    pub amount: u64,
}

/// The smaller of two amounts.
pub open spec fn min_amount(a: int, b: int) -> int {
    if a <= b {
        a
    } else {
        b
    }
}

/// The allocations of `remaining` cents over `obligations`, in order: each
/// obligation that still owes something takes what it owes, or what is
/// left of the payment where that is less; nothing is allocated once the
/// payment is used up.
pub open spec fn waterfall(obligations: Seq<OutstandingObligation>, remaining: int) -> Seq<AllocationDraft>
    decreases obligations.len(),
{
    if obligations.len() == 0 || remaining <= 0 {
        Seq::empty()
    } else {
        let o = obligations[0];
        let take = min_amount(remaining, o.outstanding as int);
        if take == 0 {
            waterfall(obligations.drop_first(), remaining)
        } else {
            seq![AllocationDraft { obligation_id: o.id, amount: take as u64 }] + waterfall(
                obligations.drop_first(),
                remaining - take,
            )
        }
    }
}

/// The amounts of `allocations`, together.
pub open spec fn allocated_total(allocations: Seq<AllocationDraft>) -> int
    decreases allocations.len(),
{
    if allocations.len() == 0 {
        0
    } else {
        allocations[0].amount + allocated_total(allocations.drop_first())
    }
}

/// What `obligations` still owe, together.
pub open spec fn outstanding_total(obligations: Seq<OutstandingObligation>) -> int
    decreases obligations.len(),
{
    if obligations.len() == 0 {
        0
    } else {
        obligations[0].outstanding + outstanding_total(obligations.drop_first())
    }
}

/// Spreads a payment of `amount` cents over the obligations, taken in the
/// order given: each obligation that still owes something takes what it
/// owes, or what is left where that is less, until the payment is used up.
pub fn allocate_payment(obligations: &Vec<OutstandingObligation>, amount: u64) -> (r: Vec<AllocationDraft>)
    ensures
        r@ == waterfall(obligations@, amount as int),
{
    let mut allocations: Vec<AllocationDraft> = Vec::new();
    let mut remaining: u64 = amount;
    let mut i: usize = 0;
    proof {
        assert(obligations@.skip(0) =~= obligations@);
        assert(allocations@ + waterfall(obligations@, amount as int) =~= waterfall(obligations@, amount as int));
    }
    while i < obligations.len() && remaining > 0
        invariant
            i <= obligations.len(),
            allocations@ + waterfall(obligations@.skip(i as int), remaining as int) == waterfall(
                obligations@,
                amount as int,
            ),
        decreases obligations.len() - i,
    {
        let o = obligations[i];
        let take = if remaining <= o.outstanding {
            remaining
        } else {
            o.outstanding
        };
        proof {
            assert(obligations@.skip(i as int).drop_first() =~= obligations@.skip(i + 1));
            assert(obligations@.skip(i as int)[0] == o);
        }
        if take > 0 {
            let ghost before = allocations@;
            allocations.push(AllocationDraft { obligation_id: o.id, amount: take });
            proof {
                let d = AllocationDraft { obligation_id: o.id, amount: take };
                assert(before + (seq![d] + waterfall(obligations@.skip(i + 1), remaining - take)) =~= allocations@
                    + waterfall(obligations@.skip(i + 1), remaining - take));
            }
            remaining = remaining - take;
        }
        i = i + 1;
    }
    proof {
        assert(waterfall(obligations@.skip(i as int), remaining as int) == Seq::<AllocationDraft>::empty());
        assert(allocations@ + Seq::<AllocationDraft>::empty() =~= allocations@);
    }
    allocations
}

/// A payment allocates all of itself, or all that the obligations owe
/// where that is less; no obligation is given more than it owes, and each
/// allocation is to an obligation of the list and of a positive amount.
pub proof fn law_allocation_pays_what_it_can(obligations: Seq<OutstandingObligation>, amount: int)
    requires
        amount >= 0,
    ensures
        allocated_total(waterfall(obligations, amount)) == min_amount(amount, outstanding_total(obligations)),
        forall|k: int|
            0 <= k < waterfall(obligations, amount).len() ==> {
                let a = #[trigger] waterfall(obligations, amount)[k];
                &&& a.amount > 0
                &&& exists|j: int|
                    0 <= j < obligations.len() && obligations[j].id == a.obligation_id && a.amount
                        <= obligations[j].outstanding
            },
    decreases obligations.len(),
{
    if obligations.len() == 0 || amount <= 0 {
        lemma_outstanding_total_nonnegative(obligations);
    } else {
        let o = obligations[0];
        let rest = obligations.drop_first();
        let take = min_amount(amount, o.outstanding as int);
        law_allocation_pays_what_it_can(rest, amount - take);
        lemma_outstanding_total_nonnegative(rest);
        let w = waterfall(obligations, amount);
        let tail = waterfall(rest, amount - take);
        if take == 0 {
            assert(w == tail);
            assert forall|k: int| 0 <= k < w.len() implies {
                let a = #[trigger] w[k];
                &&& a.amount > 0
                &&& exists|j: int|
                    0 <= j < obligations.len() && obligations[j].id == a.obligation_id && a.amount
                        <= obligations[j].outstanding
            } by {
                let a = tail[k];
                let j = choose|j: int| 0 <= j < rest.len() && rest[j].id == a.obligation_id && a.amount <= rest[j].outstanding;
                assert(obligations[j + 1] == rest[j]);
            }
        } else {
            let d = AllocationDraft { obligation_id: o.id, amount: take as u64 };
            assert(w == seq![d] + tail);
            assert((seq![d] + tail).drop_first() =~= tail);
            assert(allocated_total(w) == take + allocated_total(tail));
            assert forall|k: int| 0 <= k < w.len() implies {
                let a = #[trigger] w[k];
                &&& a.amount > 0
                &&& exists|j: int|
                    0 <= j < obligations.len() && obligations[j].id == a.obligation_id && a.amount
                        <= obligations[j].outstanding
            } by {
                if k == 0 {
                    assert(w[0] == d);
                    assert(obligations[0].id == d.obligation_id && d.amount <= obligations[0].outstanding);
                } else {
                    assert(w[k] == tail[k - 1]);
                    let a = tail[k - 1];
                    let j = choose|j: int| 0 <= j < rest.len() && rest[j].id == a.obligation_id && a.amount <= rest[j].outstanding;
                    assert(obligations[j + 1] == rest[j]);
                }
            }
        }
    }
}

proof fn lemma_outstanding_total_nonnegative(obligations: Seq<OutstandingObligation>)
    ensures
        outstanding_total(obligations) >= 0,
        obligations.len() == 0 ==> outstanding_total(obligations) == 0,
    decreases obligations.len(),
{
    if obligations.len() > 0 {
        lemma_outstanding_total_nonnegative(obligations.drop_first());
    }
}

} // verus!
