//! What holds of the repayment plan across events: rebuilding keeps the
//! existing obligations, and events that are read again change nothing.
use vstd::prelude::*;
use crate::credit_event::{CoreCreditCollectionEvent, CoreCreditEvent};
use crate::repayment_entry::{entry_order, lemma_entry_order_total, sorted_entries, CreditFacilityRepaymentPlanEntry, RepaymentStatus};
use crate::repayment_plan::{
    collection_event_step, credit_event_step, existing_obligations, has_obligation, holds_obligation,
    interest_schedule, is_obligation, obligation_entry, planned_interest_of, rebuilt, with_sequence,
    PlanView, first_obligation_index, disbursed_outstanding, status_step, planned_disbursals_of,
    empty_plan,
};
use crate::repayment_entry::RepaymentType;
use vstd::seq_lib::lemma_sorted_unique;
use crate::terms::{following, truncated, InterestPeriod, TermValues};

verus! {

broadcast use vstd::seq_lib::group_to_multiset_ensures;

/// Filtering keeps each element that passes as often as it occurs, and no
/// other.
proof fn lemma_filter_count(
    s: Seq<CreditFacilityRepaymentPlanEntry>,
    f: spec_fn(CreditFacilityRepaymentPlanEntry) -> bool,
    x: CreditFacilityRepaymentPlanEntry,
)
    ensures
        s.filter(f).to_multiset().count(x) == if f(x) {
            s.to_multiset().count(x)
        } else {
            0
        },
    decreases s.len(),
{
    reveal(Seq::filter);
    if s.len() > 0 {
        lemma_filter_count(s.drop_last(), f, x);
        assert(s == s.drop_last().push(s.last()));
    } else {
        assert(s.filter(f) =~= Seq::<CreditFacilityRepaymentPlanEntry>::empty());
    }
}

/// Every interest entry that is planned is only planned, not owed.
proof fn lemma_schedule_upcoming(terms: TermValues, principal: int, q: InterestPeriod, limit: int)
    ensures
        forall|i: int|
            0 <= i < interest_schedule(terms, principal, q, limit).len() ==> (#[trigger] interest_schedule(
                terms,
                principal,
                q,
                limit,
            )[i]).status == RepaymentStatus::Upcoming,
    decreases limit - q.start,
{
    if q.start > limit || q.end < q.start {
    } else {
        match truncated(following(q), limit) {
            Some(n) => if n.start > q.start {
                lemma_schedule_upcoming(terms, principal, n, limit);
            },
            None => {},
        }
    }
}

/// Building the entries again keeps exactly the existing obligations it is
/// given: whatever disbursals and interest it plans, the obligations among
/// the new entries are those obligations, each as often as it was given.
pub proof fn law_rebuild_keeps_obligations(p: PlanView, existing: Seq<CreditFacilityRepaymentPlanEntry>, now: i64)
    requires
        forall|i: int| 0 <= i < existing.len() ==> (#[trigger] existing[i]).status != RepaymentStatus::Upcoming,
    ensures
        existing_obligations(rebuilt(p, existing, now).entries).to_multiset() == existing.to_multiset(),
{
    reveal(rebuilt);
    let updated = if existing.len() > 0 {
        existing
    } else {
        planned_disbursals_of(p, now)
    };
    let planned = planned_interest_of(p, updated, now);
    let all = updated + planned;
    assert(forall|i: int| 0 <= i < planned.len() ==> (#[trigger] planned[i]).status == RepaymentStatus::Upcoming) by {
        match crate::repayment_plan::first_planned_period(p, now) {
            Some(q) => lemma_schedule_upcoming(
                p.terms->0,
                crate::repayment_plan::disbursed_outstanding(updated),
                q,
                crate::repayment_plan::plan_limit(p, now),
            ),
            None => {},
        }
    }
    lemma_entry_order_total();
    all.lemma_sort_by_ensures(entry_order());
    let sorted = sorted_entries(all);
    assert(rebuilt(p, existing, now).entries == sorted);
    assert forall|x: CreditFacilityRepaymentPlanEntry|
        #[trigger] existing_obligations(sorted).to_multiset().count(x) == existing.to_multiset().count(x) by {
        lemma_filter_count(sorted, is_obligation(), x);
        vstd::seq_lib::lemma_multiset_commutative(updated, planned);
        if is_obligation()(x) {
            if planned.to_multiset().count(x) > 0 {
                assert(planned.contains(x));
                let k = choose|k: int| 0 <= k < planned.len() && planned[k] == x;
                assert(planned[k].status == RepaymentStatus::Upcoming);
            }
            if existing.len() == 0 && updated.to_multiset().count(x) > 0 {
                assert(updated.contains(x));
                let k = choose|k: int| 0 <= k < updated.len() && updated[k] == x;
                assert(updated[k].status == RepaymentStatus::Upcoming);
            }
            if existing.len() == 0 {
                assert(existing.to_multiset().count(x) == 0);
            }
        } else {
            if existing.to_multiset().count(x) > 0 {
                assert(existing.contains(x));
                let k = choose|k: int| 0 <= k < existing.len() && existing[k] == x;
                assert(existing[k].status != RepaymentStatus::Upcoming);
            }
        }
    }
    assert(existing_obligations(sorted).to_multiset() =~= existing.to_multiset());
}

/// The plan holds an obligation with the given id and status among its
/// existing obligations.
pub open spec fn holds_obligation_with_status(p: PlanView, id: u128, status: RepaymentStatus) -> bool {
    exists|i: int|
        0 <= i < existing_obligations(p.entries).len() && holds_obligation(
            #[trigger] existing_obligations(p.entries)[i],
            id,
        ) && existing_obligations(p.entries)[i].status == status
}

proof fn lemma_kept_entry_is_held(p: PlanView, existing: Seq<CreditFacilityRepaymentPlanEntry>, now: i64, k: int)
    requires
        existing.len() > 0,
        forall|i: int| 0 <= i < existing.len() ==> (#[trigger] existing[i]).status != RepaymentStatus::Upcoming,
        0 <= k < existing.len(),
        existing[k].obligation_id is Some,
    ensures
        holds_obligation_with_status(rebuilt(p, existing, now), existing[k].obligation_id->0, existing[k].status),
{
    law_rebuild_keeps_obligations(p, existing, now);
    let e = existing[k];
    let ex2 = existing_obligations(rebuilt(p, existing, now).entries);
    assert(existing.contains(e));
    assert(existing.to_multiset().count(e) > 0);
    assert(ex2.to_multiset().count(e) > 0);
    assert(ex2.contains(e));
    let j = choose|j: int| 0 <= j < ex2.len() && ex2[j] == e;
    assert(holds_obligation(ex2[j], e.obligation_id->0));
}

/// Where some entry is that of an obligation, a first one is.
proof fn lemma_first_index_exists(s: Seq<CreditFacilityRepaymentPlanEntry>, id: u128, k: int)
    requires
        0 <= k < s.len(),
        holds_obligation(s[k], id),
    ensures
        first_obligation_index(s, id) matches Some(i) && 0 <= i < s.len() && holds_obligation(s[i], id),
    decreases k,
{
    if exists|j: int| 0 <= j < k && holds_obligation(#[trigger] s[j], id) {
        let j = choose|j: int| 0 <= j < k && holds_obligation(#[trigger] s[j], id);
        lemma_first_index_exists(s, id, j);
    } else {
        assert(0 <= k < s.len() && holds_obligation(s[k], id) && forall|j: int|
            0 <= j < k ==> !holds_obligation(#[trigger] s[j], id));
    }
}

/// The existing obligations are obligations.
proof fn lemma_existing_are_obligations(s: Seq<CreditFacilityRepaymentPlanEntry>)
    ensures
        forall|i: int|
            0 <= i < existing_obligations(s).len() ==> (#[trigger] existing_obligations(s)[i]).status
                != RepaymentStatus::Upcoming,
{
    broadcast use vstd::seq_lib::group_filter_ensures;

    assert forall|i: int| 0 <= i < existing_obligations(s).len() implies (#[trigger] existing_obligations(
        s,
    )[i]).status != RepaymentStatus::Upcoming by {
        s.lemma_filter_pred(is_obligation(), i);
    }
}

/// An obligation that the plan reads is then held, not yet due and with
/// nothing repaid; reading its creation again returns `false` and changes
/// nothing but the sequence.
pub proof fn law_replayed_obligation_created_changes_nothing(
    p: PlanView,
    s1: u64,
    s2: u64,
    event: CoreCreditCollectionEvent,
    now1: i64,
    now2: i64,
)
    requires
        event is ObligationCreated,
    ensures
        ({
            let (p1, _) = collection_event_step(p, s1, event, now1);
            let (p2, r2) = collection_event_step(p1, s2, event, now2);
            &&& has_obligation(existing_obligations(p1.entries), event->ObligationCreated_entity.id)
            &&& !r2
            &&& p2 == with_sequence(p1, s2)
        }),
{
    let entity = event->ObligationCreated_entity;
    let existing = existing_obligations(p.entries);
    let (p1, _) = collection_event_step(p, s1, event, now1);
    if !has_obligation(existing, entity.id) {
        let ex = existing.push(obligation_entry(entity));
        lemma_existing_are_obligations(p.entries);
        assert forall|i: int| 0 <= i < ex.len() implies (#[trigger] ex[i]).status != RepaymentStatus::Upcoming by {
            if i < existing.len() {
                assert(ex[i] == existing[i]);
            }
        }
        let p2 = if entity.obligation_type == crate::credit_event::ObligationType::Interest {
            PlanView { last_interest_accrual_at: Some(crate::repayment_plan::day_end_instant(entity.effective)), ..with_sequence(p, s1) }
        } else {
            with_sequence(p, s1)
        };
        lemma_kept_entry_is_held(p2, ex, now1, existing.len() as int);
        let ex1 = existing_obligations(p1.entries);
        let j = choose|j: int| 0 <= j < ex1.len() && holds_obligation(#[trigger] ex1[j], entity.id) && ex1[j].status == RepaymentStatus::NotYetDue;
        assert(holds_obligation(ex1[j], entity.id));
    }
}

/// An allocation is read once: reading it again returns `false` and
/// changes nothing but the sequence.
pub proof fn law_replayed_allocation_changes_nothing(
    p: PlanView,
    s1: u64,
    s2: u64,
    event: CoreCreditCollectionEvent,
    now1: i64,
    now2: i64,
)
    requires
        event is PaymentAllocated,
    ensures
        ({
            let (p1, _) = collection_event_step(p, s1, event, now1);
            let (p2, r2) = collection_event_step(p1, s2, event, now2);
            &&& p1.applied_allocations.contains(event->PaymentAllocated_entity.id)
            &&& !r2
            &&& p2 == with_sequence(p1, s2)
        }),
{
    reveal(rebuilt);
}

/// A posted accrual of no interest is read once: reading it again returns
/// `false` and changes nothing but the sequence.
pub proof fn law_replayed_zero_accrual_changes_nothing(
    p: PlanView,
    s1: u64,
    s2: u64,
    event: CoreCreditEvent,
    now1: i64,
    now2: i64,
)
    requires
        event matches CoreCreditEvent::AccrualPosted { amount, .. } && amount == 0,
    ensures
        ({
            let (p1, _) = credit_event_step(p, s1, event, now1);
            let (p2, r2) = credit_event_step(p1, s2, event, now2);
            &&& !r2
            &&& p2 == with_sequence(p1, s2)
        }),
{
    reveal(rebuilt);
}

/// Reading the proposal or the activation again sets the same values: the
/// plan reads it and keeps its amount, terms and activation instant.
pub proof fn law_replayed_facility_event_keeps_values(
    p: PlanView,
    s1: u64,
    s2: u64,
    event: CoreCreditEvent,
    now1: i64,
    now2: i64,
)
    requires
        event is FacilityProposalCreated || event is FacilityActivated,
    ensures
        ({
            let (p1, r1) = credit_event_step(p, s1, event, now1);
            let (p2, r2) = credit_event_step(p1, s2, event, now2);
            &&& r1 && r2
            &&& p2.facility_amount == p1.facility_amount
            &&& p2.terms == p1.terms
            &&& p2.activated_at == p1.activated_at
        }),
{
    reveal(rebuilt);
}

/// When the plan holds an obligation, an event that moves it to a status
/// leaves the plan holding it with that status.
#[verifier::spinoff_prover]
pub proof fn law_status_event_sets_status(
    p: PlanView,
    sequence: u64,
    event: CoreCreditCollectionEvent,
    now: i64,
)
    requires
        event is ObligationDue || event is ObligationOverdue || event is ObligationDefaulted
            || event is ObligationCompleted,
        has_obligation(
            existing_obligations(p.entries),
            match event {
                CoreCreditCollectionEvent::ObligationDue { entity } => entity.id,
                CoreCreditCollectionEvent::ObligationOverdue { entity } => entity.id,
                CoreCreditCollectionEvent::ObligationDefaulted { entity } => entity.id,
                CoreCreditCollectionEvent::ObligationCompleted { entity } => entity.id,
                _ => 0,
            },
        ),
    ensures
        ({
            let (p1, r) = collection_event_step(p, sequence, event, now);
            let (id, status) = match event {
                CoreCreditCollectionEvent::ObligationDue { entity } => (entity.id, RepaymentStatus::Due),
                CoreCreditCollectionEvent::ObligationOverdue { entity } => (entity.id, RepaymentStatus::Overdue),
                CoreCreditCollectionEvent::ObligationDefaulted { entity } => (entity.id, RepaymentStatus::Defaulted),
                CoreCreditCollectionEvent::ObligationCompleted { entity } => (entity.id, RepaymentStatus::Paid),
                _ => (0, RepaymentStatus::Upcoming),
            };
            r && holds_obligation_with_status(p1, id, status)
        }),
{
    let existing = existing_obligations(p.entries);
    lemma_existing_are_obligations(p.entries);
    let p1 = with_sequence(p, sequence);
    match event {
        CoreCreditCollectionEvent::ObligationDue { entity } => {
            lemma_status_step_holds(p1, existing, entity.id, RepaymentStatus::Due, now);
            assert(collection_event_step(p, sequence, event, now) == crate::repayment_plan::status_step(
                p1,
                existing,
                entity.id,
                RepaymentStatus::Due,
                now,
            ));
        },
        CoreCreditCollectionEvent::ObligationOverdue { entity } => {
            lemma_status_step_holds(p1, existing, entity.id, RepaymentStatus::Overdue, now);
            assert(collection_event_step(p, sequence, event, now) == crate::repayment_plan::status_step(
                p1,
                existing,
                entity.id,
                RepaymentStatus::Overdue,
                now,
            ));
        },
        CoreCreditCollectionEvent::ObligationDefaulted { entity } => {
            lemma_status_step_holds(p1, existing, entity.id, RepaymentStatus::Defaulted, now);
            assert(collection_event_step(p, sequence, event, now) == crate::repayment_plan::status_step(
                p1,
                existing,
                entity.id,
                RepaymentStatus::Defaulted,
                now,
            ));
        },
        CoreCreditCollectionEvent::ObligationCompleted { entity } => {
            lemma_status_step_holds(p1, existing, entity.id, RepaymentStatus::Paid, now);
            assert(collection_event_step(p, sequence, event, now) == crate::repayment_plan::status_step(
                p1,
                existing,
                entity.id,
                RepaymentStatus::Paid,
                now,
            ));
        },
        _ => {},
    }
}

proof fn lemma_status_step_holds(
    p1: PlanView,
    existing: Seq<CreditFacilityRepaymentPlanEntry>,
    id: u128,
    status: RepaymentStatus,
    now: i64,
)
    requires
        has_obligation(existing, id),
        status != RepaymentStatus::Upcoming,
        forall|i: int| 0 <= i < existing.len() ==> (#[trigger] existing[i]).status != RepaymentStatus::Upcoming,
    ensures
        crate::repayment_plan::status_step(p1, existing, id, status, now).1,
        holds_obligation_with_status(crate::repayment_plan::status_step(p1, existing, id, status, now).0, id, status),
{
    let w = choose|w: int| 0 <= w < existing.len() && holds_obligation(#[trigger] existing[w], id);
    lemma_first_index_exists(existing, id, w);
    let i = first_obligation_index(existing, id)->0;
    let ex = existing.update(i, CreditFacilityRepaymentPlanEntry { status, ..existing[i] });
    assert forall|k: int| 0 <= k < ex.len() implies (#[trigger] ex[k]).status != RepaymentStatus::Upcoming by {
        if k != i {
            assert(ex[k] == existing[k]);
        }
    }
    lemma_kept_entry_is_held(p1, ex, now, i);
}

/// No two of the entries are those of the same obligation.
pub open spec fn obligation_ids_distinct(s: Seq<CreditFacilityRepaymentPlanEntry>) -> bool {
    forall|a: int, b: int|
        0 <= a < s.len() && 0 <= b < s.len() && a != b && (#[trigger] s[a]).obligation_id is Some
            ==> s[a].obligation_id != (#[trigger] s[b]).obligation_id
}

/// What an entry adds to what the disbursals still owe.
spec fn disbursed_part(e: CreditFacilityRepaymentPlanEntry) -> int {
    if e.repayment_type == RepaymentType::Disbursal {
        e.outstanding as int
    } else {
        0
    }
}

/// Taking an entry out takes its part out of what the disbursals owe.
proof fn lemma_outstanding_remove(s: Seq<CreditFacilityRepaymentPlanEntry>, k: int)
    requires
        0 <= k < s.len(),
    ensures
        disbursed_outstanding(s) == disbursed_outstanding(s.remove(k)) + disbursed_part(s[k]),
    decreases s.len(),
{
    if k == s.len() - 1 {
        assert(s.remove(k) =~= s.drop_last());
    } else {
        lemma_outstanding_remove(s.drop_last(), k);
        assert(s.remove(k).drop_last() =~= s.drop_last().remove(k));
        assert(s.remove(k).last() == s.last());
    }
}

/// What the disbursals owe does not depend on the order of the entries.
proof fn lemma_outstanding_permutation(a: Seq<CreditFacilityRepaymentPlanEntry>, b: Seq<CreditFacilityRepaymentPlanEntry>)
    requires
        a.to_multiset() == b.to_multiset(),
    ensures
        disbursed_outstanding(a) == disbursed_outstanding(b),
    decreases a.len(),
{
    broadcast use vstd::multiset::group_multiset_axioms;

    if a.len() == 0 {
        assert(b.to_multiset().len() == 0);
    } else {
        let x = a.last();
        assert(a == a.drop_last().push(x));
        assert(a.contains(x)) by {
            assert(a[a.len() - 1] == x);
        }
        assert(b.to_multiset().count(x) > 0);
        assert(b.contains(x));
        let k = choose|k: int| 0 <= k < b.len() && b[k] == x;
        lemma_outstanding_remove(b, k);
        assert(a.drop_last().to_multiset() =~= b.remove(k).to_multiset());
        lemma_outstanding_permutation(a.drop_last(), b.remove(k));
    }
}

/// Moving the obligation `id` to `status` a second time, right after the
/// first, keeps the entries as they are.
proof fn lemma_status_step_twice(
    p1: PlanView,
    existing: Seq<CreditFacilityRepaymentPlanEntry>,
    id: u128,
    status: RepaymentStatus,
    now: i64,
    sequence: u64,
)
    requires
        has_obligation(existing, id),
        status != RepaymentStatus::Upcoming,
        forall|i: int| 0 <= i < existing.len() ==> (#[trigger] existing[i]).status != RepaymentStatus::Upcoming,
        obligation_ids_distinct(existing),
    ensures
        ({
            let pa = with_sequence(status_step(p1, existing, id, status, now).0, sequence);
            status_step(pa, existing_obligations(pa.entries), id, status, now) == (pa, true)
        }),
{
    broadcast use vstd::multiset::group_multiset_axioms;

    let w = choose|w: int| 0 <= w < existing.len() && holds_obligation(#[trigger] existing[w], id);
    lemma_first_index_exists(existing, id, w);
    let i = first_obligation_index(existing, id)->0;
    let e = CreditFacilityRepaymentPlanEntry { status, ..existing[i] };
    let ex = existing.update(i, e);
    assert forall|k: int| 0 <= k < ex.len() implies (#[trigger] ex[k]).status != RepaymentStatus::Upcoming by {
        if k != i {
            assert(ex[k] == existing[k]);
        }
    }
    let pa0 = rebuilt(p1, ex, now);
    assert(status_step(p1, existing, id, status, now).0 == pa0);
    let pa = with_sequence(pa0, sequence);
    law_rebuild_keeps_obligations(p1, ex, now);
    let e2 = existing_obligations(pa.entries);
    assert(e2 == existing_obligations(pa0.entries));
    assert(e2.to_multiset() == ex.to_multiset());
    assert(ex[i] == e);
    assert(ex.contains(e));
    assert(ex.to_multiset().count(e) > 0);
    assert(e2.to_multiset().count(e) > 0);
    assert(e2.contains(e));
    let v = choose|v: int| 0 <= v < e2.len() && e2[v] == e;
    lemma_first_index_exists(e2, id, v);
    let j = first_obligation_index(e2, id)->0;
    assert(e2.to_multiset().count(e2[j]) > 0) by {
        assert(e2.contains(e2[j]));
    }
    assert(ex.contains(e2[j]));
    let k = choose|k: int| 0 <= k < ex.len() && ex[k] == e2[j];
    if k != i {
        assert(ex[k] == existing[k]);
        assert(existing[i].obligation_id == Some(id));
        assert(false);
    }
    assert(e2[j] == e);
    assert(e2.update(j, CreditFacilityRepaymentPlanEntry { status, ..e2[j] }) =~= e2);
    assert(e2.len() > 0);
    reveal(rebuilt);
    lemma_outstanding_permutation(e2, ex);
    let planned = planned_interest_of(p1, ex, now);
    assert(planned_interest_of(pa, e2, now) == planned);
    vstd::seq_lib::lemma_multiset_commutative(e2, planned);
    vstd::seq_lib::lemma_multiset_commutative(ex, planned);
    lemma_entry_order_total();
    (e2 + planned).lemma_sort_by_ensures(entry_order());
    (ex + planned).lemma_sort_by_ensures(entry_order());
    lemma_sorted_unique(sorted_entries(e2 + planned), sorted_entries(ex + planned), entry_order());
    assert(rebuilt(pa, e2, now) =~= pa);
}

/// A status event is read the same way twice: reading it again, right
/// after it was read, still returns `true` and changes nothing but the
/// sequence. This holds of a plan whose obligations have distinct ids, as
/// the obligations read from their creation events do.
pub proof fn law_replayed_status_event_changes_nothing(
    p: PlanView,
    first: u64,
    second: u64,
    event: CoreCreditCollectionEvent,
    now: i64,
)
    requires
        event is ObligationDue || event is ObligationOverdue || event is ObligationDefaulted
            || event is ObligationCompleted,
        obligation_ids_distinct(existing_obligations(p.entries)),
        has_obligation(
            existing_obligations(p.entries),
            match event {
                CoreCreditCollectionEvent::ObligationDue { entity } => entity.id,
                CoreCreditCollectionEvent::ObligationOverdue { entity } => entity.id,
                CoreCreditCollectionEvent::ObligationDefaulted { entity } => entity.id,
                CoreCreditCollectionEvent::ObligationCompleted { entity } => entity.id,
                _ => 0,
            },
        ),
    ensures
        ({
            let pa = collection_event_step(p, first, event, now).0;
            collection_event_step(pa, second, event, now) == (with_sequence(pa, second), true)
        }),
{
    let existing = existing_obligations(p.entries);
    lemma_existing_are_obligations(p.entries);
    let p1 = with_sequence(p, first);
    match event {
        CoreCreditCollectionEvent::ObligationDue { entity } => {
            lemma_status_step_twice(p1, existing, entity.id, RepaymentStatus::Due, now, second);
        },
        CoreCreditCollectionEvent::ObligationOverdue { entity } => {
            lemma_status_step_twice(p1, existing, entity.id, RepaymentStatus::Overdue, now, second);
        },
        CoreCreditCollectionEvent::ObligationDefaulted { entity } => {
            lemma_status_step_twice(p1, existing, entity.id, RepaymentStatus::Defaulted, now, second);
        },
        CoreCreditCollectionEvent::ObligationCompleted { entity } => {
            lemma_status_step_twice(p1, existing, entity.id, RepaymentStatus::Paid, now, second);
        },
        _ => {},
    }
}

/// Two entries that are equal and stand at two places make the value occur
/// at least twice.
proof fn lemma_two_places_count(s: Seq<CreditFacilityRepaymentPlanEntry>, x: int, y: int)
    requires
        0 <= x < s.len(),
        0 <= y < s.len(),
        x != y,
        s[x] == s[y],
    ensures
        s.to_multiset().count(s[x]) >= 2,
{
    broadcast use vstd::multiset::group_multiset_axioms;

    let r = s.remove(x);
    let y2 = if y < x { y } else { y - 1 };
    assert(r[y2] == s[y]);
    assert(r.contains(s[x]));
    assert(r.to_multiset().count(s[x]) > 0);
    assert(r.to_multiset() == s.to_multiset().remove(s[x]));
}

/// The same entries in another order have distinct obligation ids where
/// these have.
proof fn lemma_distinct_permutation(a: Seq<CreditFacilityRepaymentPlanEntry>, b: Seq<CreditFacilityRepaymentPlanEntry>)
    requires
        a.to_multiset() == b.to_multiset(),
        obligation_ids_distinct(a),
    ensures
        obligation_ids_distinct(b),
{
    assert forall|x: int, y: int|
        0 <= x < b.len() && 0 <= y < b.len() && x != y && (#[trigger] b[x]).obligation_id is Some implies b[x].obligation_id
        != (#[trigger] b[y]).obligation_id by {
        if b[x].obligation_id == b[y].obligation_id {
            assert(b.contains(b[x]));
            assert(b.to_multiset().count(b[x]) > 0);
            assert(a.contains(b[x]));
            let k1 = choose|k: int| 0 <= k < a.len() && a[k] == b[x];
            assert(b.contains(b[y]));
            assert(b.to_multiset().count(b[y]) > 0);
            assert(a.contains(b[y]));
            let k2 = choose|k: int| 0 <= k < a.len() && a[k] == b[y];
            if k1 != k2 {
                assert(a[k1].obligation_id != a[k2].obligation_id);
            } else {
                lemma_two_places_count(b, x, y);
                let r = a.remove(k1);
                assert(!r.contains(b[x])) by {
                    if r.contains(b[x]) {
                        let m = choose|m: int| 0 <= m < r.len() && r[m] == b[x];
                        let m2 = if m < k1 { m } else { m + 1 };
                        assert(a[m2] == r[m]);
                        assert(a[m2].obligation_id == a[k1].obligation_id);
                    }
                }
                assert(r.to_multiset().count(b[x]) == 0);
                assert(r.to_multiset() == a.to_multiset().remove(a[k1]));
                assert(a.to_multiset().count(b[x]) <= 1) by {
                    broadcast use vstd::multiset::group_multiset_axioms;
                }
            }
        }
    }
}

/// Building the entries again keeps the obligation ids distinct.
proof fn lemma_rebuild_keeps_distinct(p: PlanView, existing: Seq<CreditFacilityRepaymentPlanEntry>, now: i64)
    requires
        forall|i: int| 0 <= i < existing.len() ==> (#[trigger] existing[i]).status != RepaymentStatus::Upcoming,
        obligation_ids_distinct(existing),
    ensures
        obligation_ids_distinct(existing_obligations(rebuilt(p, existing, now).entries)),
{
    law_rebuild_keeps_obligations(p, existing, now);
    lemma_distinct_permutation(existing, existing_obligations(rebuilt(p, existing, now).entries));
}

/// An empty plan holds no two obligations of the same id.
pub proof fn law_empty_plan_ids_distinct()
    ensures
        obligation_ids_distinct(existing_obligations(empty_plan().entries)),
{
    reveal(Seq::filter);
    assert(existing_obligations(empty_plan().entries) =~= Seq::<CreditFacilityRepaymentPlanEntry>::empty());
}

/// Every event of the facility keeps the obligations of the plan with
/// distinct ids.
pub proof fn law_credit_event_keeps_ids_distinct(p: PlanView, sequence: u64, event: CoreCreditEvent, now: i64)
    requires
        obligation_ids_distinct(existing_obligations(p.entries)),
    ensures
        obligation_ids_distinct(existing_obligations(credit_event_step(p, sequence, event, now).0.entries)),
{
    let existing = existing_obligations(p.entries);
    lemma_existing_are_obligations(p.entries);
    let p1 = with_sequence(p, sequence);
    match event {
        CoreCreditEvent::FacilityProposalCreated { terms, amount, .. } => {
            lemma_rebuild_keeps_distinct(PlanView { terms: Some(terms), facility_amount: amount, ..p1 }, existing, now);
        },
        CoreCreditEvent::FacilityActivated { activated_at, .. } => {
            lemma_rebuild_keeps_distinct(PlanView { activated_at: Some(activated_at), ..p1 }, existing, now);
        },
        CoreCreditEvent::AccrualPosted { ledger_tx_id, amount, due_at, effective, recorded_at, .. } => {
            if amount == 0 && !p.applied_accruals.contains(ledger_tx_id) {
                let e = crate::repayment_plan::paid_accrual_entry(due_at, recorded_at, effective);
                let ex = existing.push(e);
                assert forall|i: int| 0 <= i < ex.len() implies (#[trigger] ex[i]).status != RepaymentStatus::Upcoming by {
                    if i < existing.len() {
                        assert(ex[i] == existing[i]);
                    }
                }
                assert(obligation_ids_distinct(ex)) by {
                    assert forall|a: int, b: int|
                        0 <= a < ex.len() && 0 <= b < ex.len() && a != b && (#[trigger] ex[a]).obligation_id is Some
                            implies ex[a].obligation_id != (#[trigger] ex[b]).obligation_id by {
                        if a < existing.len() && b < existing.len() {
                            assert(ex[a] == existing[a] && ex[b] == existing[b]);
                        }
                    }
                }
                lemma_rebuild_keeps_distinct(
                    PlanView {
                        applied_accruals: p.applied_accruals.insert(ledger_tx_id),
                        last_interest_accrual_at: Some(crate::repayment_plan::day_end_instant(effective)),
                        ..p1
                    },
                    ex,
                    now,
                );
            }
        },
        _ => {},
    }
}

/// Changing an entry of an obligation other than in its id keeps the ids
/// distinct and the entries obligations.
proof fn lemma_update_keeps_distinct(
    existing: Seq<CreditFacilityRepaymentPlanEntry>,
    i: int,
    e: CreditFacilityRepaymentPlanEntry,
)
    requires
        0 <= i < existing.len(),
        e.obligation_id == existing[i].obligation_id,
        e.status != RepaymentStatus::Upcoming,
        forall|k: int| 0 <= k < existing.len() ==> (#[trigger] existing[k]).status != RepaymentStatus::Upcoming,
        obligation_ids_distinct(existing),
    ensures
        obligation_ids_distinct(existing.update(i, e)),
        forall|k: int|
            0 <= k < existing.len() ==> (#[trigger] existing.update(i, e)[k]).status != RepaymentStatus::Upcoming,
{
    let ex = existing.update(i, e);
    assert forall|a: int, b: int|
        0 <= a < ex.len() && 0 <= b < ex.len() && a != b && (#[trigger] ex[a]).obligation_id is Some implies ex[a].obligation_id
        != (#[trigger] ex[b]).obligation_id by {
        assert(ex[a].obligation_id == existing[a].obligation_id);
        assert(ex[b].obligation_id == existing[b].obligation_id);
    }
    assert forall|k: int| 0 <= k < existing.len() implies (#[trigger] ex[k]).status != RepaymentStatus::Upcoming by {
        if k != i {
            assert(ex[k] == existing[k]);
        }
    }
}

/// Moving an obligation to a status keeps the obligation ids distinct.
proof fn lemma_status_step_keeps_distinct(
    p1: PlanView,
    existing: Seq<CreditFacilityRepaymentPlanEntry>,
    id: u128,
    status: RepaymentStatus,
    now: i64,
)
    requires
        status != RepaymentStatus::Upcoming,
        forall|k: int| 0 <= k < existing.len() ==> (#[trigger] existing[k]).status != RepaymentStatus::Upcoming,
        obligation_ids_distinct(existing),
        obligation_ids_distinct(existing_obligations(p1.entries)),
    ensures
        obligation_ids_distinct(existing_obligations(status_step(p1, existing, id, status, now).0.entries)),
{
    match first_obligation_index(existing, id) {
        Some(i) => {
            let e = CreditFacilityRepaymentPlanEntry { status, ..existing[i] };
            lemma_update_keeps_distinct(existing, i, e);
            lemma_rebuild_keeps_distinct(p1, existing.update(i, e), now);
        },
        None => {},
    }
}

/// Every event of the obligations keeps the obligations of the plan with
/// distinct ids: a new obligation is added only under an id the plan does
/// not hold yet.
pub proof fn law_collection_event_keeps_ids_distinct(
    p: PlanView,
    sequence: u64,
    event: CoreCreditCollectionEvent,
    now: i64,
)
    requires
        obligation_ids_distinct(existing_obligations(p.entries)),
    ensures
        obligation_ids_distinct(existing_obligations(collection_event_step(p, sequence, event, now).0.entries)),
{
    let existing = existing_obligations(p.entries);
    lemma_existing_are_obligations(p.entries);
    let p1 = with_sequence(p, sequence);
    assert(p1.entries == p.entries);
    match event {
        CoreCreditCollectionEvent::ObligationCreated { entity } => {
            if !has_obligation(existing, entity.id) {
                let p2 = if entity.obligation_type == crate::credit_event::ObligationType::Interest {
                    PlanView { last_interest_accrual_at: Some(crate::repayment_plan::day_end_instant(entity.effective)), ..p1 }
                } else {
                    p1
                };
                let ex = existing.push(obligation_entry(entity));
                assert forall|i: int| 0 <= i < ex.len() implies (#[trigger] ex[i]).status != RepaymentStatus::Upcoming by {
                    if i < existing.len() {
                        assert(ex[i] == existing[i]);
                    }
                }
                assert(obligation_ids_distinct(ex)) by {
                    assert forall|a: int, b: int|
                        0 <= a < ex.len() && 0 <= b < ex.len() && a != b && (#[trigger] ex[a]).obligation_id is Some
                            implies ex[a].obligation_id != (#[trigger] ex[b]).obligation_id by {
                        if a < existing.len() && b < existing.len() {
                            assert(ex[a] == existing[a] && ex[b] == existing[b]);
                        } else if a < existing.len() {
                            assert(ex[a] == existing[a]);
                            assert(!holds_obligation(existing[a], entity.id));
                        } else {
                            assert(ex[b] == existing[b]);
                            assert(!holds_obligation(existing[b], entity.id));
                        }
                    }
                }
                lemma_rebuild_keeps_distinct(p2, ex, now);
            }
        },
        CoreCreditCollectionEvent::PaymentAllocated { entity } => {
            if !p.applied_allocations.contains(entity.id) {
                match first_obligation_index(existing, entity.obligation_id) {
                    Some(i) => {
                        let e = CreditFacilityRepaymentPlanEntry {
                            outstanding: (existing[i].outstanding - entity.amount) as u64,
                            ..existing[i]
                        };
                        lemma_update_keeps_distinct(existing, i, e);
                        lemma_rebuild_keeps_distinct(
                            PlanView { applied_allocations: p.applied_allocations.insert(entity.id), ..p1 },
                            existing.update(i, e),
                            now,
                        );
                    },
                    None => {},
                }
            }
        },
        CoreCreditCollectionEvent::ObligationDue { entity } => {
            lemma_status_step_keeps_distinct(p1, existing, entity.id, RepaymentStatus::Due, now);
        },
        CoreCreditCollectionEvent::ObligationOverdue { entity } => {
            lemma_status_step_keeps_distinct(p1, existing, entity.id, RepaymentStatus::Overdue, now);
        },
        CoreCreditCollectionEvent::ObligationDefaulted { entity } => {
            lemma_status_step_keeps_distinct(p1, existing, entity.id, RepaymentStatus::Defaulted, now);
        },
        CoreCreditCollectionEvent::ObligationCompleted { entity } => {
            lemma_status_step_keeps_distinct(p1, existing, entity.id, RepaymentStatus::Paid, now);
        },
        CoreCreditCollectionEvent::PaymentReceived { .. } => {},
    }
}

} // verus!
