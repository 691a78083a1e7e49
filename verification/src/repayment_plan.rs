//! The repayment plan of a credit facility: a projection of the facility's
//! events and of its obligations' events into the list of what is and will
//! be owed. Obligations that exist keep their place; what is not yet owed
//! (the disbursals before the first obligation, and the interest of the
//! periods to come) is planned again from the terms each time.
use vstd::prelude::*;
use std::collections::HashSet;
use crate::credit_event::{CoreCreditCollectionEvent, CoreCreditEvent, ObligationType, PublicObligation};
use crate::repayment_entry::{
    sort_entries, sorted_entries, CreditFacilityRepaymentPlanEntry, RepaymentStatus, RepaymentType,
};
use crate::terms::{
    following, interest_for_days, interest_for_time_period, maturity_day, one_time_fee,
    period_starting, plan_day, plan_instant, structuring_fee, terms_supported, truncated,
    InterestPeriod, TermValues,
};
use crate::authz::AllOrOne;
use crate::credit_authz::{CoreCreditAction, CoreCreditObject, CreditFacilityAction};
use crate::time::{day_start_of, end_of_day, instant_in_range, start_of_day, utc_day, utc_day_of};

verus! {

broadcast use vstd::std_specs::hash::group_hash_axioms;

/// The state of a repayment plan, over mathematical values.
pub struct PlanView {
    pub facility_amount: u64,
    pub terms: Option<TermValues>,
    pub activated_at: Option<i64>,
    pub last_interest_accrual_at: Option<i64>,
    pub last_updated_on_sequence: u64,
    pub entries: Seq<CreditFacilityRepaymentPlanEntry>,
    pub applied_allocations: Set<u128>,
    pub applied_accruals: Set<u128>,
}

/// The repayment plan of a facility. Amounts are in cents; instants are
/// seconds since the Unix epoch.
#[derive(Debug)]
pub struct CreditFacilityRepaymentPlan {
    facility_amount: u64,
    terms: Option<TermValues>,
    activated_at: Option<i64>,
    last_interest_accrual_at: Option<i64>,
    last_updated_on_sequence: u64,
    pub entries: Vec<CreditFacilityRepaymentPlanEntry>,
    applied_allocations: HashSet<u128>,
    applied_accruals: HashSet<u128>,
}

impl View for CreditFacilityRepaymentPlan {
    type V = PlanView;

    closed spec fn view(&self) -> PlanView {
        PlanView {
            facility_amount: self.facility_amount,
            terms: self.terms,
            activated_at: self.activated_at,
            last_interest_accrual_at: self.last_interest_accrual_at,
            last_updated_on_sequence: self.last_updated_on_sequence,
            entries: self.entries@,
            applied_allocations: self.applied_allocations@,
            applied_accruals: self.applied_accruals@,
        }
    }
}

/// The plan's terms and instants are within what the plan is computed for.
pub open spec fn plan_supported(p: PlanView) -> bool {
    &&& (p.terms matches Some(t) ==> terms_supported(t))
    &&& (p.activated_at matches Some(a) ==> plan_instant(a as int))
    &&& (p.last_interest_accrual_at matches Some(l) ==> plan_instant(l as int))
}

/// The entry stands for an obligation that exists, not a planned one.
pub open spec fn is_obligation() -> spec_fn(CreditFacilityRepaymentPlanEntry) -> bool {
    |e: CreditFacilityRepaymentPlanEntry| e.status != RepaymentStatus::Upcoming
}

/// The entries that stand for existing obligations, in order.
pub open spec fn existing_obligations(s: Seq<CreditFacilityRepaymentPlanEntry>) -> Seq<CreditFacilityRepaymentPlanEntry> {
    s.filter(is_obligation())
}

/// The entry is that of the obligation `id`.
pub open spec fn holds_obligation(e: CreditFacilityRepaymentPlanEntry, id: u128) -> bool {
    e.obligation_id == Some(id)
}

/// The first entry of `s` that is that of the obligation `id`, if any.
pub open spec fn first_obligation_index(s: Seq<CreditFacilityRepaymentPlanEntry>, id: u128) -> Option<int> {
    if exists|i: int| 0 <= i < s.len() && holds_obligation(#[trigger] s[i], id) {
        Some(
            choose|i: int|
                0 <= i < s.len() && holds_obligation(#[trigger] s[i], id) && forall|j: int|
                    0 <= j < i ==> !holds_obligation(#[trigger] s[j], id),
        )
    } else {
        None
    }
}

/// What the disbursal entries of `s` still owe, together.
pub open spec fn disbursed_outstanding(s: Seq<CreditFacilityRepaymentPlanEntry>) -> int
    decreases s.len(),
{
    if s.len() == 0 {
        0
    } else {
        disbursed_outstanding(s.drop_last()) + if s.last().repayment_type == RepaymentType::Disbursal {
            s.last().outstanding as int
        } else {
            0
        }
    }
}

/// When the facility activated, or `now` while it has not.
pub open spec fn activated_or(p: PlanView, now: i64) -> i64 {
    match p.activated_at {
        Some(a) => a,
        None => now,
    }
}

/// The day the facility matures.
pub open spec fn plan_maturity(p: PlanView, now: i64) -> int {
    maturity_day(p.terms->0, activated_or(p, now) as int)
}

/// The instant interest planning stops at: the start of the maturity day.
pub open spec fn plan_limit(p: PlanView, now: i64) -> int {
    day_start_of(plan_maturity(p, now))
}

/// A disbursal that is planned but not yet owed: due at maturity,
/// recorded when the facility activated.
pub open spec fn planned_disbursal(p: PlanView, now: i64, amount: u64) -> CreditFacilityRepaymentPlanEntry {
    let activated = activated_or(p, now);
    CreditFacilityRepaymentPlanEntry {
        repayment_type: RepaymentType::Disbursal,
        obligation_id: None,
        status: RepaymentStatus::Upcoming,
        initial: amount,
        outstanding: amount,
        due_at: plan_maturity(p, now) as i32,
        overdue_at: None,
        defaulted_at: None,
        recorded_at: activated,
        effective: utc_day_of(activated as int) as i32,
    }
}

/// The disbursals planned while no obligation exists: the structuring fee,
/// unless it is zero, then the facility's amount.
pub open spec fn planned_disbursals_of(p: PlanView, now: i64) -> Seq<CreditFacilityRepaymentPlanEntry> {
    let fee = structuring_fee(p.facility_amount as int, p.terms->0.one_time_fee_rate_bps as int) as u64;
    if fee != 0 {
        seq![planned_disbursal(p, now, fee), planned_disbursal(p, now, p.facility_amount)]
    } else {
        seq![planned_disbursal(p, now, p.facility_amount)]
    }
}

/// The interest planned for period `q` on `principal`, due at the day the
/// period ends.
pub open spec fn planned_interest_entry(terms: TermValues, principal: int, q: InterestPeriod) -> CreditFacilityRepaymentPlanEntry {
    let interest = interest_for_days(principal, terms.annual_rate_bps as int, q.days_spec()) as u64;
    CreditFacilityRepaymentPlanEntry {
        repayment_type: RepaymentType::Interest,
        obligation_id: None,
        status: RepaymentStatus::Upcoming,
        initial: interest,
        outstanding: interest,
        due_at: utc_day_of(q.end as int) as i32,
        overdue_at: None,
        defaulted_at: None,
        recorded_at: q.end,
        effective: utc_day_of(q.end as int) as i32,
    }
}

/// The interest planned from period `q` on, each period followed by the
/// next, until the periods start after `limit`.
pub open spec fn interest_schedule(terms: TermValues, principal: int, q: InterestPeriod, limit: int) -> Seq<CreditFacilityRepaymentPlanEntry>
    decreases limit - q.start,
{
    if q.start > limit || q.end < q.start {
        Seq::empty()
    } else {
        let e = planned_interest_entry(terms, principal, q);
        match truncated(following(q), limit) {
            Some(n) => if n.start > q.start {
                seq![e] + interest_schedule(terms, principal, n, limit)
            } else {
                seq![e]
            },
            None => seq![e],
        }
    }
}

/// The first interest period to plan: the one after the last accrual, or
/// the one the facility starts with.
pub open spec fn first_planned_period(p: PlanView, now: i64) -> Option<InterestPeriod> {
    let interval = p.terms->0.accrual_cycle_interval;
    match p.last_interest_accrual_at {
        Some(last) => truncated(following(period_starting(interval, last as int)), plan_limit(p, now)),
        None => truncated(period_starting(interval, activated_or(p, now) as int), plan_limit(p, now)),
    }
}

/// The interest planned on what the disbursals of `updated` still owe.
pub open spec fn planned_interest_of(p: PlanView, updated: Seq<CreditFacilityRepaymentPlanEntry>, now: i64) -> Seq<CreditFacilityRepaymentPlanEntry> {
    match first_planned_period(p, now) {
        Some(q) => interest_schedule(p.terms->0, disbursed_outstanding(updated), q, plan_limit(p, now)),
        None => Seq::empty(),
    }
}

/// The plan with its entries built again from the existing obligations:
/// those (or, while there are none, the planned disbursals) and the interest
/// planned on them, in the order of the plan.
#[verifier::opaque]
pub open spec fn rebuilt(p: PlanView, existing: Seq<CreditFacilityRepaymentPlanEntry>, now: i64) -> PlanView {
    let updated = if existing.len() > 0 {
        existing
    } else {
        planned_disbursals_of(p, now)
    };
    PlanView { entries: sorted_entries(updated + planned_interest_of(p, updated, now)), ..p }
}

/// The last second of the day, as an instant.
pub open spec fn day_end_instant(day: i32) -> i64 {
    (day_start_of(day as int) + 86399) as i64
}

/// The plan with the sequence of the event it last read.
pub open spec fn with_sequence(p: PlanView, sequence: u64) -> PlanView {
    PlanView { last_updated_on_sequence: sequence, ..p }
}

/// A posted accrual of no interest: repaid from the start.
pub open spec fn paid_accrual_entry(due_at: i32, recorded_at: i64, effective: i32) -> CreditFacilityRepaymentPlanEntry {
    CreditFacilityRepaymentPlanEntry {
        repayment_type: RepaymentType::Interest,
        obligation_id: None,
        status: RepaymentStatus::Paid,
        initial: 0,
        outstanding: 0,
        due_at,
        overdue_at: None,
        defaulted_at: None,
        recorded_at,
        effective,
    }
}

/// What a facility event does to the plan, and whether the plan read it.
/// The proposal sets the terms and the amount; the activation sets the
/// activation instant; an accrual of no interest, read once per
/// transaction, is a repaid entry and moves the last accrual to the end of
/// its day. Each of these builds the entries again; other events only
/// record their sequence.
pub open spec fn credit_event_step(p: PlanView, sequence: u64, event: CoreCreditEvent, now: i64) -> (PlanView, bool) {
    let p1 = with_sequence(p, sequence);
    let existing = existing_obligations(p.entries);
    match event {
        CoreCreditEvent::FacilityProposalCreated { terms, amount, .. } => (
            rebuilt(PlanView { terms: Some(terms), facility_amount: amount, ..p1 }, existing, now),
            true,
        ),
        CoreCreditEvent::FacilityActivated { activated_at, .. } => (
            rebuilt(PlanView { activated_at: Some(activated_at), ..p1 }, existing, now),
            true,
        ),
        CoreCreditEvent::AccrualPosted { ledger_tx_id, amount, due_at, effective, recorded_at, .. } => {
            if amount != 0 || p.applied_accruals.contains(ledger_tx_id) {
                (p1, false)
            } else {
                (
                    rebuilt(
                        PlanView {
                            applied_accruals: p.applied_accruals.insert(ledger_tx_id),
                            last_interest_accrual_at: Some(day_end_instant(effective)),
                            ..p1
                        },
                        existing.push(paid_accrual_entry(due_at, recorded_at, effective)),
                        now,
                    ),
                    true,
                )
            }
        },
        _ => (p1, false),
    }
}

/// The facility event can be read: the plan has terms wherever it has to
/// be built again, and the instants and days it reads are ones the plan is
/// computed for.
pub open spec fn credit_event_supported(p: PlanView, event: CoreCreditEvent, now: i64) -> bool {
    &&& plan_instant(now as int)
    &&& match event {
        CoreCreditEvent::FacilityProposalCreated { terms, .. } => terms_supported(terms),
        CoreCreditEvent::FacilityActivated { activated_at, .. } => plan_instant(activated_at as int)
            && p.terms is Some,
        CoreCreditEvent::AccrualPosted { ledger_tx_id, amount, effective, .. } => (amount == 0
            && !p.applied_accruals.contains(ledger_tx_id)) ==> (plan_day(effective as int) && p.terms is Some),
        _ => true,
    }
}

/// The entry of a new obligation: not yet due, nothing repaid.
pub open spec fn obligation_entry(o: PublicObligation) -> CreditFacilityRepaymentPlanEntry {
    CreditFacilityRepaymentPlanEntry {
        repayment_type: match o.obligation_type {
            ObligationType::Disbursal => RepaymentType::Disbursal,
            ObligationType::Interest => RepaymentType::Interest,
        },
        obligation_id: Some(o.id),
        status: RepaymentStatus::NotYetDue,
        initial: o.amount,
        outstanding: o.amount,
        due_at: o.due_at,
        overdue_at: o.overdue_at,
        defaulted_at: o.defaulted_at,
        recorded_at: o.recorded_at,
        effective: o.effective,
    }
}

/// Some existing obligation of `s` is the obligation `id`.
pub open spec fn has_obligation(s: Seq<CreditFacilityRepaymentPlanEntry>, id: u128) -> bool {
    exists|i: int| 0 <= i < s.len() && holds_obligation(#[trigger] s[i], id)
}

/// The plan after the obligation `id` moved to `status`: nothing changes
/// where the plan does not hold the obligation.
pub open spec fn status_step(p1: PlanView, existing: Seq<CreditFacilityRepaymentPlanEntry>, id: u128, status: RepaymentStatus, now: i64) -> (PlanView, bool) {
    match first_obligation_index(existing, id) {
        Some(i) => (rebuilt(p1, existing.update(i, CreditFacilityRepaymentPlanEntry { status, ..existing[i] }), now), true),
        None => (p1, false),
    }
}

/// What an event of the obligations does to the plan, and whether the plan
/// read it. A new obligation is added once (an interest obligation also
/// moves the last accrual to the end of its effective day); an allocation,
/// read once per allocation, lowers what its obligation still owes; the
/// obligation's status follows it as it falls due, overdue, defaults or is
/// repaid.
pub open spec fn collection_event_step(p: PlanView, sequence: u64, event: CoreCreditCollectionEvent, now: i64) -> (PlanView, bool) {
    let p1 = with_sequence(p, sequence);
    let existing = existing_obligations(p.entries);
    match event {
        CoreCreditCollectionEvent::ObligationCreated { entity } => {
            if has_obligation(existing, entity.id) {
                (p1, false)
            } else {
                let p2 = if entity.obligation_type == ObligationType::Interest {
                    PlanView { last_interest_accrual_at: Some(day_end_instant(entity.effective)), ..p1 }
                } else {
                    p1
                };
                (rebuilt(p2, existing.push(obligation_entry(entity)), now), true)
            }
        },
        CoreCreditCollectionEvent::PaymentAllocated { entity } => {
            if p.applied_allocations.contains(entity.id) {
                (p1, false)
            } else {
                let p2 = PlanView { applied_allocations: p.applied_allocations.insert(entity.id), ..p1 };
                match first_obligation_index(existing, entity.obligation_id) {
                    Some(i) => (
                        rebuilt(
                            p2,
                            existing.update(
                                i,
                                CreditFacilityRepaymentPlanEntry {
                                    outstanding: (existing[i].outstanding - entity.amount) as u64,
                                    ..existing[i]
                                },
                            ),
                            now,
                        ),
                        true,
                    ),
                    None => (p2, false),
                }
            }
        },
        CoreCreditCollectionEvent::ObligationDue { entity } => status_step(p1, existing, entity.id, RepaymentStatus::Due, now),
        CoreCreditCollectionEvent::ObligationOverdue { entity } => status_step(p1, existing, entity.id, RepaymentStatus::Overdue, now),
        CoreCreditCollectionEvent::ObligationDefaulted { entity } => status_step(p1, existing, entity.id, RepaymentStatus::Defaulted, now),
        CoreCreditCollectionEvent::ObligationCompleted { entity } => status_step(p1, existing, entity.id, RepaymentStatus::Paid, now),
        CoreCreditCollectionEvent::PaymentReceived { .. } => (p1, false),
    }
}

/// The event of the obligations can be read: the plan has terms wherever
/// it has to be built again, an allocation takes no more than its
/// obligation still owes, and the days it reads are ones the plan is
/// computed for.
pub open spec fn collection_event_supported(p: PlanView, event: CoreCreditCollectionEvent, now: i64) -> bool {
    let existing = existing_obligations(p.entries);
    &&& plan_instant(now as int)
    &&& match event {
        CoreCreditCollectionEvent::ObligationCreated { entity } => !has_obligation(existing, entity.id) ==> (
        p.terms is Some && (entity.obligation_type == ObligationType::Interest ==> plan_day(
            entity.effective as int,
        ))),
        CoreCreditCollectionEvent::PaymentAllocated { entity } => match first_obligation_index(
            existing,
            entity.obligation_id,
        ) {
            Some(i) => !p.applied_allocations.contains(entity.id) ==> (p.terms is Some && entity.amount
                <= existing[i].outstanding),
            None => true,
        },
        CoreCreditCollectionEvent::ObligationDue { entity } => has_obligation(existing, entity.id) ==> p.terms is Some,
        CoreCreditCollectionEvent::ObligationOverdue { entity } => has_obligation(existing, entity.id) ==> p.terms is Some,
        CoreCreditCollectionEvent::ObligationDefaulted { entity } => has_obligation(existing, entity.id) ==> p.terms is Some,
        CoreCreditCollectionEvent::ObligationCompleted { entity } => has_obligation(existing, entity.id) ==> p.terms is Some,
        CoreCreditCollectionEvent::PaymentReceived { .. } => true,
    }
}

/// The entries of `s` that stand for existing obligations.
fn filter_obligations(s: &Vec<CreditFacilityRepaymentPlanEntry>) -> (r: Vec<CreditFacilityRepaymentPlanEntry>)
    ensures
        r@ == existing_obligations(s@),
{
    let mut r: Vec<CreditFacilityRepaymentPlanEntry> = Vec::new();
    let mut i: usize = 0;
    while i < s.len()
        invariant
            i <= s.len(),
            r@ == s@.take(i as int).filter(is_obligation()),
        decreases s.len() - i,
    {
        let e = s[i];
        proof {
            reveal(Seq::filter);
            assert(s@.take(i + 1).drop_last() == s@.take(i as int));
        }
        if e.is_not_upcoming() {
            r.push(e);
        }
        i = i + 1;
    }
    assert(s@.take(s.len() as int) == s@);
    r
}

/// The first entry of `s` that is that of the obligation `id`.
fn find_obligation(s: &Vec<CreditFacilityRepaymentPlanEntry>, id: u128) -> (r: Option<usize>)
    ensures
        match r {
            Some(i) => first_obligation_index(s@, id) == Some(i as int) && i < s.len(),
            None => first_obligation_index(s@, id) is None,
        },
{
    let mut i: usize = 0;
    while i < s.len()
        invariant
            i <= s.len(),
            forall|j: int| 0 <= j < i ==> !holds_obligation(#[trigger] s@[j], id),
        decreases s.len() - i,
    {
        if s[i].obligation_id == Some(id) {
            proof {
                let k = i as int;
                assert(holds_obligation(s@[k], id));
                let c = choose|c: int|
                    0 <= c < s@.len() && holds_obligation(#[trigger] s@[c], id) && forall|j: int|
                        0 <= j < c ==> !holds_obligation(#[trigger] s@[j], id);
                assert(0 <= c < s@.len() && holds_obligation(s@[c], id));
                if c < k {
                    assert(!holds_obligation(s@[c], id));
                }
                if c > k {
                    assert(!holds_obligation(s@[k], id));
                }
            }
            return Some(i);
        }
        i = i + 1;
    }
    None
}

/// What the disbursal entries of `s` still owe, together.
fn disbursed_outstanding_exec(s: &Vec<CreditFacilityRepaymentPlanEntry>) -> (r: u128)
    ensures
        r == disbursed_outstanding(s@),
{
    let mut total: u128 = 0;
    let mut i: usize = 0;
    while i < s.len()
        invariant
            i <= s.len(),
            total == disbursed_outstanding(s@.take(i as int)),
            total <= i * 0xffff_ffff_ffff_ffffu128,
        decreases s.len() - i,
    {
        proof {
            assert(s@.take(i + 1).drop_last() == s@.take(i as int));
            assert(i * 0xffff_ffff_ffff_ffffu128 + 0xffff_ffff_ffff_ffffu128 <= u128::MAX) by (nonlinear_arith)
                requires
                    i < 0x1_0000_0000_0000_0000int,
            ;
            assert((i + 1) * 0xffff_ffff_ffff_ffffu128 == i * 0xffff_ffff_ffff_ffffu128 + 0xffff_ffff_ffff_ffffu128) by (nonlinear_arith);
        }
        if let RepaymentType::Disbursal = s[i].repayment_type {
            total = total + s[i].outstanding as u128;
        }
        i = i + 1;
    }
    assert(s@.take(s.len() as int) == s@);
    total
}

/// The interest planned from `next` on, or nothing.
pub open spec fn schedule_from(terms: TermValues, principal: int, next: Option<InterestPeriod>, limit: int) -> Seq<CreditFacilityRepaymentPlanEntry> {
    match next {
        Some(q) => interest_schedule(terms, principal, q, limit),
        None => Seq::empty(),
    }
}

/// A period to plan interest for: it starts after `low`, ends no earlier
/// than it starts and no later than `limit`.
pub open spec fn plannable(next: Option<InterestPeriod>, low: int, limit: int) -> bool {
    next matches Some(q) ==> (low <= q.start <= q.end <= limit)
}

/// A plan that has read nothing: no terms, nothing activated, no
/// entries.
pub open spec fn empty_plan() -> PlanView {
    PlanView {
        facility_amount: 0,
        terms: None,
        activated_at: None,
        last_interest_accrual_at: None,
        last_updated_on_sequence: 0,
        entries: Seq::empty(),
        applied_allocations: Set::empty(),
        applied_accruals: Set::empty(),
    }
}

impl CreditFacilityRepaymentPlan {
    /// An empty plan: no terms, nothing activated, no entries.
    pub fn new() -> (r: CreditFacilityRepaymentPlan)
        ensures
            r@ == empty_plan(),
            plan_supported(r@),
    {
        CreditFacilityRepaymentPlan {
            facility_amount: 0,
            terms: None,
            activated_at: None,
            last_interest_accrual_at: None,
            last_updated_on_sequence: 0,
            entries: Vec::new(),
            applied_allocations: HashSet::new(),
            applied_accruals: HashSet::new(),
        }
    }

    /// The amount of the facility, in cents.
    pub fn facility_amount(&self) -> (r: u64)
        ensures
            r == self@.facility_amount,
    {
        self.facility_amount
    }

    /// When the facility activated, if it has.
    pub fn activated_at(&self) -> (r: Option<i64>)
        ensures
            r == self@.activated_at,
    {
        self.activated_at
    }

    /// The sequence of the last event the plan read.
    pub fn last_updated_on_sequence(&self) -> (r: u64)
        ensures
            r == self@.last_updated_on_sequence,
    {
        self.last_updated_on_sequence
    }

    /// The entries of the plan, in its order.
    pub fn entries(&self) -> (r: &Vec<CreditFacilityRepaymentPlanEntry>)
        ensures
            r@ == self@.entries,
    {
        &self.entries
    }

    /// The disbursals planned while no obligation exists.
    fn planned_disbursals(&self, now: i64) -> (r: Vec<CreditFacilityRepaymentPlanEntry>)
        requires
            self@.terms is Some,
            plan_supported(self@),
            plan_instant(now as int),
        ensures
            r@ == planned_disbursals_of(self@, now),
    {
        let terms = self.terms.unwrap();
        let facility_amount = self.facility_amount;
        let structuring_fee = one_time_fee(facility_amount, terms.one_time_fee_rate_bps);
        let activated_at = match self.activated_at {
            Some(a) => a,
            None => now,
        };
        let maturity_date = terms.maturity_date(activated_at);
        let effective = utc_day(activated_at);
        let mut disbursals: Vec<CreditFacilityRepaymentPlanEntry> = Vec::new();
        if structuring_fee != 0 {
            disbursals.push(CreditFacilityRepaymentPlanEntry {
                repayment_type: RepaymentType::Disbursal,
                obligation_id: None,
                status: RepaymentStatus::Upcoming,
                initial: structuring_fee,
                outstanding: structuring_fee,
                due_at: maturity_date,
                overdue_at: None,
                defaulted_at: None,
                recorded_at: activated_at,
                effective,
            });
        }
        disbursals.push(CreditFacilityRepaymentPlanEntry {
            repayment_type: RepaymentType::Disbursal,
            obligation_id: None,
            status: RepaymentStatus::Upcoming,
            initial: facility_amount,
            outstanding: facility_amount,
            due_at: maturity_date,
            overdue_at: None,
            defaulted_at: None,
            recorded_at: activated_at,
            effective,
        });
        assert(disbursals@ =~= planned_disbursals_of(self@, now));
        disbursals
    }

    /// The interest planned on what the disbursals of `updated` still owe.
    fn planned_interest_accruals(&self, updated: &Vec<CreditFacilityRepaymentPlanEntry>, now: i64) -> (r: Vec<CreditFacilityRepaymentPlanEntry>)
        requires
            self@.terms is Some,
            plan_supported(self@),
            plan_instant(now as int),
        ensures
            r@ == planned_interest_of(self@, updated@, now),
    {
        let terms = self.terms.unwrap();
        let activated_at = match self.activated_at {
            Some(a) => a,
            None => now,
        };
        let maturity_date = terms.maturity_date(activated_at);
        let limit = start_of_day(maturity_date);
        let mut next = match self.last_interest_accrual_at {
            Some(last) => terms.accrual_cycle_interval.period_from(last).next().truncate(limit),
            None => terms.accrual_cycle_interval.period_from(activated_at).truncate(limit),
        };
        let principal = disbursed_outstanding_exec(updated);
        let ghost first = next;
        let ghost p = principal as int;
        let mut planned: Vec<CreditFacilityRepaymentPlanEntry> = Vec::new();
        assert(first == first_planned_period(self@, now));
        while next.is_some()
            invariant
                plannable(next, -4_000_000_000_000, limit as int),
                limit <= 7_500_000_000_000,
                p == principal,
                planned@ + schedule_from(terms, p, next, limit as int) == schedule_from(
                    terms,
                    p,
                    first,
                    limit as int,
                ),
            decreases (if next is Some {
                limit - next->0.start + 1
            } else {
                0
            }),
        {
            let period = next.unwrap();
            let days = period.days();
            let interest = interest_for_time_period(principal, terms.annual_rate_bps, days as u64);
            let due = utc_day(period.end);
            let entry = CreditFacilityRepaymentPlanEntry {
                repayment_type: RepaymentType::Interest,
                obligation_id: None,
                status: RepaymentStatus::Upcoming,
                initial: interest,
                outstanding: interest,
                due_at: due,
                overdue_at: None,
                defaulted_at: None,
                recorded_at: period.end,
                effective: due,
            };
            assert(entry == planned_interest_entry(terms, p, period));
            let ghost before = planned@;
            planned.push(entry);
            next = period.next().truncate(limit);
            assert(interest_schedule(terms, p, period, limit as int) == seq![entry] + schedule_from(
                terms,
                p,
                next,
                limit as int,
            ));
            assert(planned@ + schedule_from(terms, p, next, limit as int) =~= before + (seq![entry]
                + schedule_from(terms, p, next, limit as int)));
        }
        assert(planned@ =~= planned@ + schedule_from(terms, p, next, limit as int));
        planned
    }

    /// Builds the entries again from the existing obligations.
    fn rebuild_entries(&mut self, existing: Vec<CreditFacilityRepaymentPlanEntry>, now: i64)
        requires
            old(self)@.terms is Some,
            plan_supported(old(self)@),
            plan_instant(now as int),
        ensures
            final(self)@ == rebuilt(old(self)@, existing@, now),
            final(self)@.terms == old(self)@.terms,
            final(self)@.activated_at == old(self)@.activated_at,
            final(self)@.last_interest_accrual_at == old(self)@.last_interest_accrual_at,
    {
        let mut updated = if existing.len() > 0 {
            existing
        } else {
            self.planned_disbursals(now)
        };
        let mut planned = self.planned_interest_accruals(&updated, now);
        let ghost u = updated@;
        updated.append(&mut planned);
        self.entries = sort_entries(updated);
        reveal(rebuilt);
        assert(self@.entries == rebuilt(old(self)@, existing@, now).entries);
        assert(self@.applied_allocations == old(self)@.applied_allocations);
        assert(self@.applied_accruals == old(self)@.applied_accruals);
    }

    /// Whether the plan can read the facility event `event` at `now`.
    pub fn can_process_credit_event(&self, event: &CoreCreditEvent, now: i64) -> (r: bool)
        ensures
            r == (plan_supported(self@) && credit_event_supported(self@, *event, now)),
    {
        if !self.is_supported() || !(-4_000_000_000_000 <= now && now <= 4_000_000_000_000) {
            return false;
        }
        match event {
            CoreCreditEvent::FacilityProposalCreated { terms, .. } => match terms.duration {
                crate::terms::FacilityDuration::Months(m) => m <= crate::terms::MAX_FACILITY_MONTHS,
            },
            CoreCreditEvent::FacilityActivated { activated_at, .. } => -4_000_000_000_000 <= *activated_at
                && *activated_at <= 4_000_000_000_000 && self.terms.is_some(),
            CoreCreditEvent::AccrualPosted { ledger_tx_id, amount, effective, .. } => {
                if *amount == 0 && !self.applied_accruals.contains(ledger_tx_id) {
                    -45_500_000 <= *effective && *effective <= 46_000_000 && self.terms.is_some()
                } else {
                    true
                }
            },
            _ => true,
        }
    }

    /// The plan's terms and instants are within what it is computed for.
    fn is_supported(&self) -> (r: bool)
        ensures
            r == plan_supported(self@),
    {
        let terms_ok = match self.terms {
            Some(t) => match t.duration {
                crate::terms::FacilityDuration::Months(m) => m <= crate::terms::MAX_FACILITY_MONTHS,
            },
            None => true,
        };
        let activated_ok = match self.activated_at {
            Some(a) => -4_000_000_000_000 <= a && a <= 4_000_000_000_000,
            None => true,
        };
        let accrual_ok = match self.last_interest_accrual_at {
            Some(l) => -4_000_000_000_000 <= l && l <= 4_000_000_000_000,
            None => true,
        };
        terms_ok && activated_ok && accrual_ok
    }

    /// Reads a facility event: returns whether the plan changed with it.
    pub fn process_credit_event(&mut self, sequence: u64, event: &CoreCreditEvent, now: i64) -> (r: bool)
        requires
            plan_supported(old(self)@),
            credit_event_supported(old(self)@, *event, now),
        ensures
            (final(self)@, r) == credit_event_step(old(self)@, sequence, *event, now),
            plan_supported(final(self)@),
    {
        self.last_updated_on_sequence = sequence;
        let mut existing_obligations = filter_obligations(&self.entries);
        match event {
            CoreCreditEvent::FacilityProposalCreated { terms, amount, .. } => {
                self.terms = Some(*terms);
                self.facility_amount = *amount;
            },
            CoreCreditEvent::FacilityActivated { activated_at, .. } => {
                self.activated_at = Some(*activated_at);
            },
            CoreCreditEvent::AccrualPosted { ledger_tx_id, amount, due_at, effective, recorded_at, .. } => {
                if *amount != 0 {
                    return false;
                }
                if !self.applied_accruals.insert(*ledger_tx_id) {
                    assert(self@.applied_accruals =~= old(self)@.applied_accruals);
                    return false;
                }
                existing_obligations.push(CreditFacilityRepaymentPlanEntry {
                    repayment_type: RepaymentType::Interest,
                    obligation_id: None,
                    status: RepaymentStatus::Paid,
                    initial: 0,
                    outstanding: 0,
                    due_at: *due_at,
                    overdue_at: None,
                    defaulted_at: None,
                    recorded_at: *recorded_at,
                    effective: *effective,
                });
                self.last_interest_accrual_at = Some(end_of_day(*effective));
            },
            _ => return false,
        }
        self.rebuild_entries(existing_obligations, now);
        true
    }

    /// Whether the plan can read the event `event` of the obligations at
    /// `now`.
    pub fn can_process_collection_event(&self, event: &CoreCreditCollectionEvent, now: i64) -> (r: bool)
        ensures
            r == (plan_supported(self@) && collection_event_supported(self@, *event, now)),
    {
        if !self.is_supported() || !(-4_000_000_000_000 <= now && now <= 4_000_000_000_000) {
            return false;
        }
        let existing = filter_obligations(&self.entries);
        match event {
            CoreCreditCollectionEvent::ObligationCreated { entity } => {
                match find_obligation(&existing, entity.id) {
                    Some(_) => {
                        proof {
                            assert(has_obligation(existing@, entity.id));
                        }
                        true
                    },
                    None => {
                        proof {
                            assert(!has_obligation(existing@, entity.id));
                        }
                        let day_ok = match entity.obligation_type {
                            ObligationType::Interest => -45_500_000 <= entity.effective && entity.effective
                                <= 46_000_000,
                            ObligationType::Disbursal => true,
                        };
                        self.terms.is_some() && day_ok
                    },
                }
            },
            CoreCreditCollectionEvent::PaymentAllocated { entity } => {
                match find_obligation(&existing, entity.obligation_id) {
                    Some(i) => self.applied_allocations.contains(&entity.id) || (self.terms.is_some()
                        && entity.amount <= existing[i].outstanding),
                    None => true,
                }
            },
            CoreCreditCollectionEvent::ObligationDue { entity }
            | CoreCreditCollectionEvent::ObligationOverdue { entity }
            | CoreCreditCollectionEvent::ObligationDefaulted { entity }
            | CoreCreditCollectionEvent::ObligationCompleted { entity } => {
                match find_obligation(&existing, entity.id) {
                    Some(_) => self.terms.is_some(),
                    None => {
                        proof {
                            assert(!has_obligation(existing@, entity.id));
                        }
                        true
                    },
                }
            },
            CoreCreditCollectionEvent::PaymentReceived { .. } => true,
        }
    }

    /// Reads an event of the obligations: returns whether the plan changed
    /// with it.
    pub fn process_collection_event(&mut self, sequence: u64, event: &CoreCreditCollectionEvent, now: i64) -> (r: bool)
        requires
            plan_supported(old(self)@),
            collection_event_supported(old(self)@, *event, now),
        ensures
            (final(self)@, r) == collection_event_step(old(self)@, sequence, *event, now),
            plan_supported(final(self)@),
    {
        self.last_updated_on_sequence = sequence;
        let mut existing_obligations = filter_obligations(&self.entries);
        let ghost existing = existing_obligations@;
        match event {
            CoreCreditCollectionEvent::ObligationCreated { entity } => {
                if let Some(_) = find_obligation(&existing_obligations, entity.id) {
                    return false;
                }
                proof {
                    assert(!has_obligation(existing, entity.id));
                }
                let entry = CreditFacilityRepaymentPlanEntry {
                    repayment_type: match entity.obligation_type {
                        ObligationType::Disbursal => RepaymentType::Disbursal,
                        ObligationType::Interest => RepaymentType::Interest,
                    },
                    obligation_id: Some(entity.id),
                    status: RepaymentStatus::NotYetDue,
                    initial: entity.amount,
                    outstanding: entity.amount,
                    due_at: entity.due_at,
                    overdue_at: entity.overdue_at,
                    defaulted_at: entity.defaulted_at,
                    recorded_at: entity.recorded_at,
                    effective: entity.effective,
                };
                if let ObligationType::Interest = entity.obligation_type {
                    self.last_interest_accrual_at = Some(end_of_day(entity.effective));
                }
                existing_obligations.push(entry);
            },
            CoreCreditCollectionEvent::PaymentAllocated { entity } => {
                if !self.applied_allocations.insert(entity.id) {
                    assert(self@.applied_allocations =~= old(self)@.applied_allocations);
                    return false;
                }
                match find_obligation(&existing_obligations, entity.obligation_id) {
                    Some(i) => {
                        let mut entry = existing_obligations[i];
                        entry.outstanding = entry.outstanding - entity.amount;
                        existing_obligations.set(i, entry);
                    },
                    None => {
                        return false;
                    },
                }
            },
            CoreCreditCollectionEvent::ObligationDue { entity }
            | CoreCreditCollectionEvent::ObligationOverdue { entity }
            | CoreCreditCollectionEvent::ObligationDefaulted { entity }
            | CoreCreditCollectionEvent::ObligationCompleted { entity } => {
                match find_obligation(&existing_obligations, entity.id) {
                    Some(i) => {
                        let mut entry = existing_obligations[i];
                        entry.status = match event {
                            CoreCreditCollectionEvent::ObligationDue { .. } => RepaymentStatus::Due,
                            CoreCreditCollectionEvent::ObligationOverdue { .. } => RepaymentStatus::Overdue,
                            CoreCreditCollectionEvent::ObligationDefaulted { .. } => RepaymentStatus::Defaulted,
                            _ => RepaymentStatus::Paid,
                        };
                        existing_obligations.set(i, entry);
                    },
                    None => {
                        return false;
                    },
                }
            },
            CoreCreditCollectionEvent::PaymentReceived { .. } => {
                return false;
            },
        }
        self.rebuild_entries(existing_obligations, now);
        true
    }
}

impl Default for CreditFacilityRepaymentPlan {
    /// An empty plan.
    fn default() -> (r: CreditFacilityRepaymentPlan)
        ensures
            r@ == empty_plan(),
            plan_supported(r@),
    {
        CreditFacilityRepaymentPlan::new()
    }
}

/// Why a facility's repayment plan is not returned.
#[derive(Debug, Clone, Copy, PartialEq, Eq)]
pub enum CreditFacilityRepaymentPlanError {
    AuthorizationError,
}

/// The repayment plans of the facilities: what a subject may read of them.
/// The plans themselves are kept by the projection's store; `authz` is the
/// permission checker that answers whether a subject may read a facility.
#[derive(Debug)]
pub struct RepaymentPlans<Perms> {
    pub authz: Perms,
}

impl<Perms> RepaymentPlans<Perms> {
    /// The plans, read under the permission checker `authz`.
    pub fn new(authz: Perms) -> (r: RepaymentPlans<Perms>)
        ensures
            r.authz == authz,
    {
        RepaymentPlans { authz }
    }

    /// What a subject must be permitted to read a facility's plan: reading
    /// that facility.
    pub fn read_permission(&self, credit_facility_id: u128) -> (r: (CoreCreditObject, CoreCreditAction))
        ensures
            r == (
                CoreCreditObject::CreditFacility(AllOrOne::ById(credit_facility_id)),
                CoreCreditAction::CreditFacility(CreditFacilityAction::Read),
            ),
    {
        (CoreCreditObject::credit_facility(credit_facility_id), CoreCreditAction::CreditFacility(CreditFacilityAction::Read))
    }

    /// The entries of a facility's plan for a subject, given whether the
    /// subject may read the facility: refused where it may not.
    pub fn find_for_credit_facility_id(&self, permitted: bool, plan: CreditFacilityRepaymentPlan) -> (r: Result<
        Vec<CreditFacilityRepaymentPlanEntry>,
        CreditFacilityRepaymentPlanError,
    >)
        ensures
            permitted ==> (r matches Ok(entries) && entries@ == plan@.entries),
            !permitted ==> r == Err::<Vec<CreditFacilityRepaymentPlanEntry>, CreditFacilityRepaymentPlanError>(
                CreditFacilityRepaymentPlanError::AuthorizationError,
            ),
    {
        if !permitted {
            return Err(CreditFacilityRepaymentPlanError::AuthorizationError);
        }
        Ok(plan.entries)
    }

    /// The entries of a facility's plan, read without a permission check.
    pub fn find_for_credit_facility_id_without_audit(&self, plan: CreditFacilityRepaymentPlan) -> (r: Vec<
        CreditFacilityRepaymentPlanEntry,
    >)
        ensures
            r@ == plan@.entries,
    {
        plan.entries
    }
}

} // verus!
