//! The history of a credit facility: the entries a customer sees, kept from
//! the facility's events and the collection of its obligations.
use vstd::prelude::*;
use crate::collateral::CollateralDirection;
use crate::credit_primitives::CreditFacilityProposalStatus;
use crate::credit_event::{
    CollateralizationState, CoreCreditCollectionEvent, CoreCreditEvent,
    PendingCreditFacilityCollateralizationState,
};
use crate::time::{instant_in_range, utc_day, utc_day_of};

verus! {

/// The facility was activated with this amount.
#[derive(Debug, Clone, Copy, PartialEq, Eq)]
pub struct CreditFacilityApproved {
    pub cents: u64,
    pub recorded_at: i64,
    pub effective: i32,
    pub tx_id: u128,
}

/// Collateral was added or removed.
#[derive(Debug, Clone, Copy, PartialEq, Eq)]
pub struct CollateralUpdated {
    pub satoshis: u64,
    pub recorded_at: i64,
    pub effective: i32,
    pub direction: CollateralDirection,
    pub tx_id: u128,
}

/// The collateralization of the facility changed.
#[derive(Debug, Clone, Copy, PartialEq, Eq)]
pub struct CollateralizationUpdated {
    pub state: CollateralizationState,
    pub collateral: u64,
    pub outstanding_interest: u64,
    pub outstanding_disbursal: u64,
    pub recorded_at: i64,
    pub effective: i32,
    pub price: u64,
}

/// The collateralization of the pending facility changed.
#[derive(Debug, Clone, Copy, PartialEq, Eq)]
pub struct PendingCreditFacilityCollateralizationUpdated {
    pub state: PendingCreditFacilityCollateralizationState,
    pub collateral: u64,
    pub recorded_at: i64,
    pub effective: i32,
    pub price: u64,
}

/// A disbursal was settled.
#[derive(Debug, Clone, Copy, PartialEq, Eq)]
pub struct DisbursalExecuted {
    pub cents: u64,
    pub recorded_at: i64,
    pub effective: i32,
    pub tx_id: u128,
}

/// Interest was posted for a period of `days` days.
#[derive(Debug, Clone, Copy, PartialEq, Eq)]
pub struct InterestAccrualsPosted {
    pub cents: u64,
    pub recorded_at: i64,
    pub effective: i32,
    pub tx_id: u128,
    pub days: i64,
}

/// Collateral was sent to the liquidator.
#[derive(Debug, Clone, Copy, PartialEq, Eq)]
pub struct CollateralSentOut {
    pub amount: u64,
    pub recorded_at: i64,
    pub effective: i32,
    pub tx_id: u128,
}

/// Proceeds of a liquidation were received.
#[derive(Debug, Clone, Copy, PartialEq, Eq)]
pub struct ProceedsFromLiquidationReceived {
    pub cents: u64,
    pub recorded_at: i64,
    pub effective: i32,
    pub tx_id: u128,
}

/// A payment was allocated to an obligation of the facility.
#[derive(Debug, Clone, Copy, PartialEq, Eq)]
pub struct IncrementalPayment {
    pub recorded_at: i64,
    pub effective: i32,
    pub cents: u64,
    pub payment_id: u128,
}

/// One entry of a facility's history.
#[derive(Debug, Clone, Copy, PartialEq, Eq)]
pub enum CreditFacilityHistoryEntry {
    Payment(IncrementalPayment),
    Approved(CreditFacilityApproved),
    Collateral(CollateralUpdated),
    Collateralization(CollateralizationUpdated),
    PendingCreditFacilityCollateralization(PendingCreditFacilityCollateralizationUpdated),
    Disbursal(DisbursalExecuted),
    Interest(InterestAccrualsPosted),
    Liquidation(CollateralSentOut),
    Repayment(ProceedsFromLiquidationReceived),
}

/// The instants that the history needs to read dates from are in range.
pub open spec fn credit_event_readable(event: CoreCreditEvent) -> bool {
    match event {
        CoreCreditEvent::FacilityActivated { activated_at, .. } => instant_in_range(activated_at),
        CoreCreditEvent::AccrualPosted { period, .. } => instant_in_range(period.start) && instant_in_range(
            period.end,
        ),
        _ => true,
    }
}

/// The history entry that a facility event adds, if any.
pub open spec fn credit_history_entry(event: CoreCreditEvent) -> Option<CreditFacilityHistoryEntry> {
    match event {
        CoreCreditEvent::FacilityActivated { activation_tx_id, activated_at, amount, .. } => Some(
            CreditFacilityHistoryEntry::Approved(
                CreditFacilityApproved {
                    cents: amount,
                    recorded_at: activated_at,
                    effective: utc_day_of(activated_at as int) as i32,
                    tx_id: activation_tx_id,
                },
            ),
        ),
        CoreCreditEvent::FacilityCollateralUpdated { abs_diff, recorded_at, effective, direction, ledger_tx_id, .. } => Some(
            CreditFacilityHistoryEntry::Collateral(
                CollateralUpdated { satoshis: abs_diff, recorded_at, effective, direction, tx_id: ledger_tx_id },
            ),
        ),
        CoreCreditEvent::FacilityCollateralizationChanged { state, recorded_at, effective, outstanding, price, collateral, .. } => Some(
            CreditFacilityHistoryEntry::Collateralization(
                CollateralizationUpdated {
                    state,
                    collateral,
                    outstanding_interest: outstanding.interest,
                    outstanding_disbursal: outstanding.disbursed,
                    recorded_at,
                    effective,
                    price,
                },
            ),
        ),
        CoreCreditEvent::DisbursalSettled { amount, recorded_at, effective, ledger_tx_id, .. } => Some(
            CreditFacilityHistoryEntry::Disbursal(
                DisbursalExecuted { cents: amount, recorded_at, effective, tx_id: ledger_tx_id },
            ),
        ),
        CoreCreditEvent::AccrualPosted { amount, period, ledger_tx_id, recorded_at, effective, .. } => Some(
            CreditFacilityHistoryEntry::Interest(
                InterestAccrualsPosted {
                    cents: amount,
                    recorded_at,
                    effective,
                    tx_id: ledger_tx_id,
                    days: period.days_spec() as i64,
                },
            ),
        ),
        CoreCreditEvent::PendingCreditFacilityCollateralizationChanged { state, collateral, price, recorded_at, effective, .. } => Some(
            CreditFacilityHistoryEntry::PendingCreditFacilityCollateralization(
                PendingCreditFacilityCollateralizationUpdated { state, collateral, recorded_at, effective, price },
            ),
        ),
        CoreCreditEvent::PartialLiquidationCollateralSentOut { amount, recorded_at, effective, ledger_tx_id, .. } => Some(
            CreditFacilityHistoryEntry::Liquidation(
                CollateralSentOut { amount, recorded_at, effective, tx_id: ledger_tx_id },
            ),
        ),
        CoreCreditEvent::PartialLiquidationProceedsReceived { amount, recorded_at, effective, ledger_tx_id, .. } => Some(
            CreditFacilityHistoryEntry::Repayment(
                ProceedsFromLiquidationReceived { cents: amount, recorded_at, effective, tx_id: ledger_tx_id },
            ),
        ),
        _ => None,
    }
}

/// Reading a facility event keeps the history's entries and adds at most
/// one after them: none for the proposal, its conclusion, the completion
/// of the pending facility or of the facility, and the start or end of a
/// partial liquidation; one for every other event.
pub proof fn law_credit_event_appends_at_most_one(before: Seq<CreditFacilityHistoryEntry>, event: CoreCreditEvent)
    ensures
        ({
            let new = push_opt(before, credit_history_entry(event));
            &&& (event is FacilityProposalCreated || event is FacilityProposalConcluded
                || event is PendingCreditFacilityCompleted || event is FacilityCompleted
                || event is PartialLiquidationInitiated || event is PartialLiquidationCompleted) ==> new == before
            &&& !(event is FacilityProposalCreated || event is FacilityProposalConcluded
                || event is PendingCreditFacilityCompleted || event is FacilityCompleted
                || event is PartialLiquidationInitiated || event is PartialLiquidationCompleted) ==> {
                &&& new.len() == before.len() + 1
                &&& new.subrange(0, before.len() as int) == before
            }
        }),
{
    let new = push_opt(before, credit_history_entry(event));
    if credit_history_entry(event) is Some {
        assert(new.subrange(0, before.len() as int) =~= before);
    }
}

/// An update of the facility's collateral adds one collateral entry to the
/// history: it shows the amount added or removed (`abs_diff`), in the
/// update's direction, under its transaction, never the collateral's new
/// total.
pub proof fn law_collateral_entry_records_the_change(
    before: Seq<CreditFacilityHistoryEntry>,
    credit_facility_id: u128,
    ledger_tx_id: u128,
    new_amount: u64,
    abs_diff: u64,
    direction: CollateralDirection,
    recorded_at: i64,
    effective: i32,
)
    ensures
        ({
            let event = CoreCreditEvent::FacilityCollateralUpdated {
                credit_facility_id,
                ledger_tx_id,
                new_amount,
                abs_diff,
                direction,
                recorded_at,
                effective,
            };
            let after = push_opt(before, credit_history_entry(event));
            &&& after.len() == before.len() + 1
            &&& after.drop_last() == before
            &&& after.last() matches CreditFacilityHistoryEntry::Collateral(c)
            &&& c.satoshis == abs_diff
            &&& c.direction == direction
            &&& c.tx_id == ledger_tx_id
            &&& c.recorded_at == recorded_at
            &&& c.effective == effective
        }),
{
    let event = CoreCreditEvent::FacilityCollateralUpdated {
        credit_facility_id,
        ledger_tx_id,
        new_amount,
        abs_diff,
        direction,
        recorded_at,
        effective,
    };
    assert(push_opt(before, credit_history_entry(event)).drop_last() =~= before);
}

/// Every money or bitcoin amount that a facility event adds to the history
/// is the event's own amount, under the event's own transaction: the
/// activation shows the facility's amount, a settled disbursal its amount,
/// posted interest its amount and the days of its period, collateral sent
/// to the liquidator its amount, and proceeds received their amount.
pub proof fn law_entries_show_the_event_amounts(event: CoreCreditEvent)
    ensures
        event matches CoreCreditEvent::FacilityActivated { activation_tx_id, activated_at, amount, .. } ==> (
        credit_history_entry(event) matches Some(CreditFacilityHistoryEntry::Approved(e)) && e.cents == amount
            && e.tx_id == activation_tx_id && e.recorded_at == activated_at),
        event matches CoreCreditEvent::DisbursalSettled { amount, ledger_tx_id, .. } ==> (credit_history_entry(event)
            matches Some(CreditFacilityHistoryEntry::Disbursal(e)) && e.cents == amount && e.tx_id == ledger_tx_id),
        event matches CoreCreditEvent::AccrualPosted { amount, ledger_tx_id, period, .. } ==> (credit_history_entry(
            event,
        ) matches Some(CreditFacilityHistoryEntry::Interest(e)) && e.cents == amount && e.tx_id == ledger_tx_id
            && e.days == utc_day_of(period.end as int) - utc_day_of(period.start as int) + 1),
        event matches CoreCreditEvent::PartialLiquidationCollateralSentOut { amount, ledger_tx_id, .. } ==> (
        credit_history_entry(event) matches Some(CreditFacilityHistoryEntry::Liquidation(e)) && e.amount == amount
            && e.tx_id == ledger_tx_id),
        event matches CoreCreditEvent::PartialLiquidationProceedsReceived { amount, ledger_tx_id, .. } ==> (
        credit_history_entry(event) matches Some(CreditFacilityHistoryEntry::Repayment(e)) && e.cents == amount
            && e.tx_id == ledger_tx_id),
{
}

/// The history entry that a collection event adds, if any: only allocated
/// payments show.
pub open spec fn collection_history_entry(event: CoreCreditCollectionEvent) -> Option<CreditFacilityHistoryEntry> {
    match event {
        CoreCreditCollectionEvent::PaymentAllocated { entity } => Some(
            CreditFacilityHistoryEntry::Payment(
                IncrementalPayment {
                    recorded_at: entity.recorded_at,
                    effective: entity.effective,
                    cents: entity.amount,
                    payment_id: entity.id,
                },
            ),
        ),
        _ => None,
    }
}

/// The entries of `s` followed, when there is one, by `e`.
pub open spec fn push_opt(s: Seq<CreditFacilityHistoryEntry>, e: Option<CreditFacilityHistoryEntry>) -> Seq<CreditFacilityHistoryEntry> {
    match e {
        Some(x) => s.push(x),
        None => s,
    }
}

/// The history of a facility, oldest entry first.
#[derive(Debug, Clone, Default)]
pub struct CreditFacilityHistory {
    entries: Vec<CreditFacilityHistoryEntry>,
}

impl View for CreditFacilityHistory {
    type V = Seq<CreditFacilityHistoryEntry>;

    closed spec fn view(&self) -> Seq<CreditFacilityHistoryEntry> {
        self.entries@
    }
}

impl CreditFacilityHistory {
    /// An empty history.
    pub fn new() -> (r: CreditFacilityHistory)
        ensures
            r@ == Seq::<CreditFacilityHistoryEntry>::empty(),
    {
        CreditFacilityHistory { entries: Vec::new() }
    }

    /// Adds the entry that a facility event shows, if it shows one.
    pub fn process_credit_event(&mut self, event: &CoreCreditEvent)
        requires
            credit_event_readable(*event),
        ensures
            final(self)@ == push_opt(old(self)@, credit_history_entry(*event)),
    {
        match *event {
            CoreCreditEvent::FacilityActivated { activation_tx_id, activated_at, amount, .. } => {
                let effective = utc_day(activated_at);
                self.entries.push(
                    CreditFacilityHistoryEntry::Approved(
                        CreditFacilityApproved { cents: amount, recorded_at: activated_at, effective, tx_id: activation_tx_id },
                    ),
                );
            },
            CoreCreditEvent::FacilityCollateralUpdated { abs_diff, recorded_at, effective, direction, ledger_tx_id, .. } => {
                self.entries.push(
                    CreditFacilityHistoryEntry::Collateral(
                        CollateralUpdated { satoshis: abs_diff, recorded_at, effective, direction, tx_id: ledger_tx_id },
                    ),
                );
            },
            CoreCreditEvent::FacilityCollateralizationChanged { state, recorded_at, effective, outstanding, price, collateral, .. } => {
                self.entries.push(
                    CreditFacilityHistoryEntry::Collateralization(
                        CollateralizationUpdated {
                            state,
                            collateral,
                            outstanding_interest: outstanding.interest,
                            outstanding_disbursal: outstanding.disbursed,
                            recorded_at,
                            effective,
                            price,
                        },
                    ),
                );
            },
            CoreCreditEvent::DisbursalSettled { amount, recorded_at, effective, ledger_tx_id, .. } => {
                self.entries.push(
                    CreditFacilityHistoryEntry::Disbursal(
                        DisbursalExecuted { cents: amount, recorded_at, effective, tx_id: ledger_tx_id },
                    ),
                );
            },
            CoreCreditEvent::AccrualPosted { amount, period, ledger_tx_id, recorded_at, effective, .. } => {
                let days = period.days();
                self.entries.push(
                    CreditFacilityHistoryEntry::Interest(
                        InterestAccrualsPosted { cents: amount, recorded_at, effective, tx_id: ledger_tx_id, days },
                    ),
                );
            },
            CoreCreditEvent::PendingCreditFacilityCollateralizationChanged { state, collateral, price, recorded_at, effective, .. } => {
                self.entries.push(
                    CreditFacilityHistoryEntry::PendingCreditFacilityCollateralization(
                        PendingCreditFacilityCollateralizationUpdated { state, collateral, recorded_at, effective, price },
                    ),
                );
            },
            CoreCreditEvent::PartialLiquidationCollateralSentOut { amount, recorded_at, effective, ledger_tx_id, .. } => {
                self.entries.push(
                    CreditFacilityHistoryEntry::Liquidation(
                        CollateralSentOut { amount, recorded_at, effective, tx_id: ledger_tx_id },
                    ),
                );
            },
            CoreCreditEvent::PartialLiquidationProceedsReceived { amount, recorded_at, effective, ledger_tx_id, .. } => {
                self.entries.push(
                    CreditFacilityHistoryEntry::Repayment(
                        ProceedsFromLiquidationReceived { cents: amount, recorded_at, effective, tx_id: ledger_tx_id },
                    ),
                );
            },
            CoreCreditEvent::FacilityProposalCreated { .. } => {},
            CoreCreditEvent::FacilityProposalConcluded { .. } => {},
            CoreCreditEvent::PendingCreditFacilityCompleted { .. } => {},
            CoreCreditEvent::FacilityCompleted { .. } => {},
            CoreCreditEvent::PartialLiquidationInitiated { .. } => {},
            CoreCreditEvent::PartialLiquidationCompleted { .. } => {},
        }
    }

    /// Adds the entry that a collection event shows, if it shows one.
    pub fn process_collection_event(&mut self, event: &CoreCreditCollectionEvent)
        ensures
            final(self)@ == push_opt(old(self)@, collection_history_entry(*event)),
    {
        if let CoreCreditCollectionEvent::PaymentAllocated { entity } = *event {
            self.entries.push(
                CreditFacilityHistoryEntry::Payment(
                    IncrementalPayment {
                        recorded_at: entity.recorded_at,
                        effective: entity.effective,
                        cents: entity.amount,
                        payment_id: entity.id,
                    },
                ),
            );
        }
    }

    /// The entries, newest first.
    pub fn into_entries(self) -> (r: Vec<CreditFacilityHistoryEntry>)
        ensures
            r@ == self@.reverse(),
    {
        let n = self.entries.len();
        let mut out: Vec<CreditFacilityHistoryEntry> = Vec::new();
        let mut i: usize = n;
        while i > 0
            invariant
                i <= n,
                n == self.entries@.len(),
                out@ == self.entries@.subrange(i as int, n as int).reverse(),
            decreases i,
        {
            i = i - 1;
            out.push(self.entries[i]);
            assert(out@ =~= self.entries@.subrange(i as int, n as int).reverse());
        }
        assert(self.entries@.subrange(0, n as int) =~= self.entries@);
        out
    }

    /// The number of entries.
    pub fn len(&self) -> (r: usize)
        ensures
            r == self@.len(),
    {
        self.entries.len()
    }
}

/// The facility whose history a facility event is recorded in, if the
/// history reads it: proposals (when created, or concluded as approved)
/// and pending facilities' collateralization under their own id, the
/// facility's own events under the facility's id.
pub open spec fn history_target_of_credit_event(event: CoreCreditEvent) -> Option<u128> {
    match event {
        CoreCreditEvent::FacilityProposalCreated { id, .. } => Some(id),
        CoreCreditEvent::FacilityProposalConcluded { id, status } => if status
            == CreditFacilityProposalStatus::Approved {
            Some(id)
        } else {
            None
        },
        CoreCreditEvent::PendingCreditFacilityCollateralizationChanged { id, .. } => Some(id),
        CoreCreditEvent::FacilityActivated { id, .. } => Some(id),
        CoreCreditEvent::FacilityCompleted { id, .. } => Some(id),
        CoreCreditEvent::FacilityCollateralUpdated { credit_facility_id, .. } => Some(credit_facility_id),
        CoreCreditEvent::FacilityCollateralizationChanged { id, .. } => Some(id),
        CoreCreditEvent::DisbursalSettled { credit_facility_id, .. } => Some(credit_facility_id),
        CoreCreditEvent::AccrualPosted { credit_facility_id, .. } => Some(credit_facility_id),
        CoreCreditEvent::PartialLiquidationInitiated { credit_facility_id, .. } => Some(credit_facility_id),
        CoreCreditEvent::PartialLiquidationCompleted { credit_facility_id } => Some(credit_facility_id),
        CoreCreditEvent::PartialLiquidationProceedsReceived { credit_facility_id, .. } => Some(
            credit_facility_id,
        ),
        CoreCreditEvent::PartialLiquidationCollateralSentOut { credit_facility_id, .. } => Some(
            credit_facility_id,
        ),
        CoreCreditEvent::PendingCreditFacilityCompleted { .. } => None,
    }
}

/// The facility whose history a facility event is recorded in, if any.
pub fn history_target_of_credit(event: &CoreCreditEvent) -> (r: Option<u128>)
    ensures
        r == history_target_of_credit_event(*event),
{
    match event {
        CoreCreditEvent::FacilityProposalCreated { id, .. } => Some(*id),
        CoreCreditEvent::FacilityProposalConcluded { id, status } => match status {
            CreditFacilityProposalStatus::Approved => Some(*id),
            _ => None,
        },
        CoreCreditEvent::PendingCreditFacilityCollateralizationChanged { id, .. } => Some(*id),
        CoreCreditEvent::FacilityActivated { id, .. } => Some(*id),
        CoreCreditEvent::FacilityCompleted { id, .. } => Some(*id),
        CoreCreditEvent::FacilityCollateralUpdated { credit_facility_id, .. } => Some(*credit_facility_id),
        CoreCreditEvent::FacilityCollateralizationChanged { id, .. } => Some(*id),
        CoreCreditEvent::DisbursalSettled { credit_facility_id, .. } => Some(*credit_facility_id),
        CoreCreditEvent::AccrualPosted { credit_facility_id, .. } => Some(*credit_facility_id),
        CoreCreditEvent::PartialLiquidationInitiated { credit_facility_id, .. } => Some(*credit_facility_id),
        CoreCreditEvent::PartialLiquidationCompleted { credit_facility_id } => Some(*credit_facility_id),
        CoreCreditEvent::PartialLiquidationProceedsReceived { credit_facility_id, .. } => Some(
            *credit_facility_id,
        ),
        CoreCreditEvent::PartialLiquidationCollateralSentOut { credit_facility_id, .. } => Some(
            *credit_facility_id,
        ),
        CoreCreditEvent::PendingCreditFacilityCompleted { .. } => None,
    }
}

/// The facility whose history an event of the obligations is recorded in:
/// the beneficiary of an allocated payment; no other such event is read.
pub fn history_target_of_collection(event: &CoreCreditCollectionEvent) -> (r: Option<u128>)
    ensures
        r == match *event {
            CoreCreditCollectionEvent::PaymentAllocated { entity } => Some(entity.beneficiary_id),
            _ => None,
        },
{
    match event {
        CoreCreditCollectionEvent::PaymentAllocated { entity } => Some(entity.beneficiary_id),
        _ => None,
    }
}

} // verus!
