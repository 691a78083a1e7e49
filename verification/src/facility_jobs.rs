//! The decisions of a facility's background jobs: which facility an event
//! makes the collateralization job look at again, and the steps of the
//! interest accrual job from one accrual period to the next cycle.
use vstd::prelude::*;
use crate::credit_event::{CoreCreditCollectionEvent, CoreCreditEvent};

verus! {

/// The facility whose collateralization an event of the credit module
/// makes the job update: the facility whose collateral was updated; no
/// other such event is read.
pub fn collateralization_target_of_credit(event: &CoreCreditEvent) -> (r: Option<u128>)
    ensures
        r == match *event {
            CoreCreditEvent::FacilityCollateralUpdated { credit_facility_id, .. } => Some(credit_facility_id),
            _ => None,
        },
{
    match event {
        CoreCreditEvent::FacilityCollateralUpdated { credit_facility_id, .. } => Some(*credit_facility_id),
        _ => None,
    }
}

/// The facility whose collateralization an event of the obligations makes
/// the job update: the beneficiary of a new obligation or of an allocated
/// payment; no other such event is read.
pub fn collateralization_target_of_collection(event: &CoreCreditCollectionEvent) -> (r: Option<u128>)
    ensures
        r == match *event {
            CoreCreditCollectionEvent::ObligationCreated { entity } => Some(entity.beneficiary_id),
            CoreCreditCollectionEvent::PaymentAllocated { entity } => Some(entity.beneficiary_id),
            _ => None,
        },
{
    match event {
        CoreCreditCollectionEvent::ObligationCreated { entity } => Some(entity.beneficiary_id),
        CoreCreditCollectionEvent::PaymentAllocated { entity } => Some(entity.beneficiary_id),
        _ => None,
    }
}

/// A liquidation to start for a collateral, as a liquidation job reads it
/// from the event that initiated it.
#[derive(Debug, Clone, Copy, PartialEq, Eq)]
pub struct LiquidationToStart {
    pub credit_facility_id: u128,
    pub collateral_id: u128,
    pub trigger_price: u64,
    pub initially_expected_to_receive: u64,
    pub initially_estimated_to_liquidate: u64,
}

/// The liquidation that an event asks the liquidations job to start: the
/// one a partial liquidation was initiated for; no other event is read.
pub fn liquidation_to_start(event: &CoreCreditEvent) -> (r: Option<LiquidationToStart>)
    ensures
        r == match *event {
            CoreCreditEvent::PartialLiquidationInitiated {
                credit_facility_id,
                collateral_id,
                trigger_price,
                initially_expected_to_receive,
                initially_estimated_to_liquidate,
            } => Some(
                LiquidationToStart {
                    credit_facility_id,
                    collateral_id,
                    trigger_price,
                    initially_expected_to_receive,
                    initially_estimated_to_liquidate,
                },
            ),
            _ => None,
        },
{
    match event {
        CoreCreditEvent::PartialLiquidationInitiated {
            credit_facility_id,
            collateral_id,
            trigger_price,
            initially_expected_to_receive,
            initially_estimated_to_liquidate,
        } => Some(
            LiquidationToStart {
                credit_facility_id: *credit_facility_id,
                collateral_id: *collateral_id,
                trigger_price: *trigger_price,
                initially_expected_to_receive: *initially_expected_to_receive,
                initially_estimated_to_liquidate: *initially_estimated_to_liquidate,
            },
        ),
        _ => None,
    }
}

/// Whether an event ends the job that waits on the liquidation
/// `liquidation_id`: it does when the proceeds of that liquidation were
/// received, and the job then completes the liquidation.
pub fn ends_partial_liquidation(event: &CoreCreditEvent, liquidation_id: u128) -> (r: bool)
    ensures
        r == (*event matches CoreCreditEvent::PartialLiquidationProceedsReceived { liquidation_id: id, .. }
            && id == liquidation_id),
{
    match event {
        CoreCreditEvent::PartialLiquidationProceedsReceived { liquidation_id: id, .. } => *id == liquidation_id,
        _ => false,
    }
}

/// Where the interest accrual job of a facility stands: accruing the
/// periods of a cycle, waiting until the facility's obligations have their
/// statuses brought up to date, or completing the cycle.
#[derive(Debug, Clone, Copy, PartialEq, Eq)]
pub enum InterestAccrualState {
    AccruePeriod,
    AwaitObligationsSync,
    CompleteCycle,
}

impl Default for InterestAccrualState {
    /// A job that has not run yet accrues its first period.
    fn default() -> (r: Self)
        ensures
            r == InterestAccrualState::AccruePeriod,
    {
        InterestAccrualState::AccruePeriod
    }
}

/// What the job learnt from the work of its current state.
#[derive(Debug, Clone, Copy, PartialEq, Eq)]
pub enum InterestAccrualOutcome {
    /// A period was accrued; the end of the next period of the cycle, if
    /// the cycle has one.
    PeriodAccrued { next_period_end: Option<i64> },
    /// Whether every obligation of the facility has its status up to date.
    ObligationsChecked { synced: bool },
    /// The cycle was completed; the next cycle and the end of its first
    /// accrual period, unless the facility has matured.
    CycleCompleted { next_cycle: Option<(u128, i64)> },
}

/// What the job does next.
#[derive(Debug, Clone, Copy, PartialEq, Eq)]
pub enum InterestAccrualAction {
    /// Run again at this instant, in the same state.
    RescheduleAt(i64),
    /// Run again after this many seconds, in the same state.
    RescheduleIn(u64),
    /// Record the new state and run it at once.
    RunNow,
    /// Spawn the job of the next cycle, to run at the instant given, and
    /// finish.
    SpawnNextCycle { cycle_id: u128, at: i64 },
    /// Finish: every cycle is done.
    Complete,
}

/// How long the job waits before it looks at the obligations again.
pub const OBLIGATIONS_SYNC_RETRY_SECS: u64 = 300;

/// The outcome is the one that the work of `state` produces.
pub open spec fn outcome_fits(state: InterestAccrualState, outcome: InterestAccrualOutcome) -> bool {
    match state {
        InterestAccrualState::AccruePeriod => outcome is PeriodAccrued,
        InterestAccrualState::AwaitObligationsSync => outcome is ObligationsChecked,
        InterestAccrualState::CompleteCycle => outcome is CycleCompleted,
    }
}

/// The state and action that follow the outcome of a state's work: after
/// a period, the next period's end or, at the end of the cycle, the wait
/// for the obligations; after the wait, another wait of five minutes or
/// the completion of the cycle; after the completion, the next cycle's job
/// or the end.
pub open spec fn accrual_step(
    state: InterestAccrualState,
    outcome: InterestAccrualOutcome,
) -> (InterestAccrualState, InterestAccrualAction) {
    match outcome {
        InterestAccrualOutcome::PeriodAccrued { next_period_end } => match next_period_end {
            Some(end) => (state, InterestAccrualAction::RescheduleAt(end)),
            None => (InterestAccrualState::AwaitObligationsSync, InterestAccrualAction::RunNow),
        },
        InterestAccrualOutcome::ObligationsChecked { synced } => if synced {
            (InterestAccrualState::CompleteCycle, InterestAccrualAction::RunNow)
        } else {
            (state, InterestAccrualAction::RescheduleIn(OBLIGATIONS_SYNC_RETRY_SECS))
        },
        InterestAccrualOutcome::CycleCompleted { next_cycle } => match next_cycle {
            Some((cycle_id, at)) => (state, InterestAccrualAction::SpawnNextCycle { cycle_id, at }),
            None => (state, InterestAccrualAction::Complete),
        },
    }
}

/// The next state of the job and what it does, given the outcome of the
/// work of its current state.
pub fn next_accrual_step(state: InterestAccrualState, outcome: InterestAccrualOutcome) -> (r: (
    InterestAccrualState,
    InterestAccrualAction,
))
    requires
        outcome_fits(state, outcome),
    ensures
        r == accrual_step(state, outcome),
{
    match outcome {
        InterestAccrualOutcome::PeriodAccrued { next_period_end } => match next_period_end {
            Some(end) => (state, InterestAccrualAction::RescheduleAt(end)),
            None => (InterestAccrualState::AwaitObligationsSync, InterestAccrualAction::RunNow),
        },
        InterestAccrualOutcome::ObligationsChecked { synced } => if synced {
            (InterestAccrualState::CompleteCycle, InterestAccrualAction::RunNow)
        } else {
            (state, InterestAccrualAction::RescheduleIn(OBLIGATIONS_SYNC_RETRY_SECS))
        },
        InterestAccrualOutcome::CycleCompleted { next_cycle } => match next_cycle {
            Some((cycle_id, at)) => (state, InterestAccrualAction::SpawnNextCycle { cycle_id, at }),
            None => (state, InterestAccrualAction::Complete),
        },
    }
}

/// The job only ever moves forward through its states: a step keeps the
/// state or goes to a later one, and it moves to another state only by
/// running that state at once.
pub proof fn law_accrual_job_moves_forward(state: InterestAccrualState, outcome: InterestAccrualOutcome)
    requires
        outcome_fits(state, outcome),
    ensures
        ({
            let (next, action) = accrual_step(state, outcome);
            &&& state_rank(next) >= state_rank(state)
            &&& (next != state <==> action == InterestAccrualAction::RunNow)
        }),
{
}

/// The place of a state in the order in which the job goes through them.
pub open spec fn state_rank(s: InterestAccrualState) -> int {
    match s {
        InterestAccrualState::AccruePeriod => 0,
        InterestAccrualState::AwaitObligationsSync => 1,
        InterestAccrualState::CompleteCycle => 2,
    }
}

} // verus!
