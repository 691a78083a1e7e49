//! The public events of credit facilities and of the collection of their
//! obligations, as the projections of this crate read them. Instants are
//! seconds since the Unix epoch, days count from the start of the common
//! era, money is in cents and collateral in satoshis.
use vstd::prelude::*;
use crate::collateral::CollateralDirection;
use crate::terms::InterestPeriod;

verus! {

/// How well a facility's collateral covers what is owed.
#[derive(Debug, Clone, Copy, PartialEq, Eq)]
pub enum CollateralizationState {
    FullyCollateralized,
    UnderMarginCallThreshold,
    UnderLiquidationThreshold,
    NoCollateral,
    NoExposure,
}

/// How well a pending facility's collateral covers its amount.
#[derive(Debug, Clone, Copy, PartialEq, Eq)]
pub enum PendingCreditFacilityCollateralizationState {
    FullyCollateralized,
    UnderCollateralized,
}

/// What is still owed on a facility, by kind.
#[derive(Debug, Clone, Copy, PartialEq, Eq)]
pub struct ObligationsOutstanding {
    pub disbursed: u64,
    pub interest: u64,
}

/// Public events of credit facilities.
#[derive(Debug, Clone, Copy, PartialEq, Eq)]
pub enum CoreCreditEvent {
    FacilityProposalCreated { id: u128, terms: crate::terms::TermValues, amount: u64, created_at: i64 },
    FacilityProposalConcluded { id: u128, status: crate::credit_primitives::CreditFacilityProposalStatus },
    FacilityActivated { id: u128, activation_tx_id: u128, activated_at: i64, amount: u64 },
    FacilityCompleted { id: u128, completed_at: i64 },
    FacilityCollateralUpdated {
        credit_facility_id: u128,
        ledger_tx_id: u128,
        new_amount: u64,
        abs_diff: u64,
        direction: CollateralDirection,
        recorded_at: i64,
        effective: i32,
    },
    FacilityCollateralizationChanged {
        id: u128,
        state: CollateralizationState,
        recorded_at: i64,
        effective: i32,
        collateral: u64,
        outstanding: ObligationsOutstanding,
        price: u64,
    },
    DisbursalSettled {
        credit_facility_id: u128,
        amount: u64,
        ledger_tx_id: u128,
        recorded_at: i64,
        effective: i32,
    },
    AccrualPosted {
        credit_facility_id: u128,
        ledger_tx_id: u128,
        amount: u64,
        period: InterestPeriod,
        due_at: i32,
        recorded_at: i64,
        effective: i32,
    },
    PendingCreditFacilityCollateralizationChanged {
        id: u128,
        state: PendingCreditFacilityCollateralizationState,
        collateral: u64,
        price: u64,
        recorded_at: i64,
        effective: i32,
    },
    PendingCreditFacilityCompleted { id: u128, recorded_at: i64 },
    PartialLiquidationInitiated {
        credit_facility_id: u128,
        collateral_id: u128,
        trigger_price: u64,
        initially_expected_to_receive: u64,
        initially_estimated_to_liquidate: u64,
    },
    PartialLiquidationCollateralSentOut {
        credit_facility_id: u128,
        amount: u64,
        ledger_tx_id: u128,
        recorded_at: i64,
        effective: i32,
    },
    PartialLiquidationProceedsReceived {
        credit_facility_id: u128,
        liquidation_id: u128,
        payment_id: u128,
        amount: u64,
        ledger_tx_id: u128,
        recorded_at: i64,
        effective: i32,
    },
    PartialLiquidationCompleted { credit_facility_id: u128 },
}

/// What an obligation is for.
#[derive(Debug, Clone, Copy, PartialEq, Eq)]
pub enum ObligationType {
    Disbursal,
    Interest,
}

/// An obligation as it is published.
#[derive(Debug, Clone, Copy, PartialEq, Eq)]
pub struct PublicObligation {
    pub id: u128,
    pub obligation_type: ObligationType,
    pub beneficiary_id: u128,
    pub amount: u64,
    pub due_at: i32,
    pub overdue_at: Option<i32>,
    pub defaulted_at: Option<i32>,
    pub recorded_at: i64,
    pub effective: i32,
}

/// A payment allocated to an obligation, as it is published.
#[derive(Debug, Clone, Copy, PartialEq, Eq)]
pub struct PublicPaymentAllocation {
    pub id: u128,
    pub obligation_id: u128,
    pub obligation_type: ObligationType,
    pub beneficiary_id: u128,
    pub amount: u64,
    pub recorded_at: i64,
    pub effective: i32,
}

/// A payment received, as it is published.
#[derive(Debug, Clone, Copy, PartialEq, Eq)]
pub struct PublicPayment {
    pub id: u128,
    pub beneficiary_id: u128,
    pub amount: u64,
    pub recorded_at: i64,
    pub effective: i32,
}

/// Public events of the collection of obligations.
#[derive(Debug, Clone, Copy, PartialEq, Eq)]
pub enum CoreCreditCollectionEvent {
    PaymentReceived { entity: PublicPayment },
    PaymentAllocated { entity: PublicPaymentAllocation },
    ObligationCreated { entity: PublicObligation },
    ObligationDue { entity: PublicObligation },
    ObligationOverdue { entity: PublicObligation },
    ObligationDefaulted { entity: PublicObligation },
    ObligationCompleted { entity: PublicObligation },
}

} // verus!
