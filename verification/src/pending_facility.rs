//! Completing a pending credit facility: what the service makes of the
//! entity's answer once the facility's balances and the price are known.
use vstd::prelude::*;
use crate::idempotent::Idempotent;
use crate::ids::{uuid_text, uuid_to_string};
use crate::text::concat_str;

verus! {

/// The name of the custody wallet created for the collateral of a pending
/// facility: `CF ` and the facility's id in its hyphenated form.
pub fn collateral_wallet_name(pending_facility_id: u128) -> (r: String)
    ensures
        r@ == "CF "@ + uuid_text(pending_facility_id),
{
    let id = uuid_to_string(pending_facility_id);
    concat_str("CF ", id.as_str())
}

/// The facility and the first disbursal that completing a pending
/// facility creates.
#[derive(Debug)]
pub struct NewCreditFacilityWithInitialDisbursal<F, D> {
    pub new_credit_facility: F,
    pub initial_disbursal: Option<D>,
}

/// Why a pending facility could not be completed: its collateral is below
/// the margin limit, or another failure `E` of the entity or its stores.
#[derive(Debug)]
pub enum PendingCreditFacilityError<E> {
    BelowMarginLimit,
    Other(E),
}

/// What completing a pending facility gave: nothing to do, or the facility
/// (and its first disbursal, if any) to create.
#[derive(Debug)]
pub enum PendingCreditFacilityCompletionOutcome<F, D> {
    Ignored,
    Completed { new_credit_facility: F, initial_disbursal: Option<D> },
}

/// What the service does with the entity's answer: whether it stores the
/// updated entity, and what it returns.
#[derive(Debug)]
pub struct CompletionDecision<F, D, E> {
    pub store_entity: bool,
    pub result: Result<PendingCreditFacilityCompletionOutcome<F, D>, PendingCreditFacilityError<E>>,
}

/// A completion that executed is stored and returns what it created; one
/// already applied, or refused for being below the margin limit, is
/// ignored; any other failure is returned.
pub fn completion_decision<F, D, E>(
    completed: Result<Idempotent<NewCreditFacilityWithInitialDisbursal<F, D>>, PendingCreditFacilityError<E>>,
) -> (r: CompletionDecision<F, D, E>)
    ensures
        match completed {
            Ok(Idempotent::Executed(n)) => r.store_entity && r.result == Ok::<
                PendingCreditFacilityCompletionOutcome<F, D>,
                PendingCreditFacilityError<E>,
            >(
                PendingCreditFacilityCompletionOutcome::Completed {
                    new_credit_facility: n.new_credit_facility,
                    initial_disbursal: n.initial_disbursal,
                },
            ),
            Ok(Idempotent::AlreadyApplied) | Err(PendingCreditFacilityError::BelowMarginLimit) => !r.store_entity
                && r.result == Ok::<
                PendingCreditFacilityCompletionOutcome<F, D>,
                PendingCreditFacilityError<E>,
            >(PendingCreditFacilityCompletionOutcome::Ignored),
            Err(PendingCreditFacilityError::Other(e)) => !r.store_entity && r.result == Err::<
                PendingCreditFacilityCompletionOutcome<F, D>,
                PendingCreditFacilityError<E>,
            >(PendingCreditFacilityError::Other(e)),
        },
{
    match completed {
        Ok(Idempotent::Executed(NewCreditFacilityWithInitialDisbursal { new_credit_facility, initial_disbursal })) => {
            CompletionDecision {
                store_entity: true,
                result: Ok(PendingCreditFacilityCompletionOutcome::Completed { new_credit_facility, initial_disbursal }),
            }
        },
        Ok(Idempotent::AlreadyApplied) | Err(PendingCreditFacilityError::BelowMarginLimit) => CompletionDecision {
            store_entity: false,
            result: Ok(PendingCreditFacilityCompletionOutcome::Ignored),
        },
        Err(PendingCreditFacilityError::Other(e)) => CompletionDecision {
            store_entity: false,
            result: Err(PendingCreditFacilityError::Other(e)),
        },
    }
}

} // verus!
