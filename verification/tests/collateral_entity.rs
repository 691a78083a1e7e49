use lana_core::collateral::{Collateral, CollateralDirection, CollateralError, NewCollateral};
use lana_core::idempotent::Idempotent;
use lana_core::liquidation::NewLiquidation;

fn new_id() -> u128 {
    uuid::Uuid::new_v4().as_u128()
}

fn today() -> i32 {
    chrono::Datelike::num_days_from_ce(&chrono::Utc::now().date_naive())
}

fn default_new_collateral() -> NewCollateral {
    NewCollateral {
        id: new_id(),
        account_id: new_id(),
        credit_facility_id: new_id(),
        pending_credit_facility_id: new_id(),
        custody_wallet_id: None,
    }
}

fn collateral_from(new_collateral: NewCollateral) -> Collateral {
    Collateral::try_from_events(new_collateral.into_events()).unwrap()
}

fn default_new_liquidation(collateral_id: u128) -> NewLiquidation {
    NewLiquidation {
        id: new_id(),
        collateral_id,
        trigger_price: 5000000,
        initially_expected_to_receive: 1000,
        initially_estimated_to_liquidate: 100000,
    }
}

fn hydrate_liquidations_in_collateral(collateral: &mut Collateral) {
    collateral.hydrate_new_liquidations();
}

#[test]
fn creates_liquidation() {
    let new_collateral = default_new_collateral();
    let collateral_id = new_collateral.id;
    let mut collateral = collateral_from(new_collateral);

    let new_liquidation = default_new_liquidation(collateral_id);
    let liquidation_id = new_liquidation.id;
    let result = collateral.record_liquidation_started(new_liquidation);
    assert!(result.is_ok());
    assert!(result.unwrap().did_execute());

    hydrate_liquidations_in_collateral(&mut collateral);
    assert_eq!(collateral.active_liquidation_id(), Some(liquidation_id));
}

#[test]
fn is_idempotent() {
    let new_collateral = default_new_collateral();
    let collateral_id = new_collateral.id;
    let mut collateral = collateral_from(new_collateral);

    let new_liquidation = default_new_liquidation(collateral_id);
    let liquidation_id = new_liquidation.id;
    collateral.record_liquidation_started(new_liquidation).unwrap();
    hydrate_liquidations_in_collateral(&mut collateral);

    let duplicate_liquidation = NewLiquidation {
        id: liquidation_id,
        collateral_id,
        trigger_price: 5000000,
        initially_expected_to_receive: 1000,
        initially_estimated_to_liquidate: 100000,
    };

    let result = collateral.record_liquidation_started(duplicate_liquidation);
    assert!(result.is_ok());
    assert!(result.unwrap().was_already_applied());
}

#[test]
fn fails_if_active_liquidation_exists() {
    let new_collateral = default_new_collateral();
    let collateral_id = new_collateral.id;
    let mut collateral = collateral_from(new_collateral);

    let new_liquidation = default_new_liquidation(collateral_id);
    collateral.record_liquidation_started(new_liquidation).unwrap();
    hydrate_liquidations_in_collateral(&mut collateral);

    let another_liquidation = default_new_liquidation(collateral_id);
    let result = collateral.record_liquidation_started(another_liquidation);
    assert!(matches!(
        result,
        Err(CollateralError::ActiveLiquidationExists(_))
    ));
}

#[test]
fn completes_liquidation() {
    let new_collateral = default_new_collateral();
    let collateral_id = new_collateral.id;
    let mut collateral = collateral_from(new_collateral);

    let new_liquidation = default_new_liquidation(collateral_id);
    let liquidation_id = new_liquidation.id;
    collateral.record_liquidation_started(new_liquidation).unwrap();
    hydrate_liquidations_in_collateral(&mut collateral);

    let result = collateral.record_liquidation_completed(liquidation_id);
    assert!(result.is_ok());
    assert!(result.unwrap().did_execute());
    assert!(collateral.active_liquidation_id().is_none());
}

#[test]
fn entity_is_idempotent() {
    let new_collateral = default_new_collateral();
    let collateral_id = new_collateral.id;
    let mut collateral = collateral_from(new_collateral);

    let new_liquidation = default_new_liquidation(collateral_id);
    let liquidation_id = new_liquidation.id;
    collateral.record_liquidation_started(new_liquidation).unwrap();
    hydrate_liquidations_in_collateral(&mut collateral);

    collateral.record_liquidation_completed(liquidation_id).unwrap();
    let result = collateral.record_liquidation_completed(liquidation_id);
    assert!(result.is_ok());
    assert!(result.unwrap().was_already_applied());
}

#[test]
fn fails_if_no_active_liquidation() {
    let new_collateral = default_new_collateral();
    let mut collateral = collateral_from(new_collateral);

    let result = collateral.record_liquidation_completed(new_id());
    assert!(matches!(result, Err(CollateralError::NoActiveLiquidation)));
}

#[test]
fn updates_via_active_liquidation() {
    let new_collateral = default_new_collateral();
    let collateral_id = new_collateral.id;
    let mut collateral = collateral_from(new_collateral);

    let initial_amount: u64 = 100000;
    collateral.record_collateral_update_via_manual_input(initial_amount, today());

    let new_liquidation = default_new_liquidation(collateral_id);
    collateral.record_liquidation_started(new_liquidation).unwrap();
    hydrate_liquidations_in_collateral(&mut collateral);

    let amount_to_remove: u64 = 50000;
    let result = collateral.record_collateral_update_via_liquidation(amount_to_remove, today());
    assert!(result.is_ok());
    assert!(result.unwrap().did_execute());
    assert_eq!(collateral.amount, initial_amount - amount_to_remove);
}

#[test]
fn returns_already_applied_for_zero_amount() {
    let new_collateral = default_new_collateral();
    let collateral_id = new_collateral.id;
    let mut collateral = collateral_from(new_collateral);

    let new_liquidation = default_new_liquidation(collateral_id);
    collateral.record_liquidation_started(new_liquidation).unwrap();
    hydrate_liquidations_in_collateral(&mut collateral);

    let result = collateral.record_collateral_update_via_liquidation(0, today());
    assert!(result.is_ok());
    assert!(result.unwrap().was_already_applied());
}

#[test]
fn entity_fails_if_no_active_liquidation() {
    let new_collateral = default_new_collateral();
    let mut collateral = collateral_from(new_collateral);

    let _ = collateral.record_collateral_update_via_manual_input(100000, today());

    let result = collateral.record_collateral_update_via_liquidation(50000, today());
    assert!(matches!(result, Err(CollateralError::NoActiveLiquidation)));
}

#[test]
fn records_proceeds() {
    let new_collateral = default_new_collateral();
    let collateral_id = new_collateral.id;
    let mut collateral = collateral_from(new_collateral);

    let new_liquidation = default_new_liquidation(collateral_id);
    collateral.record_liquidation_started(new_liquidation).unwrap();
    hydrate_liquidations_in_collateral(&mut collateral);

    let result = collateral.record_liquidation_proceeds_received(500);
    assert!(result.is_ok());
    assert!(result.unwrap().did_execute());
}

#[test]
fn entity_fails_if_no_active_liquidation_for_proceeds() {
    let new_collateral = default_new_collateral();
    let mut collateral = collateral_from(new_collateral);

    let result = collateral.record_liquidation_proceeds_received(500);
    assert!(matches!(result, Err(CollateralError::NoActiveLiquidation)));
}

#[test]
fn custodian_sync_records_the_change_once() {
    let mut collateral = collateral_from(default_new_collateral());
    let day = today();
    match collateral.record_collateral_update_via_custodian_sync(5_000, day) {
        Idempotent::Executed(u) => {
            assert_eq!(u.abs_diff, 5_000);
            assert_eq!(u.direction, CollateralDirection::Add);
            assert_eq!(u.effective, day);
        }
        Idempotent::AlreadyApplied => panic!("a new amount must be recorded"),
    }
    assert_eq!(collateral.amount, 5_000);
    let events = collateral.events.len();
    assert!(!collateral.record_collateral_update_via_custodian_sync(5_000, day).did_execute());
    assert_eq!(collateral.events.len(), events);
    match collateral.record_collateral_update_via_custodian_sync(2_000, day) {
        Idempotent::Executed(u) => {
            assert_eq!(u.abs_diff, 3_000);
            assert_eq!(u.direction, CollateralDirection::Remove);
        }
        Idempotent::AlreadyApplied => panic!("a lower amount must be recorded"),
    }
    assert_eq!(collateral.amount, 2_000);
}

#[test]
fn manual_updates_are_refused_for_custodied_collateral() {
    let mut custodied = collateral_from(NewCollateral { custody_wallet_id: Some(new_id()), ..default_new_collateral() });
    let events = custodied.events.len();
    assert!(matches!(
        custodied.record_manual_update_unless_custodied(1_000, today()),
        Err(CollateralError::ManualUpdateError)
    ));
    assert_eq!(custodied.events.len(), events);
    assert_eq!(custodied.amount, 0);

    let mut held = collateral_from(default_new_collateral());
    let result = held.record_manual_update_unless_custodied(1_000, today()).unwrap();
    assert!(result.did_execute());
    assert_eq!(held.amount, 1_000);
    assert!(!held.record_manual_update_unless_custodied(1_000, today()).unwrap().did_execute());
}
