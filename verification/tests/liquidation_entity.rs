use lana_core::liquidation::{Liquidation, NewLiquidation};

fn default_new_liquidation() -> NewLiquidation {
    NewLiquidation {
        id: uuid::Uuid::new_v4().as_u128(),
        collateral_id: uuid::Uuid::new_v4().as_u128(),
        trigger_price: 5000000,
        initially_expected_to_receive: 1000,
        initially_estimated_to_liquidate: 100000,
    }
}

fn liquidation_from(new_liquidation: NewLiquidation) -> Liquidation {
    Liquidation::try_from_events(new_liquidation.into_events()).unwrap()
}

#[test]
fn record_collateral_sent_out_updates_sent_total() {
    let mut liquidation = liquidation_from(default_new_liquidation());
    assert_eq!(liquidation.sent_total, 0);

    let amount: u64 = 50000;
    let result = liquidation.record_collateral_sent_out(amount);
    assert!(result.did_execute());
    assert_eq!(liquidation.sent_total, amount);

    let amount2: u64 = 30000;
    liquidation.record_collateral_sent_out(amount2).unwrap();
    assert_eq!(liquidation.sent_total, amount + amount2);
}

#[test]
fn collateral_sent_out_returns_correct_list() {
    let mut liquidation = liquidation_from(default_new_liquidation());

    let amount1: u64 = 50000;
    let amount2: u64 = 30000;
    liquidation.record_collateral_sent_out(amount1).unwrap();
    liquidation.record_collateral_sent_out(amount2).unwrap();

    let sent_out = liquidation.collateral_sent_out();
    assert_eq!(sent_out.len(), 2);
    assert_eq!(sent_out[0].0, amount1);
    assert_eq!(sent_out[1].0, amount2);
}

#[test]
fn record_proceeds_from_liquidation_is_idempotent() {
    let mut liquidation = liquidation_from(default_new_liquidation());

    let amount: u64 = 500;
    let result = liquidation.record_proceeds_from_liquidation(amount);
    assert!(result.did_execute());
    assert_eq!(liquidation.amount_received, amount);

    let result2 = liquidation.record_proceeds_from_liquidation(amount);
    assert!(result2.was_already_applied());
    assert_eq!(liquidation.amount_received, amount);
}

#[test]
fn complete_is_idempotent() {
    let mut liquidation = liquidation_from(default_new_liquidation());
    assert!(!liquidation.is_completed());

    let result = liquidation.complete();
    assert!(result.did_execute());
    assert!(liquidation.is_completed());

    let result2 = liquidation.complete();
    assert!(result2.was_already_applied());
    assert!(liquidation.is_completed());
}

#[test]
fn is_completed_returns_false_for_new_liquidation() {
    let liquidation = liquidation_from(default_new_liquidation());
    assert!(!liquidation.is_completed());
}

#[test]
fn proceeds_received_returns_correct_list() {
    let mut liquidation = liquidation_from(default_new_liquidation());

    let amount1: u64 = 500;
    let amount2: u64 = 300;
    liquidation.record_proceeds_from_liquidation(amount1).unwrap();
    liquidation.record_proceeds_from_liquidation(amount2).unwrap();

    let received = liquidation.proceeds_received();
    assert_eq!(received.len(), 2);
    assert_eq!(received[0].0, amount1);
    assert_eq!(received[1].0, amount2);
}

#[test]
fn proceeds_of_an_amount_already_received_are_ignored() {
    let mut liquidation = liquidation_from(default_new_liquidation());
    let tx = liquidation.record_proceeds_from_liquidation(500).unwrap();
    liquidation.record_proceeds_from_liquidation(300).unwrap();
    assert_eq!(liquidation.amount_received, 300);
    assert!(liquidation.record_proceeds_from_liquidation(500).was_already_applied());
    assert_eq!(liquidation.amount_received, 300);
    let received = liquidation.proceeds_received();
    assert_eq!(received.len(), 2);
    assert_eq!(received[0], (500, tx));
}

#[test]
fn hydrating_from_events_gives_the_same_totals() {
    let mut liquidation = liquidation_from(default_new_liquidation());
    liquidation.record_collateral_sent_out(40).unwrap();
    liquidation.record_collateral_sent_out(2).unwrap();
    liquidation.record_proceeds_from_liquidation(7).unwrap();
    let rebuilt = Liquidation::try_from_events(liquidation.events.clone()).unwrap();
    assert_eq!(rebuilt.sent_total, 42);
    assert_eq!(rebuilt.amount_received, 7);
    assert_eq!(rebuilt.expected_to_receive, 1000);
    assert!(Liquidation::try_from_events(vec![]).is_err());
}
