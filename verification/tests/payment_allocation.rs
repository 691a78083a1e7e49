use lana_core::payment_allocation::{allocate_payment, AllocationDraft, OutstandingObligation};

fn ob(id: u128, outstanding: u64) -> OutstandingObligation {
    OutstandingObligation { id, outstanding }
}

#[test]
fn a_payment_covers_obligations_in_turn() {
    let obligations = vec![ob(1, 300), ob(2, 0), ob(3, 500), ob(4, 200)];
    assert_eq!(
        allocate_payment(&obligations, 600),
        vec![AllocationDraft { obligation_id: 1, amount: 300 }, AllocationDraft { obligation_id: 3, amount: 300 }]
    );
}

#[test]
fn a_payment_larger_than_what_is_owed_pays_everything() {
    let obligations = vec![ob(1, 300), ob(2, 200)];
    let allocations = allocate_payment(&obligations, 1_000);
    assert_eq!(
        allocations,
        vec![AllocationDraft { obligation_id: 1, amount: 300 }, AllocationDraft { obligation_id: 2, amount: 200 }]
    );
    assert_eq!(allocations.iter().map(|a| a.amount).sum::<u64>(), 500);
}

#[test]
fn nothing_is_allocated_from_nothing() {
    assert!(allocate_payment(&vec![ob(1, 300)], 0).is_empty());
    assert!(allocate_payment(&vec![], 100).is_empty());
}
