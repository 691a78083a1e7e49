//! The collateral of a credit facility: its amount in satoshis, how it was
//! updated, and the liquidations started on it, kept as a log of events.
use vstd::prelude::*;
use crate::idempotent::{HydrationError, Idempotent};
use crate::ids::new_random_id;
use crate::liquidation::{has_completed, replay_liquidation, Liquidation, LiquidationEvent, NewLiquidation};

verus! {

/// Whether collateral was added or removed.
#[derive(Debug, Clone, Copy, PartialEq, Eq)]
pub enum CollateralDirection {
    Add,
    Remove,
}

/// A change of collateral to post to the ledger; `effective` is the
/// day of the change, counted from the start of the common era (day 1 is
/// 0001-01-01).
#[derive(Debug, Clone, Copy)]
pub struct CollateralUpdate {
    pub tx_id: u128,
    pub abs_diff: u64,
    pub direction: CollateralDirection,
    pub effective: i32,
}

/// Why a collateral command was refused.
#[derive(Debug, Clone, Copy, PartialEq, Eq)]
pub enum CollateralError {
    ManualUpdateError,
    NoActiveLiquidation,
    ActiveLiquidationExists(u128),
    NoLiquidationsFound,
}

/// What happened to a collateral.
#[derive(Debug, Clone, Copy, PartialEq, Eq)]
pub enum CollateralEvent {
    Initialized {
        id: u128,
        account_id: u128,
        credit_facility_id: u128,
        pending_credit_facility_id: u128,
        custody_wallet_id: Option<u128>,
    },
    UpdatedViaManualInput {
        ledger_tx_id: u128,
        collateral_amount: u64,
        abs_diff: u64,
        direction: CollateralDirection,
    },
    UpdatedViaCustodianSync {
        ledger_tx_id: u128,
        collateral_amount: u64,
        abs_diff: u64,
        direction: CollateralDirection,
    },
    UpdatedViaLiquidation {
        liquidation_id: u128,
        collateral_amount: u64,
        abs_diff: u64,
        direction: CollateralDirection,
    },
    LiquidationStarted { liquidation_id: u128 },
    LiquidationCompleted { liquidation_id: u128 },
}

/// What replaying a collateral's events gives: the event that created it, if
/// any, and the amount.
pub struct CollateralReplay {
    pub initialized: Option<CollateralEvent>,
    pub amount: u64,
}

/// Replays events in order: `Initialized` sets the ids and an amount of
/// zero, each update sets the amount it reached.
pub open spec fn replay_collateral(events: Seq<CollateralEvent>) -> CollateralReplay
    decreases events.len(),
{
    if events.len() == 0 {
        CollateralReplay { initialized: None, amount: 0 }
    } else {
        let prev = replay_collateral(events.drop_last());
        match events.last() {
            CollateralEvent::Initialized { .. } => CollateralReplay {
                initialized: Some(events.last()),
                amount: 0,
            },
            CollateralEvent::UpdatedViaManualInput { collateral_amount, .. } => CollateralReplay {
                amount: collateral_amount,
                ..prev
            },
            CollateralEvent::UpdatedViaCustodianSync { collateral_amount, .. } => CollateralReplay {
                amount: collateral_amount,
                ..prev
            },
            CollateralEvent::UpdatedViaLiquidation { collateral_amount, .. } => CollateralReplay {
                amount: collateral_amount,
                ..prev
            },
            _ => prev,
        }
    }
}

/// The liquidation in progress after the events: the last one started,
/// unless a completion of that same liquidation followed.
pub open spec fn active_liquidation_of(events: Seq<CollateralEvent>) -> Option<u128>
    decreases events.len(),
{
    if events.len() == 0 {
        None
    } else {
        let prev = active_liquidation_of(events.drop_last());
        match events.last() {
            CollateralEvent::LiquidationStarted { liquidation_id } => Some(liquidation_id),
            CollateralEvent::LiquidationCompleted { liquidation_id } => if prev == Some(liquidation_id) {
                None
            } else {
                prev
            },
            _ => prev,
        }
    }
}

/// A liquidation with this id was started.
pub open spec fn started(events: Seq<CollateralEvent>, liquidation_id: u128) -> bool {
    exists|i: int| 0 <= i < events.len() && #[trigger] events[i] == (CollateralEvent::LiquidationStarted {
        liquidation_id,
    })
}

/// A liquidation with this id was completed.
pub open spec fn completed(events: Seq<CollateralEvent>, liquidation_id: u128) -> bool {
    exists|i: int| 0 <= i < events.len() && #[trigger] events[i] == (CollateralEvent::LiquidationCompleted {
        liquidation_id,
    })
}

/// The first index of a loaded liquidation with the id, if any.
pub open spec fn slot_of(liquidations: Seq<Liquidation>, id: u128) -> Option<int> {
    if exists|i: int| 0 <= i < liquidations.len() && (#[trigger] liquidations[i]).id == id {
        Some(
            choose|i: int|
                0 <= i < liquidations.len() && (#[trigger] liquidations[i]).id == id && forall|j: int|
                    0 <= j < i ==> (#[trigger] liquidations[j]).id != id,
        )
    } else {
        None
    }
}

/// The size of a change from `from` to `to`, and its direction.
pub open spec fn change_of(from: u64, to: u64) -> (u64, CollateralDirection) {
    if to < from {
        ((from - to) as u64, CollateralDirection::Remove)
    } else {
        ((to - from) as u64, CollateralDirection::Add)
    }
}

/// A collateral update records the size of the change and its direction:
/// adding the recorded amount to the old collateral (or removing it, for a
/// removal) gives the new collateral, and a removal removes something.
pub proof fn law_change_leads_from_old_to_new(from: u64, to: u64)
    ensures
        ({
            let (abs_diff, direction) = change_of(from, to);
            &&& direction == CollateralDirection::Add ==> to == from + abs_diff
            &&& direction == CollateralDirection::Remove ==> to == from - abs_diff && abs_diff > 0
        }),
{
}

/// The collateral of a credit facility.
#[derive(Debug)]
pub struct Collateral {
    pub id: u128,
    pub account_id: u128,
    pub credit_facility_id: u128,
    pub pending_credit_facility_id: u128,
    pub custody_wallet_id: Option<u128>,
    pub amount: u64,
    /// The liquidations loaded with the collateral.
    pub liquidations: Vec<Liquidation>,
    /// The liquidations started since the collateral was loaded, not yet
    /// saved.
    pub new_liquidations: Vec<NewLiquidation>,
    /// The events of the collateral, oldest first.
    pub events: Vec<CollateralEvent>,
}

/// What creates a collateral.
#[derive(Debug, Clone, Copy)]
pub struct NewCollateral {
    pub id: u128,
    pub account_id: u128,
    pub credit_facility_id: u128,
    pub pending_credit_facility_id: u128,
    pub custody_wallet_id: Option<u128>,
}

impl NewCollateral {
    /// The event that creates the collateral.
    pub open spec fn initialized_event(self) -> CollateralEvent {
        CollateralEvent::Initialized {
            id: self.id,
            account_id: self.account_id,
            credit_facility_id: self.credit_facility_id,
            pending_credit_facility_id: self.pending_credit_facility_id,
            custody_wallet_id: self.custody_wallet_id,
        }
    }

    /// The events of a new collateral: the one that creates it.
    pub fn into_events(self) -> (r: Vec<CollateralEvent>)
        ensures
            r@ == seq![self.initialized_event()],
    {
        let mut v: Vec<CollateralEvent> = Vec::new();
        v.push(
            CollateralEvent::Initialized {
                id: self.id,
                account_id: self.account_id,
                credit_facility_id: self.credit_facility_id,
                pending_credit_facility_id: self.pending_credit_facility_id,
                custody_wallet_id: self.custody_wallet_id,
            },
        );
        assert(v@ =~= seq![self.initialized_event()]);
        v
    }
}

impl Collateral {
    /// The fields agree with a replay of the events.
    pub open spec fn hydrated(&self) -> bool {
        let r = replay_collateral(self.events@);
        &&& r.initialized == Some(CollateralEvent::Initialized {
            id: self.id,
            account_id: self.account_id,
            credit_facility_id: self.credit_facility_id,
            pending_credit_facility_id: self.pending_credit_facility_id,
            custody_wallet_id: self.custody_wallet_id,
        })
        &&& r.amount == self.amount
    }

    /// The loaded liquidation that is in progress, if it is loaded.
    pub open spec fn active_slot(&self) -> Option<int> {
        match active_liquidation_of(self.events@) {
            Some(id) => slot_of(self.liquidations@, id),
            None => None,
        }
    }

    /// Only the amount and the events changed.
    pub open spec fn same_identity(&self, other: &Collateral) -> bool {
        &&& self.id == other.id
        &&& self.account_id == other.account_id
        &&& self.credit_facility_id == other.credit_facility_id
        &&& self.pending_credit_facility_id == other.pending_credit_facility_id
        &&& self.custody_wallet_id == other.custody_wallet_id
    }

    /// Rebuilds a collateral from its events, with no liquidation loaded;
    /// fails when no event creates it.
    pub fn try_from_events(events: Vec<CollateralEvent>) -> (r: Result<Collateral, HydrationError>)
        ensures
            replay_collateral(events@).initialized is Some <==> r is Ok,
            r matches Ok(c) ==> c.hydrated() && c.events@ == events@ && c.liquidations@.len() == 0
                && c.new_liquidations@.len() == 0,
            r matches Err(e) ==> e == HydrationError::MissingInitializedEvent,
    {
        let mut init: Option<CollateralEvent> = None;
        let mut amount: u64 = 0;
        let mut i: usize = 0;
        while i < events.len()
            invariant
                i <= events.len(),
                replay_collateral(events@.take(i as int)).initialized == init,
                replay_collateral(events@.take(i as int)).amount == amount,
                init matches Some(e) ==> e is Initialized,
            decreases events.len() - i,
        {
            proof { assert(events@.take(i + 1).drop_last() =~= events@.take(i as int)); }
            let e = events[i];
            match e {
                CollateralEvent::Initialized { .. } => {
                    init = Some(e);
                    amount = 0;
                },
                CollateralEvent::UpdatedViaManualInput { collateral_amount, .. } => {
                    amount = collateral_amount;
                },
                CollateralEvent::UpdatedViaCustodianSync { collateral_amount, .. } => {
                    amount = collateral_amount;
                },
                CollateralEvent::UpdatedViaLiquidation { collateral_amount, .. } => {
                    amount = collateral_amount;
                },
                _ => {},
            }
            i = i + 1;
        }
        assert(events@.take(events@.len() as int) =~= events@);
        match init {
            Some(
                CollateralEvent::Initialized {
                    id,
                    account_id,
                    credit_facility_id,
                    pending_credit_facility_id,
                    custody_wallet_id,
                },
            ) => Ok(
                Collateral {
                    id,
                    account_id,
                    credit_facility_id,
                    pending_credit_facility_id,
                    custody_wallet_id,
                    amount,
                    liquidations: Vec::new(),
                    new_liquidations: Vec::new(),
                    events,
                },
            ),
            _ => Err(HydrationError::MissingInitializedEvent),
        }
    }

    /// The liquidation in progress, if any.
    pub fn active_liquidation_id(&self) -> (r: Option<u128>)
        ensures
            r == active_liquidation_of(self.events@),
    {
        let mut active: Option<u128> = None;
        let mut i: usize = 0;
        while i < self.events.len()
            invariant
                i <= self.events.len(),
                active == active_liquidation_of(self.events@.take(i as int)),
            decreases self.events.len() - i,
        {
            proof { assert(self.events@.take(i + 1).drop_last() =~= self.events@.take(i as int)); }
            match self.events[i] {
                CollateralEvent::LiquidationStarted { liquidation_id } => {
                    active = Some(liquidation_id);
                },
                CollateralEvent::LiquidationCompleted { liquidation_id } => {
                    if active == Some(liquidation_id) {
                        active = None;
                    }
                },
                _ => {},
            }
            i = i + 1;
        }
        assert(self.events@.take(self.events@.len() as int) =~= self.events@);
        active
    }

    fn find_loaded(&self, id: u128) -> (r: Option<usize>)
        ensures
            r matches Some(i) ==> slot_of(self.liquidations@, id) == Some(i as int) && i < self.liquidations@.len(),
            r is None ==> slot_of(self.liquidations@, id) is None,
    {
        let mut i: usize = 0;
        while i < self.liquidations.len()
            invariant
                i <= self.liquidations.len(),
                forall|j: int| 0 <= j < i ==> (#[trigger] self.liquidations@[j]).id != id,
            decreases self.liquidations.len() - i,
        {
            if self.liquidations[i].id == id {
                proof {
                    let ls = self.liquidations@;
                    assert(ls[i as int].id == id);
                    let k = choose|k: int|
                        0 <= k < ls.len() && (#[trigger] ls[k]).id == id && forall|j: int|
                            0 <= j < k ==> (#[trigger] ls[j]).id != id;
                    if k < i {
                    } else if k > i {
                        assert(ls[i as int].id != id);
                    }
                }
                return Some(i);
            }
            i = i + 1;
        }
        None
    }

    /// The collateral after an update to `new_amount` recorded by `event`:
    /// same identity and liquidations, new amount, one more event.
    pub open spec fn updated_to(&self, old: &Collateral, new_amount: u64, event: CollateralEvent) -> bool {
        &&& self.same_identity(old)
        &&& self.liquidations == old.liquidations
        &&& self.new_liquidations == old.new_liquidations
        &&& self.amount == new_amount
        &&& self.events@ == old.events@.push(event)
    }

    fn apply_update(&mut self, new_amount: u64, effective: i32, via_custodian: bool) -> (r: Idempotent<CollateralUpdate>)
        ensures
            new_amount == old(self).amount ==> r is AlreadyApplied && *final(self) == *old(self),
            new_amount != old(self).amount ==> (r matches Idempotent::Executed(u) && ({
                let (abs_diff, direction) = change_of(old(self).amount, new_amount);
                &&& u.abs_diff == abs_diff
                &&& u.direction == direction
                &&& u.effective == effective
                &&& final(self).updated_to(
                    old(self),
                    new_amount,
                    if via_custodian {
                        CollateralEvent::UpdatedViaCustodianSync {
                            ledger_tx_id: u.tx_id,
                            collateral_amount: new_amount,
                            abs_diff,
                            direction,
                        }
                    } else {
                        CollateralEvent::UpdatedViaManualInput {
                            ledger_tx_id: u.tx_id,
                            collateral_amount: new_amount,
                            abs_diff,
                            direction,
                        }
                    },
                )
            })),
    {
        let current = self.amount;
        let (abs_diff, direction) = if new_amount < current {
            (current - new_amount, CollateralDirection::Remove)
        } else if new_amount > current {
            (new_amount - current, CollateralDirection::Add)
        } else {
            return Idempotent::AlreadyApplied;
        };
        let tx_id = new_random_id();
        let event = if via_custodian {
            CollateralEvent::UpdatedViaCustodianSync {
                ledger_tx_id: tx_id,
                abs_diff,
                collateral_amount: new_amount,
                direction,
            }
        } else {
            CollateralEvent::UpdatedViaManualInput {
                ledger_tx_id: tx_id,
                abs_diff,
                collateral_amount: new_amount,
                direction,
            }
        };
        self.events.push(event);
        self.amount = new_amount;
        Idempotent::Executed(CollateralUpdate { tx_id, abs_diff, direction, effective })
    }

    /// Sets the amount reported by the custodian. Nothing happens when it is
    /// the current amount; otherwise the change is recorded under a fresh
    /// transaction id and returned.
    pub fn record_collateral_update_via_custodian_sync(&mut self, new_amount: u64, effective: i32) -> (r: Idempotent<CollateralUpdate>)
        ensures
            new_amount == old(self).amount ==> r is AlreadyApplied && *final(self) == *old(self),
            new_amount != old(self).amount ==> (r matches Idempotent::Executed(u) && ({
                let (abs_diff, direction) = change_of(old(self).amount, new_amount);
                &&& u.abs_diff == abs_diff
                &&& u.direction == direction
                &&& u.effective == effective
                &&& final(self).updated_to(
                    old(self),
                    new_amount,
                    CollateralEvent::UpdatedViaCustodianSync {
                        ledger_tx_id: u.tx_id,
                        collateral_amount: new_amount,
                        abs_diff,
                        direction,
                    },
                )
            })),
            old(self).hydrated() ==> final(self).hydrated(),
    {
        let r = self.apply_update(new_amount, effective, true);
        proof {
            if new_amount != old(self).amount {
                assert(self.events@.drop_last() =~= old(self).events@);
            }
            lemma_replay_push_same_init(old(self).events@, self.events@);
        }
        r
    }

    /// Sets the amount entered by an operator. Nothing happens when it is
    /// the current amount; otherwise the change is recorded under a fresh
    /// transaction id and returned.
    pub fn record_collateral_update_via_manual_input(&mut self, new_amount: u64, effective: i32) -> (r: Idempotent<CollateralUpdate>)
        ensures
            new_amount == old(self).amount ==> r is AlreadyApplied && *final(self) == *old(self),
            new_amount != old(self).amount ==> (r matches Idempotent::Executed(u) && ({
                let (abs_diff, direction) = change_of(old(self).amount, new_amount);
                &&& u.abs_diff == abs_diff
                &&& u.direction == direction
                &&& u.effective == effective
                &&& final(self).updated_to(
                    old(self),
                    new_amount,
                    CollateralEvent::UpdatedViaManualInput {
                        ledger_tx_id: u.tx_id,
                        collateral_amount: new_amount,
                        abs_diff,
                        direction,
                    },
                )
            })),
            old(self).hydrated() ==> final(self).hydrated(),
    {
        let r = self.apply_update(new_amount, effective, false);
        proof {
            if new_amount != old(self).amount {
                assert(self.events@.drop_last() =~= old(self).events@);
            }
            lemma_replay_push_same_init(old(self).events@, self.events@);
        }
        r
    }

    /// An operator's update of the amount: refused with `ManualUpdateError`
    /// for a collateral held in a custody wallet, whose amount the custodian
    /// reports; otherwise recorded as
    /// `record_collateral_update_via_manual_input` records it.
    pub fn record_manual_update_unless_custodied(&mut self, new_amount: u64, effective: i32) -> (r: Result<
        Idempotent<CollateralUpdate>,
        CollateralError,
    >)
        ensures
            old(self).custody_wallet_id is Some ==> r == Err::<Idempotent<CollateralUpdate>, CollateralError>(
                CollateralError::ManualUpdateError,
            ) && *final(self) == *old(self),
            old(self).custody_wallet_id is None && new_amount == old(self).amount ==> r == Ok::<
                Idempotent<CollateralUpdate>,
                CollateralError,
            >(Idempotent::AlreadyApplied) && *final(self) == *old(self),
            old(self).custody_wallet_id is None && new_amount != old(self).amount ==> (r matches Ok(
                Idempotent::Executed(u),
            ) && ({
                let (abs_diff, direction) = change_of(old(self).amount, new_amount);
                &&& u.abs_diff == abs_diff
                &&& u.direction == direction
                &&& u.effective == effective
                &&& final(self).updated_to(
                    old(self),
                    new_amount,
                    CollateralEvent::UpdatedViaManualInput {
                        ledger_tx_id: u.tx_id,
                        collateral_amount: new_amount,
                        abs_diff,
                        direction,
                    },
                )
            })),
            old(self).hydrated() ==> final(self).hydrated(),
    {
        if self.custody_wallet_id.is_some() {
            return Err(CollateralError::ManualUpdateError);
        }
        Ok(self.record_collateral_update_via_manual_input(new_amount, effective))
    }

    /// Whether a liquidation with this id was ever started.
    fn has_started(&self, liquidation_id: u128) -> (r: bool)
        ensures
            r == started(self.events@, liquidation_id),
    {
        let mut i: usize = 0;
        while i < self.events.len()
            invariant
                i <= self.events.len(),
                forall|j: int| 0 <= j < i ==> #[trigger] self.events@[j] != (CollateralEvent::LiquidationStarted {
                    liquidation_id,
                }),
            decreases self.events.len() - i,
        {
            if let CollateralEvent::LiquidationStarted { liquidation_id: id } = self.events[i] {
                if id == liquidation_id {
                    assert(self.events@[i as int] == CollateralEvent::LiquidationStarted { liquidation_id });
                    return true;
                }
            }
            i = i + 1;
        }
        false
    }

    /// Whether a liquidation with this id was ever completed.
    fn has_completed_liquidation(&self, liquidation_id: u128) -> (r: bool)
        ensures
            r == completed(self.events@, liquidation_id),
    {
        let mut i: usize = 0;
        while i < self.events.len()
            invariant
                i <= self.events.len(),
                forall|j: int| 0 <= j < i ==> #[trigger] self.events@[j] != (CollateralEvent::LiquidationCompleted {
                    liquidation_id,
                }),
            decreases self.events.len() - i,
        {
            if let CollateralEvent::LiquidationCompleted { liquidation_id: id } = self.events[i] {
                if id == liquidation_id {
                    assert(self.events@[i as int] == CollateralEvent::LiquidationCompleted { liquidation_id });
                    return true;
                }
            }
            i = i + 1;
        }
        false
    }

    /// Only the liquidation at `i` and the events may have changed.
    pub open spec fn same_but_liquidation(&self, old: &Collateral, i: int) -> bool {
        &&& self.same_identity(old)
        &&& self.new_liquidations == old.new_liquidations
        &&& self.liquidations@.len() == old.liquidations@.len()
        &&& forall|j: int| 0 <= j < self.liquidations@.len() && j != i ==> self.liquidations@[j] == old.liquidations@[j]
    }

    /// Records collateral sent to the liquidator by the liquidation in
    /// progress. Nothing happens for zero; without a loaded liquidation in
    /// progress the command is refused; otherwise the liquidation records the
    /// amount sent out under a fresh transaction id, and the collateral
    /// drops by it.
    pub fn record_collateral_update_via_liquidation(&mut self, amount_sent: u64, effective: i32) -> (r: Result<Idempotent<CollateralUpdate>, CollateralError>)
        requires
            amount_sent == 0 || amount_sent <= old(self).amount,
            old(self).active_slot() matches Some(i) ==> old(self).liquidations@[i].sent_total + amount_sent <= u64::MAX,
        ensures
            amount_sent == 0 ==> r == Ok::<_, CollateralError>(Idempotent::<CollateralUpdate>::AlreadyApplied) && *final(self) == *old(self),
            amount_sent != 0 && old(self).active_slot() is None ==> r == Err::<Idempotent<CollateralUpdate>, _>(CollateralError::NoActiveLiquidation)
                && *final(self) == *old(self),
            amount_sent != 0 && old(self).active_slot() is Some ==> ({
                let i = old(self).active_slot()->0;
                let old_l = old(self).liquidations@[i];
                let new_l = final(self).liquidations@[i];
                &&& r matches Ok(Idempotent::Executed(u))
                &&& u.abs_diff == amount_sent
                &&& u.direction == CollateralDirection::Remove
                &&& u.effective == effective
                &&& final(self).amount == old(self).amount - amount_sent
                &&& final(self).events@ == old(self).events@.push(CollateralEvent::UpdatedViaLiquidation {
                    liquidation_id: old_l.id,
                    collateral_amount: (old(self).amount - amount_sent) as u64,
                    abs_diff: amount_sent,
                    direction: CollateralDirection::Remove,
                })
                &&& final(self).same_but_liquidation(old(self), i)
                &&& new_l.events() == old_l.events().push(LiquidationEvent::CollateralSentOut {
                    amount: amount_sent,
                    ledger_tx_id: u.tx_id,
                })
                &&& new_l.sent_total == old_l.sent_total + amount_sent
                &&& new_l.id == old_l.id
                &&& new_l.collateral_id == old_l.collateral_id
                &&& new_l.expected_to_receive == old_l.expected_to_receive
                &&& new_l.amount_received == old_l.amount_received
                &&& (old_l.hydrated() ==> new_l.hydrated())
            }),
            old(self).hydrated() ==> final(self).hydrated(),
    {
        if amount_sent == 0 {
            return Ok(Idempotent::AlreadyApplied);
        }
        let new_amount = self.amount - amount_sent;
        let idx = match self.active_liquidation_index() {
            Some(i) => i,
            None => return Err(CollateralError::NoActiveLiquidation),
        };
        let ghost old_liqs = self.liquidations@;
        let liquidation_id = self.liquidations[idx].id;
        let tx = self.liquidations[idx].record_collateral_sent_out(amount_sent);
        let tx_id = match tx {
            Idempotent::Executed(tx_id) => tx_id,
            Idempotent::AlreadyApplied => {
                return Ok(Idempotent::AlreadyApplied);
            },
        };
        assert forall|j: int| 0 <= j < self.liquidations@.len() && j != idx implies self.liquidations@[j]
            == old_liqs[j] by {}
        let ghost before = self.events@;
        self.events.push(
            CollateralEvent::UpdatedViaLiquidation {
                liquidation_id,
                abs_diff: amount_sent,
                collateral_amount: new_amount,
                direction: CollateralDirection::Remove,
            },
        );
        self.amount = new_amount;
        proof {
            assert(self.events@.drop_last() =~= before);
            lemma_replay_push_same_init(before, self.events@);
        }
        Ok(Idempotent::Executed(CollateralUpdate { tx_id, abs_diff: amount_sent, direction: CollateralDirection::Remove, effective }))
    }

    /// Records the proceeds that the liquidation in progress received;
    /// refused without a loaded liquidation in progress. The liquidation
    /// records proceeds of an amount once: the same amount a second time
    /// changes nothing.
    pub fn record_liquidation_proceeds_received(&mut self, amount_received: u64) -> (r: Result<Idempotent<u128>, CollateralError>)
        ensures
            old(self).active_slot() is None ==> r == Err::<Idempotent<u128>, _>(CollateralError::NoActiveLiquidation)
                && *final(self) == *old(self),
            old(self).active_slot() is Some ==> ({
                let i = old(self).active_slot()->0;
                let old_l = old(self).liquidations@[i];
                let new_l = final(self).liquidations@[i];
                &&& final(self).same_but_liquidation(old(self), i)
                &&& final(self).amount == old(self).amount
                &&& final(self).events@ == old(self).events@
                &&& (crate::liquidation::has_proceeds_of(old_l.events(), amount_received) ==> r == Ok::<_, CollateralError>(
                    Idempotent::<u128>::AlreadyApplied,
                ) && new_l == old_l)
                &&& (!crate::liquidation::has_proceeds_of(old_l.events(), amount_received) ==> {
                    &&& r matches Ok(Idempotent::Executed(tx))
                    &&& new_l.amount_received == amount_received
                    &&& new_l.events().drop_last() == old_l.events()
                    &&& new_l.events().last() matches LiquidationEvent::ProceedsFromLiquidationReceived {
                        amount,
                        ledger_tx_id,
                        ..
                    } && amount == amount_received && ledger_tx_id == tx
                })
                &&& (old_l.hydrated() ==> new_l.hydrated())
            }),
            old(self).hydrated() ==> final(self).hydrated(),
    {
        let idx = match self.active_liquidation_index() {
            Some(i) => i,
            None => return Err(CollateralError::NoActiveLiquidation),
        };
        let ghost old_liqs = self.liquidations@;
        let r = self.liquidations[idx].record_proceeds_from_liquidation(amount_received);
        assert forall|j: int| 0 <= j < self.liquidations@.len() && j != idx implies self.liquidations@[j]
            == old_liqs[j] by {}
        Ok(r)
    }

    /// Starts a liquidation. Nothing happens if one with the same id was
    /// already started; refused while another is in progress; otherwise the
    /// new liquidation is kept to be saved and its start recorded.
    pub fn record_liquidation_started(&mut self, new_liquidation: NewLiquidation) -> (r: Result<Idempotent<u128>, CollateralError>)
        ensures
            started(old(self).events@, new_liquidation.id) ==> r == Ok::<_, CollateralError>(
                Idempotent::<u128>::AlreadyApplied,
            ) && *final(self) == *old(self),
            !started(old(self).events@, new_liquidation.id) && active_liquidation_of(old(self).events@) is Some
                ==> r == Err::<Idempotent<u128>, _>(
                CollateralError::ActiveLiquidationExists(active_liquidation_of(old(self).events@)->0),
            ) && *final(self) == *old(self),
            !started(old(self).events@, new_liquidation.id) && active_liquidation_of(old(self).events@) is None
                ==> {
                &&& r == Ok::<_, CollateralError>(Idempotent::Executed(new_liquidation.id))
                &&& final(self).events@ == old(self).events@.push(
                    CollateralEvent::LiquidationStarted { liquidation_id: new_liquidation.id },
                )
                &&& final(self).new_liquidations@ == old(self).new_liquidations@.push(new_liquidation)
                &&& final(self).liquidations == old(self).liquidations
                &&& final(self).same_identity(old(self))
                &&& final(self).amount == old(self).amount
                &&& active_liquidation_of(final(self).events@) == Some(new_liquidation.id)
            },
            old(self).hydrated() ==> final(self).hydrated(),
    {
        let liquidation_id = new_liquidation.id;
        if self.has_started(liquidation_id) {
            return Ok(Idempotent::AlreadyApplied);
        }
        if let Some(id) = self.active_liquidation_id() {
            return Err(CollateralError::ActiveLiquidationExists(id));
        }
        self.new_liquidations.push(new_liquidation);
        let ghost before = self.events@;
        self.events.push(CollateralEvent::LiquidationStarted { liquidation_id });
        proof {
            assert(self.events@.drop_last() =~= before);
            lemma_replay_push_same_init(before, self.events@);
        }
        Ok(Idempotent::Executed(liquidation_id))
    }

    /// Completes the liquidation in progress. Nothing happens if a
    /// liquidation with this id was already completed, or if the one in
    /// progress already was; refused without a loaded liquidation in
    /// progress; otherwise that liquidation is marked completed and the
    /// completion of `liquidation_id` recorded.
    pub fn record_liquidation_completed(&mut self, liquidation_id: u128) -> (r: Result<Idempotent<()>, CollateralError>)
        ensures
            completed(old(self).events@, liquidation_id) ==> r == Ok::<_, CollateralError>(
                Idempotent::<()>::AlreadyApplied,
            ) && *final(self) == *old(self),
            !completed(old(self).events@, liquidation_id) && old(self).active_slot() is None ==> r == Err::<
                Idempotent<()>,
                _,
            >(CollateralError::NoActiveLiquidation) && *final(self) == *old(self),
            !completed(old(self).events@, liquidation_id) && old(self).active_slot() is Some ==> ({
                let i = old(self).active_slot()->0;
                let old_l = old(self).liquidations@[i];
                let new_l = final(self).liquidations@[i];
                &&& final(self).same_but_liquidation(old(self), i)
                &&& final(self).amount == old(self).amount
                &&& (has_completed(old_l.events()) ==> r == Ok::<_, CollateralError>(
                    Idempotent::<()>::AlreadyApplied,
                ) && new_l == old_l && final(self).events@ == old(self).events@)
                &&& (!has_completed(old_l.events()) ==> {
                    &&& r == Ok::<_, CollateralError>(Idempotent::Executed(()))
                    &&& new_l.events() == old_l.events().push(LiquidationEvent::Completed)
                    &&& final(self).events@ == old(self).events@.push(
                        CollateralEvent::LiquidationCompleted { liquidation_id },
                    )
                })
                &&& (old_l.hydrated() ==> new_l.hydrated())
            }),
            old(self).hydrated() ==> final(self).hydrated(),
    {
        if self.has_completed_liquidation(liquidation_id) {
            return Ok(Idempotent::AlreadyApplied);
        }
        let idx = match self.active_liquidation_index() {
            Some(i) => i,
            None => return Err(CollateralError::NoActiveLiquidation),
        };
        let ghost old_liqs = self.liquidations@;
        let done = self.liquidations[idx].complete();
        assert forall|j: int| 0 <= j < self.liquidations@.len() && j != idx implies self.liquidations@[j]
            == old_liqs[j] by {}
        if done.was_already_applied() {
            return Ok(Idempotent::AlreadyApplied);
        }
        let ghost before = self.events@;
        self.events.push(CollateralEvent::LiquidationCompleted { liquidation_id });
        proof {
            assert(self.events@.drop_last() =~= before);
            lemma_replay_push_same_init(before, self.events@);
        }
        Ok(Idempotent::Executed(()))
    }

    /// Loads the liquidations started since the collateral was loaded, as
    /// saving them and loading the collateral again would.
    pub fn hydrate_new_liquidations(&mut self)
        ensures
            final(self).new_liquidations@.len() == 0,
            final(self).liquidations@.len() == old(self).liquidations@.len() + old(self).new_liquidations@.len(),
            forall|j: int| 0 <= j < old(self).liquidations@.len() ==> final(self).liquidations@[j] == old(self).liquidations@[j],
            forall|j: int| 0 <= j < old(self).new_liquidations@.len() ==> {
                let l = #[trigger] final(self).liquidations@[old(self).liquidations@.len() + j];
                let n = old(self).new_liquidations@[j];
                &&& l.id == n.id
                &&& l.collateral_id == n.collateral_id
                &&& l.expected_to_receive == n.initially_expected_to_receive
                &&& l.sent_total == 0
                &&& l.amount_received == 0
                &&& l.events() == seq![n.initialized_event()]
                &&& l.hydrated()
            },
            final(self).events == old(self).events,
            final(self).same_identity(old(self)),
            final(self).amount == old(self).amount,
    {
        let ghost old_liqs = self.liquidations@;
        let ghost news = self.new_liquidations@;
        let ghost orig = *self;
        let mut i: usize = 0;
        while i < self.new_liquidations.len()
            invariant
                news == self.new_liquidations@,
                self.events == orig.events,
                self.same_identity(&orig),
                self.amount == orig.amount,
                i <= news.len(),
                self.liquidations@.len() == old_liqs.len() + i,
                forall|j: int| 0 <= j < old_liqs.len() ==> self.liquidations@[j] == old_liqs[j],
                forall|j: int| 0 <= j < i ==> {
                    let l = #[trigger] self.liquidations@[old_liqs.len() + j];
                    let n = news[j];
                    &&& l.id == n.id
                    &&& l.collateral_id == n.collateral_id
                    &&& l.expected_to_receive == n.initially_expected_to_receive
                    &&& l.sent_total == 0
                    &&& l.amount_received == 0
                    &&& l.events() == seq![n.initialized_event()]
                    &&& l.hydrated()
                },
            decreases news.len() - i,
        {
            let n = self.new_liquidations[i];
            let events = n.into_events();
            proof {
                let e = events@;
                reveal_with_fuel(replay_liquidation, 2);
                assert(e.drop_last() =~= Seq::<LiquidationEvent>::empty());
                assert(e.last() == n.initialized_event());
                let rp = replay_liquidation(e);
                assert(rp.id == Some(n.id));
                assert(rp.collateral_id == Some(n.collateral_id));
                assert(rp.expected_to_receive == Some(n.initially_expected_to_receive));
                assert(rp.sent_total == 0);
                assert(rp.amount_received == 0);
            }
            match Liquidation::try_from_events(events) {
                Ok(l) => {
                    self.liquidations.push(l);
                },
                Err(_) => {
                    proof { assert(false); }
                },
            }
            i = i + 1;
        }
        self.new_liquidations = Vec::new();
    }

    fn active_liquidation_index(&self) -> (r: Option<usize>)
        ensures
            r matches Some(i) ==> self.active_slot() == Some(i as int) && i < self.liquidations@.len(),
            r is None ==> self.active_slot() is None,
    {
        match self.active_liquidation_id() {
            Some(id) => self.find_loaded(id),
            None => None,
        }
    }
}

proof fn lemma_replay_push_same_init(before: Seq<CollateralEvent>, after: Seq<CollateralEvent>)
    requires
        after == before || (after.len() == before.len() + 1 && after.drop_last() == before && !(
        after.last() is Initialized)),
    ensures
        replay_collateral(after).initialized == replay_collateral(before).initialized,
{
    if after != before {
        assert(after.drop_last() == before);
    }
}

} // verus!
