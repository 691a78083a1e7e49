//! The liquidation of part of a facility's collateral: what was sent to the
//! liquidator and what came back, kept as a log of events.
use vstd::prelude::*;
use crate::idempotent::{HydrationError, Idempotent};
use crate::ids::new_random_id;

verus! {

/// What happened to a liquidation. Amounts of collateral are in satoshis,
/// amounts of money in cents, prices in cents per bitcoin.
#[derive(Debug, Clone, Copy, PartialEq, Eq)]
pub enum LiquidationEvent {
    Initialized {
        id: u128,
        collateral_id: u128,
        trigger_price: u64,
        initially_expected_to_receive: u64,
        initially_estimated_to_liquidate: u64,
    },
    Updated {
        outstanding: u64,
        to_liquidate_at_current_price: u64,
        current_price: u64,
        expected_to_receive: u64,
    },
    CollateralSentOut { amount: u64, ledger_tx_id: u128 },
    ProceedsFromLiquidationReceived { amount: u64, payment_id: u128, ledger_tx_id: u128 },
    Completed,
}

/// What replaying a liquidation's events gives.
pub struct LiquidationReplay {
    pub id: Option<u128>,
    pub collateral_id: Option<u128>,
    pub expected_to_receive: Option<u64>,
    pub sent_total: int,
    pub amount_received: u64,
}

/// Replays events in order: `Initialized` sets the ids and the expected
/// amount, `Updated` sets the expected amount, collateral sent out adds to
/// the total, proceeds received set the amount received.
pub open spec fn replay_liquidation(events: Seq<LiquidationEvent>) -> LiquidationReplay
    decreases events.len(),
{
    if events.len() == 0 {
        LiquidationReplay {
            id: None,
            collateral_id: None,
            expected_to_receive: None,
            sent_total: 0,
            amount_received: 0,
        }
    } else {
        let prev = replay_liquidation(events.drop_last());
        match events.last() {
            LiquidationEvent::Initialized { id, collateral_id, initially_expected_to_receive, .. } => LiquidationReplay {
                id: Some(id),
                collateral_id: Some(collateral_id),
                expected_to_receive: Some(initially_expected_to_receive),
                ..prev
            },
            LiquidationEvent::Updated { expected_to_receive, .. } => LiquidationReplay {
                expected_to_receive: Some(expected_to_receive),
                ..prev
            },
            LiquidationEvent::CollateralSentOut { amount, .. } => LiquidationReplay {
                sent_total: prev.sent_total + amount,
                ..prev
            },
            LiquidationEvent::ProceedsFromLiquidationReceived { amount, .. } => LiquidationReplay {
                amount_received: amount,
                ..prev
            },
            LiquidationEvent::Completed => prev,
        }
    }
}

/// The events hold a `ProceedsFromLiquidationReceived` of the amount.
pub open spec fn has_proceeds_of(events: Seq<LiquidationEvent>, amount: u64) -> bool {
    exists|i: int|
        0 <= i < events.len() && (#[trigger] events[i] matches LiquidationEvent::ProceedsFromLiquidationReceived {
            amount: a,
            ..
        } && a == amount)
}

/// The events hold a `Completed`.
pub open spec fn has_completed(events: Seq<LiquidationEvent>) -> bool {
    exists|i: int| 0 <= i < events.len() && #[trigger] events[i] is Completed
}

/// The amounts and transactions of the collateral sent out, in order.
pub open spec fn sent_out_list(events: Seq<LiquidationEvent>) -> Seq<(u64, u128)>
    decreases events.len(),
{
    if events.len() == 0 {
        Seq::empty()
    } else {
        let prev = sent_out_list(events.drop_last());
        match events.last() {
            LiquidationEvent::CollateralSentOut { amount, ledger_tx_id } => prev.push((amount, ledger_tx_id)),
            _ => prev,
        }
    }
}

/// The amounts and transactions of the proceeds received, in order.
pub open spec fn proceeds_list(events: Seq<LiquidationEvent>) -> Seq<(u64, u128)>
    decreases events.len(),
{
    if events.len() == 0 {
        Seq::empty()
    } else {
        let prev = proceeds_list(events.drop_last());
        match events.last() {
            LiquidationEvent::ProceedsFromLiquidationReceived { amount, ledger_tx_id, .. } => prev.push(
                (amount, ledger_tx_id),
            ),
            _ => prev,
        }
    }
}

/// A liquidation of collateral.
#[derive(Debug)]
pub struct Liquidation {
    pub id: u128,
    pub collateral_id: u128,
    pub expected_to_receive: u64,
    pub sent_total: u64,
    pub amount_received: u64,
    /// The events of the liquidation, oldest first.
    pub events: Vec<LiquidationEvent>,
}

/// What starts a liquidation.
#[derive(Debug, Clone, Copy)]
pub struct NewLiquidation {
    pub id: u128,
    pub collateral_id: u128,
    pub trigger_price: u64,
    pub initially_expected_to_receive: u64,
    pub initially_estimated_to_liquidate: u64,
}

impl NewLiquidation {
    /// The event that creates the liquidation.
    pub open spec fn initialized_event(self) -> LiquidationEvent {
        LiquidationEvent::Initialized {
            id: self.id,
            collateral_id: self.collateral_id,
            trigger_price: self.trigger_price,
            initially_expected_to_receive: self.initially_expected_to_receive,
            initially_estimated_to_liquidate: self.initially_estimated_to_liquidate,
        }
    }

    /// The events of a new liquidation: the one that creates it.
    pub fn into_events(self) -> (r: Vec<LiquidationEvent>)
        ensures
            r@ == seq![self.initialized_event()],
    {
        let mut v: Vec<LiquidationEvent> = Vec::new();
        v.push(
            LiquidationEvent::Initialized {
                id: self.id,
                collateral_id: self.collateral_id,
                trigger_price: self.trigger_price,
                initially_expected_to_receive: self.initially_expected_to_receive,
                initially_estimated_to_liquidate: self.initially_estimated_to_liquidate,
            },
        );
        assert(v@ =~= seq![self.initialized_event()]);
        v
    }
}

impl Liquidation {
    /// The events of the liquidation, oldest first.
    pub open spec fn events(&self) -> Seq<LiquidationEvent> {
        self.events@
    }

    /// The fields agree with a replay of the events.
    pub open spec fn hydrated(&self) -> bool {
        let r = replay_liquidation(self.events());
        &&& r.id == Some(self.id)
        &&& r.collateral_id == Some(self.collateral_id)
        &&& r.expected_to_receive == Some(self.expected_to_receive)
        &&& r.sent_total == self.sent_total
        &&& r.amount_received == self.amount_received
    }

    /// The events of the liquidation.
    pub fn event_log(&self) -> (r: &Vec<LiquidationEvent>)
        ensures
            r@ == self.events(),
    {
        &self.events
    }

    /// Rebuilds a liquidation from its events; fails when no event creates it.
    pub fn try_from_events(events: Vec<LiquidationEvent>) -> (r: Result<Liquidation, HydrationError>)
        requires
            replay_liquidation(events@).sent_total <= u64::MAX,
        ensures
            replay_liquidation(events@).id is Some <==> r is Ok,
            r matches Ok(l) ==> l.hydrated() && l.events() == events@,
            r matches Err(e) ==> e == HydrationError::MissingInitializedEvent,
    {
        let mut id: Option<u128> = None;
        let mut collateral_id: Option<u128> = None;
        let mut expected: Option<u64> = None;
        let mut sent: u64 = 0;
        let mut received: u64 = 0;
        let mut i: usize = 0;
        while i < events.len()
            invariant
                i <= events.len(),
                replay_liquidation(events@).sent_total <= u64::MAX,
                ({
                    let r = replay_liquidation(events@.take(i as int));
                    &&& r.id == id
                    &&& r.collateral_id == collateral_id
                    &&& r.expected_to_receive == expected
                    &&& r.sent_total == sent
                    &&& r.amount_received == received
                }),
            decreases events.len() - i,
        {
            proof {
                assert(events@.take(i + 1).drop_last() =~= events@.take(i as int));
                lemma_sent_total_mono(events@, i as int + 1);
            }
            match events[i] {
                LiquidationEvent::Initialized { id: new_id, collateral_id: cid, initially_expected_to_receive, .. } => {
                    id = Some(new_id);
                    collateral_id = Some(cid);
                    expected = Some(initially_expected_to_receive);
                },
                LiquidationEvent::Updated { expected_to_receive, .. } => {
                    expected = Some(expected_to_receive);
                },
                LiquidationEvent::CollateralSentOut { amount, .. } => {
                    sent = sent + amount;
                },
                LiquidationEvent::ProceedsFromLiquidationReceived { amount, .. } => {
                    received = amount;
                },
                LiquidationEvent::Completed => {},
            }
            i = i + 1;
        }
        assert(events@.take(events@.len() as int) =~= events@);
        proof { lemma_replay_ids(events@); }
        match (id, collateral_id, expected) {
            (Some(id), Some(collateral_id), Some(expected_to_receive)) => Ok(
                Liquidation {
                    id,
                    collateral_id,
                    expected_to_receive,
                    sent_total: sent,
                    amount_received: received,
                    events,
                },
            ),
            _ => Err(HydrationError::MissingInitializedEvent),
        }
    }

    /// Records collateral sent to the liquidator under a fresh transaction id;
    /// always runs.
    pub fn record_collateral_sent_out(&mut self, amount_sent: u64) -> (r: Idempotent<u128>)
        requires
            old(self).sent_total + amount_sent <= u64::MAX,
        ensures
            r matches Idempotent::Executed(tx) && final(self).events() == old(self).events().push(
                LiquidationEvent::CollateralSentOut { amount: amount_sent, ledger_tx_id: tx },
            ),
            final(self).sent_total == old(self).sent_total + amount_sent,
            final(self).id == old(self).id,
            final(self).collateral_id == old(self).collateral_id,
            final(self).expected_to_receive == old(self).expected_to_receive,
            final(self).amount_received == old(self).amount_received,
            old(self).hydrated() ==> final(self).hydrated(),
    {
        self.sent_total = self.sent_total + amount_sent;
        let ledger_tx_id = new_random_id();
        let ghost before = self.events@;
        self.events.push(LiquidationEvent::CollateralSentOut { amount: amount_sent, ledger_tx_id });
        assert(self.events@.drop_last() =~= before);
        Idempotent::Executed(ledger_tx_id)
    }

    /// Records proceeds received from the liquidator; does nothing if
    /// proceeds of the same amount were already received. The amount
    /// received is that of the latest proceeds.
    pub fn record_proceeds_from_liquidation(&mut self, amount_received: u64) -> (r: Idempotent<u128>)
        ensures
            has_proceeds_of(old(self).events(), amount_received) ==> r is AlreadyApplied && *final(self) == *old(self),
            !has_proceeds_of(old(self).events(), amount_received) ==> {
                &&& r matches Idempotent::Executed(tx)
                &&& final(self).events().len() == old(self).events().len() + 1
                &&& final(self).events().drop_last() == old(self).events()
                &&& final(self).events().last() matches LiquidationEvent::ProceedsFromLiquidationReceived {
                    amount,
                    ledger_tx_id,
                    ..
                } && amount == amount_received && ledger_tx_id == tx
                &&& final(self).amount_received == amount_received
                &&& final(self).id == old(self).id
                &&& final(self).collateral_id == old(self).collateral_id
                &&& final(self).expected_to_receive == old(self).expected_to_receive
                &&& final(self).sent_total == old(self).sent_total
            },
            old(self).hydrated() ==> final(self).hydrated(),
    {
        let mut i: usize = 0;
        while i < self.events.len()
            invariant
                i <= self.events.len(),
                forall|j: int|
                    0 <= j < i ==> !(#[trigger] self.events@[j] matches LiquidationEvent::ProceedsFromLiquidationReceived {
                        amount: a,
                        ..
                    } && a == amount_received),
            decreases self.events.len() - i,
        {
            if let LiquidationEvent::ProceedsFromLiquidationReceived { amount, .. } = self.events[i] {
                if amount == amount_received {
                    assert(self.events@[i as int] matches LiquidationEvent::ProceedsFromLiquidationReceived {
                        amount: a,
                        ..
                    } && a == amount_received);
                    return Idempotent::AlreadyApplied;
                }
            }
            i = i + 1;
        }
        self.amount_received = amount_received;
        let ledger_tx_id = new_random_id();
        let payment_id = new_random_id();
        let ghost before = self.events@;
        self.events.push(
            LiquidationEvent::ProceedsFromLiquidationReceived { amount: amount_received, payment_id, ledger_tx_id },
        );
        assert(self.events@.drop_last() =~= before);
        assert(self.events@ == before.push(
            LiquidationEvent::ProceedsFromLiquidationReceived { amount: amount_received, payment_id, ledger_tx_id },
        ));
        Idempotent::Executed(ledger_tx_id)
    }

    /// Marks the liquidation completed; does nothing if it already is.
    pub fn complete(&mut self) -> (r: Idempotent<()>)
        ensures
            has_completed(old(self).events()) ==> r is AlreadyApplied && *final(self) == *old(self),
            !has_completed(old(self).events()) ==> r is Executed && final(self).events()
                == old(self).events().push(LiquidationEvent::Completed) && final(self).id == old(self).id
                && final(self).collateral_id == old(self).collateral_id
                && final(self).expected_to_receive == old(self).expected_to_receive
                && final(self).sent_total == old(self).sent_total
                && final(self).amount_received == old(self).amount_received,
            old(self).hydrated() ==> final(self).hydrated(),
    {
        if self.is_completed() {
            return Idempotent::AlreadyApplied;
        }
        let ghost before = self.events@;
        self.events.push(LiquidationEvent::Completed);
        assert(self.events@.drop_last() =~= before);
        Idempotent::Executed(())
    }

    /// Whether the liquidation was completed.
    pub fn is_completed(&self) -> (r: bool)
        ensures
            r == has_completed(self.events()),
    {
        let mut i: usize = 0;
        while i < self.events.len()
            invariant
                i <= self.events.len(),
                forall|j: int| 0 <= j < i ==> !(#[trigger] self.events@[j] is Completed),
            decreases self.events.len() - i,
        {
            if let LiquidationEvent::Completed = self.events[i] {
                assert(self.events@[i as int] is Completed);
                return true;
            }
            i = i + 1;
        }
        false
    }

    /// The collateral sent out: amounts and transactions, in order.
    pub fn collateral_sent_out(&self) -> (r: Vec<(u64, u128)>)
        ensures
            r@ == sent_out_list(self.events()),
    {
        let mut out: Vec<(u64, u128)> = Vec::new();
        let mut i: usize = 0;
        while i < self.events.len()
            invariant
                i <= self.events.len(),
                out@ == sent_out_list(self.events@.take(i as int)),
            decreases self.events.len() - i,
        {
            proof { assert(self.events@.take(i + 1).drop_last() =~= self.events@.take(i as int)); }
            if let LiquidationEvent::CollateralSentOut { amount, ledger_tx_id } = self.events[i] {
                out.push((amount, ledger_tx_id));
            }
            i = i + 1;
        }
        assert(self.events@.take(self.events@.len() as int) =~= self.events@);
        out
    }

    /// The proceeds received: amounts and transactions, in order.
    pub fn proceeds_received(&self) -> (r: Vec<(u64, u128)>)
        ensures
            r@ == proceeds_list(self.events()),
    {
        let mut out: Vec<(u64, u128)> = Vec::new();
        let mut i: usize = 0;
        while i < self.events.len()
            invariant
                i <= self.events.len(),
                out@ == proceeds_list(self.events@.take(i as int)),
            decreases self.events.len() - i,
        {
            proof { assert(self.events@.take(i + 1).drop_last() =~= self.events@.take(i as int)); }
            if let LiquidationEvent::ProceedsFromLiquidationReceived { amount, ledger_tx_id, .. } = self.events[i] {
                out.push((amount, ledger_tx_id));
            }
            i = i + 1;
        }
        assert(self.events@.take(self.events@.len() as int) =~= self.events@);
        out
    }
}

proof fn lemma_sent_total_mono(events: Seq<LiquidationEvent>, k: int)
    requires
        0 <= k <= events.len(),
    ensures
        replay_liquidation(events.take(k)).sent_total <= replay_liquidation(events).sent_total,
        replay_liquidation(events.take(k)).sent_total >= 0,
    decreases events.len(),
{
    lemma_sent_total_nonneg(events.take(k));
    if k < events.len() {
        assert(events.drop_last().take(k) =~= events.take(k));
        lemma_sent_total_mono(events.drop_last(), k);
    } else {
        assert(events.take(k) =~= events);
    }
}

proof fn lemma_replay_ids(events: Seq<LiquidationEvent>)
    ensures
        replay_liquidation(events).id is Some ==> replay_liquidation(events).collateral_id is Some
            && replay_liquidation(events).expected_to_receive is Some,
    decreases events.len(),
{
    if events.len() > 0 {
        lemma_replay_ids(events.drop_last());
    }
}

proof fn lemma_sent_total_nonneg(events: Seq<LiquidationEvent>)
    ensures
        replay_liquidation(events).sent_total >= 0,
    decreases events.len(),
{
    if events.len() > 0 {
        lemma_sent_total_nonneg(events.drop_last());
    }
}

} // verus!
