//! The position manager: single owner of the order book. It opens a
//! pending position per consumed trade intent, applies the buy and sell
//! confirmations of the trade executor, and sweeps all open positions once
//! per evaluation tick, deciding exits under stop-loss-first precedence.

use vstd::prelude::*;
use crate::book::OrderBook;
use crate::event::TradeSignal;
use crate::position::{
    realized_pnl, spec_confirm_buy, spec_decide_exit, spec_pending_buy, spec_sell_failed,
    spec_touch, spec_trigger_sell, ExecutionError, ExitPolicy, ExitReason, Fill, Position,
    PositionState, MAX_PRICE,
};

verus! {

/// A sell order handed to the trade executor.
#[derive(Clone, Copy, PartialEq, Eq, Structural, Debug)]
pub struct SellIntent {
    pub position_id: u64,
    pub quantity: u64,
    pub reason: ExitReason,
}

/// The terminal record of a position that left automatic management:
/// closed with realized profit, abandoned after exhausted retries, or a
/// failed entry. Kept for the operator — a position is never silently
/// dropped.
#[derive(Debug, Clone)]
pub struct ClosedRecord {
    pub position_id: u64,
    pub mint_identifier: String,
    pub state: PositionState,
    pub pnl: i128,
}

/// What became of a sell attempt.
#[derive(Clone, Copy, PartialEq, Eq, Structural, Debug)]
pub enum SellOutcome {
    Closed(i128),
    Retrying,
    Abandoned,
}

pub open spec fn spec_failed_record(p: Position) -> ClosedRecord {
    ClosedRecord {
        position_id: p.id,
        mint_identifier: p.mint_identifier,
        state: PositionState::Failed,
        pnl: 0,
    }
}

pub open spec fn spec_abandoned_record(p: Position) -> ClosedRecord {
    ClosedRecord {
        position_id: p.id,
        mint_identifier: p.mint_identifier,
        state: PositionState::Abandoned,
        pnl: 0,
    }
}

pub open spec fn spec_closed_record(p: Position, pnl: i128) -> ClosedRecord {
    ClosedRecord {
        position_id: p.id,
        mint_identifier: p.mint_identifier,
        state: PositionState::Closed,
        pnl,
    }
}

/// One position's evolution on an evaluation tick: only an `Open` position
/// with a fresh price sample is considered; a missing price skips the tick
/// for that position and never counts as a sell trigger.
pub open spec fn spec_evaluate(p: Position, price: Option<u64>, now: u64, max_hold_ms: u64) -> (
    Position,
    Option<SellIntent>,
) {
    match price {
        Some(px) => if p.state == PositionState::Open {
            match spec_decide_exit(p, px, now, max_hold_ms) {
                Some(reason) => (
                    spec_trigger_sell(spec_touch(p, now)),
                    Some(SellIntent { position_id: p.id, quantity: p.quantity, reason }),
                ),
                None => (spec_touch(p, now), None),
            }
        } else {
            (p, None)
        },
        None => (p, None),
    }
}

/// The intents emitted by the first `n` positions of a tick sweep, in
/// book order.
pub open spec fn spec_tick_intents(
    ps: Seq<Position>,
    prices: Seq<Option<u64>>,
    now: u64,
    max_hold_ms: u64,
    n: int,
) -> Seq<SellIntent>
    decreases n,
{
    if n <= 0 {
        Seq::empty()
    } else {
        spec_tick_intents(ps, prices, now, max_hold_ms, n - 1) + (
        match spec_evaluate(ps[n - 1], prices[n - 1], now, max_hold_ms).1 {
            Some(it) => seq![it],
            None => Seq::empty(),
        })
    }
}

/// A position under management: id below the allocation counter, entry
/// price within arithmetic range, retry budget not yet exhausted.
pub open spec fn wf_pos(p: Position, policy: ExitPolicy, next_id: u64) -> bool {
    &&& p.id < next_id
    &&& p.entry_price <= MAX_PRICE
    &&& p.sell_attempts < policy.max_sell_retries
}

/// What a retryable sell failure does to the manager: the position returns
/// to `Open` while the retry budget lasts, and is abandoned and recorded
/// once it is exhausted.
pub open spec fn sell_retry_outcome(
    pre: PositionManager,
    post: PositionManager,
    i: int,
    r: SellOutcome,
) -> bool {
    let p2 = spec_sell_failed(pre.book.contents()[i], pre.policy.max_sell_retries);
    if p2.state == PositionState::Abandoned {
        &&& post.book.contents() == pre.book.contents().remove(i)
        &&& post.records@ == pre.records@.push(spec_abandoned_record(pre.book.contents()[i]))
        &&& r == SellOutcome::Abandoned
    } else {
        &&& post.book.contents() == pre.book.contents().update(i, p2)
        &&& post.records@ == pre.records@
        &&& r == SellOutcome::Retrying
    }
}

pub struct PositionManager {
    pub policy: ExitPolicy,
    pub book: OrderBook,
    pub next_id: u64,
    pub records: Vec<ClosedRecord>,
}

impl PositionManager {
    pub open spec fn wf(&self) -> bool {
        &&& self.policy.valid()
        &&& self.book.wf()
        &&& forall|i: int| 0 <= i < self.book.contents().len()
            ==> wf_pos(#[trigger] self.book.contents()[i], self.policy, self.next_id)
    }

    pub fn new(policy: ExitPolicy) -> (r: PositionManager)
        requires
            policy.valid(),
        ensures
            r.wf(),
            r.policy == policy,
            r.next_id == 0,
            r.book.contents() == Seq::<Position>::empty(),
            r.records@ == Seq::<ClosedRecord>::empty(),
    {
        PositionManager { policy, book: OrderBook::new(), next_id: 0, records: Vec::new() }
    }

    /// Consume a trade intent: open a position that awaits its buy
    /// confirmation. The caller forwards the buy order to the executor.
    /// Refused exactly when the mint already has a position under
    /// management (at most one per mint) or the id space is exhausted.
    pub fn open_position(&mut self, signal: &TradeSignal) -> (r: Option<u64>)
        requires
            old(self).wf(),
        ensures
            final(self).wf(),
            final(self).policy == old(self).policy,
            final(self).records@ == old(self).records@,
            r is None <==> (old(self).next_id == 0xffff_ffff_ffff_ffffu64 || old(
                self,
            ).book.contains_mint(signal.mint_identifier@)),
            r is None ==> *final(self) == *old(self),
            r is Some ==> {
                &&& r == Some(old(self).next_id)
                &&& final(self).next_id == old(self).next_id + 1
                &&& final(self).book.contents() == old(self).book.contents().push(
                    spec_pending_buy(
                        old(self).next_id,
                        signal.mint_identifier,
                        signal.detected_at,
                    ),
                )
            },
    {
        if self.next_id == 0xffff_ffff_ffff_ffffu64 {
            return None;
        }
        if self.book.has_mint(&signal.mint_identifier) {
            return None;
        }
        let id = self.next_id;
        let p = Position::pending_buy(id, signal.mint_identifier.clone(), signal.detected_at);
        proof {
            assert(!self.book.contains_id(id)) by {
                if self.book.contains_id(id) {
                    let j = choose|j: int|
                        0 <= j < self.book.positions@.len() && (
                        #[trigger] self.book.positions@[j]).id == id;
                    assert(wf_pos(self.book.contents()[j], self.policy, self.next_id));
                }
            }
        }
        self.book.push_new(p);
        self.next_id = id + 1;
        Some(id)
    }

    /// Apply the executor's answer to a pending buy. A fill opens the
    /// position and fixes both exit thresholds; a rejection or timeout ends
    /// the entry — recorded, removed, never retried. The caller validates
    /// the fill's price against `MAX_PRICE` before handing it in.
    pub fn handle_buy_result_at(
        &mut self,
        i: usize,
        result: Result<Fill, ExecutionError>,
    ) -> (opened: bool)
        requires
            old(self).wf(),
            i < old(self).book.contents().len(),
            old(self).book.contents()[i as int].state == PositionState::PendingBuy,
            result matches Ok(fill) ==> fill.price <= MAX_PRICE,
        ensures
            final(self).wf(),
            final(self).policy == old(self).policy,
            final(self).next_id == old(self).next_id,
            opened == result is Ok,
            result matches Ok(fill) ==> {
                &&& final(self).book.contents() == old(self).book.contents().update(
                    i as int,
                    spec_confirm_buy(old(self).book.contents()[i as int], fill, old(self).policy),
                )
                &&& final(self).records@ == old(self).records@
            },
            result is Err ==> {
                &&& final(self).book.contents() == old(self).book.contents().remove(i as int)
                &&& final(self).records@ == old(self).records@.push(
                    spec_failed_record(old(self).book.contents()[i as int]),
                )
            },
    {
        match result {
            Ok(fill) => {
                let policy = self.policy;
                self.book.positions[i].confirm_buy(fill, &policy);
                proof {
                    let pre = old(self).book.contents();
                    let post = self.book.contents();
                    assert(forall|a: int, b: int| 0 <= a < b < post.len()
                        ==> post[a].id != post[b].id && post[a].mint_identifier@
                        != post[b].mint_identifier@) by {
                        assert(forall|a: int| 0 <= a < post.len() ==> (#[trigger] post[a]).id
                            == pre[a].id && post[a].mint_identifier == pre[a].mint_identifier);
                    }
                }
                true
            },
            Err(_) => {
                let mut p = self.book.remove_at(i);
                p.fail_buy();
                self.records.push(
                    ClosedRecord {
                        position_id: p.id,
                        mint_identifier: p.mint_identifier,
                        state: PositionState::Failed,
                        pnl: 0,
                    },
                );
                false
            },
        }
    }

    /// Evaluate the position at index `i` against a freshly fetched price.
    /// The decision and its precedence live in `spec_decide_exit`; a missing
    /// price skips this position for the tick.
    pub fn evaluate_at(&mut self, i: usize, price: Option<u64>, now: u64) -> (r: Option<SellIntent>)
        requires
            old(self).wf(),
            i < old(self).book.contents().len(),
        ensures
            final(self).wf(),
            final(self).policy == old(self).policy,
            final(self).next_id == old(self).next_id,
            final(self).records@ == old(self).records@,
            final(self).book.contents() == old(self).book.contents().update(
                i as int,
                spec_evaluate(
                    old(self).book.contents()[i as int],
                    price,
                    now,
                    old(self).policy.max_hold_ms,
                ).0,
            ),
            r == spec_evaluate(
                old(self).book.contents()[i as int],
                price,
                now,
                old(self).policy.max_hold_ms,
            ).1,
    {
        let ghost pre = old(self).book.contents();
        let max_hold_ms = self.policy.max_hold_ms;
        let r = match price {
            Some(px) => {
                if self.book.positions[i].state == PositionState::Open {
                    let reason_opt = self.book.positions[i].decide_exit(px, now, max_hold_ms);
                    self.book.positions[i].touch(now);
                    match reason_opt {
                        Some(reason) => {
                            let position_id = self.book.positions[i].id;
                            let quantity = self.book.positions[i].quantity;
                            self.book.positions[i].trigger_sell();
                            Some(SellIntent { position_id, quantity, reason })
                        },
                        None => None,
                    }
                } else {
                    None
                }
            },
            None => None,
        };
        proof {
            assert(self.book.contents() =~= pre.update(
                i as int,
                spec_evaluate(pre[i as int], price, now, max_hold_ms).0,
            ));
            let post = self.book.contents();
            assert(forall|a: int, b: int| 0 <= a < b < post.len()
                ==> post[a].id != post[b].id && post[a].mint_identifier@
                != post[b].mint_identifier@) by {
                assert(forall|a: int| 0 <= a < post.len() ==> (#[trigger] post[a]).id == pre[a].id
                    && post[a].mint_identifier == pre[a].mint_identifier);
            }
        }
        r
    }

    /// One evaluation tick: sweep every position of the book, each against
    /// its own price sample (`prices[i]` belongs to position `i`; `None`
    /// skips it). Returns the sell intents in book order. The sweep covers
    /// the whole book before the caller sleeps; it is not re-entrant.
    pub fn tick_all(&mut self, prices: &Vec<Option<u64>>, now: u64) -> (r: Vec<SellIntent>)
        requires
            old(self).wf(),
            prices@.len() == old(self).book.contents().len(),
        ensures
            final(self).wf(),
            final(self).policy == old(self).policy,
            final(self).next_id == old(self).next_id,
            final(self).records@ == old(self).records@,
            final(self).book.contents().len() == old(self).book.contents().len(),
            forall|j: int| 0 <= j < old(self).book.contents().len()
                ==> final(self).book.contents()[j] == spec_evaluate(
                #[trigger] old(self).book.contents()[j],
                prices@[j],
                now,
                old(self).policy.max_hold_ms,
            ).0,
            r@ == spec_tick_intents(
                old(self).book.contents(),
                prices@,
                now,
                old(self).policy.max_hold_ms,
                old(self).book.contents().len() as int,
            ),
    {
        let ghost pre = old(self).book.contents();
        let ghost max_hold_ms = self.policy.max_hold_ms;
        let n = self.book.len();
        let mut intents: Vec<SellIntent> = Vec::new();
        let mut i: usize = 0;
        proof {
            assert(intents@ =~= spec_tick_intents(pre, prices@, now, max_hold_ms, 0));
        }
        while i < n
            invariant
                self.wf(),
                self.policy == old(self).policy,
                self.next_id == old(self).next_id,
                self.records@ == old(self).records@,
                max_hold_ms == old(self).policy.max_hold_ms,
                pre == old(self).book.contents(),
                n == pre.len(),
                i <= n,
                prices@.len() == n,
                self.book.contents().len() == n,
                forall|j: int| 0 <= j < i ==> self.book.contents()[j] == spec_evaluate(
                    #[trigger] pre[j],
                    prices@[j],
                    now,
                    max_hold_ms,
                ).0,
                forall|j: int| i <= j < n ==> #[trigger] self.book.contents()[j] == pre[j],
                intents@ == spec_tick_intents(pre, prices@, now, max_hold_ms, i as int),
            decreases n - i,
        {
            let intent = self.evaluate_at(i, prices[i], now);
            if let Some(it) = intent {
                intents.push(it);
            }
            i += 1;
        }
        intents
    }

    /// Apply the executor's answer to a pending sell. A fill closes the
    /// position and records its realized profit; a permanent rejection
    /// abandons it at once; a retryable failure spends one retry, to be
    /// re-attempted no earlier than the next tick.
    pub fn handle_sell_result_at(
        &mut self,
        i: usize,
        result: Result<Fill, ExecutionError>,
    ) -> (r: SellOutcome)
        requires
            old(self).wf(),
            i < old(self).book.contents().len(),
            old(self).book.contents()[i as int].state == PositionState::PendingSell,
            result matches Ok(fill) ==> fill.price <= MAX_PRICE,
        ensures
            final(self).wf(),
            final(self).policy == old(self).policy,
            final(self).next_id == old(self).next_id,
            result matches Ok(fill) ==> {
                &&& r matches SellOutcome::Closed(pnl) && pnl == (fill.price - old(
                    self,
                ).book.contents()[i as int].entry_price) * old(self).book.contents()[
                    i as int
                ].quantity && final(self).records@ == old(self).records@.push(
                    spec_closed_record(old(self).book.contents()[i as int], pnl),
                )
                &&& final(self).book.contents() == old(self).book.contents().remove(i as int)
            },
            (result matches Err(e) && e == ExecutionError::Rejected) ==> {
                &&& final(self).book.contents() == old(self).book.contents().remove(i as int)
                &&& final(self).records@ == old(self).records@.push(
                    spec_abandoned_record(old(self).book.contents()[i as int]),
                )
                &&& r == SellOutcome::Abandoned
            },
            (result matches Err(e) && e != ExecutionError::Rejected) ==> sell_retry_outcome(
                *old(self),
                *final(self),
                i as int,
                r,
            ),
    {
        match result {
            Ok(fill) => {
                proof {
                    assert(wf_pos(
                        old(self).book.contents()[i as int],
                        old(self).policy,
                        old(self).next_id,
                    ));
                }
                let p = self.book.remove_at(i);
                let pnl = realized_pnl(p.entry_price, fill.price, p.quantity);
                self.records.push(
                    ClosedRecord {
                        position_id: p.id,
                        mint_identifier: p.mint_identifier,
                        state: PositionState::Closed,
                        pnl,
                    },
                );
                SellOutcome::Closed(pnl)
            },
            Err(e) => {
                if e == ExecutionError::Rejected {
                    let p = self.book.remove_at(i);
                    self.records.push(
                        ClosedRecord {
                            position_id: p.id,
                            mint_identifier: p.mint_identifier,
                            state: PositionState::Abandoned,
                            pnl: 0,
                        },
                    );
                    SellOutcome::Abandoned
                } else {
                    self.sell_failed_step(i)
                }
            },
        }
    }

    /// Spend one retry of the position at `i` after a retryable sell
    /// failure.
    fn sell_failed_step(&mut self, i: usize) -> (r: SellOutcome)
        requires
            old(self).wf(),
            i < old(self).book.contents().len(),
            old(self).book.contents()[i as int].state == PositionState::PendingSell,
        ensures
            final(self).wf(),
            final(self).policy == old(self).policy,
            final(self).next_id == old(self).next_id,
            sell_retry_outcome(*old(self), *final(self), i as int, r),
    {
        let max_sell_retries = self.policy.max_sell_retries;
        proof {
            assert(wf_pos(old(self).book.contents()[i as int], old(self).policy, old(self).next_id));
        }
        self.book.positions[i].sell_failed(max_sell_retries);
        if self.book.positions[i].state == PositionState::Abandoned {
            let p = self.book.remove_at(i);
            proof {
                assert(p == spec_sell_failed(
                    old(self).book.contents()[i as int],
                    max_sell_retries,
                ));
                assert(self.book.contents() =~= old(self).book.contents().remove(i as int));
            }
            self.records.push(
                ClosedRecord {
                    position_id: p.id,
                    mint_identifier: p.mint_identifier,
                    state: PositionState::Abandoned,
                    pnl: 0,
                },
            );
            SellOutcome::Abandoned
        } else {
            proof {
                let pre = old(self).book.contents();
                let post = self.book.contents();
                assert(forall|a: int, b: int| 0 <= a < b < post.len()
                    ==> post[a].id != post[b].id && post[a].mint_identifier@
                    != post[b].mint_identifier@) by {
                    assert(forall|a: int| 0 <= a < post.len() ==> (#[trigger] post[a]).id
                        == pre[a].id && post[a].mint_identifier == pre[a].mint_identifier);
                }
            }
            SellOutcome::Retrying
        }
    }
}

} // verus!
