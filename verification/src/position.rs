//! Positions and their life cycle: the state machine driven by buy and sell
//! confirmations and by the exit policy (take-profit, stop-loss, timeout).
//!
//! Prices are fixed-point integers (the smallest unit of the quote
//! currency); percentages are basis points (1 bps = 0.01 %).

use vstd::prelude::*;

verus! {

/// Largest entry or exit price the pipeline accepts; keeps every price
/// computation inside `u64` and every profit computation inside `i128`.
pub const MAX_PRICE: u64 = 1099511627776;

/// Largest configurable take-profit percentage, in basis points (1000 %).
pub const MAX_TAKE_PROFIT_BPS: u64 = 100000;

/// Largest configurable stop-loss percentage, in basis points (100 %).
pub const MAX_STOP_LOSS_BPS: u64 = 10000;

#[derive(Clone, Copy, PartialEq, Eq, Structural, Debug)]
pub enum PositionState {
    PendingBuy,
    Open,
    PendingSell,
    Closed,
    Abandoned,
    Failed,
}

/// Why an open position was scheduled for sale.
#[derive(Clone, Copy, PartialEq, Eq, Structural, Debug)]
pub enum ExitReason {
    StopLoss,
    TakeProfit,
    Timeout,
}

/// A confirmed buy or sell execution reported by the trade executor.
#[derive(Clone, Copy, PartialEq, Eq, Structural, Debug)]
pub struct Fill {
    pub price: u64,
    pub quantity: u64,
    pub timestamp: u64,
}

/// Why the trade executor refused or missed an execution. `Rejected` is
/// permanent and never retried; `Timeout` and `Transient` are retried up to
/// the configured bound.
#[derive(Clone, Copy, PartialEq, Eq, Structural, Debug)]
pub enum ExecutionError {
    Rejected,
    Timeout,
    Transient,
}

/// The exit rules a position is supervised against.
#[derive(Clone, Copy, PartialEq, Eq, Structural, Debug)]
pub struct ExitPolicy {
    pub take_profit_bps: u64,
    pub stop_loss_bps: u64,
    pub max_hold_ms: u64,
    pub max_sell_retries: u64,
}

impl ExitPolicy {
    pub open spec fn valid(&self) -> bool {
        &&& self.take_profit_bps <= MAX_TAKE_PROFIT_BPS
        &&& self.stop_loss_bps <= MAX_STOP_LOSS_BPS
        &&& 1 <= self.max_sell_retries <= 1000000
    }
}

/// The central stateful entity, owned exclusively by the position manager.
#[derive(Debug, Clone)]
pub struct Position {
    pub id: u64,
    pub mint_identifier: String,
    pub state: PositionState,
    pub entry_price: u64,
    pub quantity: u64,
    pub take_profit_price: u64,
    pub stop_loss_price: u64,
    pub opened_at: u64,
    pub last_checked_at: u64,
    pub sell_attempts: u64,
}

/// The transition relation of the position state machine: the edges of the
/// life cycle, plus staying in place. No transition ever skips
/// `PendingBuy` or `PendingSell`.
pub open spec fn is_edge(pre: PositionState, post: PositionState) -> bool {
    ||| pre == post
    ||| (pre == PositionState::PendingBuy && post == PositionState::Open)
    ||| (pre == PositionState::PendingBuy && post == PositionState::Failed)
    ||| (pre == PositionState::Open && post == PositionState::PendingSell)
    ||| (pre == PositionState::PendingSell && post == PositionState::Closed)
    ||| (pre == PositionState::PendingSell && post == PositionState::Open)
    ||| (pre == PositionState::PendingSell && post == PositionState::Abandoned)
}

/// Take-profit threshold: `entry * (1 + bps/10000)`, rounded down.
pub open spec fn tp_target(entry: int, tp_bps: int) -> int {
    entry * (10000 + tp_bps) / 10000
}

/// Stop-loss threshold: `entry * (1 - bps/10000)`, rounded down.
pub open spec fn sl_target(entry: int, sl_bps: int) -> int {
    entry * (10000 - sl_bps) / 10000
}

pub fn compute_take_profit(entry: u64, tp_bps: u64) -> (r: u64)
    requires
        entry <= MAX_PRICE,
        tp_bps <= MAX_TAKE_PROFIT_BPS,
    ensures
        r == tp_target(entry as int, tp_bps as int),
{
    proof {
        assert(entry * (10000 + tp_bps) <= 1099511627776 * 110000) by (nonlinear_arith)
            requires
                entry <= 1099511627776,
                tp_bps <= 100000,
        ;
    }
    entry * (10000 + tp_bps) / 10000
}

pub fn compute_stop_loss(entry: u64, sl_bps: u64) -> (r: u64)
    requires
        entry <= MAX_PRICE,
        sl_bps <= MAX_STOP_LOSS_BPS,
    ensures
        r == sl_target(entry as int, sl_bps as int),
{
    proof {
        assert(entry * (10000 - sl_bps) <= 1099511627776 * 10000) by (nonlinear_arith)
            requires
                entry <= 1099511627776,
                sl_bps <= 10000,
        ;
    }
    entry * (10000 - sl_bps) / 10000
}

/// Realized profit and loss of a closed position:
/// `(exit_price - entry_price) * quantity`.
pub fn realized_pnl(entry_price: u64, exit_price: u64, quantity: u64) -> (r: i128)
    requires
        entry_price <= MAX_PRICE,
        exit_price <= MAX_PRICE,
    ensures
        r == (exit_price - entry_price) * quantity,
{
    proof {
        assert((exit_price - entry_price) * quantity <= 1099511627776 * 0xffff_ffff_ffff_ffffu64
            && -(1099511627776 * 0xffff_ffff_ffff_ffffu64)
            <= (exit_price - entry_price) * quantity) by (nonlinear_arith)
            requires
                entry_price <= 1099511627776,
                exit_price <= 1099511627776,
                quantity <= 0xffff_ffff_ffff_ffffu64,
        ;
    }
    (exit_price as i128 - entry_price as i128) * (quantity as i128)
}

/// The exit decision for an open position given a freshly fetched price.
/// Stop-loss takes priority over take-profit over timeout: capital
/// preservation first.
pub open spec fn spec_decide_exit(
    p: Position,
    price: u64,
    now: u64,
    max_hold_ms: u64,
) -> Option<ExitReason> {
    if price <= p.stop_loss_price {
        Some(ExitReason::StopLoss)
    } else if price >= p.take_profit_price {
        Some(ExitReason::TakeProfit)
    } else if now >= p.opened_at + max_hold_ms {
        Some(ExitReason::Timeout)
    } else {
        None
    }
}

/// Stop-loss precedence: on a tick where both the take-profit and the
/// stop-loss thresholds are crossed, the decision is `StopLoss`.
pub proof fn lemma_stop_loss_precedence(p: Position, price: u64, now: u64, max_hold_ms: u64)
    requires
        price <= p.stop_loss_price,
        price >= p.take_profit_price,
    ensures
        spec_decide_exit(p, price, now, max_hold_ms) == Some(ExitReason::StopLoss),
{
}

pub open spec fn spec_confirm_buy(p: Position, fill: Fill, policy: ExitPolicy) -> Position {
    Position {
        state: PositionState::Open,
        entry_price: fill.price,
        quantity: fill.quantity,
        take_profit_price: tp_target(fill.price as int, policy.take_profit_bps as int) as u64,
        stop_loss_price: sl_target(fill.price as int, policy.stop_loss_bps as int) as u64,
        opened_at: fill.timestamp,
        last_checked_at: fill.timestamp,
        ..p
    }
}

/// A freshly created position awaiting its buy confirmation.
pub open spec fn spec_pending_buy(id: u64, mint_identifier: String, now: u64) -> Position {
    Position {
        id,
        mint_identifier,
        state: PositionState::PendingBuy,
        entry_price: 0,
        quantity: 0,
        take_profit_price: 0,
        stop_loss_price: 0,
        opened_at: now,
        last_checked_at: now,
        sell_attempts: 0,
    }
}

/// The position after an evaluation tick looked at it.
pub open spec fn spec_touch(p: Position, now: u64) -> Position {
    Position { last_checked_at: now, ..p }
}

pub open spec fn spec_fail_buy(p: Position) -> Position {
    Position { state: PositionState::Failed, ..p }
}

pub open spec fn spec_trigger_sell(p: Position) -> Position {
    Position { state: PositionState::PendingSell, ..p }
}

pub open spec fn spec_confirm_sell(p: Position) -> Position {
    Position { state: PositionState::Closed, ..p }
}

/// A failed sell increments the attempt counter; the position returns to
/// `Open` for re-evaluation while attempts remain, and is abandoned once
/// `max_sell_retries` attempts have failed.
pub open spec fn spec_sell_failed(p: Position, max_sell_retries: u64) -> Position {
    let attempts = (p.sell_attempts + 1) as u64;
    Position {
        state: if attempts >= max_sell_retries {
            PositionState::Abandoned
        } else {
            PositionState::Open
        },
        sell_attempts: attempts,
        ..p
    }
}

pub open spec fn spec_abandon(p: Position) -> Position {
    Position { state: PositionState::Abandoned, ..p }
}

impl Position {
    /// A newly detected signal opens a position that awaits its buy
    /// confirmation.
    pub fn pending_buy(id: u64, mint_identifier: String, now: u64) -> (r: Position)
        ensures
            r == spec_pending_buy(id, mint_identifier, now),
    {
        Position {
            id,
            mint_identifier,
            state: PositionState::PendingBuy,
            entry_price: 0,
            quantity: 0,
            take_profit_price: 0,
            stop_loss_price: 0,
            opened_at: now,
            last_checked_at: now,
            sell_attempts: 0,
        }
    }

    /// Buy confirmed: record the fill and compute both exit thresholds.
    pub fn confirm_buy(&mut self, fill: Fill, policy: &ExitPolicy)
        requires
            old(self).state == PositionState::PendingBuy,
            fill.price <= MAX_PRICE,
            policy.valid(),
        ensures
            *final(self) == spec_confirm_buy(*old(self), fill, *policy),
            is_edge(old(self).state, final(self).state),
    {
        self.state = PositionState::Open;
        self.entry_price = fill.price;
        self.quantity = fill.quantity;
        self.take_profit_price = compute_take_profit(fill.price, policy.take_profit_bps);
        self.stop_loss_price = compute_stop_loss(fill.price, policy.stop_loss_bps);
        self.opened_at = fill.timestamp;
        self.last_checked_at = fill.timestamp;
    }

    /// Buy rejected or timed out: terminal, never retried (re-detection of
    /// the same mint is already excluded by the dedup invariant).
    pub fn fail_buy(&mut self)
        requires
            old(self).state == PositionState::PendingBuy,
        ensures
            *final(self) == spec_fail_buy(*old(self)),
            is_edge(old(self).state, final(self).state),
    {
        self.state = PositionState::Failed;
    }

    /// Record that an evaluation tick looked at this position.
    pub fn touch(&mut self, now: u64)
        ensures
            *final(self) == spec_touch(*old(self), now),
    {
        self.last_checked_at = now;
    }

    /// An exit condition fired on an evaluation tick: schedule the sale.
    pub fn trigger_sell(&mut self)
        requires
            old(self).state == PositionState::Open,
        ensures
            *final(self) == spec_trigger_sell(*old(self)),
            is_edge(old(self).state, final(self).state),
    {
        self.state = PositionState::PendingSell;
    }

    /// Sell confirmed: the position is closed.
    pub fn confirm_sell(&mut self)
        requires
            old(self).state == PositionState::PendingSell,
        ensures
            *final(self) == spec_confirm_sell(*old(self)),
            is_edge(old(self).state, final(self).state),
    {
        self.state = PositionState::Closed;
    }

    /// Sell attempt failed with a retryable error.
    pub fn sell_failed(&mut self, max_sell_retries: u64)
        requires
            old(self).state == PositionState::PendingSell,
            old(self).sell_attempts < 0xffff_ffff_ffff_ffffu64,
        ensures
            *final(self) == spec_sell_failed(*old(self), max_sell_retries),
            is_edge(old(self).state, final(self).state),
    {
        self.sell_attempts = self.sell_attempts + 1;
        if self.sell_attempts >= max_sell_retries {
            self.state = PositionState::Abandoned;
        } else {
            self.state = PositionState::Open;
        }
    }

    /// Sell permanently rejected: abandoned at once, flagged for manual
    /// intervention.
    pub fn sell_rejected(&mut self)
        requires
            old(self).state == PositionState::PendingSell,
        ensures
            *final(self) == spec_abandon(*old(self)),
            is_edge(old(self).state, final(self).state),
    {
        self.state = PositionState::Abandoned;
    }

    /// The exit decision for this position at `price` and `now`.
    pub fn decide_exit(&self, price: u64, now: u64, max_hold_ms: u64) -> (r: Option<ExitReason>)
        ensures
            r == spec_decide_exit(*self, price, now, max_hold_ms),
    {
        if price <= self.stop_loss_price {
            Some(ExitReason::StopLoss)
        } else if price >= self.take_profit_price {
            Some(ExitReason::TakeProfit)
        } else if now >= self.opened_at && now - self.opened_at >= max_hold_ms {
            Some(ExitReason::Timeout)
        } else {
            None
        }
    }
}

/// Every transition of the life cycle follows an edge of `is_edge`: no
/// position ever skips `PendingBuy` or `PendingSell`, and an evaluation
/// tick that looks at a position without firing leaves its state alone.
pub proof fn lemma_transitions_follow_edges(
    p: Position,
    fill: Fill,
    policy: ExitPolicy,
    max_sell_retries: u64,
    now: u64,
)
    ensures
        p.state == PositionState::PendingBuy ==> is_edge(
            p.state,
            spec_confirm_buy(p, fill, policy).state,
        ),
        p.state == PositionState::PendingBuy ==> is_edge(p.state, spec_fail_buy(p).state),
        p.state == PositionState::Open ==> is_edge(p.state, spec_trigger_sell(p).state),
        p.state == PositionState::PendingSell ==> is_edge(p.state, spec_confirm_sell(p).state),
        p.state == PositionState::PendingSell ==> is_edge(
            p.state,
            spec_sell_failed(p, max_sell_retries).state,
        ),
        p.state == PositionState::PendingSell ==> is_edge(p.state, spec_abandon(p).state),
        is_edge(p.state, spec_touch(p, now).state),
{
}

/// One full retry round against a failing executor: the exit condition
/// fires again and the sell attempt fails again.
pub open spec fn spec_failed_round(p: Position, max_sell_retries: u64) -> Position {
    spec_sell_failed(spec_trigger_sell(p), max_sell_retries)
}

/// The position after `n` failed sell rounds.
pub open spec fn after_failed_rounds(p: Position, max_sell_retries: u64, n: nat) -> Position
    decreases n,
{
    if n == 0 {
        p
    } else {
        spec_failed_round(after_failed_rounds(p, max_sell_retries, (n - 1) as nat), max_sell_retries)
    }
}

/// Retry bound: a position whose sell always fails stays under automatic
/// management for every round before `max_sell_retries`, and is `Abandoned`
/// after exactly `max_sell_retries` failed attempts — never fewer, never
/// more.
pub proof fn lemma_retry_bound(p: Position, max_sell_retries: u64, n: nat)
    requires
        p.state == PositionState::Open,
        p.sell_attempts == 0,
        1 <= max_sell_retries,
        n <= max_sell_retries,
    ensures
        after_failed_rounds(p, max_sell_retries, n).sell_attempts == n,
        n < max_sell_retries ==> after_failed_rounds(p, max_sell_retries, n).state
            == PositionState::Open,
        n == max_sell_retries ==> after_failed_rounds(p, max_sell_retries, n).state
            == PositionState::Abandoned,
    decreases n,
{
    if n > 0 {
        lemma_retry_bound(p, max_sell_retries, (n - 1) as nat);
    }
}

} // verus!
