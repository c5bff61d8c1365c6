use coconut_bot::position::{
    compute_stop_loss, compute_take_profit, realized_pnl, ExitPolicy, ExitReason, Fill, Position,
    PositionState,
};

fn policy() -> ExitPolicy {
    ExitPolicy {
        take_profit_bps: 1000, // +10 %
        stop_loss_bps: 300,    // -3 %
        max_hold_ms: 60_000,
        max_sell_retries: 3,
    }
}

fn opened_position() -> Position {
    let mut p = Position::pending_buy(1, "M1".to_string(), 0);
    p.confirm_buy(Fill { price: 1_000_000, quantity: 100, timestamp: 10 }, &policy());
    p
}

#[test]
fn thresholds_exact_values() {
    assert_eq!(compute_take_profit(1_000_000, 1000), 1_100_000);
    assert_eq!(compute_stop_loss(1_000_000, 300), 970_000);
    // Rounding is downward.
    assert_eq!(compute_take_profit(3, 1000), 3);
    assert_eq!(compute_stop_loss(3, 300), 2);
    // Degenerate percentages.
    assert_eq!(compute_take_profit(500, 0), 500);
    assert_eq!(compute_stop_loss(500, 10_000), 0);
}

#[test]
fn buy_confirmation_opens_and_prices() {
    let p = opened_position();
    assert_eq!(p.state, PositionState::Open);
    assert_eq!(p.entry_price, 1_000_000);
    assert_eq!(p.quantity, 100);
    assert_eq!(p.take_profit_price, 1_100_000);
    assert_eq!(p.stop_loss_price, 970_000);
    assert_eq!(p.opened_at, 10);
}

#[test]
fn buy_failure_is_terminal() {
    let mut p = Position::pending_buy(1, "M1".to_string(), 0);
    p.fail_buy();
    assert_eq!(p.state, PositionState::Failed);
}

#[test]
fn take_profit_triggers_exit() {
    let p = opened_position();
    assert_eq!(p.decide_exit(1_100_000, 11, 60_000), Some(ExitReason::TakeProfit));
    assert_eq!(p.decide_exit(1_099_999, 11, 60_000), None);
}

#[test]
fn stop_loss_triggers_exit() {
    let p = opened_position();
    assert_eq!(p.decide_exit(970_000, 11, 60_000), Some(ExitReason::StopLoss));
    assert_eq!(p.decide_exit(970_001, 11, 60_000), None);
}

#[test]
fn timeout_triggers_exit() {
    let p = opened_position();
    // opened_at is 10; the hold expires 60 000 ms later.
    assert_eq!(p.decide_exit(1_000_000, 60_009, 60_000), None);
    assert_eq!(p.decide_exit(1_000_000, 60_010, 60_000), Some(ExitReason::Timeout));
}

#[test]
fn stop_loss_precedence_over_take_profit() {
    // A policy with both thresholds at the entry price makes one tick cross
    // both at once; capital preservation wins.
    let pol = ExitPolicy {
        take_profit_bps: 0,
        stop_loss_bps: 0,
        max_hold_ms: 60_000,
        max_sell_retries: 3,
    };
    let mut p = Position::pending_buy(1, "M1".to_string(), 0);
    p.confirm_buy(Fill { price: 1_000_000, quantity: 100, timestamp: 10 }, &pol);
    assert_eq!(p.take_profit_price, 1_000_000);
    assert_eq!(p.stop_loss_price, 1_000_000);
    assert_eq!(p.decide_exit(1_000_000, 11, 60_000), Some(ExitReason::StopLoss));
}

#[test]
fn sell_life_cycle_closes() {
    let mut p = opened_position();
    p.trigger_sell();
    assert_eq!(p.state, PositionState::PendingSell);
    p.confirm_sell();
    assert_eq!(p.state, PositionState::Closed);
}

#[test]
fn retry_bound_abandons_after_exactly_max_retries() {
    let mut p = opened_position();
    let max_sell_retries = 3;
    // Two failed attempts: still under automatic management.
    for expected_attempts in 1..=2u64 {
        p.trigger_sell();
        p.sell_failed(max_sell_retries);
        assert_eq!(p.sell_attempts, expected_attempts);
        assert_eq!(p.state, PositionState::Open);
    }
    // The third failure exhausts the budget: abandoned, not before.
    p.trigger_sell();
    p.sell_failed(max_sell_retries);
    assert_eq!(p.sell_attempts, 3);
    assert_eq!(p.state, PositionState::Abandoned);
}

#[test]
fn rejected_sell_abandons_at_once() {
    let mut p = opened_position();
    p.trigger_sell();
    p.sell_rejected();
    assert_eq!(p.state, PositionState::Abandoned);
}

#[test]
fn pnl_exact_values() {
    assert_eq!(realized_pnl(1_000_000, 1_100_000, 100), 10_000_000);
    assert_eq!(realized_pnl(1_000_000, 970_000, 100), -3_000_000);
    assert_eq!(realized_pnl(5, 5, 1_000), 0);
}
