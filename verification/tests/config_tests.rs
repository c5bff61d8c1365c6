use coconut_bot::config::{BotConfig, ConfigError};

fn validate(
    endpoint: &str,
    program_id: &str,
    marker: &str,
    tp: u64,
    sl: u64,
    retries: u64,
    capacity: usize,
    tick: u64,
    amount: u64,
) -> Result<BotConfig, ConfigError> {
    BotConfig::validate(
        endpoint.to_string(),
        program_id.to_string(),
        marker.to_string(),
        tp,
        sl,
        60_000,
        retries,
        capacity,
        tick,
        amount,
    )
}

#[test]
fn good_settings_are_accepted() {
    let c = validate("wss://example.org/rpc", "PUMPPROG", "MintTo", 1000, 300, 3, 100, 5000, 50).unwrap();
    assert_eq!(c.marker, "MintTo");
    assert_eq!(c.policy.take_profit_bps, 1000);
    assert_eq!(c.policy.stop_loss_bps, 300);
    assert_eq!(c.policy.max_hold_ms, 60_000);
    assert_eq!(c.policy.max_sell_retries, 3);
    assert_eq!(c.channel_capacity, 100);
}

#[test]
fn invalid_endpoint_is_fatal() {
    // The URL wrapper must actually judge the text: a plain word is
    // refused, a URL is accepted.
    let e = validate("no scheme here", "PUMPPROG", "MintTo", 1000, 300, 3, 100, 5000, 50).unwrap_err();
    assert_eq!(e, ConfigError::InvalidEndpoint);
}

#[test]
fn empty_program_id_is_refused() {
    let e = validate("wss://example.org", "", "MintTo", 1000, 300, 3, 100, 5000, 50).unwrap_err();
    assert_eq!(e, ConfigError::EmptyProgramId);
}

#[test]
fn empty_marker_is_refused() {
    let e = validate("wss://example.org", "PUMPPROG", "", 1000, 300, 3, 100, 5000, 50).unwrap_err();
    assert_eq!(e, ConfigError::EmptyMarker);
}

#[test]
fn out_of_range_percentages_are_refused() {
    let e = validate("wss://example.org", "PUMPPROG", "MintTo", 100_001, 300, 3, 100, 5000, 50).unwrap_err();
    assert_eq!(e, ConfigError::TakeProfitOutOfRange);
    let e = validate("wss://example.org", "PUMPPROG", "MintTo", 1000, 10_001, 3, 100, 5000, 50).unwrap_err();
    assert_eq!(e, ConfigError::StopLossOutOfRange);
}

#[test]
fn zero_retries_are_refused() {
    let e = validate("wss://example.org", "PUMPPROG", "MintTo", 1000, 300, 0, 100, 5000, 50).unwrap_err();
    assert_eq!(e, ConfigError::RetriesOutOfRange);
}

#[test]
fn zero_capacity_tick_and_amount_are_refused() {
    let e = validate("wss://example.org", "PUMPPROG", "MintTo", 1000, 300, 3, 0, 5000, 50).unwrap_err();
    assert_eq!(e, ConfigError::ZeroCapacity);
    let e = validate("wss://example.org", "PUMPPROG", "MintTo", 1000, 300, 3, 100, 0, 50).unwrap_err();
    assert_eq!(e, ConfigError::ZeroTickInterval);
    let e = validate("wss://example.org", "PUMPPROG", "MintTo", 1000, 300, 3, 100, 5000, 0).unwrap_err();
    assert_eq!(e, ConfigError::ZeroBuyAmount);
}

#[test]
fn first_fault_wins() {
    // Several faults at once: the checking order decides the report.
    let e = validate("bad", "", "", 100_001, 10_001, 0, 0, 0, 0).unwrap_err();
    assert_eq!(e, ConfigError::InvalidEndpoint);
}
