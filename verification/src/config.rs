//! Validated runtime configuration of the pipeline. Validation is a
//! startup-only gate: a bad value is fatal before anything runs, and no
//! configuration error can surface during steady-state operation.

use vstd::prelude::*;
use crate::position::{ExitPolicy, MAX_STOP_LOSS_BPS, MAX_TAKE_PROFIT_BPS};
use crate::stream::is_valid_url;

verus! {

#[derive(Clone, Copy, PartialEq, Eq, Structural, Debug)]
pub enum ConfigError {
    InvalidEndpoint,
    EmptyProgramId,
    EmptyMarker,
    TakeProfitOutOfRange,
    StopLossOutOfRange,
    RetriesOutOfRange,
    ZeroCapacity,
    ZeroTickInterval,
    ZeroBuyAmount,
}

/// The first configuration fault, checked in a fixed order; `None` when the
/// configuration is acceptable.
pub open spec fn spec_config_fault(
    endpoint: Seq<char>,
    program_id: Seq<char>,
    marker: Seq<char>,
    take_profit_bps: u64,
    stop_loss_bps: u64,
    max_sell_retries: u64,
    channel_capacity: usize,
    tick_interval_ms: u64,
    buy_amount: u64,
) -> Option<ConfigError> {
    if !is_valid_url(endpoint) {
        Some(ConfigError::InvalidEndpoint)
    } else if program_id.len() == 0 {
        Some(ConfigError::EmptyProgramId)
    } else if marker.len() == 0 {
        Some(ConfigError::EmptyMarker)
    } else if take_profit_bps > MAX_TAKE_PROFIT_BPS {
        Some(ConfigError::TakeProfitOutOfRange)
    } else if stop_loss_bps > MAX_STOP_LOSS_BPS {
        Some(ConfigError::StopLossOutOfRange)
    } else if max_sell_retries < 1 || max_sell_retries > 1000000 {
        Some(ConfigError::RetriesOutOfRange)
    } else if channel_capacity < 1 {
        Some(ConfigError::ZeroCapacity)
    } else if tick_interval_ms < 1 {
        Some(ConfigError::ZeroTickInterval)
    } else if buy_amount < 1 {
        Some(ConfigError::ZeroBuyAmount)
    } else {
        None
    }
}

/// Everything the two long-running tasks are configured with.
#[derive(Debug, Clone)]
pub struct BotConfig {
    pub endpoint: String,
    pub program_id: String,
    pub marker: String,
    pub policy: ExitPolicy,
    pub channel_capacity: usize,
    pub tick_interval_ms: u64,
    pub buy_amount: u64,
}

impl BotConfig {
    pub open spec fn valid(&self) -> bool {
        &&& is_valid_url(self.endpoint@)
        &&& self.program_id@.len() > 0
        &&& self.marker@.len() > 0
        &&& self.policy.valid()
        &&& self.channel_capacity >= 1
        &&& self.tick_interval_ms >= 1
        &&& self.buy_amount >= 1
    }

    /// Validate raw settings into a configuration. Accepts exactly the
    /// settings without a fault; otherwise reports the first fault in
    /// checking order.
    pub fn validate(
        endpoint: String,
        program_id: String,
        marker: String,
        take_profit_bps: u64,
        stop_loss_bps: u64,
        max_hold_ms: u64,
        max_sell_retries: u64,
        channel_capacity: usize,
        tick_interval_ms: u64,
        buy_amount: u64,
    ) -> (r: Result<BotConfig, ConfigError>)
        ensures
            r is Ok <==> spec_config_fault(
                endpoint@,
                program_id@,
                marker@,
                take_profit_bps,
                stop_loss_bps,
                max_sell_retries,
                channel_capacity,
                tick_interval_ms,
                buy_amount,
            ) is None,
            r matches Err(e) ==> Some(e) == spec_config_fault(
                endpoint@,
                program_id@,
                marker@,
                take_profit_bps,
                stop_loss_bps,
                max_sell_retries,
                channel_capacity,
                tick_interval_ms,
                buy_amount,
            ),
            r matches Ok(c) ==> {
                &&& c.valid()
                &&& c.endpoint@ == endpoint@
                &&& c.program_id@ == program_id@
                &&& c.marker@ == marker@
                &&& c.policy == (ExitPolicy {
                    take_profit_bps,
                    stop_loss_bps,
                    max_hold_ms,
                    max_sell_retries,
                })
                &&& c.channel_capacity == channel_capacity
                &&& c.tick_interval_ms == tick_interval_ms
                &&& c.buy_amount == buy_amount
            },
    {
        if !crate::stream::parse_url_ok(endpoint.as_str()) {
            Err(ConfigError::InvalidEndpoint)
        } else if program_id.as_str().is_empty() {
            Err(ConfigError::EmptyProgramId)
        } else if marker.as_str().is_empty() {
            Err(ConfigError::EmptyMarker)
        } else if take_profit_bps > MAX_TAKE_PROFIT_BPS {
            Err(ConfigError::TakeProfitOutOfRange)
        } else if stop_loss_bps > MAX_STOP_LOSS_BPS {
            Err(ConfigError::StopLossOutOfRange)
        } else if max_sell_retries < 1 || max_sell_retries > 1000000 {
            Err(ConfigError::RetriesOutOfRange)
        } else if channel_capacity < 1 {
            Err(ConfigError::ZeroCapacity)
        } else if tick_interval_ms < 1 {
            Err(ConfigError::ZeroTickInterval)
        } else if buy_amount < 1 {
            Err(ConfigError::ZeroBuyAmount)
        } else {
            Ok(
                BotConfig {
                    endpoint,
                    program_id,
                    marker,
                    policy: ExitPolicy {
                        take_profit_bps,
                        stop_loss_bps,
                        max_hold_ms,
                        max_sell_retries,
                    },
                    channel_capacity,
                    tick_interval_ms,
                    buy_amount,
                },
            )
        }
    }
}

} // verus!
