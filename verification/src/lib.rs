//! A latency-sensitive trading pipeline: a stream of raw on-chain events is
//! classified into trade signals (deduplicated per mint), signals travel
//! through a bounded intent queue to a position manager, and each open
//! position is supervised against take-profit / stop-loss / timeout exit
//! rules until it is sold, abandoned or failed.

pub mod book;
pub mod channel;
pub mod config;
pub mod detector;
pub mod event;
pub mod manager;
pub mod parse;
pub mod pipeline;
pub mod position;
pub mod stream;
pub mod text;
