//! Verified core of a Bybit market maker with Deribit hedging: the circuit
//! breaker, the latency monitor, bounded windows and histories, clocks,
//! order book-keeping, exchange request signing, the protocol logic shared
//! by the exchange connectors, and the types of the monitoring API.

pub mod api;
pub mod config;
pub mod exchanges;
pub mod models;
pub mod strategies;
pub mod utils;
