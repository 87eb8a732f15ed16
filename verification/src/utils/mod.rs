//! Clocks, the circuit breaker, the latency monitor and bounded histories.

pub mod circuit_breaker;
pub mod clock;
pub mod history;
pub mod latency_monitor;
pub mod text;
pub mod window;

pub use clock::{
    current_timestamp_ms, current_timestamp_secs, timestamp_from_millis, timestamp_from_secs,
};
