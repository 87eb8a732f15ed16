use vstd::prelude::*;

use crate::exchanges::{OrderSide, OrderStatus};
use crate::models::Side;
use crate::utils::circuit_breaker::State;

verus! {

/// Health of the three exchange connections.
#[derive(Debug, Clone)]
pub struct ConnectionsStatus {
    pub bybit_websocket: ConnectionInfo,
    pub bybit_rest: ConnectionInfo,
    pub deribit_rest: ConnectionInfo,
}

/// Health of one connection.
#[derive(Debug, Clone)]
pub struct ConnectionInfo {
    pub status: String,
    pub latency_ms: Option<u64>,
    pub last_message: Option<String>,
    pub last_call: Option<String>,
}

/// A risk alert.
#[derive(Debug, Clone)]
pub struct Alert {
    pub severity: String,
    pub message: String,
    pub timestamp: String,
}

/// System settings reported by the API.
#[derive(Debug, Clone, Copy)]
pub struct SystemConfig {
    pub paper_trading: bool,
    pub quote_refresh_ms: u64,
    pub hedge_interval_ms: u64,
}

/// Requested changes to the system settings; absent fields stay as they are.
#[derive(Debug, Clone, Copy)]
pub struct SystemConfigUpdate {
    pub paper_trading: Option<bool>,
    pub quote_refresh_ms: Option<u64>,
    pub hedge_interval_ms: Option<u64>,
}

/// Answer to a control operation (start, stop, pause).
#[derive(Debug, Clone)]
pub struct ControlResponse {
    pub success: bool,
    pub message: String,
    pub timestamp: String,
}

/// A page of log entries.
#[derive(Debug, Clone)]
pub struct LogsResponse {
    pub total: usize,
    pub logs: Vec<LogEntry>,
}

/// One log entry.
#[derive(Debug, Clone)]
pub struct LogEntry {
    pub timestamp: String,
    pub level: String,
    pub message: String,
    pub module: String,
}

/// Answer to a failed request.
#[derive(Debug, Clone)]
pub struct ErrorResponse {
    pub error: String,
    pub details: Option<String>,
}

/// The lowercase label the API shows for an order side.
pub fn side_label(side: OrderSide) -> (label: &'static str)
    ensures
        label@ == (match side {
            OrderSide::Buy => "buy"@,
            OrderSide::Sell => "sell"@,
        }),
{
    match side {
        OrderSide::Buy => "buy",
        OrderSide::Sell => "sell",
    }
}

/// The lowercase label the API shows for the aggressor side of a trade.
pub fn trade_side_label(side: Side) -> (label: &'static str)
    ensures
        label@ == (match side {
            Side::Buy => "buy"@,
            Side::Sell => "sell"@,
        }),
{
    match side {
        Side::Buy => "buy",
        Side::Sell => "sell",
    }
}

/// The lowercase label the API shows for an order status (the variant name
/// in lowercase, without separators).
pub fn status_label(status: OrderStatus) -> (label: &'static str)
    ensures
        label@ == (match status {
            OrderStatus::New => "new"@,
            OrderStatus::PartiallyFilled => "partiallyfilled"@,
            OrderStatus::Filled => "filled"@,
            OrderStatus::Cancelled => "cancelled"@,
            OrderStatus::Rejected => "rejected"@,
        }),
{
    match status {
        OrderStatus::New => "new",
        OrderStatus::PartiallyFilled => "partiallyfilled",
        OrderStatus::Filled => "filled",
        OrderStatus::Cancelled => "cancelled",
        OrderStatus::Rejected => "rejected",
    }
}

/// The lowercase label the API shows for a circuit breaker position.
pub fn breaker_state_label(state: State) -> (label: &'static str)
    ensures
        label@ == (match state {
            State::Closed => "closed"@,
            State::Open => "open"@,
            State::HalfOpen => "halfopen"@,
        }),
{
    match state {
        State::Closed => "closed",
        State::Open => "open",
        State::HalfOpen => "halfopen",
    }
}

} // verus!
