use market_maker::api::models::{breaker_state_label, side_label, status_label, trade_side_label};
use market_maker::api::state::TradingState;
use market_maker::exchanges::{OrderSide, OrderStatus};
use market_maker::models::Side;
use market_maker::utils::circuit_breaker::State;
use market_maker::utils::{
    current_timestamp_ms, current_timestamp_secs, timestamp_from_millis, timestamp_from_secs,
};
use market_maker::utils::clock::reading_millis;

#[test]
fn trading_state_names() {
    assert_eq!(TradingState::Running.to_string(), "running");
    assert_eq!(TradingState::Stopped.to_string(), "stopped");
    assert_eq!(TradingState::Paused.to_string(), "paused");
    assert!(TradingState::Running.is_running());
    assert!(!TradingState::Paused.is_running());
}

#[test]
fn api_labels() {
    assert_eq!(side_label(OrderSide::Buy), "buy");
    assert_eq!(status_label(OrderStatus::PartiallyFilled), "partiallyfilled");
    assert_eq!(status_label(OrderStatus::Cancelled), "cancelled");
    assert_eq!(side_label(OrderSide::Sell), "sell");
    assert_eq!(trade_side_label(Side::Buy), "buy");
    assert_eq!(trade_side_label(Side::Sell), "sell");
    assert_eq!(breaker_state_label(State::HalfOpen), "halfopen");
    assert_eq!(breaker_state_label(State::Open), "open");
}

#[test]
fn timestamps_agree() {
    let secs = current_timestamp_secs();
    let ms = current_timestamp_ms();
    assert!(secs > 1_600_000_000);
    assert!(ms / 1000 >= secs);
}

#[test]
fn timestamps_from_readings() {
    assert_eq!(timestamp_from_secs(Some(1_700_000_000)), 1_700_000_000);
    assert_eq!(timestamp_from_secs(None), 0);
    assert_eq!(timestamp_from_secs(Some(u64::MAX)), -1);
    assert_eq!(timestamp_from_millis(Some(1_700_000_000_123)), 1_700_000_000_123);
    assert_eq!(timestamp_from_millis(None), 0);
    assert_eq!(timestamp_from_millis(Some(1u128 << 64)), 0);
}

#[test]
fn seconds_and_millis_of_one_reading_agree() {
    let ms = reading_millis(1_700_000_000, 999);
    assert_eq!(ms, 1_700_000_000_999);
    assert_eq!(timestamp_from_millis(Some(ms)) / 1000, timestamp_from_secs(Some(1_700_000_000)));
    assert_eq!(reading_millis(0, 0), 0);
    assert_eq!(reading_millis(u64::MAX, 999), u64::MAX as u128 * 1000 + 999);
}
