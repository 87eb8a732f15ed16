use market_maker::exchanges::bybit;
use market_maker::exchanges::deribit;
use market_maker::exchanges::websocket::{
    self, classify_topic, next_reconnect_delay, ConnectionState, TopicKind,
};
use market_maker::exchanges::{
    cleanup_cutoff, is_active, order_retained, status_after_fill, OrderSide, OrderStatus,
    OrderType, TimeInForce,
};

#[test]
fn signature_matches_hmac_sha256_vector() {
    let sig = bybit::generate_signature("apikey", "secret", 1658384314791, "{\"category\":\"spot\"}");
    assert_eq!(sig, "a16307e90ed6a9750c85a7c629d77a2b8dcf66b45f0af6080ecf8a8c03574ffe");
    let sig = bybit::generate_signature("k", "sk", 0, "a=1&b=2");
    assert_eq!(sig, "d47bf74f9a177fa30368eec40f0f579897f496b6d2699cd11e662600a098f8d9");
    assert_eq!(sig.len(), 64);
}

#[test]
fn sign_payload_concatenates() {
    assert_eq!(bybit::sign_payload(1658384314791, "apikey", "x=1"), "1658384314791apikeyx=1");
    assert_eq!(bybit::sign_payload(0, "", ""), "0");
    assert_eq!(
        bybit::sign_payload(u128::MAX, "k", ""),
        "340282366920938463463374607431768211455k"
    );
}

#[test]
fn query_and_url() {
    assert_eq!(bybit::query_string(&[]), "");
    assert_eq!(bybit::query_string(&[("category", "spot")]), "category=spot");
    let query = bybit::query_string(&[("category", "spot"), ("symbol", "BTCUSDT"), ("orderId", "42")]);
    assert_eq!(query, "category=spot&symbol=BTCUSDT&orderId=42");
    assert_eq!(
        bybit::request_url("https://api.bybit.com", "/v5/order/realtime", &query),
        "https://api.bybit.com/v5/order/realtime?category=spot&symbol=BTCUSDT&orderId=42"
    );
    assert_eq!(bybit::request_url("https://api.bybit.com", "/v5/x", ""), "https://api.bybit.com/v5/x");
}

#[test]
fn bybit_endpoints_and_names() {
    assert_eq!(bybit::rest_base_url(true), "https://api-testnet.bybit.com");
    assert_eq!(bybit::rest_base_url(false), "https://api.bybit.com");
    assert_eq!(bybit::public_stream_url(true), "wss://stream-testnet.bybit.com/v5/public/spot");
    assert_eq!(bybit::public_stream_url(false), "wss://stream.bybit.com/v5/public/spot");
    assert_eq!(bybit::side_name(OrderSide::Sell), "Sell");
    assert_eq!(bybit::order_type_name(OrderType::PostOnly), "Limit");
    assert_eq!(bybit::order_type_name(OrderType::Market), "Market");
    assert_eq!(bybit::time_in_force_name(TimeInForce::PostOnly), "PostOnly");
    assert_eq!(bybit::time_in_force_name(TimeInForce::FOK), "FOK");
    assert!(bybit::ret_code_accepted(Some(0)));
    assert!(!bybit::ret_code_accepted(Some(10001)));
    assert!(!bybit::ret_code_accepted(None));
}

#[test]
fn bybit_parsing() {
    assert_eq!(bybit::parse_side("Buy"), Some(OrderSide::Buy));
    assert_eq!(bybit::parse_side("Sell"), Some(OrderSide::Sell));
    assert_eq!(bybit::parse_side("buy"), None);
    assert_eq!(bybit::parse_order_status("PartiallyFilled"), Some(OrderStatus::PartiallyFilled));
    assert_eq!(bybit::parse_order_status("Rejected"), Some(OrderStatus::Rejected));
    assert_eq!(bybit::parse_order_status("Untriggered"), None);
}

#[test]
fn deribit_names_and_parsing() {
    assert_eq!(deribit::base_url(true), "https://test.deribit.com/api/v2");
    assert_eq!(deribit::base_url(false), "https://www.deribit.com/api/v2");
    assert_eq!(deribit::perpetual_instrument("BTC"), "BTC-PERPETUAL");
    assert_eq!(deribit::direction_name(OrderSide::Buy), "buy");
    assert_eq!(deribit::order_method(OrderSide::Sell), "private/sell");
    assert_eq!(deribit::order_type_name(OrderType::PostOnly), "limit");
    assert!(deribit::is_post_only(TimeInForce::PostOnly));
    assert!(!deribit::is_post_only(TimeInForce::GTC));
    assert_eq!(deribit::parse_direction("sell"), Some(OrderSide::Sell));
    assert_eq!(deribit::parse_direction("Sell"), None);
    assert_eq!(deribit::parse_order_state("open"), OrderStatus::New);
    assert_eq!(deribit::parse_order_state("filled"), OrderStatus::Filled);
    assert_eq!(deribit::parse_order_state("cancelled"), OrderStatus::Cancelled);
    assert_eq!(deribit::parse_order_state("rejected"), OrderStatus::Rejected);
    assert_eq!(deribit::parse_order_state("untriggered"), OrderStatus::New);
    assert!(deribit::needs_reauthentication(Some(13009)));
    assert!(!deribit::needs_reauthentication(Some(10000)));
    assert!(!deribit::needs_reauthentication(None));
}

#[test]
fn stream_topics_and_routing() {
    assert_eq!(websocket::orderbook_topic("BTCUSDT", 50), "orderbook.50.BTCUSDT");
    assert_eq!(websocket::orderbook_topic("ETHUSDT", 0), "orderbook.0.ETHUSDT");
    assert_eq!(websocket::trade_topic("BTCUSDT"), "publicTrade.BTCUSDT");
    assert_eq!(classify_topic("orderbook.50.BTCUSDT"), TopicKind::OrderBook);
    assert_eq!(classify_topic("publicTrade.BTCUSDT"), TopicKind::Trade);
    assert_eq!(classify_topic("tickers.BTCUSDT"), TopicKind::Other);
    assert_eq!(classify_topic("order"), TopicKind::Other);
    assert_eq!(classify_topic(""), TopicKind::Other);
}

#[test]
fn reconnect_backoff_doubles_to_a_cap() {
    let mut delay = websocket::INITIAL_RECONNECT_DELAY;
    let mut seen = vec![delay];
    for _ in 0..8 {
        delay = next_reconnect_delay(delay);
        seen.push(delay / 1_000_000_000);
    }
    assert_eq!(seen[1..].to_vec(), vec![2, 4, 8, 16, 32, 60, 60, 60]);
    assert_eq!(next_reconnect_delay(u64::MAX), websocket::MAX_RECONNECT_DELAY);
}

#[test]
fn liveness_and_connection_bookkeeping() {
    assert!(!websocket::is_connection_dead(60_000_000_000));
    assert!(websocket::is_connection_dead(60_000_000_001));
    let mut state = ConnectionState::new();
    assert!(!state.connected);
    state.mark_connected();
    state.record_message();
    state.record_message();
    state.mark_connection_lost();
    assert!(!state.connected);
    assert_eq!(state.reconnect_count, 1);
    assert_eq!(state.total_messages, 2);
}

#[test]
fn active_statuses() {
    assert!(is_active(OrderStatus::New));
    assert!(is_active(OrderStatus::PartiallyFilled));
    assert!(!is_active(OrderStatus::Filled));
    assert!(!is_active(OrderStatus::Cancelled));
    assert!(!is_active(OrderStatus::Rejected));
}

#[test]
fn fill_status_rule() {
    assert_eq!(status_after_fill(OrderStatus::New, true, true), OrderStatus::Filled);
    assert_eq!(status_after_fill(OrderStatus::New, false, true), OrderStatus::PartiallyFilled);
    assert_eq!(status_after_fill(OrderStatus::Cancelled, false, false), OrderStatus::Cancelled);
    assert_eq!(status_after_fill(OrderStatus::PartiallyFilled, true, true), OrderStatus::Filled);
}

#[test]
fn cleanup_keeps_open_and_recent_orders() {
    let cutoff = cleanup_cutoff(10_000_000, 2);
    assert_eq!(cutoff, 2_800_000);
    assert!(order_retained(OrderStatus::New, 0, cutoff));
    assert!(order_retained(OrderStatus::Rejected, 0, cutoff));
    assert!(!order_retained(OrderStatus::Filled, 2_800_000, cutoff));
    assert!(order_retained(OrderStatus::Filled, 2_800_001, cutoff));
    assert!(!order_retained(OrderStatus::Cancelled, 5, cutoff));
    assert_eq!(cleanup_cutoff(0, -1), 3_600_000);
}

#[test]
fn test_websocket_creation() {
    let subscriptions = websocket::StreamSubscriptions::new();
    assert_eq!(subscriptions.len(), 0);
}

#[test]
fn test_subscribe_orderbook() {
    let mut subscriptions = websocket::StreamSubscriptions::new();
    subscriptions.subscribe_orderbook("BTCUSDT", 50);
    assert_eq!(subscriptions.len(), 1);
    assert!(subscriptions.topics()[0].contains("orderbook"));
    assert_eq!(subscriptions.topics()[0], "orderbook.50.BTCUSDT");
}

#[test]
fn test_subscribe_trades() {
    let mut subscriptions = websocket::StreamSubscriptions::new();
    subscriptions.subscribe_trades("BTCUSDT");
    assert_eq!(subscriptions.len(), 1);
    assert!(subscriptions.topics()[0].contains("publicTrade"));
    assert_eq!(subscriptions.topics()[0], "publicTrade.BTCUSDT");
}

#[test]
fn subscriptions_keep_request_order() {
    let mut subscriptions = websocket::StreamSubscriptions::new();
    subscriptions.subscribe_orderbook("ETHUSDT", 1);
    subscriptions.subscribe_trades("ETHUSDT");
    assert!(!subscriptions.is_empty());
    assert_eq!(
        subscriptions.topics().clone(),
        vec!["orderbook.1.ETHUSDT".to_string(), "publicTrade.ETHUSDT".to_string()]
    );
}

#[test]
fn hedge_option_expiry_window() {
    assert_eq!(deribit::expiry_cutoff(1_700_000_000, 30), 1_702_592_000);
    assert_eq!(deribit::expiry_cutoff(0, 0), 0);
    assert_eq!(deribit::expiry_cutoff(100, -1), 100 - 86_400);
}

#[test]
fn reconnect_plan_after_close_and_failure() {
    assert_eq!(
        websocket::plan_reconnect(8_000_000_000, websocket::SessionEnd::Closed),
        websocket::ReconnectPlan { wait: 0, next_delay: 1_000_000_000 }
    );
    assert_eq!(
        websocket::plan_reconnect(1_000_000_000, websocket::SessionEnd::Failed),
        websocket::ReconnectPlan { wait: 1_000_000_000, next_delay: 2_000_000_000 }
    );
    assert_eq!(
        websocket::plan_reconnect(32_000_000_000, websocket::SessionEnd::Failed),
        websocket::ReconnectPlan { wait: 32_000_000_000, next_delay: 60_000_000_000 }
    );
    assert_eq!(
        websocket::plan_reconnect(60_000_000_000, websocket::SessionEnd::Failed),
        websocket::ReconnectPlan { wait: 60_000_000_000, next_delay: 60_000_000_000 }
    );
}

#[test]
fn rpc_replies_retry_only_an_expired_first_attempt() {
    assert_eq!(deribit::next_rpc_step(deribit::RpcAttempt::First, None), deribit::RpcStep::Accept);
    assert_eq!(deribit::next_rpc_step(deribit::RpcAttempt::First, Some(Some(13009))), deribit::RpcStep::RenewTokenAndRetry);
    assert_eq!(deribit::next_rpc_step(deribit::RpcAttempt::First, Some(Some(10000))), deribit::RpcStep::Reject);
    assert_eq!(deribit::next_rpc_step(deribit::RpcAttempt::First, Some(None)), deribit::RpcStep::Reject);
    assert_eq!(deribit::next_rpc_step(deribit::RpcAttempt::Retry, Some(Some(13009))), deribit::RpcStep::Reject);
    assert_eq!(deribit::next_rpc_step(deribit::RpcAttempt::Retry, None), deribit::RpcStep::Accept);
}

#[test]
fn subscribed_topics_route_back() {
    for (symbol, depth) in [("BTCUSDT", 50u32), ("", 0), ("publicTrade", 7)] {
        assert_eq!(classify_topic(&websocket::orderbook_topic(symbol, depth)), TopicKind::OrderBook);
        assert_eq!(classify_topic(&websocket::trade_topic(symbol)), TopicKind::Trade);
    }
}

#[test]
fn stream_inputs_and_session_ends() {
    assert_eq!(websocket::react_to(websocket::StreamInput::Text), websocket::StreamReaction::Handle);
    assert_eq!(websocket::react_to(websocket::StreamInput::Ping), websocket::StreamReaction::ReplyPong);
    assert_eq!(websocket::react_to(websocket::StreamInput::Pong), websocket::StreamReaction::Ignore);
    assert_eq!(websocket::react_to(websocket::StreamInput::Other), websocket::StreamReaction::Ignore);
    assert_eq!(websocket::react_to(websocket::StreamInput::Close), websocket::StreamReaction::Fail);
    assert_eq!(websocket::react_to(websocket::StreamInput::Error), websocket::StreamReaction::Fail);
    assert_eq!(websocket::react_to(websocket::StreamInput::End), websocket::StreamReaction::Fail);
    assert_eq!(websocket::PING_INTERVAL, 20_000_000_000);
    assert_eq!(websocket::HEALTH_CHECK_INTERVAL, 30_000_000_000);

    let mut state = ConnectionState::new();
    state.mark_connected();
    let plan = state.end_session(4_000_000_000, websocket::SessionEnd::Failed);
    assert!(!state.connected);
    assert_eq!(state.reconnect_count, 1);
    assert_eq!(plan, websocket::ReconnectPlan { wait: 4_000_000_000, next_delay: 8_000_000_000 });
    state.mark_connected();
    let plan = state.end_session(8_000_000_000, websocket::SessionEnd::Closed);
    assert!(state.connected);
    assert_eq!(state.reconnect_count, 1);
    assert_eq!(plan, websocket::ReconnectPlan { wait: 0, next_delay: 1_000_000_000 });
}
