use market_maker::exchanges::order_manager::{OrderCounts, OrderRegistry, OrderState};
use market_maker::exchanges::{OrderSide, OrderStatus};

#[derive(Debug, Clone, Copy, PartialEq)]
struct Amounts {
    quantity: f64,
    filled: f64,
}

fn order(id: &str, client: &str, symbol: &str, status: OrderStatus, time: i64) -> OrderState<Amounts> {
    OrderState {
        order_id: id.to_string(),
        client_order_id: client.to_string(),
        symbol: symbol.to_string(),
        side: OrderSide::Buy,
        status,
        create_time: time,
        update_time: time,
        amounts: Amounts { quantity: 1.0, filled: 0.0 },
    }
}

fn ids(orders: &[&OrderState<Amounts>]) -> Vec<String> {
    orders.iter().map(|o| o.order_id.clone()).collect()
}

#[test]
fn added_orders_are_found_by_both_ids() {
    let mut registry = OrderRegistry::new();
    registry.add_order(order("order1", "client1", "BTCUSDT", OrderStatus::New, 10));
    registry.add_order(order("order2", "client2", "BTCUSDT", OrderStatus::New, 11));
    assert_eq!(registry.get_order("order1").unwrap().client_order_id, "client1");
    assert_eq!(registry.get_order_by_client_id("client2").unwrap().order_id, "order2");
    assert!(registry.get_order("order3").is_none());
    assert!(registry.get_order_by_client_id("client3").is_none());
    assert!(registry.contains_order("order2"));
    assert!(!registry.contains_order("ORDER2"));
    assert_eq!(registry.orders().len(), 2);
}

#[test]
fn filing_the_same_order_id_replaces_it() {
    let mut registry = OrderRegistry::new();
    registry.add_order(order("order1", "client1", "BTCUSDT", OrderStatus::New, 10));
    registry.add_order(order("order1", "client9", "ETHUSDT", OrderStatus::Filled, 20));
    assert_eq!(registry.orders().len(), 1);
    let found = registry.get_order("order1").unwrap();
    assert_eq!(found.symbol, "ETHUSDT");
    assert_eq!(found.status, OrderStatus::Filled);
    assert_eq!(registry.get_order_by_client_id("client1").unwrap().symbol, "ETHUSDT");
    assert_eq!(registry.get_order_by_client_id("client9").unwrap().order_id, "order1");
}

#[test]
fn client_id_follows_the_last_filing() {
    let mut registry = OrderRegistry::new();
    registry.add_order(order("order1", "client1", "BTCUSDT", OrderStatus::New, 10));
    registry.add_order(order("order2", "client1", "BTCUSDT", OrderStatus::New, 11));
    assert_eq!(registry.get_order_by_client_id("client1").unwrap().order_id, "order2");
}

#[test]
fn update_changes_status_time_and_amounts() {
    let mut registry = OrderRegistry::new();
    registry.add_order(order("order1", "client1", "BTCUSDT", OrderStatus::New, 10));
    let updated = registry.update_order(
        "order1",
        OrderStatus::PartiallyFilled,
        42,
        Amounts { quantity: 1.0, filled: 0.5 },
    );
    assert!(updated);
    let found = registry.get_order("order1").unwrap();
    assert_eq!(found.status, OrderStatus::PartiallyFilled);
    assert_eq!(found.update_time, 42);
    assert_eq!(found.create_time, 10);
    assert_eq!(found.amounts.filled, 0.5);
    assert!(!registry.update_order("missing", OrderStatus::Filled, 1, Amounts { quantity: 0.0, filled: 0.0 }));
}

#[test]
fn active_orders_and_counts_per_symbol() {
    let mut registry = OrderRegistry::new();
    registry.add_order(order("a", "ca", "BTCUSDT", OrderStatus::New, 1));
    registry.add_order(order("b", "cb", "BTCUSDT", OrderStatus::Filled, 2));
    registry.add_order(order("c", "cc", "ETHUSDT", OrderStatus::New, 3));
    registry.add_order(order("d", "cd", "BTCUSDT", OrderStatus::PartiallyFilled, 4));
    registry.add_order(order("e", "ce", "BTCUSDT", OrderStatus::Cancelled, 5));
    registry.add_order(order("f", "cf", "BTCUSDT", OrderStatus::Rejected, 6));
    assert_eq!(ids(&registry.get_active_orders("BTCUSDT")), vec!["a", "d"]);
    assert_eq!(ids(&registry.get_active_orders("ETHUSDT")), vec!["c"]);
    assert!(registry.get_active_orders("SOLUSDT").is_empty());
    assert_eq!(
        registry.count_orders("BTCUSDT"),
        OrderCounts { total: 5, filled: 1, partially_filled: 1, cancelled: 1 }
    );
    assert_eq!(
        registry.count_orders("SOLUSDT"),
        OrderCounts { total: 0, filled: 0, partially_filled: 0, cancelled: 0 }
    );
}

#[test]
fn cleanup_drops_only_old_completed_orders() {
    let mut registry = OrderRegistry::new();
    registry.add_order(order("old_filled", "c1", "BTCUSDT", OrderStatus::Filled, 100));
    registry.add_order(order("new_filled", "c2", "BTCUSDT", OrderStatus::Filled, 300));
    registry.add_order(order("old_open", "c3", "BTCUSDT", OrderStatus::New, 100));
    registry.add_order(order("old_cancelled", "c4", "BTCUSDT", OrderStatus::Cancelled, 200));
    registry.add_order(order("old_rejected", "c5", "BTCUSDT", OrderStatus::Rejected, 100));
    registry.retain_recent(200);
    let kept: Vec<String> = registry.orders().iter().map(|o| o.order_id.clone()).collect();
    assert_eq!(kept, vec!["new_filled", "old_open", "old_rejected"]);
    assert!(registry.get_order_by_client_id("c1").is_none());
    assert_eq!(registry.get_order_by_client_id("c3").unwrap().order_id, "old_open");
}
