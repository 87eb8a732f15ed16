use market_maker::utils::latency_monitor::{
    LatencyMonitor, LatencyStats, LatencyTimer, MAX_DURATION_NANOS,
};

const MS: u128 = 1_000_000;

#[test]
fn test_latency_monitor() {
    let mut monitor = LatencyMonitor::new(100);

    for i in 1..=10 {
        monitor.record_orderbook_latency(i * MS);
    }

    let stats = monitor.get_orderbook_stats();
    assert_eq!(stats.count, 10);
    assert_eq!(stats.min, MS);
    assert_eq!(stats.max, 10 * MS);
}

#[test]
fn test_max_samples() {
    let mut monitor = LatencyMonitor::new(5);

    for i in 1..=10 {
        monitor.record_orderbook_latency(i * MS);
    }

    let stats = monitor.get_orderbook_stats();
    assert_eq!(stats.count, 5);
    assert_eq!(stats.min, 6 * MS);
    assert_eq!(stats.max, 10 * MS);
}

#[test]
fn test_health_check() {
    let mut monitor = LatencyMonitor::new(100);

    for _ in 0..10 {
        monitor.record_orderbook_latency(5 * MS);
    }

    assert!(monitor.is_healthy(100));
    assert!(!monitor.is_healthy(1));
}

#[test]
fn empty_window_gives_zero_stats() {
    let monitor = LatencyMonitor::new(10);
    assert_eq!(monitor.get_trade_stats(), LatencyStats::default());
    assert_eq!(monitor.get_trade_stats().count, 0);
    assert!(!monitor.is_healthy(0));
    assert!(monitor.is_healthy(1));
}

#[test]
fn percentiles_follow_sorted_ranks() {
    let mut monitor = LatencyMonitor::new(1000);
    for i in (1..=100u128).rev() {
        monitor.record_trade_latency(i);
    }
    let stats = monitor.get_trade_stats();
    assert_eq!(stats.count, 100);
    assert_eq!(stats.min, 1);
    assert_eq!(stats.max, 100);
    assert_eq!(stats.p50, 51);
    assert_eq!(stats.p95, 96);
    assert_eq!(stats.p99, 100);
    assert_eq!(stats.mean, 50);
    assert!(stats.min <= stats.p50 && stats.p50 <= stats.p95 && stats.p95 <= stats.p99 && stats.p99 <= stats.max);
}

#[test]
fn single_sample_fills_every_rank() {
    let mut monitor = LatencyMonitor::new(3);
    monitor.record_order_placement_latency(42);
    let stats = monitor.get_order_placement_stats();
    assert_eq!(
        stats,
        LatencyStats { count: 1, min: 42, max: 42, mean: 42, p50: 42, p95: 42, p99: 42 }
    );
}

#[test]
fn unsorted_window_with_duplicates() {
    let mut monitor = LatencyMonitor::new(4);
    for x in [7u128, 3, 9, 3, 5, 1] {
        monitor.record_orderbook_latency(x);
    }
    let stats = monitor.get_orderbook_stats();
    assert_eq!(stats.count, 4);
    assert_eq!(stats.min, 1);
    assert_eq!(stats.max, 9);
    assert_eq!(stats.p50, 5);
    assert_eq!(stats.mean, 4);
}

#[test]
fn zero_capacity_keeps_nothing() {
    let mut monitor = LatencyMonitor::new(0);
    monitor.record_orderbook_latency(3);
    assert_eq!(monitor.get_orderbook_stats().count, 0);
}

#[test]
fn windows_are_independent() {
    let mut monitor = LatencyMonitor::new(10);
    monitor.record_orderbook_latency(2 * MS);
    monitor.record_trade_latency(200 * MS);
    let all = monitor.get_all_stats();
    assert_eq!(all.orderbook.count, 1);
    assert_eq!(all.trades.count, 1);
    assert_eq!(all.order_placement.count, 0);
    assert!(!monitor.is_healthy(100));
    assert!(monitor.is_healthy(201));
}

#[test]
fn millis_round_down() {
    let stats = LatencyStats { count: 2, min: 1_999_999, max: 2_000_000, mean: 999_999, p50: 3_500_000, p95: 0, p99: 7_000_001 };
    let millis = stats.to_millis();
    assert_eq!(millis.count, 2);
    assert_eq!(millis.min_ms, 1);
    assert_eq!(millis.max_ms, 2);
    assert_eq!(millis.mean_ms, 0);
    assert_eq!(millis.p50_ms, 3);
    assert_eq!(millis.p95_ms, 0);
    assert_eq!(millis.p99_ms, 7);
}

#[test]
fn timer_measures_forward() {
    let timer = LatencyTimer::start();
    let first = timer.elapsed();
    let second = timer.elapsed();
    assert!(second >= first);
}

#[test]
fn durations_of_any_length_are_held() {
    let mut monitor = LatencyMonitor::new(4);
    let long = (u64::MAX as u128) * 1_000_000_000;
    monitor.record_orderbook_latency(long);
    assert!(monitor.orderbook_stats_defined());
    let stats = monitor.get_orderbook_stats();
    assert_eq!(stats.max, long);
    assert_eq!(stats.mean, long);
    assert_eq!(stats.to_millis().max_ms, long / 1_000_000);
}

#[test]
fn totals_past_the_longest_duration_are_refused() {
    let mut monitor = LatencyMonitor::new(4);
    monitor.record_trade_latency(MAX_DURATION_NANOS);
    assert!(monitor.trade_stats_defined());
    monitor.record_trade_latency(1);
    assert!(!monitor.trade_stats_defined());
    assert!(monitor.orderbook_stats_defined());
    assert!(monitor.order_placement_stats_defined());
}
