use market_maker::api::models::breaker_state_label;
use market_maker::utils::circuit_breaker::{
    CircuitBreaker, CircuitBreakerConfig, CircuitBreakerError, State, NANOS_PER_SEC,
};

const MS: u128 = 1_000_000;

#[test]
fn test_circuit_opens_on_failures() {
    let config = CircuitBreakerConfig {
        failure_threshold: 3,
        timeout: 100 * MS,
        success_threshold: 2,
        max_open_duration: 10 * NANOS_PER_SEC,
    };

    let mut breaker = CircuitBreaker::new(config);

    for _ in 0..3 {
        assert!(breaker.before_call().is_ok());
        breaker.on_failure();
    }

    assert_eq!(breaker.get_state(), State::Open);

    let result = breaker.before_call_at(0);
    assert_eq!(result, Err(CircuitBreakerError::Open));
}

#[test]
fn test_circuit_recovers() {
    let config = CircuitBreakerConfig {
        failure_threshold: 2,
        timeout: 50 * MS,
        success_threshold: 2,
        max_open_duration: 10 * NANOS_PER_SEC,
    };

    let mut breaker = CircuitBreaker::new(config);

    for _ in 0..2 {
        let _ = breaker.before_call();
        breaker.on_failure();
    }

    assert_eq!(breaker.get_state(), State::Open);

    assert!(breaker.before_call_at(100 * (MS as u128)).is_ok());
    breaker.on_success();
    assert_eq!(breaker.get_state(), State::HalfOpen);

    assert!(breaker.before_call().is_ok());
    breaker.on_success();

    assert_eq!(breaker.get_state(), State::Closed);
}

#[test]
fn default_config_values() {
    let config = CircuitBreakerConfig::default();
    assert_eq!(config.failure_threshold, 5);
    assert_eq!(config.timeout, 60 * NANOS_PER_SEC);
    assert_eq!(config.success_threshold, 3);
    assert_eq!(config.max_open_duration, 300 * NANOS_PER_SEC);
}

#[test]
fn fails_fast_until_timeout_and_counts_calls() {
    let mut breaker = CircuitBreaker::new(CircuitBreakerConfig::default());
    breaker.force_open();
    assert_eq!(breaker.before_call_at(59 * NANOS_PER_SEC as u128), Err(CircuitBreakerError::Open));
    assert_eq!(breaker.get_state(), State::Open);
    assert!(breaker.before_call_at(60 * NANOS_PER_SEC as u128).is_ok());
    assert_eq!(breaker.get_state(), State::HalfOpen);
    let stats = breaker.get_stats();
    assert_eq!(stats.total_calls, 2);
    assert_eq!(stats.total_failures, 0);
}

#[test]
fn max_open_duration_forces_probe() {
    let config = CircuitBreakerConfig {
        failure_threshold: 1,
        timeout: 500,
        success_threshold: 1,
        max_open_duration: 200,
    };
    let mut breaker = CircuitBreaker::new(config);
    assert!(breaker.before_call_at(0).is_ok());
    breaker.on_failure();
    assert_eq!(breaker.get_state(), State::Open);
    assert!(breaker.before_call_at(199).is_err());
    assert!(breaker.before_call_at(200).is_ok());
    assert_eq!(breaker.get_state(), State::HalfOpen);
}

#[test]
fn half_open_failure_reopens_with_one_failure() {
    let mut breaker = CircuitBreaker::new(CircuitBreakerConfig::default());
    breaker.force_open();
    assert!(breaker.before_call_at(u128::MAX).is_ok());
    breaker.on_failure();
    let stats = breaker.get_stats();
    assert_eq!(stats.state, State::Open);
    assert_eq!(stats.consecutive_failures, 1);
    assert_eq!(stats.consecutive_successes, 0);
    assert_eq!(stats.total_failures, 1);
}

#[test]
fn success_resets_failure_streak() {
    let mut breaker = CircuitBreaker::new(CircuitBreakerConfig::default());
    for _ in 0..4 {
        breaker.on_failure();
    }
    breaker.on_success();
    assert_eq!(breaker.get_stats().consecutive_failures, 0);
    for _ in 0..4 {
        breaker.on_failure();
    }
    assert_eq!(breaker.get_state(), State::Closed);
    breaker.on_failure();
    assert_eq!(breaker.get_state(), State::Open);
}

#[test]
fn success_while_open_closes() {
    let mut breaker = CircuitBreaker::new(CircuitBreakerConfig::default());
    breaker.force_open();
    breaker.on_success();
    assert_eq!(breaker.get_state(), State::Closed);
    assert_eq!(breaker.get_stats().consecutive_successes, 1);
}

#[test]
fn force_close_and_reset_stats() {
    let mut breaker = CircuitBreaker::new(CircuitBreakerConfig::default());
    for _ in 0..7 {
        let _ = breaker.before_call();
        breaker.on_failure();
    }
    assert_eq!(breaker.get_state(), State::Open);
    breaker.force_close();
    let stats = breaker.get_stats();
    assert_eq!(stats.state, State::Closed);
    assert_eq!(stats.consecutive_failures, 0);
    assert_eq!(stats.total_failures, 7);
    breaker.reset_stats();
    let stats = breaker.get_stats();
    assert_eq!(stats.total_calls, 0);
    assert_eq!(stats.total_failures, 0);
    assert_eq!(breaker_state_label(stats.state), "closed");
}

#[test]
fn zero_failure_threshold_opens_on_first_failure() {
    let config = CircuitBreakerConfig {
        failure_threshold: 0,
        timeout: 10,
        success_threshold: 0,
        max_open_duration: 10,
    };
    let mut breaker = CircuitBreaker::new(config);
    breaker.on_failure();
    assert_eq!(breaker.get_state(), State::Open);
    assert!(breaker.before_call_at(10).is_ok());
    breaker.on_success();
    assert_eq!(breaker.get_state(), State::Closed);
}
