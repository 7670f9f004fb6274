use statiq::circuit_breaker::{CircuitBreaker, CircuitState};
use statiq::error::SqlError;

#[test]
fn breaker_opens_after_threshold_failures() {
    let mut b = CircuitBreaker::new(3, 1000);
    assert_eq!(b.state(), CircuitState::Closed);
    b.record_failure_at(10);
    b.record_failure_at(20);
    assert_eq!(b.state(), CircuitState::Closed);
    assert_eq!(b.failure_count(), 2);
    b.record_failure_at(30);
    assert_eq!(b.state(), CircuitState::Open);
}

#[test]
fn breaker_rejects_until_recovery_timeout() {
    let mut b = CircuitBreaker::new(1, 1000);
    b.record_failure_at(100);
    assert_eq!(b.check_at(500), Err(SqlError::PoolExhausted { timeout_ms: 1000 }));
    assert_eq!(b.state(), CircuitState::Open);
    assert_eq!(b.check_at(1100), Ok(()));
    assert_eq!(b.state(), CircuitState::HalfOpen);
}

#[test]
fn breaker_success_closes_and_resets() {
    let mut b = CircuitBreaker::new(2, 50);
    b.record_failure_at(1);
    b.record_failure_at(2);
    assert_eq!(b.state(), CircuitState::Open);
    assert!(b.check_at(100).is_ok());
    b.record_success();
    assert_eq!(b.state(), CircuitState::Closed);
    assert_eq!(b.failure_count(), 0);
}

#[test]
fn breaker_closed_allows() {
    let mut b = CircuitBreaker::new(5, 10);
    assert!(b.check().is_ok());
    assert!(b.check_at(0).is_ok());
}

#[test]
fn breaker_clock_check_on_open_breaker() {
    let mut b = CircuitBreaker::new(1, u64::MAX);
    b.record_failure();
    assert_eq!(b.check(), Err(SqlError::PoolExhausted { timeout_ms: u64::MAX }));
}
