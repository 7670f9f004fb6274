use statiq::error::SqlError;
use statiq::pool::checkout::{checkout_failure, checkout_step, idle_verdict, CheckoutAction, IdlePoll, IdleVerdict};
use statiq::pool::conn::{
    affected_from_cell, cell_from_bytes, identity_from_rows, odbc_code, rowcount_batch,
    scalar_of_rows, state_after_validation, ConnState, SessionFlags,
};
use statiq::pool::metrics::{MetricsSnapshot, PoolMetrics};
use statiq::row::{CellValue, OdbcRow};

fn one_cell(text: &str) -> Vec<OdbcRow> {
    vec![OdbcRow::new(vec!["r".to_string()], vec![CellValue::Text(text.to_string())])]
}

#[test]
fn metrics_snapshot_copies_counters() {
    let mut m = PoolMetrics::new();
    m.record_created();
    m.record_created();
    m.record_idle_added();
    m.record_checkout();
    m.record_timeout();
    m.record_deadlock();
    m.waiter_enter();
    m.record_destroyed();
    assert_eq!(
        m.snapshot(),
        MetricsSnapshot {
            active: 1,
            idle: 0,
            total_created: 2,
            total_destroyed: 1,
            total_checkouts: 1,
            total_timeouts: 1,
            total_deadlocks: 1,
            waiters: 1,
        }
    );
    m.waiter_leave();
    m.set_idle(4);
    assert_eq!(m.snapshot().waiters, 0);
    assert_eq!(m.snapshot().idle, 4);
}

#[test]
fn metrics_counters_wrap_like_atomics() {
    let mut m = PoolMetrics::default();
    m.record_checkout();
    assert_eq!(m.snapshot().idle, u64::MAX);
    m.waiter_leave();
    assert_eq!(m.snapshot().waiters, u64::MAX);
}

#[test]
fn checkout_prefers_idle_then_new_then_waits() {
    assert_eq!(checkout_step(IdlePoll::Got, 10, 0, 10, true), CheckoutAction::UseIdle);
    assert_eq!(checkout_step(IdlePoll::Empty, 3, 1, 10, false), CheckoutAction::CreateNew);
    assert_eq!(checkout_step(IdlePoll::Empty, 9, 1, 10, false), CheckoutAction::Wait);
    assert_eq!(checkout_step(IdlePoll::Empty, 9, 1, 10, true), CheckoutAction::TimedOut);
    assert_eq!(checkout_step(IdlePoll::Disconnected, 0, 0, 10, false), CheckoutAction::Disconnected);
}

#[test]
fn checkout_errors() {
    assert_eq!(
        checkout_failure(CheckoutAction::TimedOut, 5000),
        Some(SqlError::PoolExhausted { timeout_ms: 5000 })
    );
    assert_eq!(
        checkout_failure(CheckoutAction::Disconnected, 5000),
        Some(SqlError::Config("Pool channel disconnected".to_string()))
    );
    assert_eq!(checkout_failure(CheckoutAction::Wait, 5000), None);
}

#[test]
fn idle_sweep_verdicts() {
    let s: u128 = 1_000_000_000;
    assert_eq!(idle_verdict(1800, 300, 1801 * s, 0), IdleVerdict::LifetimeExceeded);
    assert_eq!(idle_verdict(1800, 300, 1800 * s, 0), IdleVerdict::Validate);
    assert_eq!(idle_verdict(0, 300, 100_000 * s, 10 * s), IdleVerdict::Validate);
    assert_eq!(idle_verdict(1800, 300, 10 * s, 300 * s + 1), IdleVerdict::IdleTimeoutExceeded);
}

#[test]
fn validation_and_session_reset() {
    assert_eq!(state_after_validation(true), ConnState::Idle);
    assert_eq!(state_after_validation(false), ConnState::Closing);
    let mut f = SessionFlags { needs_reset: false, reset_on_reuse: true };
    f.mark_returned();
    assert!(f.take_reset());
    assert!(!f.take_reset());
    let mut g = SessionFlags { needs_reset: true, reset_on_reuse: false };
    assert!(!g.take_reset());
    assert!(!g.needs_reset);
}

#[test]
fn statement_helpers() {
    assert_eq!(rowcount_batch("DELETE FROM t WHERE id = ?"), "DELETE FROM t WHERE id = ?;\nSELECT @@ROWCOUNT AS r");
    assert_eq!(affected_from_cell(Some(b" 12 ")), 12);
    assert_eq!(affected_from_cell(Some(b"-1")), 0);
    assert_eq!(affected_from_cell(Some(&[0xff, 0x31])), 0);
    assert_eq!(affected_from_cell(None), 0);
    assert_eq!(odbc_code("[42000] Transaction (Process ID 52) was deadlocked ... error 1205"), 1205);
    assert_eq!(odbc_code("syntax error"), 0);
    assert_eq!(odbc_code("120"), 0);
}

#[test]
fn cells_from_driver_bytes() {
    assert!(matches!(cell_from_bytes(None), CellValue::Null));
    match cell_from_bytes(Some(b"hi")) {
        CellValue::Text(s) => assert_eq!(s, "hi"),
        other => panic!("unexpected {:?}", other),
    }
    match cell_from_bytes(Some(&[0x61, 0xff])) {
        CellValue::Text(s) => assert_eq!(s, "a\u{fffd}"),
        other => panic!("unexpected {:?}", other),
    }
}

#[test]
fn identity_and_scalar_from_rows() {
    assert_eq!(identity_from_rows(&one_cell(" 101 ")), Ok(101));
    assert_eq!(
        identity_from_rows(&one_cell("x")),
        Err(SqlError::Odbc { code: 0, message: "INSERT OUTPUT returned no rows or non-numeric id".to_string() })
    );
    assert!(identity_from_rows(&vec![]).is_err());
    assert_eq!(scalar_of_rows(&one_cell("1")), Some("1".to_string()));
    assert_eq!(scalar_of_rows(&vec![]), None);
}
