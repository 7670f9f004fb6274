use statiq::error::SqlError;
use statiq::params::PkValue;
use statiq::transaction::{
    begin_sql, end_of_life, inserted_id, retry_step, rollback_to_sql, savepoint_sql,
    validate_savepoint_name, IsolationLevel, RetryStep,
};

#[test]
fn isolation_keywords() {
    assert_eq!(IsolationLevel::ReadUncommitted.as_sql(), "READ UNCOMMITTED");
    assert_eq!(IsolationLevel::ReadCommitted.as_sql(), "READ COMMITTED");
    assert_eq!(IsolationLevel::RepeatableRead.as_sql(), "REPEATABLE READ");
    assert_eq!(IsolationLevel::Snapshot.as_sql(), "SNAPSHOT");
    assert_eq!(IsolationLevel::Serializable.as_sql(), "SERIALIZABLE");
}

#[test]
fn begin_statement() {
    assert_eq!(
        begin_sql(IsolationLevel::Snapshot),
        "SET TRANSACTION ISOLATION LEVEL SNAPSHOT; SET IMPLICIT_TRANSACTIONS OFF; BEGIN TRANSACTION"
    );
}

#[test]
fn savepoint_names() {
    assert!(validate_savepoint_name("sp_1").is_ok());
    assert_eq!(
        validate_savepoint_name(""),
        Err(SqlError::Config("Savepoint name must not be empty".to_string()))
    );
    assert_eq!(
        validate_savepoint_name("a b"),
        Err(SqlError::Config(
            "Invalid savepoint name character: ' ' \u{2014} only alphanumeric and '_' allowed".to_string()
        ))
    );
    assert_eq!(
        validate_savepoint_name("ok;x-"),
        Err(SqlError::Config(
            "Invalid savepoint name character: ';' \u{2014} only alphanumeric and '_' allowed".to_string()
        ))
    );
}

#[test]
fn savepoint_statements() {
    assert_eq!(savepoint_sql("before_update").unwrap(), "SAVE TRANSACTION before_update");
    assert_eq!(rollback_to_sql("before_update").unwrap(), "ROLLBACK TRANSACTION before_update");
    assert!(savepoint_sql("x;DROP").is_err());
    assert!(rollback_to_sql("").is_err());
}

#[test]
fn insert_ids_for_supplied_keys() {
    assert_eq!(inserted_id(&PkValue::I32(-7)), -7);
    assert_eq!(inserted_id(&PkValue::I64(1 << 40)), 1 << 40);
    assert_eq!(inserted_id(&PkValue::Str("k".to_string())), 0);
    assert_eq!(inserted_id(&PkValue::Guid(5)), 0);
}

#[test]
fn end_of_life_rolls_back_uncommitted() {
    let a = end_of_life(false, true);
    assert!(a.rollback && a.return_to_pool);
    let b = end_of_life(true, true);
    assert!(!b.rollback && b.return_to_pool);
    let c = end_of_life(false, false);
    assert!(!c.rollback && !c.return_to_pool);
}

fn deadlock() -> SqlError {
    SqlError::Odbc { code: 1205, message: "deadlock victim".to_string() }
}

#[test]
fn retry_backoff_doubles() {
    match retry_step(0, 3, deadlock()) {
        RetryStep::Retry { attempts, backoff_ms } => {
            assert_eq!(attempts, 1);
            assert_eq!(backoff_ms, 50);
        }
        other => panic!("unexpected {:?}", other),
    }
    match retry_step(1, 3, deadlock()) {
        RetryStep::Retry { attempts, backoff_ms } => {
            assert_eq!(attempts, 2);
            assert_eq!(backoff_ms, 100);
        }
        other => panic!("unexpected {:?}", other),
    }
    match retry_step(2, 3, deadlock()) {
        RetryStep::Retry { attempts, backoff_ms } => {
            assert_eq!(attempts, 3);
            assert_eq!(backoff_ms, 200);
        }
        other => panic!("unexpected {:?}", other),
    }
}

#[test]
fn retry_exhausted_after_max() {
    match retry_step(3, 3, deadlock()) {
        RetryStep::GiveUp { error, deadlock } => {
            assert!(deadlock);
            assert_eq!(error, SqlError::DeadlockRetryExhausted { attempts: 3 });
        }
        other => panic!("unexpected {:?}", other),
    }
}

#[test]
fn retry_passes_other_errors_through() {
    let e = SqlError::Odbc { code: 42, message: "boom".to_string() };
    match retry_step(0, 3, e) {
        RetryStep::GiveUp { error, deadlock } => {
            assert!(!deadlock);
            assert_eq!(error, SqlError::Odbc { code: 42, message: "boom".to_string() });
        }
        other => panic!("unexpected {:?}", other),
    }
}
