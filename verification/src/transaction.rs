//! Transactions: isolation levels, the statements that open and partially roll back a
//! transaction, savepoint-name validation, the end-of-life decision, and the deadlock
//! retry policy.
use vstd::prelude::*;
use crate::error::SqlError;
use crate::params::PkValue;
use crate::text::{push_char, to_owned_string};
use vstd::arithmetic::power2::{pow2, lemma2_to64, lemma2_to64_rest, lemma_pow2_unfold, lemma_pow2_strictly_increases};

verus! {

/// SQL Server transaction isolation level.
#[derive(Debug, Clone, Copy, PartialEq, Eq, Structural)]
pub enum IsolationLevel {
    ReadUncommitted,
    ReadCommitted,
    RepeatableRead,
    Snapshot,
    Serializable,
}

/// The keyword text of each level.
pub open spec fn isolation_sql(l: IsolationLevel) -> Seq<char> {
    match l {
        IsolationLevel::ReadUncommitted => "READ UNCOMMITTED"@,
        IsolationLevel::ReadCommitted => "READ COMMITTED"@,
        IsolationLevel::RepeatableRead => "REPEATABLE READ"@,
        IsolationLevel::Snapshot => "SNAPSHOT"@,
        IsolationLevel::Serializable => "SERIALIZABLE"@,
    }
}

impl IsolationLevel {
    pub fn as_sql(self) -> (s: &'static str)
        ensures
            s@ == isolation_sql(self),
    {
        match self {
            IsolationLevel::ReadUncommitted => "READ UNCOMMITTED",
            IsolationLevel::ReadCommitted => "READ COMMITTED",
            IsolationLevel::RepeatableRead => "REPEATABLE READ",
            IsolationLevel::Snapshot => "SNAPSHOT",
            IsolationLevel::Serializable => "SERIALIZABLE",
        }
    }
}

/// The single batch that opens a transaction at the given level.
pub open spec fn begin_sql_spec(l: IsolationLevel) -> Seq<char> {
    "SET TRANSACTION ISOLATION LEVEL "@ + isolation_sql(l)
        + "; SET IMPLICIT_TRANSACTIONS OFF; BEGIN TRANSACTION"@
}

/// One round trip: set the isolation level, switch implicit transactions off, begin.
pub fn begin_sql(level: IsolationLevel) -> (s: String)
    ensures
        s@ == begin_sql_spec(level),
{
    let mut s = to_owned_string("SET TRANSACTION ISOLATION LEVEL ");
    s.append(level.as_sql());
    s.append("; SET IMPLICIT_TRANSACTIONS OFF; BEGIN TRANSACTION");
    s
}

/// The characters a savepoint name may hold: ASCII letters, digits and `_`.
pub open spec fn savepoint_char_ok(c: char) -> bool {
    ('a' <= c && c <= 'z') || ('A' <= c && c <= 'Z') || ('0' <= c && c <= '9') || c == '_'
}

/// `i` is the position of the first character a savepoint name may not hold.
pub open spec fn is_first_bad(name: Seq<char>, i: int) -> bool {
    &&& 0 <= i < name.len()
    &&& !savepoint_char_ok(name[i])
    &&& forall|k: int| 0 <= k < i ==> savepoint_char_ok(#[trigger] name[k])
}

/// Why `name` is refused as a savepoint name, or `None` when it is accepted.
pub open spec fn savepoint_error(name: Seq<char>) -> Option<Seq<char>> {
    if name.len() == 0 {
        Some("Savepoint name must not be empty"@)
    } else if exists|i: int| is_first_bad(name, i) {
        let i = choose|i: int| is_first_bad(name, i);
        Some("Invalid savepoint name character: '"@ + seq![name[i]]
            + "' \u{2014} only alphanumeric and '_' allowed"@)
    } else {
        None
    }
}

/// `r` is the outcome that [`savepoint_error`] gives for `name`.
pub open spec fn validation_result(r: Result<(), SqlError>, name: Seq<char>) -> bool {
    match savepoint_error(name) {
        None => r is Ok,
        Some(m) => r matches Err(SqlError::Config(s)) && s@ == m,
    }
}

fn savepoint_char_ok_exec(c: char) -> (b: bool)
    ensures
        b == savepoint_char_ok(c),
{
    ('a' <= c && c <= 'z') || ('A' <= c && c <= 'Z') || ('0' <= c && c <= '9') || c == '_'
}

/// A savepoint name is non-empty and holds only ASCII letters, digits and `_`.
pub fn validate_savepoint_name(name: &str) -> (r: Result<(), SqlError>)
    ensures
        validation_result(r, name@),
{
    let n = name.unicode_len();
    if n == 0 {
        return Err(SqlError::config(to_owned_string("Savepoint name must not be empty")));
    }
    let mut i: usize = 0;
    while i < n
        invariant
            n == name@.len(),
            n > 0,
            i <= n,
            forall|k: int| 0 <= k < i ==> savepoint_char_ok(#[trigger] name@[k]),
        decreases n - i,
    {
        let ch = name.get_char(i);
        if !savepoint_char_ok_exec(ch) {
            proof {
                assert(is_first_bad(name@, i as int));
                let j = choose|j: int| is_first_bad(name@, j);
                assert(j == i) by {
                    if j < i {
                        assert(savepoint_char_ok(name@[j]));
                    }
                    if j > i {
                        assert(savepoint_char_ok(name@[i as int]));
                    }
                }
            }
            let mut m = to_owned_string("Invalid savepoint name character: '");
            push_char(&mut m, ch);
            m.append("' \u{2014} only alphanumeric and '_' allowed");
            assert(m@ =~= "Invalid savepoint name character: '"@ + seq![ch]
                + "' \u{2014} only alphanumeric and '_' allowed"@);
            return Err(SqlError::config(m));
        }
        i = i + 1;
    }
    assert(!exists|j: int| is_first_bad(name@, j));
    Ok(())
}

/// `SAVE TRANSACTION name`, for a valid savepoint name.
pub fn savepoint_sql(name: &str) -> (r: Result<String, SqlError>)
    ensures
        match savepoint_error(name@) {
            None => r matches Ok(s) && s@ == "SAVE TRANSACTION "@ + name@,
            Some(m) => r matches Err(SqlError::Config(s)) && s@ == m,
        },
{
    match validate_savepoint_name(name) {
        Ok(()) => {
            let mut s = to_owned_string("SAVE TRANSACTION ");
            s.append(name);
            Ok(s)
        },
        Err(e) => Err(e),
    }
}

/// `ROLLBACK TRANSACTION name`, for a valid savepoint name.
pub fn rollback_to_sql(name: &str) -> (r: Result<String, SqlError>)
    ensures
        match savepoint_error(name@) {
            None => r matches Ok(s) && s@ == "ROLLBACK TRANSACTION "@ + name@,
            Some(m) => r matches Err(SqlError::Config(s)) && s@ == m,
        },
{
    match validate_savepoint_name(name) {
        Ok(()) => {
            let mut s = to_owned_string("ROLLBACK TRANSACTION ");
            s.append(name);
            Ok(s)
        },
        Err(e) => Err(e),
    }
}

/// The id an insert reports when the key is not an identity column: the key itself for
/// integer keys, 0 for text and GUID keys.
pub open spec fn supplied_key_id(pk: PkValue) -> i64 {
    match pk {
        PkValue::I32(v) => v as i64,
        PkValue::I64(v) => v,
        PkValue::Str(_) => 0,
        PkValue::Guid(_) => 0,
    }
}

/// The id an insert reports when the key is not an identity column.
pub fn inserted_id(pk: &PkValue) -> (id: i64)
    ensures
        id == supplied_key_id(*pk),
{
    match pk {
        PkValue::I32(v) => *v as i64,
        PkValue::I64(v) => *v,
        PkValue::Str(_) => 0,
        PkValue::Guid(_) => 0,
    }
}

/// What a transaction does with its connection when it ends.
#[derive(Debug, Clone, Copy, PartialEq, Eq, Structural)]
pub struct EndOfLife {
    /// Issue a rollback first.
    pub rollback: bool,
    /// Hand the connection back to the pool, marked for a session reset.
    pub return_to_pool: bool,
}

/// A transaction that still holds its connection is rolled back unless it was committed,
/// and the connection then goes back to the pool.
pub fn end_of_life(committed: bool, holds_connection: bool) -> (a: EndOfLife)
    ensures
        a.rollback == (!committed && holds_connection),
        a.return_to_pool == holds_connection,
{
    EndOfLife { rollback: !committed && holds_connection, return_to_pool: holds_connection }
}

/// A committed transaction is never rolled back when it ends; an uncommitted one that
/// holds its connection always is.
pub proof fn law_commit_is_final(committed: bool, holds_connection: bool)
    ensures
        committed ==> !(EndOfLife { rollback: !committed && holds_connection,
            return_to_pool: holds_connection }).rollback,
        !committed && holds_connection ==> (EndOfLife { rollback: !committed && holds_connection,
            return_to_pool: holds_connection }).rollback,
{
}

/// The wait before a retry when `attempt` retries came before it: 50 ms doubled
/// `attempt` times (50 ms, 100 ms, 200 ms, ...).
pub open spec fn backoff_ms(attempt: nat) -> nat {
    50 * pow2(attempt)
}

/// What the retry loop does after the transaction body failed.
#[derive(Debug)]
pub enum RetryStep {
    /// A deadlock with retries left: count it, wait `backoff_ms`, run again as attempt `attempts`.
    Retry { attempts: u8, backoff_ms: u64 },
    /// Stop with `error`; `deadlock` tells whether a deadlock is to be counted first.
    GiveUp { error: SqlError, deadlock: bool },
}

/// The policy of the retry loop, as a function of the retries made so far, the limit and
/// the failure.
pub open spec fn retry_step_spec(attempts: u8, max_retries: u8, error: SqlError) -> RetryStep {
    if error matches SqlError::Odbc { code, .. } && code == 1205 {
        if attempts < max_retries {
            RetryStep::Retry {
                attempts: (attempts + 1) as u8,
                backoff_ms: backoff_ms(attempts as nat) as u64,
            }
        } else {
            RetryStep::GiveUp { error: SqlError::DeadlockRetryExhausted { attempts }, deadlock: true }
        }
    } else {
        RetryStep::GiveUp { error, deadlock: false }
    }
}

fn backoff_for(attempt: u8) -> (ms: u64)
    requires
        attempt <= 58,
    ensures
        ms == backoff_ms(attempt as nat),
{
    proof {
        lemma2_to64();
    }
    let mut ms: u64 = 50;
    let mut i: u8 = 0;
    while i < attempt
        invariant
            i <= attempt <= 58,
            ms == 50 * pow2(i as nat),
        decreases attempt - i,
    {
        proof {
            lemma_pow2_unfold((i + 1) as nat);
            if i + 1 < 58 {
                lemma_pow2_strictly_increases((i + 1) as nat, 58);
            }
            lemma2_to64_rest();
        }
        ms = ms * 2;
        i = i + 1;
    }
    ms
}

/// Decide what follows a failed transaction body.
///
/// A deadlock is retried while fewer than `max_retries` retries were made, with the
/// wait doubling from 50 ms; the last deadlock becomes `DeadlockRetryExhausted`; any
/// other error is returned as it is.
pub fn retry_step(attempts: u8, max_retries: u8, error: SqlError) -> (s: RetryStep)
    requires
        attempts < max_retries ==> attempts <= 58,
    ensures
        s == retry_step_spec(attempts, max_retries, error),
{
    if error.is_deadlock() {
        if attempts < max_retries {
            let next = attempts + 1;
            RetryStep::Retry { attempts: next, backoff_ms: backoff_for(attempts) }
        } else {
            RetryStep::GiveUp { error: SqlError::DeadlockRetryExhausted { attempts }, deadlock: true }
        }
    } else {
        RetryStep::GiveUp { error, deadlock: false }
    }
}

/// The retry loop ends: a deadlock after `max_retries` retries is never retried again,
/// each retry counts one more attempt, the first wait is 50 ms and each wait is twice
/// the one before.
pub proof fn law_retry_bounded(attempts: u8, max_retries: u8, error: SqlError)
    requires
        attempts <= 58,
    ensures
        attempts >= max_retries ==> retry_step_spec(attempts, max_retries, error) is GiveUp,
        retry_step_spec(attempts, max_retries, error) matches RetryStep::Retry { attempts: a, .. }
            ==> a == attempts + 1 && a <= max_retries,
        backoff_ms(0) == 50,
        backoff_ms((attempts + 1) as nat) == 2 * backoff_ms(attempts as nat),
        retry_step_spec(attempts, max_retries, error) matches RetryStep::Retry { backoff_ms: b, .. }
            ==> b == backoff_ms(attempts as nat),
{
    lemma2_to64();
    lemma2_to64_rest();
    if attempts < 58 {
        lemma_pow2_strictly_increases(attempts as nat, 58);
    }
    lemma_pow2_unfold((attempts + 1) as nat);
}

} // verus!
