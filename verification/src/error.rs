//! The library's single error type and its client-facing renderings.
use vstd::prelude::*;
use crate::text::{int_text, nat_text, push_i128, push_u128};

verus! {

/// Every failure the library reports.
///
/// Errors that originate in an outside component (cache, serialisation, I/O,
/// cryptography) carry that component's message text.
#[derive(Debug, PartialEq, Eq)]
pub enum SqlError {
    Odbc { code: i32, message: String },
    PoolExhausted { timeout_ms: u64 },
    QueryTimeout { elapsed_ms: u64 },
    Cancelled,
    Cache(String),
    Serialize(String),
    DeadlockRetryExhausted { attempts: u8 },
    InvalidTransactionState,
    Config(String),
    RowMapping { column: String, reason: String },
    NotFound { table: String, pk: String },
    Io(String),
    Crypto(String),
}

/// SQL Server's error number for a deadlock victim.
pub const DEADLOCK_CODE: i32 = 1205;

/// The machine-readable code of each variant.
pub open spec fn error_code_spec(e: SqlError) -> Seq<char> {
    match e {
        SqlError::Odbc { .. } => "odbc_error"@,
        SqlError::PoolExhausted { .. } => "pool_exhausted"@,
        SqlError::QueryTimeout { .. } => "query_timeout"@,
        SqlError::Cancelled => "cancelled"@,
        SqlError::Cache(_) => "cache_error"@,
        SqlError::Serialize(_) => "serialization_error"@,
        SqlError::DeadlockRetryExhausted { .. } => "deadlock_retry_exhausted"@,
        SqlError::InvalidTransactionState => "invalid_transaction_state"@,
        SqlError::Config(_) => "config_error"@,
        SqlError::RowMapping { .. } => "row_mapping_error"@,
        SqlError::NotFound { .. } => "not_found"@,
        SqlError::Io(_) => "io_error"@,
        SqlError::Crypto(_) => "crypto_error"@,
    }
}

/// The client-safe message of each variant: internal details (ODBC text,
/// connection strings, cache URLs) never appear in it.
pub open spec fn safe_message_spec(e: SqlError) -> Seq<char> {
    match e {
        SqlError::NotFound { table, pk } => table@ + " with pk="@ + pk@ + " not found"@,
        SqlError::Cancelled => "Operation cancelled"@,
        SqlError::PoolExhausted { timeout_ms } =>
            "Service busy, pool timeout after "@ + nat_text(timeout_ms as nat) + "ms"@,
        SqlError::QueryTimeout { elapsed_ms } =>
            "Query timed out after "@ + nat_text(elapsed_ms as nat) + "ms"@,
        SqlError::DeadlockRetryExhausted { attempts } =>
            "Deadlock retries exhausted ("@ + nat_text(attempts as nat) + ")"@,
        SqlError::InvalidTransactionState => "Invalid transaction state"@,
        _ => "An internal database error occurred"@,
    }
}

/// The full diagnostic text of each variant (what `Display` shows in the application).
pub open spec fn display_spec(e: SqlError) -> Seq<char> {
    match e {
        SqlError::Odbc { code, message } =>
            "ODBC error ["@ + int_text(code as int) + "]: "@ + message@,
        SqlError::PoolExhausted { timeout_ms } =>
            "Connection pool exhausted (timeout: "@ + nat_text(timeout_ms as nat) + "ms)"@,
        SqlError::QueryTimeout { elapsed_ms } =>
            "Query timeout after "@ + nat_text(elapsed_ms as nat) + "ms"@,
        SqlError::Cancelled => "Operation cancelled"@,
        SqlError::Cache(m) => "Redis error: "@ + m@,
        SqlError::Serialize(m) => "Serialization error: "@ + m@,
        SqlError::DeadlockRetryExhausted { attempts } =>
            "Deadlock detected, retries exhausted ("@ + nat_text(attempts as nat) + ")"@,
        SqlError::InvalidTransactionState => "Transaction already committed or rolled back"@,
        SqlError::Config(m) => "Config error: "@ + m@,
        SqlError::RowMapping { column, reason } =>
            "Row mapping error on column '"@ + column@ + "': "@ + reason@,
        SqlError::NotFound { table, pk } => "Not found: "@ + table@ + " with pk="@ + pk@,
        SqlError::Io(m) => "IO error: "@ + m@,
        SqlError::Crypto(m) => "Crypto error: "@ + m@,
    }
}

/// The HTTP status an error maps to in a web response.
pub open spec fn http_status_spec(e: SqlError) -> u16 {
    match e {
        SqlError::NotFound { .. } => 404,
        SqlError::Cancelled => 499,
        SqlError::PoolExhausted { .. } => 503,
        SqlError::DeadlockRetryExhausted { .. } => 503,
        SqlError::QueryTimeout { .. } => 504,
        _ => 500,
    }
}

fn join2(a: &str, b: &str) -> (r: String)
    ensures
        r@ == a@ + b@,
{
    let mut s = String::from_str(a);
    s.append(b);
    s
}

impl SqlError {
    /// An ODBC driver error with its native error number.
    pub fn odbc(code: i32, message: String) -> (e: SqlError)
        ensures
            e == (SqlError::Odbc { code, message }),
    {
        SqlError::Odbc { code, message }
    }

    /// A configuration or usage error.
    pub fn config(msg: String) -> (e: SqlError)
        ensures
            e == SqlError::Config(msg),
    {
        SqlError::Config(msg)
    }

    /// A row-mapping error for a column known at compile time.
    pub fn row_mapping(column: &str, reason: String) -> (e: SqlError)
        ensures
            e matches SqlError::RowMapping { column: c, reason: r } && c@ == column@ && r == reason,
    {
        SqlError::RowMapping { column: String::from_str(column), reason }
    }

    /// A row-mapping error for a column named at run time.
    pub fn row_mapping_dynamic(column: String, reason: String) -> (e: SqlError)
        ensures
            e == (SqlError::RowMapping { column, reason }),
    {
        SqlError::RowMapping { column, reason }
    }

    /// True exactly for an ODBC error carrying SQL Server's deadlock number 1205.
    pub fn is_deadlock(&self) -> (b: bool)
        ensures
            b <==> (*self matches SqlError::Odbc { code, .. } && code == 1205),
    {
        match self {
            SqlError::Odbc { code, .. } => *code == DEADLOCK_CODE,
            _ => false,
        }
    }

    /// Short machine-readable error code for structured responses.
    pub fn error_code(&self) -> (s: &'static str)
        ensures
            s@ == error_code_spec(*self),
    {
        match self {
            SqlError::Odbc { .. } => "odbc_error",
            SqlError::PoolExhausted { .. } => "pool_exhausted",
            SqlError::QueryTimeout { .. } => "query_timeout",
            SqlError::Cancelled => "cancelled",
            SqlError::Cache(_) => "cache_error",
            SqlError::Serialize(_) => "serialization_error",
            SqlError::DeadlockRetryExhausted { .. } => "deadlock_retry_exhausted",
            SqlError::InvalidTransactionState => "invalid_transaction_state",
            SqlError::Config(_) => "config_error",
            SqlError::RowMapping { .. } => "row_mapping_error",
            SqlError::NotFound { .. } => "not_found",
            SqlError::Io(_) => "io_error",
            SqlError::Crypto(_) => "crypto_error",
        }
    }

    /// A message that is safe to hand to a client.
    pub fn safe_message(&self) -> (s: String)
        ensures
            s@ == safe_message_spec(*self),
    {
        match self {
            SqlError::NotFound { table, pk } => {
                let mut s = join2(table.as_str(), " with pk=");
                s.append(pk.as_str());
                s.append(" not found");
                s
            },
            SqlError::Cancelled => String::from_str("Operation cancelled"),
            SqlError::PoolExhausted { timeout_ms } => {
                let mut s = String::from_str("Service busy, pool timeout after ");
                push_u128(&mut s, *timeout_ms as u128);
                s.append("ms");
                s
            },
            SqlError::QueryTimeout { elapsed_ms } => {
                let mut s = String::from_str("Query timed out after ");
                push_u128(&mut s, *elapsed_ms as u128);
                s.append("ms");
                s
            },
            SqlError::DeadlockRetryExhausted { attempts } => {
                let mut s = String::from_str("Deadlock retries exhausted (");
                push_u128(&mut s, *attempts as u128);
                s.append(")");
                s
            },
            SqlError::InvalidTransactionState => String::from_str("Invalid transaction state"),
            _ => String::from_str("An internal database error occurred"),
        }
    }

    /// The full diagnostic message (the text `Display` shows).
    pub fn to_display_string(&self) -> (s: String)
        ensures
            s@ == display_spec(*self),
    {
        match self {
            SqlError::Odbc { code, message } => {
                let mut s = String::from_str("ODBC error [");
                push_i128(&mut s, *code as i128);
                s.append("]: ");
                s.append(message.as_str());
                s
            },
            SqlError::PoolExhausted { timeout_ms } => {
                let mut s = String::from_str("Connection pool exhausted (timeout: ");
                push_u128(&mut s, *timeout_ms as u128);
                s.append("ms)");
                s
            },
            SqlError::QueryTimeout { elapsed_ms } => {
                let mut s = String::from_str("Query timeout after ");
                push_u128(&mut s, *elapsed_ms as u128);
                s.append("ms");
                s
            },
            SqlError::Cancelled => String::from_str("Operation cancelled"),
            SqlError::Cache(m) => join2("Redis error: ", m.as_str()),
            SqlError::Serialize(m) => join2("Serialization error: ", m.as_str()),
            SqlError::DeadlockRetryExhausted { attempts } => {
                let mut s = String::from_str("Deadlock detected, retries exhausted (");
                push_u128(&mut s, *attempts as u128);
                s.append(")");
                s
            },
            SqlError::InvalidTransactionState =>
                String::from_str("Transaction already committed or rolled back"),
            SqlError::Config(m) => join2("Config error: ", m.as_str()),
            SqlError::RowMapping { column, reason } => {
                let mut s = join2("Row mapping error on column '", column.as_str());
                s.append("': ");
                s.append(reason.as_str());
                s
            },
            SqlError::NotFound { table, pk } => {
                let mut s = join2("Not found: ", table.as_str());
                s.append(" with pk=");
                s.append(pk.as_str());
                s
            },
            SqlError::Io(m) => join2("IO error: ", m.as_str()),
            SqlError::Crypto(m) => join2("Crypto error: ", m.as_str()),
        }
    }

    /// The HTTP status code this error is answered with.
    pub fn http_status(&self) -> (c: u16)
        ensures
            c == http_status_spec(*self),
    {
        match self {
            SqlError::NotFound { .. } => 404,
            SqlError::Cancelled => 499,
            SqlError::PoolExhausted { .. } | SqlError::DeadlockRetryExhausted { .. } => 503,
            SqlError::QueryTimeout { .. } => 504,
            _ => 500,
        }
    }
}

} // verus!
