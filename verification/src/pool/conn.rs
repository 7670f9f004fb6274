//! Per-connection state and the pure parts of running a statement: the row-count batch,
//! reading the reply cells, and classifying driver errors.
use vstd::prelude::*;
use vstd::utf8::{decode_utf8, valid_utf8};
use crate::error::SqlError;
use crate::row::{first_string, first_text, rows_view, trimmed_chars, CellValue, OdbcRow};
use crate::text::to_owned_string;
use crate::textparse::{parse_int, parse_int_exec, trim};

verus! {

/// State of a pooled ODBC connection.
#[derive(Debug, Clone, Copy, PartialEq, Eq, Structural)]
pub enum ConnState {
    Idle,
    Active,
    Validating,
    Closing,
}

/// The state a connection is left in after a validation query: idle when it succeeded,
/// closing when it failed.
pub fn state_after_validation(ok: bool) -> (s: ConnState)
    ensures
        s == (if ok { ConnState::Idle } else { ConnState::Closing }),
{
    if ok { ConnState::Idle } else { ConnState::Closing }
}

/// Whether a connection's session must be reset before its next statement.
#[derive(Debug, Clone, Copy, PartialEq, Eq, Structural)]
pub struct SessionFlags {
    /// Set when the connection went back to the pool.
    pub needs_reset: bool,
    /// Whether the pool runs `sp_reset_connection` at all.
    pub reset_on_reuse: bool,
}

impl SessionFlags {
    /// Before a statement: tells whether to run `EXEC sp_reset_connection` (only when the
    /// connection was returned and resetting is enabled), and clears the mark either way.
    pub fn take_reset(&mut self) -> (run_reset: bool)
        ensures
            run_reset == (old(self).needs_reset && old(self).reset_on_reuse),
            final(self).needs_reset == false,
            final(self).reset_on_reuse == old(self).reset_on_reuse,
    {
        let run = self.needs_reset && self.reset_on_reuse;
        self.needs_reset = false;
        run
    }

    /// The connection went back to the pool: its next user must start from a clean session.
    pub fn mark_returned(&mut self)
        ensures
            final(self).needs_reset == true,
            final(self).reset_on_reuse == old(self).reset_on_reuse,
    {
        self.needs_reset = true;
    }
}

/// A returned connection is reset before its next statement exactly when resetting is
/// enabled, and at most once.
pub proof fn law_reset_once(reset_on_reuse: bool)
    ensures
        ({
            let returned = SessionFlags { needs_reset: true, reset_on_reuse };
            let after = SessionFlags { needs_reset: false, reset_on_reuse };
            &&& (returned.needs_reset && returned.reset_on_reuse) == reset_on_reuse
            &&& !(after.needs_reset && after.reset_on_reuse)
        }),
{
}

/// The DML statement followed by the row-count query, in one batch.
pub open spec fn rowcount_batch_spec(dml: Seq<char>) -> Seq<char> {
    dml + ";\nSELECT @@ROWCOUNT AS r"@
}

/// Batch a DML statement with `SELECT @@ROWCOUNT` so one round trip gives the rows affected.
pub fn rowcount_batch(dml: &str) -> (s: String)
    ensures
        s@ == rowcount_batch_spec(dml@),
{
    let mut s = to_owned_string(dml);
    s.append(";\nSELECT @@ROWCOUNT AS r");
    s
}

/// `std::str::from_utf8`: the text the bytes encode, when they are valid UTF-8.
#[verifier::external_body]
fn utf8_text(b: &[u8]) -> (r: Option<String>)
    ensures
        match r {
            Some(s) => valid_utf8(b@) && s@ == decode_utf8(b@),
            None => !valid_utf8(b@),
        },
{
    match std::str::from_utf8(b) {
        Ok(s) => Some(s.to_owned()),
        Err(_) => None,
    }
}

/// The text `String::from_utf8_lossy` makes of the bytes.
pub uninterp spec fn lossy_text(b: Seq<u8>) -> Seq<char>;

/// `String::from_utf8_lossy`: invalid sequences become U+FFFD; valid UTF-8 is decoded as is.
#[verifier::external_body]
fn utf8_lossy(b: &[u8]) -> (s: String)
    ensures
        s@ == lossy_text(b@),
        valid_utf8(b@) ==> s@ == decode_utf8(b@),
{
    String::from_utf8_lossy(b).into_owned()
}

/// The cell a text-mode fetch gives for a column: `NULL` for no data, else the text.
pub fn cell_from_bytes(b: Option<&[u8]>) -> (c: CellValue)
    ensures
        match b {
            None => c@ == crate::row::CellView::Null,
            Some(bytes) => c@ == crate::row::CellView::Text(lossy_text(bytes@)),
        },
{
    match b {
        None => CellValue::Null,
        Some(bytes) => CellValue::Text(utf8_lossy(bytes)),
    }
}

/// The rows affected, read from the row-count cell: its trimmed text as an unsigned
/// number, or 0 when the cell is missing, not UTF-8 or not a number.
pub open spec fn affected_spec(b: Option<Seq<u8>>) -> int {
    match b {
        Some(bytes) => if valid_utf8(bytes) {
            match parse_int(trim(decode_utf8(bytes)), 0, usize::MAX as int) {
                Ok(v) => v,
                Err(_) => 0,
            }
        } else {
            0
        },
        None => 0,
    }
}

/// Read the rows affected from the row-count cell.
pub fn affected_from_cell(b: Option<&[u8]>) -> (n: usize)
    ensures
        n == affected_spec(match b { Some(x) => Some(x@), None => None }),
{
    match b {
        None => 0,
        Some(bytes) => match utf8_text(bytes) {
            None => 0,
            Some(s) => {
                let t = trimmed_chars(s.as_str());
                match parse_int_exec(&t, 0, usize::MAX as i128) {
                    Ok(v) => v as usize,
                    Err(_) => 0,
                }
            },
        },
    }
}

/// The identity an `INSERT … OUTPUT INSERTED` returned: the first cell of the first row,
/// trimmed, as an `i64`.
pub open spec fn inserted_identity(rows: Seq<crate::row::RowView>) -> Option<int> {
    match first_text(rows) {
        Some(t) => match parse_int(trim(t), i64::MIN as int, i64::MAX as int) {
            Ok(v) => Some(v),
            Err(_) => None,
        },
        None => None,
    }
}

/// Read the generated identity from the rows of an `INSERT … OUTPUT INSERTED`.
pub fn identity_from_rows(rows: &Vec<OdbcRow>) -> (r: Result<i64, SqlError>)
    ensures
        match inserted_identity(rows_view(rows@)) {
            Some(v) => r == Ok::<i64, SqlError>(v as i64),
            None => r matches Err(SqlError::Odbc { code, message })
                && code == 0 && message@ == "INSERT OUTPUT returned no rows or non-numeric id"@,
        },
{
    let fail = SqlError::odbc(0, to_owned_string("INSERT OUTPUT returned no rows or non-numeric id"));
    match first_string(rows) {
        None => Err(fail),
        Some(s) => {
            let t = trimmed_chars(s.as_str());
            match parse_int_exec(&t, i64::MIN as i128, i64::MAX as i128) {
                Ok(v) => Ok(v as i64),
                Err(_) => Err(fail),
            }
        },
    }
}

/// `text` holds `pat` starting at position `i`.
pub open spec fn occurs_at(text: Seq<char>, pat: Seq<char>, i: int) -> bool {
    0 <= i && i + pat.len() <= text.len() && text.subrange(i, i + pat.len()) == pat
}

/// The native error number recognised in a driver message: 1205 (deadlock) when the
/// message mentions it, else 0.
pub open spec fn odbc_code_spec(message: Seq<char>) -> i32 {
    if exists|i: int| occurs_at(message, "1205"@, i) { 1205 } else { 0 }
}

/// Classify a driver error message.
pub fn odbc_code(message: &str) -> (code: i32)
    ensures
        code == odbc_code_spec(message@),
{
    proof {
        reveal_strlit("1205");
    }
    let n = message.unicode_len();
    if n < 4 {
        assert(!exists|i: int| occurs_at(message@, "1205"@, i));
        return 0;
    }
    let mut i: usize = 0;
    while i <= n - 4
        invariant
            n == message@.len(),
            n >= 4,
            i <= n - 3,
            "1205"@ == seq!['1', '2', '0', '5'],
            forall|k: int| 0 <= k < i ==> !occurs_at(message@, "1205"@, k),
        decreases n - i,
    {
        if message.get_char(i) == '1' && message.get_char(i + 1) == '2'
            && message.get_char(i + 2) == '0' && message.get_char(i + 3) == '5' {
            assert(message@.subrange(i as int, i as int + 4) =~= "1205"@);
            assert(occurs_at(message@, "1205"@, i as int));
            return 1205;
        }
        assert(!occurs_at(message@, "1205"@, i as int)) by {
            if occurs_at(message@, "1205"@, i as int) {
                assert(message@.subrange(i as int, i as int + 4)[0] == message@[i as int]);
                assert(message@.subrange(i as int, i as int + 4)[1] == message@[i as int + 1]);
                assert(message@.subrange(i as int, i as int + 4)[2] == message@[i as int + 2]);
                assert(message@.subrange(i as int, i as int + 4)[3] == message@[i as int + 3]);
            }
        }
        i = i + 1;
    }
    assert(!exists|k: int| occurs_at(message@, "1205"@, k)) by {
        assert forall|k: int| !occurs_at(message@, "1205"@, k) by {
            if k >= i {
                assert(k + 4 > n);
            }
        }
    }
    0
}

/// The value of a single-cell query (`SELECT 1`, scalar probes): the first cell's text of
/// the first row, if any.
pub fn scalar_of_rows(rows: &Vec<OdbcRow>) -> (r: Option<String>)
    ensures
        match first_text(rows_view(rows@)) {
            Some(t) => r matches Some(s) && s@ == t,
            None => r is None,
        },
{
    first_string(rows)
}

} // verus!
