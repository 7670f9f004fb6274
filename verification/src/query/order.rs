//! Type-safe ORDER BY builder.
//!
//! Column names are validated against a strict allowlist of characters —
//! only alphanumeric, underscore, dot, and bracket characters are accepted.
//! This prevents SQL injection through dynamically constructed sort clauses.
use vstd::prelude::*;
use crate::error::SqlError;
use crate::text::{push_char, to_owned_string};

verus! {

/// Sort direction.
#[derive(Debug, Clone, Copy, PartialEq, Eq)]
pub enum SortDir {
    Asc,
    Desc,
}

pub open spec fn sort_dir_text(d: SortDir) -> Seq<char> {
    match d {
        SortDir::Asc => "ASC"@,
        SortDir::Desc => "DESC"@,
    }
}

impl SortDir {
    fn as_sql(self) -> (s: &'static str)
        ensures
            s@ == sort_dir_text(self),
    {
        match self {
            SortDir::Asc => "ASC",
            SortDir::Desc => "DESC",
        }
    }
}

/// Characters allowed in an ORDER BY column name.
pub open spec fn column_char_ok(c: char) -> bool {
    ('A' <= c <= 'Z') || ('a' <= c <= 'z') || ('0' <= c <= '9') || c == '_' || c == '.' || c == '['
        || c == ']'
}

/// `j` is the first disallowed character of `col`.
pub open spec fn is_first_bad(col: Seq<char>, j: int) -> bool {
    &&& 0 <= j < col.len()
    &&& !column_char_ok(col[j])
    &&& forall|k: int| 0 <= k < j ==> column_char_ok(#[trigger] col[k])
}

/// Why a column name is rejected, or `None` when it is accepted.
pub open spec fn column_error(col: Seq<char>) -> Option<Seq<char>> {
    if col.len() == 0 {
        Some("ORDER BY column name must not be empty"@)
    } else if exists|j: int| is_first_bad(col, j) {
        let j = choose|j: int| is_first_bad(col, j);
        Some("Disallowed character in ORDER BY column '"@ + col + "': '"@ + seq![col[j]] + "'"@)
    } else {
        None
    }
}

/// The error of the first rejected clause, in clause order.
pub open spec fn clauses_error(cs: Seq<(Seq<char>, SortDir)>) -> Option<Seq<char>>
    decreases cs.len(),
{
    if cs.len() == 0 {
        None
    } else {
        match clauses_error(cs.drop_last()) {
            Some(m) => Some(m),
            None => column_error(cs.last().0),
        }
    }
}

/// Once a prefix of the clauses is rejected, the whole list is rejected with the same error.
pub proof fn lemma_clauses_error_prefix(cs: Seq<(Seq<char>, SortDir)>, k: int)
    requires
        0 <= k <= cs.len(),
        clauses_error(cs.take(k)) is Some,
    ensures
        clauses_error(cs) == clauses_error(cs.take(k)),
    decreases cs.len(),
{
    if k == cs.len() {
        assert(cs.take(k) =~= cs);
    } else {
        assert(cs.drop_last().take(k) =~= cs.take(k));
        lemma_clauses_error_prefix(cs.drop_last(), k);
    }
}

/// A column name made only of ASCII letters, ASCII digits, `_`, `.`, `[` and `]`.
pub open spec fn plain_identifier(col: Seq<char>) -> bool {
    &&& col.len() > 0
    &&& forall|k: int| 0 <= k < col.len() ==> {
        let c = #[trigger] col[k];
        ('A' <= c <= 'Z') || ('a' <= c <= 'z') || ('0' <= c <= '9') || c == '_' || c == '.'
            || c == '[' || c == ']'
    }
}

/// The ORDER BY allowlist: a list whose column names are all plain identifiers is
/// accepted (and `to_sql` then gives each name with its direction, joined by `, `), and a
/// name holding any other character, or no character, is refused.
pub proof fn law_order_by_allowlist(cs: Seq<(Seq<char>, SortDir)>)
    ensures
        (forall|i: int| 0 <= i < cs.len() ==> plain_identifier(#[trigger] cs[i].0))
            <==> clauses_error(cs) is None,
    decreases cs.len(),
{
    if cs.len() > 0 {
        law_order_by_allowlist(cs.drop_last());
        let last = cs.last().0;
        if plain_identifier(last) {
            assert forall|j: int| !is_first_bad(last, j) by {
                if 0 <= j < last.len() {
                    let c = last[j];
                    assert(('A' <= c <= 'Z') || ('a' <= c <= 'z') || ('0' <= c <= '9') || c == '_' || c == '.'
                        || c == '[' || c == ']');
                }
            }
        } else if last.len() > 0 {
            let k = choose|k: int| 0 <= k < last.len() && !{
                let c = #[trigger] last[k];
                ('A' <= c <= 'Z') || ('a' <= c <= 'z') || ('0' <= c <= '9') || c == '_' || c == '.'
                    || c == '[' || c == ']'
            };
            lemma_first_bad_exists(last, k);
        }
        if forall|i: int| 0 <= i < cs.len() ==> plain_identifier(#[trigger] cs[i].0) {
            assert forall|i: int| 0 <= i < cs.drop_last().len() implies plain_identifier(#[trigger] cs.drop_last()[i].0) by {
                assert(cs.drop_last()[i] == cs[i]);
            }
            assert(plain_identifier(cs[cs.len() - 1].0));
        } else {
            let i = choose|i: int| 0 <= i < cs.len() && !plain_identifier(#[trigger] cs[i].0);
            if i < cs.len() - 1 {
                assert(cs.drop_last()[i] == cs[i]);
            }
        }
        if clauses_error(cs) is None {
            assert(clauses_error(cs.drop_last()) is None);
        }
    }
}

/// A name with a character outside the allowlist at `k` has a first such character.
proof fn lemma_first_bad_exists(col: Seq<char>, k: int)
    requires
        0 <= k < col.len(),
        !column_char_ok(col[k]),
    ensures
        exists|j: int| is_first_bad(col, j),
    decreases k,
{
    if forall|m: int| 0 <= m < k ==> column_char_ok(#[trigger] col[m]) {
        assert(is_first_bad(col, k));
    } else {
        let m = choose|m: int| 0 <= m < k && !column_char_ok(#[trigger] col[m]);
        lemma_first_bad_exists(col, m);
    }
}

/// One rendered clause: `col DIR`.
pub open spec fn clause_text(c: (Seq<char>, SortDir)) -> Seq<char> {
    c.0 + " "@ + sort_dir_text(c.1)
}

/// All clauses rendered and joined by `", "`.
pub open spec fn clauses_text(cs: Seq<(Seq<char>, SortDir)>) -> Seq<char>
    decreases cs.len(),
{
    if cs.len() == 0 {
        Seq::empty()
    } else if cs.len() == 1 {
        clause_text(cs[0])
    } else {
        clauses_text(cs.drop_last()) + ", "@ + clause_text(cs.last())
    }
}

/// Type-safe ORDER BY clause builder.
#[derive(Debug, Clone)]
pub struct OrderBy {
    clauses: Vec<(String, SortDir)>,
}

impl View for OrderBy {
    type V = Seq<(Seq<char>, SortDir)>;

    closed spec fn view(&self) -> Seq<(Seq<char>, SortDir)> {
        self.clauses@.map_values(|c: (String, SortDir)| (c.0@, c.1))
    }
}

impl Default for OrderBy {
    fn default() -> (o: OrderBy)
        ensures
            o@ == Seq::<(Seq<char>, SortDir)>::empty(),
    {
        OrderBy::new()
    }
}

impl OrderBy {
    /// An empty ORDER BY list.
    pub fn new() -> (o: OrderBy)
        ensures
            o@ == Seq::<(Seq<char>, SortDir)>::empty(),
    {
        let o = OrderBy { clauses: Vec::new() };
        assert(o@ =~= Seq::<(Seq<char>, SortDir)>::empty());
        o
    }

    /// Add an ascending sort column.
    pub fn asc(self, col: &str) -> (o: OrderBy)
        ensures
            o@ == self@.push((col@, SortDir::Asc)),
    {
        let mut s = self;
        let ghost old_v = s@;
        s.clauses.push((to_owned_string(col), SortDir::Asc));
        assert(s@ =~= old_v.push((col@, SortDir::Asc)));
        s
    }

    /// Add a descending sort column.
    pub fn desc(self, col: &str) -> (o: OrderBy)
        ensures
            o@ == self@.push((col@, SortDir::Desc)),
    {
        let mut s = self;
        let ghost old_v = s@;
        s.clauses.push((to_owned_string(col), SortDir::Desc));
        assert(s@ =~= old_v.push((col@, SortDir::Desc)));
        s
    }

    /// Build the SQL ORDER BY clause string (without the `ORDER BY` keyword).
    ///
    /// Returns `Err` if any column name contains disallowed characters.
    pub fn to_sql(&self) -> (r: Result<String, SqlError>)
        ensures
            match clauses_error(self@) {
                Some(m) => r matches Err(SqlError::Config(msg)) && msg@ == m,
                None => r matches Ok(s) && s@ == clauses_text(self@),
            },
    {
        let n = self.clauses.len();
        let ghost cs = self@;
        let mut out = String::new();
        let mut i: usize = 0;
        while i < n
            invariant
                n == self.clauses@.len(),
                cs == self@,
                cs.len() == n,
                i <= n,
                clauses_error(cs.take(i as int)) is None,
                out@ == clauses_text(cs.take(i as int)),
            decreases n - i,
        {
            let col = &self.clauses[i].0;
            let dir = self.clauses[i].1;
            assert(cs.take(i as int + 1).drop_last() =~= cs.take(i as int));
            assert(cs[i as int] == (col@, dir));
            match Self::validate_column(col.as_str()) {
                Err(e) => {
                    proof {
                        lemma_clauses_error_prefix(cs, i as int + 1);
                    }
                    return Err(e);
                },
                Ok(()) => {},
            }
            if i > 0 {
                out.append(", ");
            }
            out.append(col.as_str());
            out.append(" ");
            out.append(dir.as_sql());
            i = i + 1;
        }
        assert(cs.take(n as int) =~= cs);
        Ok(out)
    }

    fn validate_column(col: &str) -> (r: Result<(), SqlError>)
        ensures
            match column_error(col@) {
                Some(m) => r matches Err(SqlError::Config(msg)) && msg@ == m,
                None => r is Ok,
            },
    {
        let n = col.unicode_len();
        if n == 0 {
            return Err(SqlError::config(to_owned_string("ORDER BY column name must not be empty")));
        }
        let mut i: usize = 0;
        while i < n
            invariant
                n == col@.len(),
                i <= n,
                forall|k: int| 0 <= k < i ==> column_char_ok(#[trigger] col@[k]),
            decreases n - i,
        {
            let ch = col.get_char(i);
            let ok = ('A' <= ch && ch <= 'Z') || ('a' <= ch && ch <= 'z') || ('0' <= ch && ch <= '9')
                || ch == '_' || ch == '.' || ch == '[' || ch == ']';
            if !ok {
                assert(is_first_bad(col@, i as int));
                let ghost j = choose|j: int| is_first_bad(col@, j);
                assert(j == i) by {
                    if j < i {
                        assert(column_char_ok(col@[j]));
                    }
                    if j > i {
                        assert(column_char_ok(col@[i as int]));
                    }
                }
                let mut msg = to_owned_string("Disallowed character in ORDER BY column '");
                msg.append(col);
                msg.append("': '");
                push_char(&mut msg, ch);
                msg.append("'");
                return Err(SqlError::config(msg));
            }
            i = i + 1;
        }
        assert(!exists|j: int| is_first_bad(col@, j));
        Ok(())
    }
}

} // verus!
