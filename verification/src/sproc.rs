//! Stored-procedure calls: parameter lists, the EXEC statement, result-set readers and
//! result envelopes.
use vstd::prelude::*;
use crate::error::SqlError;
use crate::model::SqlEntity;
use crate::params::{OdbcParam, ParamValue, ParamView};
use crate::row::{first_string, first_text, rows_view, trimmed_chars, string_of_chars, OdbcRow, RowView};
use crate::text::to_owned_string;
use crate::textparse::{int_error_message, int_error_text, parse_int, parse_int_exec, trim, IntError};

verus! {

/// First row of a result set — `None` if the set is empty.
#[derive(Debug)]
pub struct Single<T>(pub Option<T>);

/// First row of a result set — error if the set is empty.
#[derive(Debug)]
pub struct Required<T>(pub T);

/// First column of the first row, parsed; `None` if the result set is empty.
#[derive(Debug)]
pub struct Scalar<T>(pub Option<T>);

/// A value read from the text of a single cell, as `str::parse` reads it.
pub trait ScalarValue: Sized {
    /// `r` is what parsing `text` gives.
    spec fn parses(text: Seq<char>, r: Result<Self, SqlError>) -> bool;

    /// Parse the (already trimmed) text of a cell.
    fn parse_scalar(text: &str) -> (r: Result<Self, SqlError>)
        ensures
            Self::parses(text@, r);
}

/// `r` is the outcome of parsing `text` as an integer in `[lo, hi]`, a parse failure
/// becoming a configuration error with the standard library's message.
pub open spec fn int_parses(text: Seq<char>, lo: int, hi: int, r: Result<int, SqlError>) -> bool {
    match parse_int(text, lo, hi) {
        Ok(v) => r == Ok::<int, SqlError>(v),
        Err(e) => r matches Err(SqlError::Config(m)) && m@ == int_error_text(e),
    }
}

fn parse_in_range(text: &str, lo: i128, hi: i128) -> (r: Result<i128, SqlError>)
    requires
        lo <= 0 <= hi,
        -0x8000_0000_0000_0000 <= lo,
        hi <= 0xffff_ffff_ffff_ffff,
    ensures
        match parse_int(text@, lo as int, hi as int) {
            Ok(v) => r == Ok::<i128, SqlError>(v as i128) && lo <= v <= hi,
            Err(e) => r matches Err(SqlError::Config(m)) && m@ == int_error_text(e),
        },
{
    let cs = crate::text::chars_of(text);
    match parse_int_exec(&cs, lo, hi) {
        Ok(v) => Ok(v),
        Err(e) => Err(SqlError::config(int_error_message(e))),
    }
}

impl ScalarValue for i64 {
    open spec fn parses(text: Seq<char>, r: Result<i64, SqlError>) -> bool {
        int_parses(text, i64::MIN as int, i64::MAX as int, match r { Ok(v) => Ok(v as int), Err(e) => Err(e) })
    }

    fn parse_scalar(text: &str) -> (r: Result<i64, SqlError>) {
        match parse_in_range(text, i64::MIN as i128, i64::MAX as i128) {
            Ok(v) => Ok(v as i64),
            Err(e) => Err(e),
        }
    }
}

impl ScalarValue for i32 {
    open spec fn parses(text: Seq<char>, r: Result<i32, SqlError>) -> bool {
        int_parses(text, i32::MIN as int, i32::MAX as int, match r { Ok(v) => Ok(v as int), Err(e) => Err(e) })
    }

    fn parse_scalar(text: &str) -> (r: Result<i32, SqlError>) {
        match parse_in_range(text, i32::MIN as i128, i32::MAX as i128) {
            Ok(v) => Ok(v as i32),
            Err(e) => Err(e),
        }
    }
}

impl ScalarValue for String {
    open spec fn parses(text: Seq<char>, r: Result<String, SqlError>) -> bool {
        r matches Ok(s) && s@ == text
    }

    fn parse_scalar(text: &str) -> (r: Result<String, SqlError>) {
        Ok(to_owned_string(text))
    }
}

/// Conversion of one result set into a value.
pub trait FromResultSet: Sized {
    /// `r` is what the result set with rows `rows` converts to.
    spec fn reads_as(rows: Seq<RowView>, r: Result<Self, SqlError>) -> bool;

    fn from_result_set(rows: Vec<OdbcRow>) -> (r: Result<Self, SqlError>)
        ensures
            Self::reads_as(rows_view(rows@), r);
}

/// Every row mapped in order; the first mapping error stops the conversion.
pub open spec fn decode_all<T: SqlEntity>(rows: Seq<RowView>) -> Result<Seq<T>, SqlError>
    decreases rows.len(),
{
    if rows.len() == 0 {
        Ok(Seq::empty())
    } else {
        match decode_all::<T>(rows.drop_last()) {
            Err(e) => Err(e),
            Ok(xs) => match T::decode(rows.last()) {
                Ok(x) => Ok(xs.push(x)),
                Err(e) => Err(e),
            },
        }
    }
}

/// `r` holds the list that [`decode_all`] gives, or its error.
pub open spec fn list_read<T: SqlEntity>(rows: Seq<RowView>, r: Result<Vec<T>, SqlError>) -> bool {
    match decode_all::<T>(rows) {
        Ok(xs) => r matches Ok(v) && v@ == xs,
        Err(e) => r == Err::<Vec<T>, SqlError>(e),
    }
}

/// Map all rows in order, stopping at the first error.
pub fn read_all<T: SqlEntity>(rows: &Vec<OdbcRow>) -> (r: Result<Vec<T>, SqlError>)
    ensures
        list_read::<T>(rows_view(rows@), r),
{
    let ghost rv = rows_view(rows@);
    let mut out: Vec<T> = Vec::new();
    let mut i: usize = 0;
    while i < rows.len()
        invariant
            i <= rows@.len(),
            rv == rows_view(rows@),
            decode_all::<T>(rv.take(i as int)) == Ok::<Seq<T>, SqlError>(out@),
        decreases rows@.len() - i,
    {
        assert(rv.take(i as int + 1).drop_last() =~= rv.take(i as int));
        assert(rv.take(i as int + 1).last() == rows@[i as int]@);
        match T::from_row(&rows[i]) {
            Ok(x) => {
                out.push(x);
            },
            Err(e) => {
                proof {
                    lemma_decode_all_prefix_err::<T>(rv, i as int + 1);
                }
                return Err(e);
            },
        }
        i = i + 1;
    }
    assert(rv.take(rows@.len() as int) =~= rv);
    Ok(out)
}

/// An error in the first `k` rows is the error of all rows.
proof fn lemma_decode_all_prefix_err<T: SqlEntity>(rows: Seq<RowView>, k: int)
    requires
        0 <= k <= rows.len(),
        decode_all::<T>(rows.take(k)) is Err,
    ensures
        decode_all::<T>(rows) == decode_all::<T>(rows.take(k)),
    decreases rows.len() - k,
{
    if k < rows.len() {
        assert(rows.take(k + 1).drop_last() =~= rows.take(k));
        lemma_decode_all_prefix_err::<T>(rows, k + 1);
    } else {
        assert(rows.take(k) =~= rows);
    }
}

impl<T: SqlEntity> FromResultSet for Vec<T> {
    open spec fn reads_as(rows: Seq<RowView>, r: Result<Vec<T>, SqlError>) -> bool {
        list_read::<T>(rows, r)
    }

    fn from_result_set(rows: Vec<OdbcRow>) -> (r: Result<Vec<T>, SqlError>) {
        read_all::<T>(&rows)
    }
}

/// `r` is the first row mapped, `None` when there is no row.
pub open spec fn single_read<T: SqlEntity>(rows: Seq<RowView>, r: Result<Option<T>, SqlError>) -> bool {
    if rows.len() == 0 {
        r == Ok::<Option<T>, SqlError>(None)
    } else {
        match T::decode(rows[0]) {
            Ok(x) => r == Ok::<Option<T>, SqlError>(Some(x)),
            Err(e) => r == Err::<Option<T>, SqlError>(e),
        }
    }
}

/// `r` is the first row mapped, or the configuration error `msg` when there is no row.
pub open spec fn required_read<T: SqlEntity>(rows: Seq<RowView>, msg: Seq<char>, r: Result<T, SqlError>) -> bool {
    if rows.len() == 0 {
        r matches Err(SqlError::Config(m)) && m@ == msg
    } else {
        r == T::decode(rows[0])
    }
}

/// `r` is the first cell of the first row, trimmed and parsed; `None` when there is no
/// first row or its first cell does not read as text.
pub open spec fn scalar_read<S: ScalarValue>(rows: Seq<RowView>, r: Result<Option<S>, SqlError>) -> bool {
    match first_text(rows) {
        None => r == Ok::<Option<S>, SqlError>(None),
        Some(t) => exists|p: Result<S, SqlError>| #[trigger] S::parses(trim(t), p) && r == match p {
            Ok(v) => Ok::<Option<S>, SqlError>(Some(v)),
            Err(e) => Err::<Option<S>, SqlError>(e),
        },
    }
}

fn read_first<T: SqlEntity>(rows: Vec<OdbcRow>) -> (r: Result<Option<T>, SqlError>)
    ensures
        single_read::<T>(rows_view(rows@), r),
{
    if rows.len() == 0 {
        Ok(None)
    } else {
        match T::from_row(&rows[0]) {
            Ok(x) => Ok(Some(x)),
            Err(e) => Err(e),
        }
    }
}

fn read_required_row<T: SqlEntity>(rows: Vec<OdbcRow>, msg: &str) -> (r: Result<T, SqlError>)
    ensures
        required_read::<T>(rows_view(rows@), msg@, r),
{
    if rows.len() == 0 {
        Err(SqlError::config(to_owned_string(msg)))
    } else {
        T::from_row(&rows[0])
    }
}

fn read_scalar_value<S: ScalarValue>(rows: Vec<OdbcRow>) -> (r: Result<Option<S>, SqlError>)
    ensures
        scalar_read::<S>(rows_view(rows@), r),
{
    match first_string(&rows) {
        None => Ok(None),
        Some(s) => {
            let t = string_of_chars(&trimmed_chars(s.as_str()));
            let p = S::parse_scalar(t.as_str());
            let ghost gp = p;
            let r = match p {
                Ok(v) => Ok(Some(v)),
                Err(e) => Err(e),
            };
            assert(S::parses(trim(s@), gp));
            r
        },
    }
}

impl<T: SqlEntity> FromResultSet for Single<T> {
    open spec fn reads_as(rows: Seq<RowView>, r: Result<Single<T>, SqlError>) -> bool {
        single_read::<T>(rows, match r { Ok(Single(v)) => Ok(v), Err(e) => Err(e) })
    }

    fn from_result_set(rows: Vec<OdbcRow>) -> (r: Result<Single<T>, SqlError>) {
        match read_first::<T>(rows) {
            Ok(v) => Ok(Single(v)),
            Err(e) => Err(e),
        }
    }
}

impl<T: SqlEntity> FromResultSet for Required<T> {
    open spec fn reads_as(rows: Seq<RowView>, r: Result<Required<T>, SqlError>) -> bool {
        required_read::<T>(rows, "query_required: sproc returned no rows"@,
            match r { Ok(Required(v)) => Ok(v), Err(e) => Err(e) })
    }

    fn from_result_set(rows: Vec<OdbcRow>) -> (r: Result<Required<T>, SqlError>) {
        match read_required_row::<T>(rows, "query_required: sproc returned no rows") {
            Ok(v) => Ok(Required(v)),
            Err(e) => Err(e),
        }
    }
}

impl<S: ScalarValue> FromResultSet for Scalar<S> {
    open spec fn reads_as(rows: Seq<RowView>, r: Result<Scalar<S>, SqlError>) -> bool {
        scalar_read::<S>(rows, match r { Ok(Scalar(v)) => Ok(v), Err(e) => Err(e) })
    }

    fn from_result_set(rows: Vec<OdbcRow>) -> (r: Result<Scalar<S>, SqlError>) {
        match read_scalar_value::<S>(rows) {
            Ok(v) => Ok(Scalar(v)),
            Err(e) => Err(e),
        }
    }
}

/// `name` without one leading `@`.
pub open spec fn strip_at_spec(name: Seq<char>) -> Seq<char> {
    if name.len() > 0 && name[0] == '@' { name.drop_first() } else { name }
}

/// `name` without one leading `@`.
pub fn strip_at(name: &str) -> (r: String)
    ensures
        r@ == strip_at_spec(name@),
{
    let n = name.unicode_len();
    if n > 0 && name.get_char(0) == '@' {
        let c = crate::text::chars_of(name);
        let mut r = String::new();
        let mut i: usize = 1;
        while i < n
            invariant
                n == c@.len(),
                c@ == name@,
                1 <= i <= n,
                r@ == c@.subrange(1, i as int),
            decreases n - i,
        {
            crate::text::push_char(&mut r, c[i]);
            i = i + 1;
            assert(r@ =~= c@.subrange(1, i as int));
        }
        assert(r@ =~= name@.drop_first());
        r
    } else {
        to_owned_string(name)
    }
}

/// A parameter name may be written with or without its leading `@`: both forms name the
/// same parameter.
pub proof fn law_at_prefix_optional(name: Seq<char>)
    requires
        name.len() == 0 || name[0] != '@',
    ensures
        strip_at_spec(seq!['@'] + name) == name,
        strip_at_spec(name) == name,
{
    assert((seq!['@'] + name).drop_first() =~= name);
}

/// Fluent parameter builder for stored procedure calls.
///
/// Parameter names may include or omit the leading `@` — both forms are accepted.
#[derive(Debug, Clone)]
pub struct SprocParams {
    params: Vec<(String, ParamValue)>,
}

impl View for SprocParams {
    type V = Seq<(Seq<char>, ParamView)>;

    closed spec fn view(&self) -> Seq<(Seq<char>, ParamView)> {
        self.params@.map_values(|p: (String, ParamValue)| (p.0@, p.1@))
    }
}

/// `@n = @n` for one parameter name.
pub open spec fn exec_arg(n: Seq<char>) -> Seq<char> {
    "@"@ + n + " = @"@ + n
}

/// The argument list of the EXEC statement, joined by `", "`.
pub open spec fn exec_args(ps: Seq<(Seq<char>, ParamView)>) -> Seq<char>
    decreases ps.len(),
{
    if ps.len() == 0 {
        Seq::empty()
    } else if ps.len() == 1 {
        exec_arg(ps[0].0)
    } else {
        exec_args(ps.drop_last()) + ", "@ + exec_arg(ps.last().0)
    }
}

/// `EXEC name` followed by the arguments, when there are any.
pub open spec fn exec_sql(name: Seq<char>, ps: Seq<(Seq<char>, ParamView)>) -> Seq<char> {
    if ps.len() == 0 { "EXEC "@ + name } else { "EXEC "@ + name + " "@ + exec_args(ps) }
}

impl SprocParams {
    pub fn new() -> (p: SprocParams)
        ensures
            p@ == Seq::<(Seq<char>, ParamView)>::empty(),
    {
        let p = SprocParams { params: Vec::new() };
        assert(p@ =~= Seq::<(Seq<char>, ParamView)>::empty());
        p
    }

    /// Add a parameter; `name` may carry a leading `@`.
    pub fn add(self, name: &str, value: ParamValue) -> (p: SprocParams)
        ensures
            p@ == self@.push((strip_at_spec(name@), value@)),
    {
        let mut s = self;
        let ghost old_v = s@;
        let key = strip_at(name);
        s.params.push((key, value));
        assert(s@ =~= old_v.push((strip_at_spec(name@), value@)));
        s
    }

    /// Add an optional parameter. `None` maps to SQL `NULL`.
    pub fn add_nullable(self, name: &str, value: Option<ParamValue>) -> (p: SprocParams)
        ensures
            p@ == self@.push((strip_at_spec(name@), match value {
                Some(v) => v@,
                None => ParamView::Null,
            })),
    {
        let pv = match value {
            Some(v) => v,
            None => ParamValue::Null,
        };
        self.add_stripped(name, pv)
    }

    fn add_stripped(self, name: &str, pv: ParamValue) -> (p: SprocParams)
        ensures
            p@ == self@.push((strip_at_spec(name@), pv@)),
    {
        self.add(name, pv)
    }

    /// Number of parameters added.
    pub fn len(&self) -> (n: usize)
        ensures
            n == self@.len(),
    {
        self.params.len()
    }

    /// Build the `EXEC sproc_name @p = @p, …` SQL string and the parameter list.
    pub fn into_exec(self, sproc_name: &str) -> (r: (String, Vec<OdbcParam>))
        ensures
            r.0@ == exec_sql(sproc_name@, self@),
            r.1@.len() == self@.len(),
            forall|i: int| 0 <= i < self@.len() ==> (#[trigger] r.1@[i]).name@ == self@[i].0
                && r.1@[i].value@ == self@[i].1,
    {
        let ghost ps = self@;
        let mut sql = String::from_str("EXEC ");
        sql.append(sproc_name);
        let n = self.params.len();
        if n > 0 {
            sql.append(" ");
        }
        let mut i: usize = 0;
        while i < n
            invariant
                n == self.params@.len(),
                ps == self@,
                i <= n,
                sql@ == (if n == 0 { "EXEC "@ + sproc_name@ } else { "EXEC "@ + sproc_name@ + " "@ })
                    + exec_args(ps.take(i as int)),
            decreases n - i,
        {
            assert(ps.take(i as int + 1).drop_last() =~= ps.take(i as int));
            if i > 0 {
                sql.append(", ");
            }
            let nm = self.params[i].0.as_str();
            sql.append("@");
            sql.append(nm);
            sql.append(" = @");
            sql.append(nm);
            i = i + 1;
        }
        assert(ps.take(n as int) =~= ps);
        if n == 0 {
            assert(exec_args(ps) =~= Seq::<char>::empty());
        }
        let mut out: Vec<OdbcParam> = Vec::new();
        let mut params = self.params;
        let ghost orig = params@;
        let mut j: usize = 0;
        while params.len() > 0
            invariant
                orig.map_values(|p: (String, ParamValue)| (p.0@, p.1@)) == ps,
                orig.len() == n,
                j + params@.len() == orig.len(),
                params@ == orig.subrange(j as int, orig.len() as int),
                out@.len() == j,
                forall|k: int| 0 <= k < j ==> (#[trigger] out@[k]).name@ == ps[k].0 && out@[k].value@ == ps[k].1,
            decreases params@.len(),
        {
            let (name, value) = params.remove(0);
            assert(orig[j as int] == (name, value));
            out.push(OdbcParam::new_dynamic(name, value));
            j = j + 1;
            assert(params@ =~= orig.subrange(j as int, orig.len() as int));
        }
        (sql, out)
    }
}

/// Removes and returns the first result set, or an empty one when none is left.
pub fn pop_front(sets: &mut Vec<Vec<OdbcRow>>) -> (r: Vec<OdbcRow>)
    ensures
        old(sets)@.len() == 0 ==> r@.len() == 0 && final(sets)@ == old(sets)@,
        old(sets)@.len() > 0 ==> r == old(sets)@[0] && final(sets)@ == old(sets)@.drop_first(),
{
    if sets.len() == 0 {
        Vec::new()
    } else {
        sets.remove(0)
    }
}

/// Manual reader for 5+ result sets — or when typed tuples are insufficient.
///
/// Each `read_*` call consumes the next result set in order. Calling more times than
/// there are result sets returns an empty result (not an error).
#[derive(Debug)]
pub struct MultiReader {
    /// The unread result sets, last one first (the next set is at the end).
    pending: Vec<Vec<OdbcRow>>,
}

pub open spec fn sets_view(ss: Seq<Vec<OdbcRow>>) -> Seq<Seq<RowView>> {
    ss.map_values(|s: Vec<OdbcRow>| rows_view(s@))
}

impl View for MultiReader {
    type V = Seq<Seq<RowView>>;

    /// The result sets not read yet, in order.
    closed spec fn view(&self) -> Seq<Seq<RowView>> {
        sets_view(self.pending@).reverse()
    }
}

impl MultiReader {
    /// A reader over the given result sets, first one next.
    pub fn new(sets: Vec<Vec<OdbcRow>>) -> (r: MultiReader)
        ensures
            r@ == sets_view(sets@),
    {
        let ghost orig = sets@;
        let mut sets = sets;
        let mut pending: Vec<Vec<OdbcRow>> = Vec::new();
        while sets.len() > 0
            invariant
                sets@ == orig.take(sets@.len() as int),
                sets@.len() <= orig.len(),
                sets_view(pending@).reverse() == sets_view(orig).skip(sets@.len() as int),
            decreases sets@.len(),
        {
            let ghost k: int = sets@.len() as int;
            let last = sets.pop().unwrap();
            let ghost before = pending@;
            pending.push(last);
            proof {
                assert(sets@ =~= orig.take(k - 1));
                assert(last == orig[k - 1]);
                assert(sets_view(pending@) =~= sets_view(before).push(rows_view(last@)));
                assert(sets_view(before).push(rows_view(last@)).reverse() =~= seq![rows_view(last@)] + sets_view(before).reverse());
                assert(sets_view(orig).skip(k - 1) =~= seq![rows_view(last@)] + sets_view(orig).skip(k));
                assert(sets_view(pending@).reverse() =~= sets_view(orig).skip(k - 1));
            }
        }
        assert(sets_view(orig).skip(0) =~= sets_view(orig));
        MultiReader { pending }
    }

    /// The next result set (empty once all have been read).
    pub fn next_set(&mut self) -> (rows: Vec<OdbcRow>)
        ensures
            old(self)@.len() == 0 ==> rows@.len() == 0 && final(self)@ == old(self)@,
            old(self)@.len() > 0 ==> rows_view(rows@) == old(self)@[0] && final(self)@ == old(self)@.drop_first(),
    {
        let ghost before = self.pending@;
        match self.pending.pop() {
            Some(set) => {
                proof {
                    assert(before =~= self.pending@.push(set));
                    assert(sets_view(before) =~= sets_view(self.pending@).push(rows_view(set@)));
                    assert(sets_view(self.pending@).reverse() =~= sets_view(before).reverse().drop_first());
                }
                set
            },
            None => Vec::new(),
        }
    }

    /// Read all rows of the next result set as entities.
    pub fn read_list<T: SqlEntity>(&mut self) -> (r: Result<Vec<T>, SqlError>)
        ensures
            final(self)@ == (if old(self)@.len() == 0 { old(self)@ } else { old(self)@.drop_first() }),
            list_read::<T>(if old(self)@.len() == 0 { Seq::empty() } else { old(self)@[0] }, r),
    {
        let rows = self.next_set();
        proof {
            if old(self)@.len() == 0 {
                assert(rows_view(rows@) =~= Seq::<RowView>::empty());
            }
        }
        read_all::<T>(&rows)
    }

    /// Read the first row of the next result set, if any.
    pub fn read_single<T: SqlEntity>(&mut self) -> (r: Result<Option<T>, SqlError>)
        ensures
            final(self)@ == (if old(self)@.len() == 0 { old(self)@ } else { old(self)@.drop_first() }),
            single_read::<T>(if old(self)@.len() == 0 { Seq::empty() } else { old(self)@[0] }, r),
    {
        let rows = self.next_set();
        proof {
            if old(self)@.len() == 0 {
                assert(rows_view(rows@) =~= Seq::<RowView>::empty());
            }
        }
        read_first::<T>(rows)
    }

    /// Read the first row of the next result set; an error when that set is empty.
    pub fn read_required<T: SqlEntity>(&mut self) -> (r: Result<T, SqlError>)
        ensures
            final(self)@ == (if old(self)@.len() == 0 { old(self)@ } else { old(self)@.drop_first() }),
            required_read::<T>(if old(self)@.len() == 0 { Seq::empty() } else { old(self)@[0] },
                "read_required: result set is empty"@, r),
    {
        let rows = self.next_set();
        proof {
            if old(self)@.len() == 0 {
                assert(rows_view(rows@) =~= Seq::<RowView>::empty());
            }
        }
        read_required_row::<T>(rows, "read_required: result set is empty")
    }

    /// Read a scalar from the first column of the first row of the next set.
    pub fn read_scalar<S: ScalarValue>(&mut self) -> (r: Result<Option<S>, SqlError>)
        ensures
            final(self)@ == (if old(self)@.len() == 0 { old(self)@ } else { old(self)@.drop_first() }),
            scalar_read::<S>(if old(self)@.len() == 0 { Seq::empty() } else { old(self)@[0] }, r),
    {
        let rows = self.next_set();
        proof {
            if old(self)@.len() == 0 {
                assert(rows_view(rows@) =~= Seq::<RowView>::empty());
            }
        }
        read_scalar_value::<S>(rows)
    }

    /// Raw rows of the next result set, without mapping.
    pub fn read_raw(&mut self) -> (rows: Vec<OdbcRow>)
        ensures
            old(self)@.len() == 0 ==> rows@.len() == 0 && final(self)@ == old(self)@,
            old(self)@.len() > 0 ==> rows_view(rows@) == old(self)@[0] && final(self)@ == old(self)@.drop_first(),
    {
        self.next_set()
    }

    /// Result sets not read yet.
    pub fn remaining(&self) -> (n: usize)
        ensures
            n == self@.len(),
    {
        self.pending.len()
    }
}

/// Business-level result wrapper: stored procedures often return a first result set with
/// `Success`, `ErrorCode`, `ErrorMessage` columns followed by data result sets.
#[derive(Debug, Clone)]
pub struct SprocResult<T> {
    pub success: bool,
    pub error_code: Option<String>,
    pub error_message: Option<String>,
    pub data: Option<T>,
}

impl<T> SprocResult<T> {
    /// Successful result with data.
    pub fn ok(data: T) -> (r: SprocResult<T>)
        ensures
            r.success,
            r.error_code is None,
            r.error_message is None,
            r.data == Some(data),
    {
        SprocResult { success: true, error_code: None, error_message: None, data: Some(data) }
    }

    /// Failed result with optional error codes.
    pub fn fail(error_code: Option<String>, error_message: Option<String>) -> (r: SprocResult<T>)
        ensures
            !r.success,
            r.error_code == error_code,
            r.error_message == error_message,
            r.data is None,
    {
        SprocResult { success: false, error_code, error_message, data: None }
    }

    pub fn is_success(&self) -> (b: bool)
        ensures
            b == self.success,
    {
        self.success
    }
}

impl SprocResult<()> {
    /// Successful result with no data payload.
    pub fn ok_unit() -> (r: SprocResult<()>)
        ensures
            r.success,
            r.error_code is None,
            r.error_message is None,
            r.data is None,
    {
        SprocResult { success: true, error_code: None, error_message: None, data: None }
    }
}

/// Paged result from a stored procedure: data rows first, then a single row with a
/// `TotalCount` column.
#[derive(Debug, Clone)]
pub struct SprocPagedResult<T> {
    pub items: Vec<T>,
    pub total_count: i64,
    pub page_number: i32,
    pub page_size: i32,
}

} // verus!
