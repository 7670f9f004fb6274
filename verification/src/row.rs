//! Result rows: typed access to the cells of a row by column name.
use vstd::prelude::*;
use crate::error::SqlError;
use crate::temporal::{SqlDate, SqlDateTime, SqlDateTimeOffset, SqlTime};
use crate::text::{chars_of, int_text, nat_text, push_char, push_i128, push_u128, to_owned_string};
use crate::textparse::{
    eq_ignore_ascii_case, eq_ignore_ascii_case_exec, int_error_message, int_error_text, parse_int,
    parse_int_exec, trim, trim_chars,
};
use crate::values::{
    date_text, decimal_text, guid_parse, guid_text, guid_to_string, offset_debug, parse_guid, time_debug,
    SqlDecimal,
};

verus! {

/// Raw cell storage — mirrors every MSSQL column type.
///
/// Rows read in text mode hold `Text` and `Null` cells only; each typed getter parses
/// the text into the target type.
#[derive(Debug)]
pub enum CellValue {
    Bool(bool),
    U8(u8),
    I16(i16),
    I32(i32),
    I64(i64),
    /// The bit pattern of an `f32`.
    F32(u32),
    /// The bit pattern of an `f64`.
    F64(u64),
    Decimal(SqlDecimal),
    Text(String),
    Bytes(Vec<u8>),
    NaiveDate(SqlDate),
    NaiveTime(SqlTime),
    DateTime(SqlDateTime),
    DateTimeOffset(SqlDateTimeOffset),
    Guid(u128),
    Null,
}

/// Abstract content of a [`CellValue`].
pub enum CellView {
    Bool(bool),
    U8(u8),
    I16(i16),
    I32(i32),
    I64(i64),
    F32(u32),
    F64(u64),
    Decimal(SqlDecimal),
    Text(Seq<char>),
    Bytes(Seq<u8>),
    NaiveDate(SqlDate),
    NaiveTime(SqlTime),
    DateTime(SqlDateTime),
    DateTimeOffset(SqlDateTimeOffset),
    Guid(u128),
    Null,
}

impl View for CellValue {
    type V = CellView;

    open spec fn view(&self) -> CellView {
        match *self {
            CellValue::Bool(v) => CellView::Bool(v),
            CellValue::U8(v) => CellView::U8(v),
            CellValue::I16(v) => CellView::I16(v),
            CellValue::I32(v) => CellView::I32(v),
            CellValue::I64(v) => CellView::I64(v),
            CellValue::F32(v) => CellView::F32(v),
            CellValue::F64(v) => CellView::F64(v),
            CellValue::Decimal(v) => CellView::Decimal(v),
            CellValue::Text(v) => CellView::Text(v@),
            CellValue::Bytes(v) => CellView::Bytes(v@),
            CellValue::NaiveDate(v) => CellView::NaiveDate(v),
            CellValue::NaiveTime(v) => CellView::NaiveTime(v),
            CellValue::DateTime(v) => CellView::DateTime(v),
            CellValue::DateTimeOffset(v) => CellView::DateTimeOffset(v),
            CellValue::Guid(v) => CellView::Guid(v),
            CellValue::Null => CellView::Null,
        }
    }
}

/// What `format!("{:?}", s)` writes for a string: the text in double quotes, with quotes,
/// backslashes, control and non-printable characters escaped.
pub uninterp spec fn str_debug_text(s: Seq<char>) -> Seq<char>;

/// `format!("{:?}", s)`, the standard library's `Debug` of `str`.
#[verifier::external_body]
fn str_debug(s: &str) -> (r: String)
    ensures
        r@ == str_debug_text(s@),
{
    format!("{:?}", s)
}

/// The items of a byte list as `Debug` writes them, separated by `, `.
pub open spec fn bytes_items(bs: Seq<u8>) -> Seq<char>
    decreases bs.len(),
{
    if bs.len() == 0 {
        Seq::empty()
    } else if bs.len() == 1 {
        nat_text(bs[0] as nat)
    } else {
        bytes_items(bs.drop_last()) + ", "@ + nat_text(bs.last() as nat)
    }
}

/// `name(inner)`, the form of a tuple variant in `Debug` text.
pub open spec fn variant_text(name: Seq<char>, inner: Seq<char>) -> Seq<char> {
    name + "("@ + inner + ")"@
}

/// The text a cell shows in a mapping error: its variant and value, each value written as
/// its type's `Debug` writes it (decimals as numbers, dates and times as chrono writes
/// them, GUIDs hyphenated). A float cell shows the bit pattern it holds.
pub open spec fn cell_debug_text(c: CellView) -> Seq<char> {
    match c {
        CellView::Bool(b) => variant_text("Bool"@, if b { "true"@ } else { "false"@ }),
        CellView::U8(v) => variant_text("U8"@, int_text(v as int)),
        CellView::I16(v) => variant_text("I16"@, int_text(v as int)),
        CellView::I32(v) => variant_text("I32"@, int_text(v as int)),
        CellView::I64(v) => variant_text("I64"@, int_text(v as int)),
        CellView::F32(v) => variant_text("F32"@, nat_text(v as nat)),
        CellView::F64(v) => variant_text("F64"@, nat_text(v as nat)),
        CellView::Decimal(d) => variant_text("Decimal"@, decimal_text(d.mantissa_spec(), d.scale_spec())),
        CellView::Text(t) => variant_text("Text"@, str_debug_text(t)),
        CellView::Bytes(b) => variant_text("Bytes"@, "["@ + bytes_items(b) + "]"@),
        CellView::NaiveDate(d) => variant_text("NaiveDate"@, date_text(d.parts().0, d.parts().1, d.parts().2)->0),
        CellView::NaiveTime(t) => variant_text("NaiveTime"@, time_debug(t.parts())),
        CellView::DateTime(t) => variant_text("DateTime"@,
            date_text(t.parts().0.0, t.parts().0.1, t.parts().0.2)->0 + "T"@ + time_debug(t.parts().1) + "Z"@),
        CellView::DateTimeOffset(t) => variant_text("DateTimeOffset"@,
            date_text(t.parts().0.0, t.parts().0.1, t.parts().0.2)->0 + "T"@ + time_debug(t.parts().1)
                + offset_debug(t.parts().2)),
        CellView::Guid(u) => variant_text("Guid"@, guid_text(u as int)),
        CellView::Null => "Null"@,
    }
}

fn variant(name: &str, inner: &str) -> (s: String)
    ensures
        s@ == variant_text(name@, inner@),
{
    let mut s = to_owned_string(name);
    s.append("(");
    s.append(inner);
    s.append(")");
    proof {
        reveal_strlit("(");
        reveal_strlit(")");
    }
    assert(s@ =~= variant_text(name@, inner@));
    s
}

fn int_string(n: i128) -> (s: String)
    ensures
        s@ == int_text(n as int),
{
    let mut s = String::new();
    push_i128(&mut s, n);
    assert(s@ =~= int_text(n as int));
    s
}

fn bytes_debug(v: &Vec<u8>) -> (s: String)
    ensures
        s@ == "["@ + bytes_items(v@) + "]"@,
{
    let mut s = to_owned_string("[");
    let mut i: usize = 0;
    proof {
        reveal_strlit("[");
        reveal_strlit("]");
        reveal_strlit(", ");
    }
    assert(s@ =~= "["@ + bytes_items(v@.take(0)));
    while i < v.len()
        invariant
            i <= v@.len(),
            s@ == "["@ + bytes_items(v@.take(i as int)),
        decreases v@.len() - i,
    {
        let ghost before = s@;
        if i > 0 {
            s.append(", ");
        }
        push_u128(&mut s, v[i] as u128);
        proof {
            let t = v@.take(i as int + 1);
            assert(t.drop_last() =~= v@.take(i as int));
            assert(t.last() == v@[i as int]);
            assert(s@ =~= "["@ + bytes_items(t));
        }
        i = i + 1;
    }
    assert(v@.take(v@.len() as int) =~= v@);
    s.append("]");
    assert(s@ =~= "["@ + bytes_items(v@) + "]"@);
    s
}

/// The text a cell shows in a mapping error (see [`cell_debug_text`]).
fn cell_debug(c: &CellValue) -> (s: String)
    ensures
        s@ == cell_debug_text(c@),
{
    match c {
        CellValue::Bool(b) => variant("Bool", if *b { "true" } else { "false" }),
        CellValue::U8(v) => variant("U8", int_string(*v as i128).as_str()),
        CellValue::I16(v) => variant("I16", int_string(*v as i128).as_str()),
        CellValue::I32(v) => variant("I32", int_string(*v as i128).as_str()),
        CellValue::I64(v) => variant("I64", int_string(*v as i128).as_str()),
        CellValue::F32(v) => {
            let mut t = String::new();
            push_u128(&mut t, *v as u128);
            variant("F32", t.as_str())
        },
        CellValue::F64(v) => {
            let mut t = String::new();
            push_u128(&mut t, *v as u128);
            variant("F64", t.as_str())
        },
        CellValue::Decimal(d) => variant("Decimal", d.to_text().as_str()),
        CellValue::Text(t) => variant("Text", str_debug(t.as_str()).as_str()),
        CellValue::Bytes(b) => variant("Bytes", bytes_debug(b).as_str()),
        CellValue::NaiveDate(d) => variant("NaiveDate", d.to_text().as_str()),
        CellValue::NaiveTime(t) => variant("NaiveTime", t.debug_text().as_str()),
        CellValue::DateTime(t) => {
            let mut x = t.date().to_text();
            x.append("T");
            x.append(t.time().debug_text().as_str());
            x.append("Z");
            proof {
                reveal_strlit("T");
                reveal_strlit("Z");
            }
            variant("DateTime", x.as_str())
        },
        CellValue::DateTimeOffset(t) => {
            let mut x = t.date().to_text();
            x.append("T");
            x.append(t.time().debug_text().as_str());
            x.append(t.offset_debug_text().as_str());
            proof {
                reveal_strlit("T");
            }
            variant("DateTimeOffset", x.as_str())
        },
        CellValue::Guid(u) => variant("Guid", guid_to_string(*u).as_str()),
        CellValue::Null => to_owned_string("Null"),
    }
}

/// A single result row with named columns.
#[derive(Debug)]
pub struct OdbcRow {
    pub(crate) columns: Vec<String>,
    pub(crate) values: Vec<CellValue>,
}

/// Abstract content of a row.
pub struct RowView {
    pub columns: Seq<Seq<char>>,
    pub values: Seq<CellView>,
}

impl View for OdbcRow {
    type V = RowView;

    closed spec fn view(&self) -> RowView {
        RowView {
            columns: self.columns@.map_values(|c: String| c@),
            values: self.values@.map_values(|c: CellValue| c@),
        }
    }
}

/// The text of a row's first cell, as `get_first_string` reads it.
pub open spec fn first_string_of(r: RowView) -> Got<Seq<char>> {
    if r.values.len() == 0 {
        Got::Fail("NULL or empty row"@)
    } else {
        match r.values[0] {
            CellView::Text(s) => Got::Val(s),
            CellView::I64(v) => Got::Val(int_text(v as int)),
            CellView::I32(v) => Got::Val(int_text(v as int)),
            CellView::Decimal(d) => Got::Val(decimal_text(d.mantissa_spec(), d.scale_spec())),
            CellView::Guid(g) => Got::Val(guid_text(g as int)),
            CellView::Null => Got::Fail("NULL or empty row"@),
            other => Got::Fail("unexpected cell type: "@ + cell_debug_text(other)),
        }
    }
}

/// The rows of a result set, by their content.
pub open spec fn rows_view(rs: Seq<OdbcRow>) -> Seq<RowView> {
    rs.map_values(|r: OdbcRow| r@)
}

/// The first cell's text of the first row, when there is a first row and its first cell
/// reads as text.
pub open spec fn first_text(rows: Seq<RowView>) -> Option<Seq<char>> {
    if rows.len() == 0 {
        None
    } else {
        match first_string_of(rows[0]) {
            Got::Val(s) => Some(s),
            Got::Fail(_) => None,
        }
    }
}

/// What a getter yields: a value, or the reason of a row-mapping error on the column asked for.
pub enum Got<T> {
    Val(T),
    Fail(Seq<char>),
}

/// `r` is the row-mapping error on `col` with the given reason.
pub open spec fn mapping_error(e: SqlError, col: Seq<char>, reason: Seq<char>) -> bool {
    e matches SqlError::RowMapping { column, reason: r } && column@ == col && r@ == reason
}

pub open spec fn agrees<T>(r: Result<T, SqlError>, col: Seq<char>, g: Got<T>) -> bool {
    match g {
        Got::Val(v) => r == Ok::<T, SqlError>(v),
        Got::Fail(m) => r matches Err(e) && mapping_error(e, col, m),
    }
}

pub open spec fn agrees_opt<T>(r: Result<Option<T>, SqlError>, col: Seq<char>, g: Got<Option<T>>) -> bool {
    agrees(r, col, g)
}

pub open spec fn agrees_text(r: Result<String, SqlError>, col: Seq<char>, g: Got<Seq<char>>) -> bool {
    match g {
        Got::Val(v) => r matches Ok(s) && s@ == v,
        Got::Fail(m) => r matches Err(e) && mapping_error(e, col, m),
    }
}

pub open spec fn agrees_text_opt(r: Result<Option<String>, SqlError>, col: Seq<char>, g: Got<Option<Seq<char>>>) -> bool {
    match g {
        Got::Val(Some(v)) => r matches Ok(Some(s)) && s@ == v,
        Got::Val(None) => r matches Ok(None),
        Got::Fail(m) => r matches Err(e) && mapping_error(e, col, m),
    }
}

pub open spec fn agrees_bytes(r: Result<Vec<u8>, SqlError>, col: Seq<char>, g: Got<Seq<u8>>) -> bool {
    match g {
        Got::Val(v) => r matches Ok(s) && s@ == v,
        Got::Fail(m) => r matches Err(e) && mapping_error(e, col, m),
    }
}

pub open spec fn agrees_bytes_opt(r: Result<Option<Vec<u8>>, SqlError>, col: Seq<char>, g: Got<Option<Seq<u8>>>) -> bool {
    match g {
        Got::Val(Some(v)) => r matches Ok(Some(s)) && s@ == v,
        Got::Val(None) => r matches Ok(None),
        Got::Fail(m) => r matches Err(e) && mapping_error(e, col, m),
    }
}

/// `j` is the first column whose name equals `name` ignoring ASCII case.
pub open spec fn is_first_col(cols: Seq<Seq<char>>, name: Seq<char>, j: int) -> bool {
    &&& 0 <= j < cols.len()
    &&& eq_ignore_ascii_case(cols[j], name)
    &&& forall|k: int| 0 <= k < j ==> !eq_ignore_ascii_case(#[trigger] cols[k], name)
}

/// Position of column `name`; the empty name means the first column.
pub open spec fn column_index(cols: Seq<Seq<char>>, name: Seq<char>) -> Option<int> {
    if name.len() == 0 {
        Some(0)
    } else if exists|j: int| is_first_col(cols, name, j) {
        Some(choose|j: int| is_first_col(cols, name, j))
    } else {
        None
    }
}

/// The row can be read at column `col` without indexing past its cells.
pub open spec fn readable(r: RowView, col: Seq<char>) -> bool {
    match column_index(r.columns, col) {
        Some(i) => i < r.values.len(),
        None => true,
    }
}

/// The cell at column `col`, or the reason it is missing.
pub open spec fn cell_spec(r: RowView, col: Seq<char>) -> Result<CellView, Seq<char>> {
    match column_index(r.columns, col) {
        Some(i) => Ok(r.values[i]),
        None => Err("column '"@ + col + "' not found in result set"@),
    }
}

pub open spec fn unexpected(kind: Seq<char>, c: CellView) -> Seq<char> {
    "expected "@ + kind + ", got "@ + cell_debug_text(c)
}

pub open spec fn truthy_text(s: Seq<char>) -> bool {
    let t = trim(s);
    t == "1"@ || t == "true"@ || t == "True"@ || t == "TRUE"@
}

pub open spec fn bool_of(c: CellView) -> Got<bool> {
    match c {
        CellView::Bool(v) => Got::Val(v),
        CellView::I32(v) => Got::Val(v != 0),
        CellView::I64(v) => Got::Val(v != 0),
        CellView::U8(v) => Got::Val(v != 0),
        CellView::Text(s) => Got::Val(truthy_text(s)),
        CellView::Null => Got::Fail("unexpected NULL"@),
        _ => Got::Fail(unexpected("bool"@, c)),
    }
}


pub open spec fn u8_of(c: CellView) -> Got<u8> {
    match c {
        CellView::U8(v) => Got::Val(v),
        CellView::I32(v) => Got::Val(v as u8),
        CellView::I64(v) => Got::Val(v as u8),
        CellView::Text(s) => match parse_int(trim(s), 0, 255) {
            Ok(v) => Got::Val(v as u8),
            Err(e) => Got::Fail(int_error_text(e)),
        },
        CellView::Null => Got::Fail("unexpected NULL"@),
        _ => Got::Fail(unexpected("u8"@, c)),
    }
}

pub open spec fn i16_of(c: CellView) -> Got<i16> {
    match c {
        CellView::I16(v) => Got::Val(v),
        CellView::I32(v) => Got::Val(v as i16),
        CellView::I64(v) => Got::Val(v as i16),
        CellView::Text(s) => match parse_int(trim(s), i16::MIN as int, i16::MAX as int) {
            Ok(v) => Got::Val(v as i16),
            Err(e) => Got::Fail(int_error_text(e)),
        },
        CellView::Null => Got::Fail("unexpected NULL"@),
        _ => Got::Fail(unexpected("i16"@, c)),
    }
}

pub open spec fn i32_of(c: CellView) -> Got<i32> {
    match c {
        CellView::I32(v) => Got::Val(v),
        CellView::I16(v) => Got::Val(v as i32),
        CellView::I64(v) => Got::Val(v as i32),
        CellView::U8(v) => Got::Val(v as i32),
        CellView::Text(s) => match parse_int(trim(s), i32::MIN as int, i32::MAX as int) {
            Ok(v) => Got::Val(v as i32),
            Err(e) => Got::Fail(int_error_text(e)),
        },
        CellView::Null => Got::Fail("unexpected NULL"@),
        _ => Got::Fail(unexpected("i32"@, c)),
    }
}

pub open spec fn i64_of(c: CellView) -> Got<i64> {
    match c {
        CellView::I64(v) => Got::Val(v),
        CellView::I32(v) => Got::Val(v as i64),
        CellView::I16(v) => Got::Val(v as i64),
        CellView::U8(v) => Got::Val(v as i64),
        CellView::Text(s) => match parse_int(trim(s), i64::MIN as int, i64::MAX as int) {
            Ok(v) => Got::Val(v as i64),
            Err(e) => Got::Fail(int_error_text(e)),
        },
        CellView::Null => Got::Fail("unexpected NULL"@),
        _ => Got::Fail(unexpected("i64"@, c)),
    }
}

/// The integer an integer-typed cell holds.
pub open spec fn cell_integer(c: CellView) -> Option<int> {
    match c {
        CellView::U8(v) => Some(v as int),
        CellView::I16(v) => Some(v as int),
        CellView::I32(v) => Some(v as int),
        CellView::I64(v) => Some(v as int),
        _ => None,
    }
}

/// Integer cells read as the number they hold: `get_i64` accepts every integer cell with
/// its value unchanged, `get_i32` does so whenever the value fits in an `i32`, and on
/// every integer cell the two reads agree wherever the narrower one keeps the value.
pub proof fn law_integer_reads_widen(c: CellView)
    ensures
        cell_integer(c) matches Some(n) ==> i64_of(c) == Got::Val(n as i64) && n == (n as i64) as int,
        cell_integer(c) matches Some(n) ==> (i32::MIN <= n <= i32::MAX ==> i32_of(c) == Got::Val(n as i32)),
        cell_integer(c) is Some ==> (i32_of(c) matches Got::Val(x) ==> (cell_integer(c) == Some(x as int)
            ==> i64_of(c) == Got::Val(x as i64))),
{
}

pub open spec fn string_of(c: CellView) -> Got<Seq<char>> {
    match c {
        CellView::Text(v) => Got::Val(v),
        CellView::I32(v) => Got::Val(int_text(v as int)),
        CellView::I64(v) => Got::Val(int_text(v as int)),
        CellView::Decimal(d) => Got::Val(decimal_text(d.mantissa_spec(), d.scale_spec())),
        CellView::Guid(g) => Got::Val(guid_text(g as int)),
        CellView::Null => Got::Fail("unexpected NULL"@),
        _ => Got::Fail(unexpected("String"@, c)),
    }
}

pub open spec fn guid_of(c: CellView) -> Got<u128> {
    match c {
        CellView::Guid(v) => Got::Val(v),
        CellView::Text(s) => match guid_parse(trim(s)) {
            Ok(u) => Got::Val(u as u128),
            Err(e) => Got::Fail(e),
        },
        CellView::Null => Got::Fail("unexpected NULL"@),
        _ => Got::Fail(unexpected("Uuid"@, c)),
    }
}

/// A getter's outcome at column `col`: the lookup failure, or `f` applied to the cell.
pub open spec fn via_cell<T>(r: RowView, col: Seq<char>, f: spec_fn(CellView) -> Got<T>) -> Got<T> {
    match cell_spec(r, col) {
        Ok(c) => f(c),
        Err(m) => Got::Fail(m),
    }
}

/// Like [`via_cell`], with `NULL` read as `None`.
pub open spec fn via_cell_opt<T>(r: RowView, col: Seq<char>, f: spec_fn(CellView) -> Got<T>) -> Got<Option<T>> {
    match cell_spec(r, col) {
        Ok(CellView::Null) => Got::Val(None),
        Ok(c) => match f(c) {
            Got::Val(v) => Got::Val(Some(v)),
            Got::Fail(m) => Got::Fail(m),
        },
        Err(m) => Got::Fail(m),
    }
}

// ── bytes ────────────────────────────────────────────────────────────────────

/// What hex-decoding a byte string does: the bytes, a parse failure, or a panic of the
/// byte slicing it relies on.
pub enum HexOut {
    Bytes(Seq<u8>),
    Invalid,
    Panics,
}

pub open spec fn is_hex_byte(b: u8) -> bool {
    (48 <= b <= 57) || (97 <= b <= 102) || (65 <= b <= 70)
}

pub open spec fn hex_val(b: u8) -> int {
    if 48 <= b <= 57 { b - 48 } else if 97 <= b <= 102 { b - 87 } else { b - 55 }
}

/// `u8::from_str_radix(pair, 16)` for a two-byte slice.
pub open spec fn hex_pair(a: u8, b: u8) -> Option<u8> {
    if a < 0x80 && b < 0x80 {
        if a == 43 {
            if is_hex_byte(b) { Some(hex_val(b) as u8) } else { None }
        } else if is_hex_byte(a) && is_hex_byte(b) {
            Some((16 * hex_val(a) + hex_val(b)) as u8)
        } else {
            None
        }
    } else {
        None
    }
}

/// Hex decoding two bytes at a time, as slices `[i..i + 2]` of a string.
pub open spec fn decode_hex(b: Seq<u8>) -> HexOut
    decreases b.len(),
{
    if b.len() == 0 {
        HexOut::Bytes(Seq::empty())
    } else if b.len() < 2 || (b.len() > 2 && vstd::utf8::is_continuation_byte(b[2])) {
        HexOut::Panics
    } else {
        match hex_pair(b[0], b[1]) {
            None => HexOut::Invalid,
            Some(v) => match decode_hex(b.skip(2)) {
                HexOut::Bytes(r) => HexOut::Bytes(seq![v] + r),
                o => o,
            },
        }
    }
}

pub open spec fn hex_prefixed(t: Seq<char>) -> bool {
    t.len() >= 2 && t[0] == '0' && (t[1] == 'x' || t[1] == 'X')
}

pub open spec fn bytes_of(c: CellView) -> Got<Seq<u8>> {
    match c {
        CellView::Bytes(v) => Got::Val(v),
        CellView::Text(s) => {
            let t = trim(s);
            if hex_prefixed(t) {
                match decode_hex(vstd::utf8::encode_utf8(t).skip(2)) {
                    HexOut::Bytes(r) => Got::Val(r),
                    _ => Got::Fail("invalid digit found in string"@),
                }
            } else {
                Got::Val(vstd::utf8::encode_utf8(t))
            }
        },
        CellView::Null => Got::Fail("unexpected NULL"@),
        _ => Got::Fail(unexpected("Bytes"@, c)),
    }
}

/// Reading the cell as bytes would slice its `0x…` text in the middle of a character or
/// past its end (an odd number of hex bytes), which panics.
pub open spec fn bytes_panic(c: CellView) -> bool {
    match c {
        CellView::Text(s) => hex_prefixed(trim(s))
            && decode_hex(vstd::utf8::encode_utf8(trim(s)).skip(2)) is Panics,
        _ => false,
    }
}

pub open spec fn cell_bytes_panic(r: RowView, col: Seq<char>) -> bool {
    match cell_spec(r, col) {
        Ok(c) => bytes_panic(c),
        Err(_) => false,
    }
}

// ── decimal ──────────────────────────────────────────────────────────────────

pub open spec fn is_currency(c: char) -> bool {
    c == '$' || c == '\u{20ac}' || c == '\u{a3}' || c == '\u{a5}'
}

/// `trim_start_matches(['$', '€', '£', '¥'])`
pub open spec fn strip_currency(s: Seq<char>) -> Seq<char>
    decreases s.len(),
{
    if s.len() > 0 && is_currency(s[0]) { strip_currency(s.drop_first()) } else { s }
}

/// The decimal in a cell, as (mantissa, scale).
pub open spec fn decimal_of(c: CellView) -> Got<(int, int)> {
    match c {
        CellView::Decimal(d) => Got::Val((d.mantissa_spec(), d.scale_spec())),
        CellView::Text(s) => match crate::values::decimal_parse(strip_currency(trim(s))) {
            Ok(p) => Got::Val(p),
            Err(e) => Got::Fail(e),
        },
        CellView::I64(v) => Got::Val((v as int, 0)),
        CellView::I32(v) => Got::Val((v as int, 0)),
        CellView::Null => Got::Fail("unexpected NULL"@),
        _ => Got::Fail(unexpected("Decimal"@, c)),
    }
}

pub open spec fn agrees_decimal(r: Result<SqlDecimal, SqlError>, col: Seq<char>, g: Got<(int, int)>) -> bool {
    match g {
        Got::Val(p) => r matches Ok(d) && (d.mantissa_spec(), d.scale_spec()) == p,
        Got::Fail(m) => r matches Err(e) && mapping_error(e, col, m),
    }
}

pub open spec fn agrees_decimal_opt(r: Result<Option<SqlDecimal>, SqlError>, col: Seq<char>, g: Got<Option<(int, int)>>) -> bool {
    match g {
        Got::Val(Some(p)) => r matches Ok(Some(d)) && (d.mantissa_spec(), d.scale_spec()) == p,
        Got::Val(None) => r matches Ok(None),
        Got::Fail(m) => r matches Err(e) && mapping_error(e, col, m),
    }
}

pub open spec fn cell_is_float(r: RowView, col: Seq<char>) -> bool {
    match cell_spec(r, col) {
        Ok(CellView::F64(_)) => true,
        _ => false,
    }
}

// ── dates and times ──────────────────────────────────────────────────────────

pub open spec fn date_of(c: CellView) -> Got<(int, int, int)> {
    match c {
        CellView::NaiveDate(d) => Got::Val(d.parts()),
        CellView::Text(s) => match crate::values::date_parse(trim(s), "%Y-%m-%d"@) {
            Ok(p) => Got::Val(p),
            Err(e) => Got::Fail(e),
        },
        CellView::Null => Got::Fail("unexpected NULL"@),
        _ => Got::Fail(unexpected("NaiveDate"@, c)),
    }
}

pub open spec fn time_of(c: CellView) -> Got<(int, int, int, int)> {
    match c {
        CellView::NaiveTime(t) => Got::Val(t.parts()),
        CellView::Text(s) => match crate::values::time_parse(trim(s), "%H:%M:%S%.f"@) {
            Ok(p) => Got::Val(p),
            Err(_) => match crate::values::time_parse(trim(s), "%H:%M:%S"@) {
                Ok(p) => Got::Val(p),
                Err(e) => Got::Fail(e),
            },
        },
        CellView::Null => Got::Fail("unexpected NULL"@),
        _ => Got::Fail(unexpected("NaiveTime"@, c)),
    }
}

pub open spec fn datetime_of(c: CellView) -> Got<((int, int, int), (int, int, int, int))> {
    match c {
        CellView::DateTime(t) => Got::Val(t.parts()),
        CellView::Text(s) => match crate::values::utc_datetime_parse(trim(s)) {
            Ok(p) => Got::Val(p),
            Err(_) => match crate::values::naive_datetime_parse(trim(s), "%Y-%m-%d %H:%M:%S%.f"@) {
                Ok(p) => Got::Val(p),
                Err(_) => match crate::values::naive_datetime_parse(trim(s), "%Y-%m-%d %H:%M:%S"@) {
                    Ok(p) => Got::Val(p),
                    Err(e) => Got::Fail(e),
                },
            },
        },
        CellView::Null => Got::Fail("unexpected NULL"@),
        _ => Got::Fail(unexpected("DateTime<Utc>"@, c)),
    }
}

pub open spec fn datetime_offset_of(c: CellView) -> Got<((int, int, int), (int, int, int, int), int)> {
    match c {
        CellView::DateTimeOffset(t) => Got::Val(t.parts()),
        CellView::Text(s) => match crate::values::offset_datetime_parse(trim(s), "%Y-%m-%d %H:%M:%S%.f %:z"@) {
            Ok(p) => Got::Val(p),
            Err(_) => match crate::values::rfc3339_parse(trim(s)) {
                Ok(p) => Got::Val(p),
                Err(_) => match crate::values::offset_datetime_parse(trim(s), "%Y-%m-%d %H:%M:%S %:z"@) {
                    Ok(p) => Got::Val(p),
                    Err(e) => Got::Fail(e),
                },
            },
        },
        CellView::Null => Got::Fail("unexpected NULL"@),
        _ => Got::Fail(unexpected("DateTimeOffset"@, c)),
    }
}

pub open spec fn agrees_date(r: Result<SqlDate, SqlError>, col: Seq<char>, g: Got<(int, int, int)>) -> bool {
    match g {
        Got::Val(p) => r matches Ok(v) && v.parts() == p,
        Got::Fail(m) => r matches Err(e) && mapping_error(e, col, m),
    }
}

pub open spec fn agrees_time(r: Result<SqlTime, SqlError>, col: Seq<char>, g: Got<(int, int, int, int)>) -> bool {
    match g {
        Got::Val(p) => r matches Ok(v) && v.parts() == p,
        Got::Fail(m) => r matches Err(e) && mapping_error(e, col, m),
    }
}

pub open spec fn agrees_datetime(r: Result<SqlDateTime, SqlError>, col: Seq<char>, g: Got<((int, int, int), (int, int, int, int))>) -> bool {
    match g {
        Got::Val(p) => r matches Ok(v) && v.parts() == p,
        Got::Fail(m) => r matches Err(e) && mapping_error(e, col, m),
    }
}

pub open spec fn agrees_datetime_offset(r: Result<SqlDateTimeOffset, SqlError>, col: Seq<char>, g: Got<((int, int, int), (int, int, int, int), int)>) -> bool {
    match g {
        Got::Val(p) => r matches Ok(v) && v.parts() == p,
        Got::Fail(m) => r matches Err(e) && mapping_error(e, col, m),
    }
}

/// Lifts an outcome to the optional getter's outcome (`NULL` already handled).
pub open spec fn some_of<T>(g: Got<T>) -> Got<Option<T>> {
    match g {
        Got::Val(v) => Got::Val(Some(v)),
        Got::Fail(m) => Got::Fail(m),
    }
}

pub open spec fn opt_cell<T>(r: RowView, col: Seq<char>, f: spec_fn(CellView) -> Got<T>) -> Got<Option<T>> {
    via_cell_opt(r, col, f)
}

fn text_is(v: &Vec<char>, lit: &str) -> (b: bool)
    ensures
        b == (v@ == lit@),
{
    let n = lit.unicode_len();
    if v.len() != n {
        return false;
    }
    let mut i: usize = 0;
    while i < n
        invariant
            n == lit@.len(),
            n == v@.len(),
            i <= n,
            forall|k: int| 0 <= k < i ==> v@[k] == lit@[k],
        decreases n - i,
    {
        if v[i] != lit.get_char(i) {
            return false;
        }
        i = i + 1;
    }
    assert(v@ =~= lit@);
    true
}

fn trimmed(s: &String) -> (r: Vec<char>)
    ensures
        r@ == trim(s@),
{
    trim_chars(&chars_of(s.as_str()))
}

/// A `String` with the given characters.
pub fn string_of_chars(v: &Vec<char>) -> (s: String)
    ensures
        s@ == v@,
{
    let mut s = String::new();
    let mut i: usize = 0;
    while i < v.len()
        invariant
            i <= v@.len(),
            s@ == v@.take(i as int),
        decreases v@.len() - i,
    {
        push_char(&mut s, v[i]);
        i = i + 1;
        assert(s@ =~= v@.take(i as int));
    }
    assert(v@.take(v@.len() as int) =~= v@);
    s
}

fn fail(col: &str, reason: String) -> (e: SqlError)
    ensures
        mapping_error(e, col@, reason@),
{
    SqlError::RowMapping { column: to_owned_string(col), reason }
}

fn unexpected_err(col: &str, kind: &str, c: &CellValue) -> (e: SqlError)
    ensures
        mapping_error(e, col@, unexpected(kind@, c@)),
{
    let mut m = to_owned_string("expected ");
    m.append(kind);
    m.append(", got ");
    let d = cell_debug(c);
    m.append(d.as_str());
    fail(col, m)
}

fn null_err(col: &str) -> (e: SqlError)
    ensures
        mapping_error(e, col@, "unexpected NULL"@),
{
    fail(col, to_owned_string("unexpected NULL"))
}

impl OdbcRow {
    /// A row from its column names and cells.
    pub fn new(columns: Vec<String>, values: Vec<CellValue>) -> (r: OdbcRow)
        ensures
            r@ == (RowView {
                columns: columns@.map_values(|c: String| c@),
                values: values@.map_values(|c: CellValue| c@),
            }),
    {
        OdbcRow { columns, values }
    }

    /// Direct positional value access — no column-name lookup.
    pub fn value_at(&self, idx: usize) -> (r: Result<&CellValue, SqlError>)
        ensures
            idx < self@.values.len() ==> (r matches Ok(c) && c@ == self@.values[idx as int]),
            idx >= self@.values.len() ==> (r matches Err(e)
                && mapping_error(e, "__index__"@, "column index out of range"@)),
    {
        if idx < self.values.len() {
            Ok(&self.values[idx])
        } else {
            Err(fail("__index__", to_owned_string("column index out of range")))
        }
    }

    /// Position of the first column named `name` (ignoring ASCII case); the empty name
    /// means the first column.
    pub fn index_of(&self, name: &str) -> (r: Result<usize, SqlError>)
        ensures
            match column_index(self@.columns, name@) {
                Some(i) => r matches Ok(j) && j as int == i,
                None => r matches Err(e)
                    && mapping_error(e, name@, "column '"@ + name@ + "' not found in result set"@),
            },
    {
        if name.unicode_len() == 0 {
            return Ok(0);
        }
        let ghost cols = self@.columns;
        let mut i: usize = 0;
        while i < self.columns.len()
            invariant
                i <= self.columns@.len(),
                cols == self@.columns,
                cols.len() == self.columns@.len(),
                name@.len() != 0,
                forall|k: int| 0 <= k < i ==> !eq_ignore_ascii_case(#[trigger] cols[k], name@),
            decreases self.columns@.len() - i,
        {
            if eq_ignore_ascii_case_exec(self.columns[i].as_str(), name) {
                assert(cols[i as int] == self.columns@[i as int]@);
                assert(is_first_col(cols, name@, i as int));
                let ghost c = choose|j: int| is_first_col(cols, name@, j);
                assert(c == i) by {
                    if c < i {
                        assert(!eq_ignore_ascii_case(cols[c], name@));
                    }
                    if c > i {
                        assert(!eq_ignore_ascii_case(cols[i as int], name@));
                    }
                }
                assert(name@.len() != 0);
                assert(column_index(cols, name@) == Some(i as int));
                return Ok(i);
            }
            i = i + 1;
        }
        assert(!exists|j: int| is_first_col(cols, name@, j));
        let mut m = to_owned_string("column '");
        m.append(name);
        m.append("' not found in result set");
        Err(fail(name, m))
    }

    fn cell(&self, col: &str) -> (r: Result<&CellValue, SqlError>)
        requires
            readable(self@, col@),
        ensures
            match cell_spec(self@, col@) {
                Ok(c) => r matches Ok(v) && v@ == c,
                Err(m) => r matches Err(e) && mapping_error(e, col@, m),
            },
    {
        match self.index_of(col) {
            Ok(i) => Ok(&self.values[i]),
            Err(e) => Err(e),
        }
    }

    /// Return the first column as text (COUNT, scalar queries, etc.).
    pub fn get_first_string(&self) -> (r: Result<String, SqlError>)
        ensures
            agrees_text(r, "__first__"@, first_string_of(self@)),
    {
        if self.values.len() == 0 {
            return Err(fail("__first__", to_owned_string("NULL or empty row")));
        }
        match &self.values[0] {
            CellValue::Text(s) => Ok(s.clone()),
            CellValue::I64(v) => {
                let mut s = String::new();
                push_i128(&mut s, *v as i128);
                Ok(s)
            },
            CellValue::I32(v) => {
                let mut s = String::new();
                push_i128(&mut s, *v as i128);
                Ok(s)
            },
            CellValue::Decimal(d) => Ok(d.to_text()),
            CellValue::Guid(g) => Ok(guid_to_string(*g)),
            CellValue::Null => Err(fail("__first__", to_owned_string("NULL or empty row"))),
            other => {
                let mut m = to_owned_string("unexpected cell type: ");
                let d = cell_debug(other);
                m.append(d.as_str());
                Err(fail("__first__", m))
            },
        }
    }

    pub fn get_bool(&self, col: &str) -> (r: Result<bool, SqlError>)
        requires
            readable(self@, col@),
        ensures
            agrees(r, col@, via_cell(self@, col@, |c: CellView| bool_of(c))),
    {
        let c = match self.cell(col) {
            Ok(c) => c,
            Err(e) => return Err(e),
        };
        Self::bool_from(col, c)
    }

    fn bool_from(col: &str, c: &CellValue) -> (r: Result<bool, SqlError>)
        ensures
            agrees(r, col@, bool_of(c@)),
    {
        match c {
            CellValue::Bool(v) => Ok(*v),
            CellValue::I32(v) => Ok(*v != 0),
            CellValue::I64(v) => Ok(*v != 0),
            CellValue::U8(v) => Ok(*v != 0),
            CellValue::Text(s) => {
                let t = trimmed(s);
                Ok(text_is(&t, "1") || text_is(&t, "true") || text_is(&t, "True") || text_is(&t, "TRUE"))
            },
            CellValue::Null => Err(null_err(col)),
            other => Err(unexpected_err(col, "bool", other)),
        }
    }

    pub fn get_bool_opt(&self, col: &str) -> (r: Result<Option<bool>, SqlError>)
        requires
            readable(self@, col@),
        ensures
            agrees_opt(r, col@, via_cell_opt(self@, col@, |c: CellView| bool_of(c))),
    {
        let c = match self.cell(col) {
            Ok(c) => c,
            Err(e) => return Err(e),
        };
        match c {
            CellValue::Null => Ok(None),
            _ => match Self::bool_from(col, c) {
                Ok(v) => Ok(Some(v)),
                Err(e) => Err(e),
            },
        }
    }

    fn int_from_text(col: &str, s: &String, lo: i128, hi: i128) -> (r: Result<i128, SqlError>)
        requires
            lo <= 0 <= hi,
            -0x8000_0000_0000_0000 <= lo,
            hi <= 0xffff_ffff_ffff_ffff,
        ensures
            match parse_int(trim(s@), lo as int, hi as int) {
                Ok(v) => r matches Ok(x) && x as int == v && lo <= x <= hi,
                Err(e) => r matches Err(x) && mapping_error(x, col@, int_error_text(e)),
            },
    {
        let t = trimmed(s);
        match parse_int_exec(&t, lo, hi) {
            Ok(v) => {
                proof {
                    lemma_parse_int_range(trim(s@), lo as int, hi as int);
                }
                Ok(v)
            },
            Err(e) => Err(fail(col, int_error_message(e))),
        }
    }

    fn u8_from(col: &str, c: &CellValue) -> (r: Result<u8, SqlError>)
        ensures
            agrees(r, col@, u8_of(c@)),
    {
        match c {
            CellValue::U8(v) => Ok(*v),
            CellValue::I32(v) => Ok(*v as u8),
            CellValue::I64(v) => Ok(*v as u8),
            CellValue::Text(s) => match Self::int_from_text(col, s, 0, 255) {
                Ok(v) => Ok(v as u8),
                Err(e) => Err(e),
            },
            CellValue::Null => Err(null_err(col)),
            other => Err(unexpected_err(col, "u8", other)),
        }
    }

    pub fn get_u8(&self, col: &str) -> (r: Result<u8, SqlError>)
        requires
            readable(self@, col@),
        ensures
            agrees(r, col@, via_cell(self@, col@, |c: CellView| u8_of(c))),
    {
        match self.cell(col) {
            Ok(c) => Self::u8_from(col, c),
            Err(e) => Err(e),
        }
    }

    pub fn get_u8_opt(&self, col: &str) -> (r: Result<Option<u8>, SqlError>)
        requires
            readable(self@, col@),
        ensures
            agrees_opt(r, col@, via_cell_opt(self@, col@, |c: CellView| u8_of(c))),
    {
        match self.cell(col) {
            Ok(CellValue::Null) => Ok(None),
            Ok(c) => match Self::u8_from(col, c) {
                Ok(v) => Ok(Some(v)),
                Err(e) => Err(e),
            },
            Err(e) => Err(e),
        }
    }

    fn i16_from(col: &str, c: &CellValue) -> (r: Result<i16, SqlError>)
        ensures
            agrees(r, col@, i16_of(c@)),
    {
        match c {
            CellValue::I16(v) => Ok(*v),
            CellValue::I32(v) => Ok(*v as i16),
            CellValue::I64(v) => Ok(*v as i16),
            CellValue::Text(s) => match Self::int_from_text(col, s, i16::MIN as i128, i16::MAX as i128) {
                Ok(v) => Ok(v as i16),
                Err(e) => Err(e),
            },
            CellValue::Null => Err(null_err(col)),
            other => Err(unexpected_err(col, "i16", other)),
        }
    }

    pub fn get_i16(&self, col: &str) -> (r: Result<i16, SqlError>)
        requires
            readable(self@, col@),
        ensures
            agrees(r, col@, via_cell(self@, col@, |c: CellView| i16_of(c))),
    {
        match self.cell(col) {
            Ok(c) => Self::i16_from(col, c),
            Err(e) => Err(e),
        }
    }

    pub fn get_i16_opt(&self, col: &str) -> (r: Result<Option<i16>, SqlError>)
        requires
            readable(self@, col@),
        ensures
            agrees_opt(r, col@, via_cell_opt(self@, col@, |c: CellView| i16_of(c))),
    {
        match self.cell(col) {
            Ok(CellValue::Null) => Ok(None),
            Ok(c) => match Self::i16_from(col, c) {
                Ok(v) => Ok(Some(v)),
                Err(e) => Err(e),
            },
            Err(e) => Err(e),
        }
    }

    fn i32_from(col: &str, c: &CellValue) -> (r: Result<i32, SqlError>)
        ensures
            agrees(r, col@, i32_of(c@)),
    {
        match c {
            CellValue::I32(v) => Ok(*v),
            CellValue::I16(v) => Ok(*v as i32),
            CellValue::I64(v) => Ok(*v as i32),
            CellValue::U8(v) => Ok(*v as i32),
            CellValue::Text(s) => match Self::int_from_text(col, s, i32::MIN as i128, i32::MAX as i128) {
                Ok(v) => Ok(v as i32),
                Err(e) => Err(e),
            },
            CellValue::Null => Err(null_err(col)),
            other => Err(unexpected_err(col, "i32", other)),
        }
    }

    pub fn get_i32(&self, col: &str) -> (r: Result<i32, SqlError>)
        requires
            readable(self@, col@),
        ensures
            agrees(r, col@, via_cell(self@, col@, |c: CellView| i32_of(c))),
    {
        match self.cell(col) {
            Ok(c) => Self::i32_from(col, c),
            Err(e) => Err(e),
        }
    }

    pub fn get_i32_opt(&self, col: &str) -> (r: Result<Option<i32>, SqlError>)
        requires
            readable(self@, col@),
        ensures
            agrees_opt(r, col@, via_cell_opt(self@, col@, |c: CellView| i32_of(c))),
    {
        match self.cell(col) {
            Ok(CellValue::Null) => Ok(None),
            Ok(c) => match Self::i32_from(col, c) {
                Ok(v) => Ok(Some(v)),
                Err(e) => Err(e),
            },
            Err(e) => Err(e),
        }
    }

    fn i64_from(col: &str, c: &CellValue) -> (r: Result<i64, SqlError>)
        ensures
            agrees(r, col@, i64_of(c@)),
    {
        match c {
            CellValue::I64(v) => Ok(*v),
            CellValue::I32(v) => Ok(*v as i64),
            CellValue::I16(v) => Ok(*v as i64),
            CellValue::U8(v) => Ok(*v as i64),
            CellValue::Text(s) => match Self::int_from_text(col, s, i64::MIN as i128, i64::MAX as i128) {
                Ok(v) => Ok(v as i64),
                Err(e) => Err(e),
            },
            CellValue::Null => Err(null_err(col)),
            other => Err(unexpected_err(col, "i64", other)),
        }
    }

    pub fn get_i64(&self, col: &str) -> (r: Result<i64, SqlError>)
        requires
            readable(self@, col@),
        ensures
            agrees(r, col@, via_cell(self@, col@, |c: CellView| i64_of(c))),
    {
        match self.cell(col) {
            Ok(c) => Self::i64_from(col, c),
            Err(e) => Err(e),
        }
    }

    pub fn get_i64_opt(&self, col: &str) -> (r: Result<Option<i64>, SqlError>)
        requires
            readable(self@, col@),
        ensures
            agrees_opt(r, col@, via_cell_opt(self@, col@, |c: CellView| i64_of(c))),
    {
        match self.cell(col) {
            Ok(CellValue::Null) => Ok(None),
            Ok(c) => match Self::i64_from(col, c) {
                Ok(v) => Ok(Some(v)),
                Err(e) => Err(e),
            },
            Err(e) => Err(e),
        }
    }

    fn string_from(col: &str, c: &CellValue) -> (r: Result<String, SqlError>)
        ensures
            agrees_text(r, col@, string_of(c@)),
    {
        match c {
            CellValue::Text(v) => Ok(v.clone()),
            CellValue::I32(v) => {
                let mut s = String::new();
                push_i128(&mut s, *v as i128);
                Ok(s)
            },
            CellValue::I64(v) => {
                let mut s = String::new();
                push_i128(&mut s, *v as i128);
                Ok(s)
            },
            CellValue::Decimal(d) => Ok(d.to_text()),
            CellValue::Guid(g) => Ok(guid_to_string(*g)),
            CellValue::Null => Err(null_err(col)),
            other => Err(unexpected_err(col, "String", other)),
        }
    }

    pub fn get_string(&self, col: &str) -> (r: Result<String, SqlError>)
        requires
            readable(self@, col@),
        ensures
            agrees_text(r, col@, via_cell(self@, col@, |c: CellView| string_of(c))),
    {
        match self.cell(col) {
            Ok(c) => Self::string_from(col, c),
            Err(e) => Err(e),
        }
    }

    pub fn get_string_opt(&self, col: &str) -> (r: Result<Option<String>, SqlError>)
        requires
            readable(self@, col@),
        ensures
            agrees_text_opt(r, col@, via_cell_opt(self@, col@, |c: CellView| string_of(c))),
    {
        match self.cell(col) {
            Ok(CellValue::Null) => Ok(None),
            Ok(c) => match Self::string_from(col, c) {
                Ok(v) => Ok(Some(v)),
                Err(e) => Err(e),
            },
            Err(e) => Err(e),
        }
    }

    fn uuid_from(col: &str, c: &CellValue) -> (r: Result<u128, SqlError>)
        ensures
            agrees(r, col@, guid_of(c@)),
    {
        match c {
            CellValue::Guid(v) => Ok(*v),
            CellValue::Text(s) => {
                let t = string_of_chars(&trimmed(s));
                match parse_guid(t.as_str()) {
                    Ok(u) => Ok(u),
                    Err(e) => Err(fail(col, e)),
                }
            },
            CellValue::Null => Err(null_err(col)),
            other => Err(unexpected_err(col, "Uuid", other)),
        }
    }

    /// The cell as a GUID (its 128-bit value).
    pub fn get_uuid(&self, col: &str) -> (r: Result<u128, SqlError>)
        requires
            readable(self@, col@),
        ensures
            agrees(r, col@, via_cell(self@, col@, |c: CellView| guid_of(c))),
    {
        match self.cell(col) {
            Ok(c) => Self::uuid_from(col, c),
            Err(e) => Err(e),
        }
    }

    pub fn get_uuid_opt(&self, col: &str) -> (r: Result<Option<u128>, SqlError>)
        requires
            readable(self@, col@),
        ensures
            agrees_opt(r, col@, via_cell_opt(self@, col@, |c: CellView| guid_of(c))),
    {
        match self.cell(col) {
            Ok(CellValue::Null) => Ok(None),
            Ok(c) => match Self::uuid_from(col, c) {
                Ok(v) => Ok(Some(v)),
                Err(e) => Err(e),
            },
            Err(e) => Err(e),
        }
    }
}


fn is_hex_byte_exec(b: u8) -> (r: bool)
    ensures
        r == is_hex_byte(b),
{
    (48 <= b && b <= 57) || (97 <= b && b <= 102) || (65 <= b && b <= 70)
}

fn hex_val_exec(b: u8) -> (r: u8)
    requires
        is_hex_byte(b),
    ensures
        r as int == hex_val(b),
        r < 16,
{
    if 48 <= b && b <= 57 { b - 48 } else if 97 <= b && b <= 102 { b - 87 } else { b - 55 }
}

fn hex_pair_exec(a: u8, b: u8) -> (r: Option<u8>)
    ensures
        r == hex_pair(a, b),
{
    if a < 0x80 && b < 0x80 {
        if a == 43 {
            if is_hex_byte_exec(b) { Some(hex_val_exec(b)) } else { None }
        } else if is_hex_byte_exec(a) && is_hex_byte_exec(b) {
            Some(16 * hex_val_exec(a) + hex_val_exec(b))
        } else {
            None
        }
    } else {
        None
    }
}

/// Decodes `b[2..]` two bytes at a time.
fn decode_hex_exec(b: &[u8]) -> (r: Option<Vec<u8>>)
    requires
        b@.len() >= 2,
        !(decode_hex(b@.skip(2)) is Panics),
    ensures
        match decode_hex(b@.skip(2)) {
            HexOut::Bytes(v) => r matches Some(x) && x@ == v,
            _ => r is None,
        },
{
    let n = b.len();
    let mut out: Vec<u8> = Vec::new();
    let mut i: usize = 2;
    while i < n
        invariant
            n == b@.len(),
            2 <= i <= n,
            !(decode_hex(b@.skip(i as int)) is Panics),
            decode_hex(b@.skip(2)) == (match decode_hex(b@.skip(i as int)) {
                HexOut::Bytes(r) => HexOut::Bytes(out@ + r),
                o => o,
            }),
        decreases n - i,
    {
        let ghost rest = b@.skip(i as int);
        assert(rest.len() >= 2);
        assert(rest.skip(2) =~= b@.skip(i as int + 2));
        match hex_pair_exec(b[i], b[i + 1]) {
            None => {
                return None;
            },
            Some(v) => {
                let ghost prev = out@;
                out.push(v);
                proof {
                    match decode_hex(rest.skip(2)) {
                        HexOut::Bytes(r2) => {
                            assert(prev + (seq![v] + r2) =~= out@ + r2);
                        },
                        _ => {},
                    }
                }
                i = i + 2;
            },
        }
    }
    assert(b@.skip(n as int) =~= Seq::<u8>::empty());
    assert(out@ + Seq::<u8>::empty() =~= out@);
    Some(out)
}

/// Whether decoding the hex digits after the two-byte prefix would slice off the end of
/// the text or through a character (the odd-length and multi-byte cases).
fn hex_panics(b: &[u8]) -> (p: bool)
    requires
        b@.len() >= 2,
    ensures
        p == (decode_hex(b@.skip(2)) is Panics),
{
    let n = b.len();
    let mut i: usize = 2;
    while i < n
        invariant
            n == b@.len(),
            2 <= i <= n,
            (decode_hex(b@.skip(2)) is Panics) == (decode_hex(b@.skip(i as int)) is Panics),
        decreases n - i,
    {
        let ghost rest = b@.skip(i as int);
        if n - i < 2 || (n - i > 2 && 0x80 <= b[i + 2] && b[i + 2] <= 0xbf) {
            return true;
        }
        assert(rest.skip(2) =~= b@.skip(i as int + 2));
        match hex_pair_exec(b[i], b[i + 1]) {
            None => {
                return false;
            },
            Some(_) => {},
        }
        i = i + 2;
    }
    assert(b@.skip(n as int) =~= Seq::<u8>::empty());
    false
}

fn bytes_copy(v: &Vec<u8>) -> (r: Vec<u8>)
    ensures
        r@ == v@,
{
    vstd::slice::slice_to_vec(v.as_slice())
}

/// The currency-stripped characters of `t`.
fn strip_currency_exec(t: &Vec<char>) -> (r: Vec<char>)
    ensures
        r@ == strip_currency(t@),
{
    let n = t.len();
    let mut a: usize = 0;
    assert(t@.skip(0) =~= t@);
    while a < n && (t[a] == '$' || t[a] == '\u{20ac}' || t[a] == '\u{a3}' || t[a] == '\u{a5}')
        invariant
            n == t@.len(),
            a <= n,
            strip_currency(t@) == strip_currency(t@.skip(a as int)),
        decreases n - a,
    {
        assert(t@.skip(a as int).drop_first() =~= t@.skip(a as int + 1));
        a = a + 1;
    }
    let mut r: Vec<char> = Vec::new();
    let mut i: usize = a;
    while i < n
        invariant
            n == t@.len(),
            a <= i <= n,
            r@ == t@.subrange(a as int, i as int),
        decreases n - i,
    {
        r.push(t[i]);
        i = i + 1;
        assert(r@ =~= t@.subrange(a as int, i as int));
    }
    assert(r@ =~= t@.skip(a as int));
    assert(strip_currency(t@.skip(a as int)) == t@.skip(a as int));
    r
}

impl OdbcRow {
    fn bytes_from(col: &str, c: &CellValue) -> (r: Result<Vec<u8>, SqlError>)
        requires
            !bytes_panic(c@),
        ensures
            agrees_bytes(r, col@, bytes_of(c@)),
    {
        match c {
            CellValue::Bytes(v) => Ok(bytes_copy(v)),
            CellValue::Text(s) => {
                let tv = trimmed(s);
                let t = string_of_chars(&tv);
                let b = t.as_str().as_bytes();
                if tv.len() >= 2 && tv[0] == '0' && (tv[1] == 'x' || tv[1] == 'X') {
                    proof {
                        lemma_encode_len_two(tv@);
                    }
                    match decode_hex_exec(b) {
                        Some(v) => Ok(v),
                        None => Err(fail(col, to_owned_string("invalid digit found in string"))),
                    }
                } else {
                    Ok(vstd::slice::slice_to_vec(b))
                }
            },
            CellValue::Null => Err(null_err(col)),
            other => Err(unexpected_err(col, "Bytes", other)),
        }
    }

    /// Whether reading column `col` as bytes would fail on a `0x` hex text that cannot be
    /// cut into digit pairs (odd length, or a multi-byte character in the digits): the
    /// input that `get_bytes` and `get_bytes_opt` do not take.
    pub fn bytes_read_panics(&self, col: &str) -> (p: bool)
        requires
            readable(self@, col@),
        ensures
            p == cell_bytes_panic(self@, col@),
    {
        match self.cell(col) {
            Ok(CellValue::Text(s)) => {
                let tv = trimmed(s);
                let t = string_of_chars(&tv);
                let b = t.as_str().as_bytes();
                if tv.len() >= 2 && tv[0] == '0' && (tv[1] == 'x' || tv[1] == 'X') {
                    proof {
                        lemma_encode_len_two(tv@);
                    }
                    hex_panics(b)
                } else {
                    false
                }
            },
            _ => false,
        }
    }

    pub fn get_bytes(&self, col: &str) -> (r: Result<Vec<u8>, SqlError>)
        requires
            readable(self@, col@),
            !cell_bytes_panic(self@, col@),
        ensures
            agrees_bytes(r, col@, via_cell(self@, col@, |c: CellView| bytes_of(c))),
    {
        match self.cell(col) {
            Ok(c) => Self::bytes_from(col, c),
            Err(e) => Err(e),
        }
    }

    pub fn get_bytes_opt(&self, col: &str) -> (r: Result<Option<Vec<u8>>, SqlError>)
        requires
            readable(self@, col@),
            !cell_bytes_panic(self@, col@),
        ensures
            agrees_bytes_opt(r, col@, via_cell_opt(self@, col@, |c: CellView| bytes_of(c))),
    {
        match self.cell(col) {
            Ok(CellValue::Null) => Ok(None),
            Ok(c) => match Self::bytes_from(col, c) {
                Ok(v) => Ok(Some(v)),
                Err(e) => Err(e),
            },
            Err(e) => Err(e),
        }
    }

    fn decimal_from(col: &str, c: &CellValue) -> (r: Result<SqlDecimal, SqlError>)
        requires
            !(c@ is F64),
        ensures
            agrees_decimal(r, col@, decimal_of(c@)),
    {
        match c {
            CellValue::Decimal(v) => Ok(*v),
            CellValue::Text(s) => {
                let clean = string_of_chars(&strip_currency_exec(&trimmed(s)));
                match SqlDecimal::parse(clean.as_str()) {
                    Ok(d) => Ok(d),
                    Err(e) => Err(fail(col, e)),
                }
            },
            CellValue::I64(v) => Ok(SqlDecimal::from_i64(*v)),
            CellValue::I32(v) => Ok(SqlDecimal::from_i64(*v as i64)),
            CellValue::Null => Err(null_err(col)),
            other => Err(unexpected_err(col, "Decimal", other)),
        }
    }

    /// The cell as a fixed-precision decimal. A floating-point (`F64`) cell is converted
    /// by the application, which owns floating-point arithmetic.
    pub fn get_decimal(&self, col: &str) -> (r: Result<SqlDecimal, SqlError>)
        requires
            readable(self@, col@),
            !cell_is_float(self@, col@),
        ensures
            agrees_decimal(r, col@, via_cell(self@, col@, |c: CellView| decimal_of(c))),
    {
        match self.cell(col) {
            Ok(c) => Self::decimal_from(col, c),
            Err(e) => Err(e),
        }
    }

    pub fn get_decimal_opt(&self, col: &str) -> (r: Result<Option<SqlDecimal>, SqlError>)
        requires
            readable(self@, col@),
            !cell_is_float(self@, col@),
        ensures
            agrees_decimal_opt(r, col@, via_cell_opt(self@, col@, |c: CellView| decimal_of(c))),
    {
        match self.cell(col) {
            Ok(CellValue::Null) => Ok(None),
            Ok(c) => match Self::decimal_from(col, c) {
                Ok(v) => Ok(Some(v)),
                Err(e) => Err(e),
            },
            Err(e) => Err(e),
        }
    }

    fn date_from(col: &str, c: &CellValue) -> (r: Result<SqlDate, SqlError>)
        ensures
            agrees_date(r, col@, date_of(c@)),
    {
        match c {
            CellValue::NaiveDate(v) => Ok(*v),
            CellValue::Text(s) => {
                let t = string_of_chars(&trimmed(s));
                match SqlDate::parse(t.as_str(), "%Y-%m-%d") {
                    Ok(d) => Ok(d),
                    Err(e) => Err(fail(col, e)),
                }
            },
            CellValue::Null => Err(null_err(col)),
            other => Err(unexpected_err(col, "NaiveDate", other)),
        }
    }

    pub fn get_naive_date(&self, col: &str) -> (r: Result<SqlDate, SqlError>)
        requires
            readable(self@, col@),
        ensures
            agrees_date(r, col@, via_cell(self@, col@, |c: CellView| date_of(c))),
    {
        match self.cell(col) {
            Ok(c) => Self::date_from(col, c),
            Err(e) => Err(e),
        }
    }

    pub fn get_naive_date_opt(&self, col: &str) -> (r: Result<Option<SqlDate>, SqlError>)
        requires
            readable(self@, col@),
        ensures
            match via_cell_opt(self@, col@, |c: CellView| date_of(c)) {
                Got::Val(Some(p)) => r matches Ok(Some(v)) && v.parts() == p,
                Got::Val(None) => r matches Ok(None),
                Got::Fail(m) => r matches Err(e) && mapping_error(e, col@, m),
            },
    {
        match self.cell(col) {
            Ok(CellValue::Null) => Ok(None),
            Ok(c) => match Self::date_from(col, c) {
                Ok(v) => Ok(Some(v)),
                Err(e) => Err(e),
            },
            Err(e) => Err(e),
        }
    }

    fn time_from(col: &str, c: &CellValue) -> (r: Result<SqlTime, SqlError>)
        ensures
            agrees_time(r, col@, time_of(c@)),
    {
        match c {
            CellValue::NaiveTime(v) => Ok(*v),
            CellValue::Text(s) => {
                let t = string_of_chars(&trimmed(s));
                match SqlTime::parse(t.as_str(), "%H:%M:%S%.f") {
                    Ok(v) => Ok(v),
                    Err(_) => match SqlTime::parse(t.as_str(), "%H:%M:%S") {
                        Ok(v) => Ok(v),
                        Err(e) => Err(fail(col, e)),
                    },
                }
            },
            CellValue::Null => Err(null_err(col)),
            other => Err(unexpected_err(col, "NaiveTime", other)),
        }
    }

    pub fn get_naive_time(&self, col: &str) -> (r: Result<SqlTime, SqlError>)
        requires
            readable(self@, col@),
        ensures
            agrees_time(r, col@, via_cell(self@, col@, |c: CellView| time_of(c))),
    {
        match self.cell(col) {
            Ok(c) => Self::time_from(col, c),
            Err(e) => Err(e),
        }
    }

    pub fn get_naive_time_opt(&self, col: &str) -> (r: Result<Option<SqlTime>, SqlError>)
        requires
            readable(self@, col@),
        ensures
            match via_cell_opt(self@, col@, |c: CellView| time_of(c)) {
                Got::Val(Some(p)) => r matches Ok(Some(v)) && v.parts() == p,
                Got::Val(None) => r matches Ok(None),
                Got::Fail(m) => r matches Err(e) && mapping_error(e, col@, m),
            },
    {
        match self.cell(col) {
            Ok(CellValue::Null) => Ok(None),
            Ok(c) => match Self::time_from(col, c) {
                Ok(v) => Ok(Some(v)),
                Err(e) => Err(e),
            },
            Err(e) => Err(e),
        }
    }

    fn datetime_from(col: &str, c: &CellValue) -> (r: Result<SqlDateTime, SqlError>)
        ensures
            agrees_datetime(r, col@, datetime_of(c@)),
    {
        match c {
            CellValue::DateTime(v) => Ok(*v),
            CellValue::Text(s) => {
                let t = string_of_chars(&trimmed(s));
                match SqlDateTime::parse_utc(t.as_str()) {
                    Ok(v) => Ok(v),
                    Err(_) => match SqlDateTime::parse_naive(t.as_str(), "%Y-%m-%d %H:%M:%S%.f") {
                        Ok(v) => Ok(v),
                        Err(_) => match SqlDateTime::parse_naive(t.as_str(), "%Y-%m-%d %H:%M:%S") {
                            Ok(v) => Ok(v),
                            Err(e) => Err(fail(col, e)),
                        },
                    },
                }
            },
            CellValue::Null => Err(null_err(col)),
            other => Err(unexpected_err(col, "DateTime<Utc>", other)),
        }
    }

    pub fn get_datetime(&self, col: &str) -> (r: Result<SqlDateTime, SqlError>)
        requires
            readable(self@, col@),
        ensures
            agrees_datetime(r, col@, via_cell(self@, col@, |c: CellView| datetime_of(c))),
    {
        match self.cell(col) {
            Ok(c) => Self::datetime_from(col, c),
            Err(e) => Err(e),
        }
    }

    pub fn get_datetime_opt(&self, col: &str) -> (r: Result<Option<SqlDateTime>, SqlError>)
        requires
            readable(self@, col@),
        ensures
            match via_cell_opt(self@, col@, |c: CellView| datetime_of(c)) {
                Got::Val(Some(p)) => r matches Ok(Some(v)) && v.parts() == p,
                Got::Val(None) => r matches Ok(None),
                Got::Fail(m) => r matches Err(e) && mapping_error(e, col@, m),
            },
    {
        match self.cell(col) {
            Ok(CellValue::Null) => Ok(None),
            Ok(c) => match Self::datetime_from(col, c) {
                Ok(v) => Ok(Some(v)),
                Err(e) => Err(e),
            },
            Err(e) => Err(e),
        }
    }

    fn datetime_offset_from(col: &str, c: &CellValue) -> (r: Result<SqlDateTimeOffset, SqlError>)
        ensures
            agrees_datetime_offset(r, col@, datetime_offset_of(c@)),
    {
        match c {
            CellValue::DateTimeOffset(v) => Ok(*v),
            CellValue::Text(s) => {
                let t = string_of_chars(&trimmed(s));
                match SqlDateTimeOffset::parse(t.as_str(), "%Y-%m-%d %H:%M:%S%.f %:z") {
                    Ok(v) => Ok(v),
                    Err(_) => match SqlDateTimeOffset::parse_rfc3339(t.as_str()) {
                        Ok(v) => Ok(v),
                        Err(_) => match SqlDateTimeOffset::parse(t.as_str(), "%Y-%m-%d %H:%M:%S %:z") {
                            Ok(v) => Ok(v),
                            Err(e) => Err(fail(col, e)),
                        },
                    },
                }
            },
            CellValue::Null => Err(null_err(col)),
            other => Err(unexpected_err(col, "DateTimeOffset", other)),
        }
    }

    pub fn get_datetime_offset(&self, col: &str) -> (r: Result<SqlDateTimeOffset, SqlError>)
        requires
            readable(self@, col@),
        ensures
            agrees_datetime_offset(r, col@, via_cell(self@, col@, |c: CellView| datetime_offset_of(c))),
    {
        match self.cell(col) {
            Ok(c) => Self::datetime_offset_from(col, c),
            Err(e) => Err(e),
        }
    }

    pub fn get_datetime_offset_opt(&self, col: &str) -> (r: Result<Option<SqlDateTimeOffset>, SqlError>)
        requires
            readable(self@, col@),
        ensures
            match via_cell_opt(self@, col@, |c: CellView| datetime_offset_of(c)) {
                Got::Val(Some(p)) => r matches Ok(Some(v)) && v.parts() == p,
                Got::Val(None) => r matches Ok(None),
                Got::Fail(m) => r matches Err(e) && mapping_error(e, col@, m),
            },
    {
        match self.cell(col) {
            Ok(CellValue::Null) => Ok(None),
            Ok(c) => match Self::datetime_offset_from(col, c) {
                Ok(v) => Ok(Some(v)),
                Err(e) => Err(e),
            },
            Err(e) => Err(e),
        }
    }
}

/// A string of at least two characters encodes to at least two bytes.
proof fn lemma_encode_len_two(t: Seq<char>)
    requires
        t.len() >= 2,
    ensures
        vstd::utf8::encode_utf8(t).len() >= 2,
{
    let a = vstd::utf8::encode_scalar(t[0] as u32);
    let b = vstd::utf8::encode_scalar(t.drop_first()[0] as u32);
    assert(a.len() >= 1);
    assert(b.len() >= 1);
    assert(vstd::utf8::encode_utf8(t) == a + vstd::utf8::encode_utf8(t.drop_first()));
    assert(vstd::utf8::encode_utf8(t.drop_first()) == b + vstd::utf8::encode_utf8(t.drop_first().drop_first()));
}

/// A successful parse stays within the target range.
proof fn lemma_parse_int_range(s: Seq<char>, lo: int, hi: int)
    requires
        lo <= 0 <= hi,
    ensures
        parse_int(s, lo, hi) matches Ok(v) ==> lo <= v <= hi,
{
    if s.len() > 0 {
        if s[0] == '+' || (s[0] == '-' && lo < 0) {
            lemma_accumulate_range(s.drop_first(), 0, s[0] == '-', lo, hi);
        } else {
            lemma_accumulate_range(s, 0, false, lo, hi);
        }
    }
}

proof fn lemma_accumulate_range(ds: Seq<char>, acc: int, neg: bool, lo: int, hi: int)
    requires
        lo <= acc <= hi,
    ensures
        crate::textparse::accumulate(ds, acc, neg, lo, hi) matches Ok(v) ==> lo <= v <= hi,
    decreases ds.len(),
{
    if ds.len() > 0 && crate::textparse::is_digit(ds[0]) {
        let d = crate::textparse::digit_val(ds[0]);
        let next = if neg { acc * 10 - d } else { acc * 10 + d };
        if lo <= next <= hi {
            lemma_accumulate_range(ds.drop_first(), next, neg, lo, hi);
        }
    }
}

/// The first cell's text of the first row, if it reads as text.
pub fn first_string(rows: &Vec<OdbcRow>) -> (r: Option<String>)
    ensures
        match first_text(rows_view(rows@)) {
            Some(t) => r matches Some(s) && s@ == t,
            None => r is None,
        },
{
    if rows.len() == 0 {
        return None;
    }
    match rows[0].get_first_string() {
        Ok(s) => Some(s),
        Err(_) => None,
    }
}

/// The characters of `s` with surrounding whitespace removed.
pub fn trimmed_chars(s: &str) -> (r: Vec<char>)
    ensures
        r@ == trim(s@),
{
    trim_chars(&chars_of(s))
}

} // verus!
