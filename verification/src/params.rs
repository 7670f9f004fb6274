//! Query parameters: typed values, named parameters and primary-key values.
use vstd::prelude::*;
use crate::temporal::{SqlDate, SqlDateTime, SqlDateTimeOffset, SqlTime};
use crate::text::{int_text, push_i128, to_owned_string};
use crate::values::{guid_text, guid_to_string, SqlDecimal};

verus! {

/// All MSSQL-supported parameter types.
///
/// | SQL Server type                        | variant        |
/// |----------------------------------------|----------------|
/// | bit                                    | Bool           |
/// | tinyint                                | U8             |
/// | smallint                               | I16            |
/// | int                                    | I32            |
/// | bigint                                 | I64            |
/// | real                                   | F32 (IEEE-754 bits)  |
/// | float                                  | F64 (IEEE-754 bits)  |
/// | decimal / numeric / money / smallmoney | Decimal        |
/// | char / varchar / nchar / nvarchar      | Str            |
/// | text / ntext / xml                     | Str            |
/// | binary / varbinary / image / timestamp | Bytes          |
/// | date                                   | NaiveDate      |
/// | time                                   | NaiveTime      |
/// | datetime / datetime2 / smalldatetime   | DateTime (UTC) |
/// | datetimeoffset                         | DateTimeOffset |
/// | uniqueidentifier                       | Guid           |
/// | NULL                                   | Null           |
#[derive(Debug)]
pub enum ParamValue {
    Bool(bool),
    U8(u8),
    I16(i16),
    I32(i32),
    I64(i64),
    /// The bit pattern of an `f32`.
    F32(u32),
    /// The bit pattern of an `f64`.
    F64(u64),
    Decimal(SqlDecimal),
    Str(String),
    Bytes(Vec<u8>),
    NaiveDate(SqlDate),
    NaiveTime(SqlTime),
    DateTime(SqlDateTime),
    DateTimeOffset(SqlDateTimeOffset),
    Guid(u128),
    Null,
}

/// Abstract content of a [`ParamValue`].
pub enum ParamView {
    Bool(bool),
    U8(u8),
    I16(i16),
    I32(i32),
    I64(i64),
    F32(u32),
    F64(u64),
    Decimal(SqlDecimal),
    Str(Seq<char>),
    Bytes(Seq<u8>),
    NaiveDate(SqlDate),
    NaiveTime(SqlTime),
    DateTime(SqlDateTime),
    DateTimeOffset(SqlDateTimeOffset),
    Guid(u128),
    Null,
}

impl View for ParamValue {
    type V = ParamView;

    open spec fn view(&self) -> ParamView {
        match *self {
            ParamValue::Bool(v) => ParamView::Bool(v),
            ParamValue::U8(v) => ParamView::U8(v),
            ParamValue::I16(v) => ParamView::I16(v),
            ParamValue::I32(v) => ParamView::I32(v),
            ParamValue::I64(v) => ParamView::I64(v),
            ParamValue::F32(v) => ParamView::F32(v),
            ParamValue::F64(v) => ParamView::F64(v),
            ParamValue::Decimal(v) => ParamView::Decimal(v),
            ParamValue::Str(v) => ParamView::Str(v@),
            ParamValue::Bytes(v) => ParamView::Bytes(v@),
            ParamValue::NaiveDate(v) => ParamView::NaiveDate(v),
            ParamValue::NaiveTime(v) => ParamView::NaiveTime(v),
            ParamValue::DateTime(v) => ParamView::DateTime(v),
            ParamValue::DateTimeOffset(v) => ParamView::DateTimeOffset(v),
            ParamValue::Guid(v) => ParamView::Guid(v),
            ParamValue::Null => ParamView::Null,
        }
    }
}

fn copy_bytes(v: &Vec<u8>) -> (r: Vec<u8>)
    ensures
        r@ == v@,
{
    let mut r: Vec<u8> = Vec::new();
    let mut i: usize = 0;
    while i < v.len()
        invariant
            i <= v@.len(),
            r@ == v@.take(i as int),
        decreases v@.len() - i,
    {
        r.push(v[i]);
        i = i + 1;
        assert(r@ =~= v@.take(i as int));
    }
    assert(v@.take(v@.len() as int) =~= v@);
    r
}

impl ParamValue {
    /// A copy of this value.
    pub fn duplicate(&self) -> (r: ParamValue)
        ensures
            r@ == self@,
    {
        match self {
            ParamValue::Bool(v) => ParamValue::Bool(*v),
            ParamValue::U8(v) => ParamValue::U8(*v),
            ParamValue::I16(v) => ParamValue::I16(*v),
            ParamValue::I32(v) => ParamValue::I32(*v),
            ParamValue::I64(v) => ParamValue::I64(*v),
            ParamValue::F32(v) => ParamValue::F32(*v),
            ParamValue::F64(v) => ParamValue::F64(*v),
            ParamValue::Decimal(v) => ParamValue::Decimal(*v),
            ParamValue::Str(v) => ParamValue::Str(v.clone()),
            ParamValue::Bytes(v) => ParamValue::Bytes(copy_bytes(v)),
            ParamValue::NaiveDate(v) => ParamValue::NaiveDate(*v),
            ParamValue::NaiveTime(v) => ParamValue::NaiveTime(*v),
            ParamValue::DateTime(v) => ParamValue::DateTime(*v),
            ParamValue::DateTimeOffset(v) => ParamValue::DateTimeOffset(*v),
            ParamValue::Guid(v) => ParamValue::Guid(*v),
            ParamValue::Null => ParamValue::Null,
        }
    }

    /// A string parameter holding a copy of `v`.
    pub fn text(v: &str) -> (r: ParamValue)
        ensures
            r@ == ParamView::Str(v@),
    {
        ParamValue::Str(to_owned_string(v))
    }

    /// `tinyint`-range values and `i8` widen to `smallint`.
    pub fn from_i8(v: i8) -> (r: ParamValue)
        ensures
            r@ == ParamView::I16(v as i16),
    {
        ParamValue::I16(v as i16)
    }

    /// `Some(v)` is `v`; `None` is SQL `NULL`.
    pub fn from_option(v: Option<ParamValue>) -> (r: ParamValue)
        ensures
            match v {
                Some(x) => r@ == x@,
                None => r@ == ParamView::Null,
            },
    {
        match v {
            Some(x) => x,
            None => ParamValue::Null,
        }
    }
}

impl Clone for ParamValue {
    fn clone(&self) -> (r: ParamValue) {
        self.duplicate()
    }
}

/// A single named parameter value for a query.
#[derive(Debug)]
pub struct OdbcParam {
    /// Parameter name, without the leading `@`.
    pub name: String,
    pub value: ParamValue,
}

impl OdbcParam {
    /// A parameter with a compile-time constant name.
    pub fn new(name: &'static str, value: ParamValue) -> (p: OdbcParam)
        ensures
            p.name@ == name@,
            p.value == value,
    {
        OdbcParam { name: to_owned_string(name), value }
    }

    /// A parameter whose name is built at run time.
    pub fn new_dynamic(name: String, value: ParamValue) -> (p: OdbcParam)
        ensures
            p.name == name,
            p.value == value,
    {
        OdbcParam { name, value }
    }

    /// A copy of this parameter.
    pub fn duplicate(&self) -> (p: OdbcParam)
        ensures
            p.name@ == self.name@,
            p.value@ == self.value@,
    {
        OdbcParam { name: self.name.clone(), value: self.value.duplicate() }
    }
}

impl Clone for OdbcParam {
    fn clone(&self) -> (r: OdbcParam) {
        self.duplicate()
    }
}

/// Primary-key value — used for get_by_id / delete / exists.
#[derive(Debug, PartialEq, Eq)]
pub enum PkValue {
    I32(i32),
    I64(i64),
    Str(String),
    Guid(u128),
}

/// The text a key is shown as (its `Display` form), which also keys cache entries.
pub open spec fn pk_text(pk: PkValue) -> Seq<char> {
    match pk {
        PkValue::I32(v) => int_text(v as int),
        PkValue::I64(v) => int_text(v as int),
        PkValue::Str(v) => v@,
        PkValue::Guid(v) => guid_text(v as int),
    }
}

/// The parameter value a key is bound as.
pub open spec fn pk_param(pk: PkValue) -> ParamView {
    match pk {
        PkValue::I32(v) => ParamView::I32(v),
        PkValue::I64(v) => ParamView::I64(v),
        PkValue::Str(v) => ParamView::Str(v@),
        PkValue::Guid(v) => ParamView::Guid(v),
    }
}

impl PkValue {
    /// The key as a query parameter value.
    pub fn as_param(&self) -> (p: ParamValue)
        ensures
            p@ == pk_param(*self),
    {
        match self {
            PkValue::I32(v) => ParamValue::I32(*v),
            PkValue::I64(v) => ParamValue::I64(*v),
            PkValue::Str(v) => ParamValue::Str(v.clone()),
            PkValue::Guid(v) => ParamValue::Guid(*v),
        }
    }

    /// The key's text (what `Display` shows).
    pub fn to_display_string(&self) -> (s: String)
        ensures
            s@ == pk_text(*self),
    {
        match self {
            PkValue::I32(v) => {
                let mut s = String::new();
                push_i128(&mut s, *v as i128);
                s
            },
            PkValue::I64(v) => {
                let mut s = String::new();
                push_i128(&mut s, *v as i128);
                s
            },
            PkValue::Str(v) => v.clone(),
            PkValue::Guid(v) => guid_to_string(*v),
        }
    }

    /// A copy of this key.
    pub fn duplicate(&self) -> (r: PkValue)
        ensures
            r == *self,
    {
        match self {
            PkValue::I32(v) => PkValue::I32(*v),
            PkValue::I64(v) => PkValue::I64(*v),
            PkValue::Str(v) => PkValue::Str(v.clone()),
            PkValue::Guid(v) => PkValue::Guid(*v),
        }
    }

    /// A string key holding a copy of `v`.
    pub fn text(v: &str) -> (r: PkValue)
        ensures
            r matches PkValue::Str(s) && s@ == v@,
    {
        PkValue::Str(to_owned_string(v))
    }
}

impl Clone for PkValue {
    fn clone(&self) -> (r: PkValue) {
        self.duplicate()
    }
}

// Conversions into parameter values.

impl From<bool> for ParamValue {
    fn from(v: bool) -> (r: ParamValue) {
        ParamValue::Bool(v)
    }
}

impl vstd::std_specs::convert::FromSpecImpl<bool> for ParamValue {
    open spec fn obeys_from_spec() -> bool {
        true
    }

    open spec fn from_spec(v: bool) -> ParamValue {
        ParamValue::Bool(v)
    }
}

impl From<u8> for ParamValue {
    fn from(v: u8) -> (r: ParamValue) {
        ParamValue::U8(v)
    }
}

impl vstd::std_specs::convert::FromSpecImpl<u8> for ParamValue {
    open spec fn obeys_from_spec() -> bool {
        true
    }

    open spec fn from_spec(v: u8) -> ParamValue {
        ParamValue::U8(v)
    }
}

impl From<i8> for ParamValue {
    fn from(v: i8) -> (r: ParamValue) {
        ParamValue::I16(v as i16)
    }
}

impl vstd::std_specs::convert::FromSpecImpl<i8> for ParamValue {
    open spec fn obeys_from_spec() -> bool {
        true
    }

    open spec fn from_spec(v: i8) -> ParamValue {
        ParamValue::I16(v as i16)
    }
}

impl From<i16> for ParamValue {
    fn from(v: i16) -> (r: ParamValue) {
        ParamValue::I16(v)
    }
}

impl vstd::std_specs::convert::FromSpecImpl<i16> for ParamValue {
    open spec fn obeys_from_spec() -> bool {
        true
    }

    open spec fn from_spec(v: i16) -> ParamValue {
        ParamValue::I16(v)
    }
}

impl From<i32> for ParamValue {
    fn from(v: i32) -> (r: ParamValue) {
        ParamValue::I32(v)
    }
}

impl vstd::std_specs::convert::FromSpecImpl<i32> for ParamValue {
    open spec fn obeys_from_spec() -> bool {
        true
    }

    open spec fn from_spec(v: i32) -> ParamValue {
        ParamValue::I32(v)
    }
}

impl From<i64> for ParamValue {
    fn from(v: i64) -> (r: ParamValue) {
        ParamValue::I64(v)
    }
}

impl vstd::std_specs::convert::FromSpecImpl<i64> for ParamValue {
    open spec fn obeys_from_spec() -> bool {
        true
    }

    open spec fn from_spec(v: i64) -> ParamValue {
        ParamValue::I64(v)
    }
}

impl From<SqlDecimal> for ParamValue {
    fn from(v: SqlDecimal) -> (r: ParamValue) {
        ParamValue::Decimal(v)
    }
}

impl vstd::std_specs::convert::FromSpecImpl<SqlDecimal> for ParamValue {
    open spec fn obeys_from_spec() -> bool {
        true
    }

    open spec fn from_spec(v: SqlDecimal) -> ParamValue {
        ParamValue::Decimal(v)
    }
}

impl From<String> for ParamValue {
    fn from(v: String) -> (r: ParamValue) {
        ParamValue::Str(v)
    }
}

impl vstd::std_specs::convert::FromSpecImpl<String> for ParamValue {
    open spec fn obeys_from_spec() -> bool {
        true
    }

    open spec fn from_spec(v: String) -> ParamValue {
        ParamValue::Str(v)
    }
}

impl From<Vec<u8>> for ParamValue {
    fn from(v: Vec<u8>) -> (r: ParamValue) {
        ParamValue::Bytes(v)
    }
}

impl vstd::std_specs::convert::FromSpecImpl<Vec<u8>> for ParamValue {
    open spec fn obeys_from_spec() -> bool {
        true
    }

    open spec fn from_spec(v: Vec<u8>) -> ParamValue {
        ParamValue::Bytes(v)
    }
}

impl From<SqlDate> for ParamValue {
    fn from(v: SqlDate) -> (r: ParamValue) {
        ParamValue::NaiveDate(v)
    }
}

impl vstd::std_specs::convert::FromSpecImpl<SqlDate> for ParamValue {
    open spec fn obeys_from_spec() -> bool {
        true
    }

    open spec fn from_spec(v: SqlDate) -> ParamValue {
        ParamValue::NaiveDate(v)
    }
}

impl From<SqlTime> for ParamValue {
    fn from(v: SqlTime) -> (r: ParamValue) {
        ParamValue::NaiveTime(v)
    }
}

impl vstd::std_specs::convert::FromSpecImpl<SqlTime> for ParamValue {
    open spec fn obeys_from_spec() -> bool {
        true
    }

    open spec fn from_spec(v: SqlTime) -> ParamValue {
        ParamValue::NaiveTime(v)
    }
}

impl From<SqlDateTime> for ParamValue {
    fn from(v: SqlDateTime) -> (r: ParamValue) {
        ParamValue::DateTime(v)
    }
}

impl vstd::std_specs::convert::FromSpecImpl<SqlDateTime> for ParamValue {
    open spec fn obeys_from_spec() -> bool {
        true
    }

    open spec fn from_spec(v: SqlDateTime) -> ParamValue {
        ParamValue::DateTime(v)
    }
}

impl From<SqlDateTimeOffset> for ParamValue {
    fn from(v: SqlDateTimeOffset) -> (r: ParamValue) {
        ParamValue::DateTimeOffset(v)
    }
}

impl vstd::std_specs::convert::FromSpecImpl<SqlDateTimeOffset> for ParamValue {
    open spec fn obeys_from_spec() -> bool {
        true
    }

    open spec fn from_spec(v: SqlDateTimeOffset) -> ParamValue {
        ParamValue::DateTimeOffset(v)
    }
}

impl From<u128> for ParamValue {
    fn from(v: u128) -> (r: ParamValue) {
        ParamValue::Guid(v)
    }
}

impl vstd::std_specs::convert::FromSpecImpl<u128> for ParamValue {
    open spec fn obeys_from_spec() -> bool {
        true
    }

    open spec fn from_spec(v: u128) -> ParamValue {
        ParamValue::Guid(v)
    }
}

impl From<i32> for PkValue {
    fn from(v: i32) -> (r: PkValue) {
        PkValue::I32(v)
    }
}

impl vstd::std_specs::convert::FromSpecImpl<i32> for PkValue {
    open spec fn obeys_from_spec() -> bool {
        true
    }

    open spec fn from_spec(v: i32) -> PkValue {
        PkValue::I32(v)
    }
}

impl From<i64> for PkValue {
    fn from(v: i64) -> (r: PkValue) {
        PkValue::I64(v)
    }
}

impl vstd::std_specs::convert::FromSpecImpl<i64> for PkValue {
    open spec fn obeys_from_spec() -> bool {
        true
    }

    open spec fn from_spec(v: i64) -> PkValue {
        PkValue::I64(v)
    }
}

impl From<String> for PkValue {
    fn from(v: String) -> (r: PkValue) {
        PkValue::Str(v)
    }
}

impl vstd::std_specs::convert::FromSpecImpl<String> for PkValue {
    open spec fn obeys_from_spec() -> bool {
        true
    }

    open spec fn from_spec(v: String) -> PkValue {
        PkValue::Str(v)
    }
}

impl From<u128> for PkValue {
    fn from(v: u128) -> (r: PkValue) {
        PkValue::Guid(v)
    }
}

impl vstd::std_specs::convert::FromSpecImpl<u128> for PkValue {
    open spec fn obeys_from_spec() -> bool {
        true
    }

    open spec fn from_spec(v: u128) -> PkValue {
        PkValue::Guid(v)
    }
}

} // verus!
