//! What `#[derive(SqlEntity)]` generates for each field: which row getter reads it in
//! `from_row`, which fields `to_params` binds, and which field is the key of `pk_value`.
use vstd::prelude::*;
use crate::entity::parse::{fields_view, first_pk, select_fields, FieldSet, FieldView, StructInfo};
use crate::entity::sql_gen::{generated_spec, struct_view, GeneratedSql};
use crate::row::string_of_chars;
use crate::text::{chars_of, str_eq, to_owned_string};

verus! {

/// The `OdbcRow` getter a field type is read with.
#[derive(Debug, Clone, Copy, PartialEq, Eq, Structural)]
pub enum Getter {
    Bool,
    U8,
    /// Read as `i16`, then narrowed to `i8`.
    I8,
    I16,
    I32,
    I64,
    F32,
    F64,
    Decimal,
    Text,
    Bytes,
    Date,
    Time,
    DateTime,
    DateTimeOffset,
    Uuid,
    /// Any other type: read as text and parsed with `FromStr`.
    Parsed,
}

/// How `from_row` fills one field.
#[derive(Debug, Clone, Copy, PartialEq, Eq, Structural)]
pub enum FieldRead {
    /// `#[sql_ignore]`: `Default::default()`, the row is not read.
    Default,
    /// `#[sql_mask]`: the column is read as a string, and `"***"` is stored instead.
    Masked,
    /// The getter, in its `_opt` form for `Option<…>` fields.
    Get { getter: Getter, optional: bool },
}

/// The type text with every space removed (`Option < i32 >` becomes `Option<i32>`).
pub open spec fn without_spaces(t: Seq<char>) -> Seq<char>
    decreases t.len(),
{
    if t.len() == 0 {
        t
    } else if t.last() == ' ' {
        without_spaces(t.drop_last())
    } else {
        without_spaces(t.drop_last()).push(t.last())
    }
}

/// The getter a (space-free) non-optional type name maps to.
pub open spec fn getter_for(t: Seq<char>) -> Getter {
    if t == "bool"@ {
        Getter::Bool
    } else if t == "u8"@ {
        Getter::U8
    } else if t == "i8"@ {
        Getter::I8
    } else if t == "i16"@ {
        Getter::I16
    } else if t == "i32"@ {
        Getter::I32
    } else if t == "i64"@ {
        Getter::I64
    } else if t == "f32"@ {
        Getter::F32
    } else if t == "f64"@ {
        Getter::F64
    } else if t == "Decimal"@ || t == "rust_decimal::Decimal"@ || t == "rust_decimal::decimal::Decimal"@ {
        Getter::Decimal
    } else if t == "String"@ {
        Getter::Text
    } else if t == "Vec<u8>"@ {
        Getter::Bytes
    } else if t == "NaiveDate"@ || t == "chrono::NaiveDate"@ {
        Getter::Date
    } else if t == "NaiveTime"@ || t == "chrono::NaiveTime"@ {
        Getter::Time
    } else if t == "DateTime<Utc>"@ || t == "chrono::DateTime<Utc>"@ || t == "chrono::DateTime<chrono::Utc>"@ {
        Getter::DateTime
    } else if t == "DateTime<FixedOffset>"@ || t == "chrono::DateTime<FixedOffset>"@
        || t == "chrono::DateTime<chrono::FixedOffset>"@ {
        Getter::DateTimeOffset
    } else if t == "Uuid"@ || t == "uuid::Uuid"@ {
        Getter::Uuid
    } else {
        Getter::Parsed
    }
}

/// `t` starts with `p`.
pub open spec fn starts_with(t: Seq<char>, p: Seq<char>) -> bool {
    p.len() <= t.len() && t.take(p.len() as int) == p
}

/// `trim_start_matches(p)`: every leading occurrence of `p` removed.
pub open spec fn strip_all_prefix(t: Seq<char>, p: Seq<char>) -> Seq<char>
    decreases t.len(),
{
    if p.len() > 0 && starts_with(t, p) { strip_all_prefix(t.skip(p.len() as int), p) } else { t }
}

/// `trim_end_matches('>')`: every trailing `>` removed.
pub open spec fn strip_all_gt(t: Seq<char>) -> Seq<char>
    decreases t.len(),
{
    if t.len() > 0 && t.last() == '>' { strip_all_gt(t.drop_last()) } else { t }
}

/// How a field of type text `ty` is read: `Option<T>` with the optional getter of `T`,
/// any other type with its required getter.
pub open spec fn read_for_type(ty: Seq<char>) -> FieldRead {
    let t = without_spaces(ty);
    if starts_with(t, "Option<"@) {
        FieldRead::Get { getter: getter_for(strip_all_gt(strip_all_prefix(t, "Option<"@))), optional: true }
    } else {
        FieldRead::Get { getter: getter_for(t), optional: false }
    }
}

/// The type mapping of the derive: each built-in field type, as written, and the typed
/// getter its column is read with (bit, tinyint, smallint, int, bigint, real, float,
/// decimal, character, binary, date, time, datetime, datetimeoffset, uniqueidentifier).
pub open spec fn builtin_types() -> Seq<(Seq<char>, Getter)> {
    seq![
        ("bool"@, Getter::Bool),
        ("u8"@, Getter::U8),
        ("i8"@, Getter::I8),
        ("i16"@, Getter::I16),
        ("i32"@, Getter::I32),
        ("i64"@, Getter::I64),
        ("f32"@, Getter::F32),
        ("f64"@, Getter::F64),
        ("Decimal"@, Getter::Decimal),
        ("rust_decimal::Decimal"@, Getter::Decimal),
        ("rust_decimal::decimal::Decimal"@, Getter::Decimal),
        ("String"@, Getter::Text),
        ("Vec<u8>"@, Getter::Bytes),
        ("NaiveDate"@, Getter::Date),
        ("chrono::NaiveDate"@, Getter::Date),
        ("NaiveTime"@, Getter::Time),
        ("chrono::NaiveTime"@, Getter::Time),
        ("DateTime<Utc>"@, Getter::DateTime),
        ("chrono::DateTime<Utc>"@, Getter::DateTime),
        ("chrono::DateTime<chrono::Utc>"@, Getter::DateTime),
        ("DateTime<FixedOffset>"@, Getter::DateTimeOffset),
        ("chrono::DateTime<FixedOffset>"@, Getter::DateTimeOffset),
        ("chrono::DateTime<chrono::FixedOffset>"@, Getter::DateTimeOffset),
        ("Uuid"@, Getter::Uuid),
        ("uuid::Uuid"@, Getter::Uuid)
    ]
}

proof fn lemma_without_spaces_id(t: Seq<char>)
    requires
        forall|k: int| 0 <= k < t.len() ==> t[k] != ' ',
    ensures
        without_spaces(t) == t,
    decreases t.len(),
{
    if t.len() > 0 {
        lemma_without_spaces_id(t.drop_last());
        assert(t.drop_last().push(t.last()) =~= t);
    }
}

proof fn lemma_table_getter(i: int)
    requires
        0 <= i < builtin_types().len(),
    ensures
        getter_for(builtin_types()[i].0) == builtin_types()[i].1,
{
    reveal_strlit("bool");
    reveal_strlit("u8");
    reveal_strlit("i8");
    reveal_strlit("i16");
    reveal_strlit("i32");
    reveal_strlit("i64");
    reveal_strlit("f32");
    reveal_strlit("f64");
    reveal_strlit("Decimal");
    reveal_strlit("rust_decimal::Decimal");
    reveal_strlit("rust_decimal::decimal::Decimal");
    reveal_strlit("String");
    reveal_strlit("Vec<u8>");
    reveal_strlit("NaiveDate");
    reveal_strlit("chrono::NaiveDate");
    reveal_strlit("NaiveTime");
    reveal_strlit("chrono::NaiveTime");
    reveal_strlit("DateTime<Utc>");
    reveal_strlit("chrono::DateTime<Utc>");
    reveal_strlit("chrono::DateTime<chrono::Utc>");
    reveal_strlit("DateTime<FixedOffset>");
    reveal_strlit("chrono::DateTime<FixedOffset>");
    reveal_strlit("chrono::DateTime<chrono::FixedOffset>");
    reveal_strlit("Uuid");
    reveal_strlit("uuid::Uuid");
    if i == 0 {
        
        assert(getter_for("bool"@) == Getter::Bool);
    } else if i == 1 {
        assert("u8"@.len() != "bool"@.len());
        assert(getter_for("u8"@) == Getter::U8);
    } else if i == 2 {
        assert("i8"@.len() != "bool"@.len());
        assert("i8"@[0] != "u8"@[0]);
        assert(getter_for("i8"@) == Getter::I8);
    } else if i == 3 {
        assert("i16"@.len() != "bool"@.len());
        assert("i16"@.len() != "u8"@.len());
        assert("i16"@.len() != "i8"@.len());
        assert(getter_for("i16"@) == Getter::I16);
    } else if i == 4 {
        assert("i32"@.len() != "bool"@.len());
        assert("i32"@.len() != "u8"@.len());
        assert("i32"@.len() != "i8"@.len());
        assert("i32"@[1] != "i16"@[1]);
        assert(getter_for("i32"@) == Getter::I32);
    } else if i == 5 {
        assert("i64"@.len() != "bool"@.len());
        assert("i64"@.len() != "u8"@.len());
        assert("i64"@.len() != "i8"@.len());
        assert("i64"@[1] != "i16"@[1]);
        assert("i64"@[1] != "i32"@[1]);
        assert(getter_for("i64"@) == Getter::I64);
    } else if i == 6 {
        assert("f32"@.len() != "bool"@.len());
        assert("f32"@.len() != "u8"@.len());
        assert("f32"@.len() != "i8"@.len());
        assert("f32"@[0] != "i16"@[0]);
        assert("f32"@[0] != "i32"@[0]);
        assert("f32"@[0] != "i64"@[0]);
        assert(getter_for("f32"@) == Getter::F32);
    } else if i == 7 {
        assert("f64"@.len() != "bool"@.len());
        assert("f64"@.len() != "u8"@.len());
        assert("f64"@.len() != "i8"@.len());
        assert("f64"@[0] != "i16"@[0]);
        assert("f64"@[0] != "i32"@[0]);
        assert("f64"@[0] != "i64"@[0]);
        assert("f64"@[1] != "f32"@[1]);
        assert(getter_for("f64"@) == Getter::F64);
    } else if i == 8 {
        assert("Decimal"@.len() != "bool"@.len());
        assert("Decimal"@.len() != "u8"@.len());
        assert("Decimal"@.len() != "i8"@.len());
        assert("Decimal"@.len() != "i16"@.len());
        assert("Decimal"@.len() != "i32"@.len());
        assert("Decimal"@.len() != "i64"@.len());
        assert("Decimal"@.len() != "f32"@.len());
        assert("Decimal"@.len() != "f64"@.len());
        assert(getter_for("Decimal"@) == Getter::Decimal);
    } else if i == 9 {
        assert("rust_decimal::Decimal"@.len() != "bool"@.len());
        assert("rust_decimal::Decimal"@.len() != "u8"@.len());
        assert("rust_decimal::Decimal"@.len() != "i8"@.len());
        assert("rust_decimal::Decimal"@.len() != "i16"@.len());
        assert("rust_decimal::Decimal"@.len() != "i32"@.len());
        assert("rust_decimal::Decimal"@.len() != "i64"@.len());
        assert("rust_decimal::Decimal"@.len() != "f32"@.len());
        assert("rust_decimal::Decimal"@.len() != "f64"@.len());
        assert("rust_decimal::Decimal"@.len() != "Decimal"@.len());
        assert(getter_for("rust_decimal::Decimal"@) == Getter::Decimal);
    } else if i == 10 {
        assert("rust_decimal::decimal::Decimal"@.len() != "bool"@.len());
        assert("rust_decimal::decimal::Decimal"@.len() != "u8"@.len());
        assert("rust_decimal::decimal::Decimal"@.len() != "i8"@.len());
        assert("rust_decimal::decimal::Decimal"@.len() != "i16"@.len());
        assert("rust_decimal::decimal::Decimal"@.len() != "i32"@.len());
        assert("rust_decimal::decimal::Decimal"@.len() != "i64"@.len());
        assert("rust_decimal::decimal::Decimal"@.len() != "f32"@.len());
        assert("rust_decimal::decimal::Decimal"@.len() != "f64"@.len());
        assert("rust_decimal::decimal::Decimal"@.len() != "Decimal"@.len());
        assert("rust_decimal::decimal::Decimal"@.len() != "rust_decimal::Decimal"@.len());
        assert(getter_for("rust_decimal::decimal::Decimal"@) == Getter::Decimal);
    } else if i == 11 {
        assert("String"@.len() != "bool"@.len());
        assert("String"@.len() != "u8"@.len());
        assert("String"@.len() != "i8"@.len());
        assert("String"@.len() != "i16"@.len());
        assert("String"@.len() != "i32"@.len());
        assert("String"@.len() != "i64"@.len());
        assert("String"@.len() != "f32"@.len());
        assert("String"@.len() != "f64"@.len());
        assert("String"@.len() != "Decimal"@.len());
        assert("String"@.len() != "rust_decimal::Decimal"@.len());
        assert("String"@.len() != "rust_decimal::decimal::Decimal"@.len());
        assert(getter_for("String"@) == Getter::Text);
    } else if i == 12 {
        assert("Vec<u8>"@.len() != "bool"@.len());
        assert("Vec<u8>"@.len() != "u8"@.len());
        assert("Vec<u8>"@.len() != "i8"@.len());
        assert("Vec<u8>"@.len() != "i16"@.len());
        assert("Vec<u8>"@.len() != "i32"@.len());
        assert("Vec<u8>"@.len() != "i64"@.len());
        assert("Vec<u8>"@.len() != "f32"@.len());
        assert("Vec<u8>"@.len() != "f64"@.len());
        assert("Vec<u8>"@[0] != "Decimal"@[0]);
        assert("Vec<u8>"@.len() != "rust_decimal::Decimal"@.len());
        assert("Vec<u8>"@.len() != "rust_decimal::decimal::Decimal"@.len());
        assert("Vec<u8>"@.len() != "String"@.len());
        assert(getter_for("Vec<u8>"@) == Getter::Bytes);
    } else if i == 13 {
        assert("NaiveDate"@.len() != "bool"@.len());
        assert("NaiveDate"@.len() != "u8"@.len());
        assert("NaiveDate"@.len() != "i8"@.len());
        assert("NaiveDate"@.len() != "i16"@.len());
        assert("NaiveDate"@.len() != "i32"@.len());
        assert("NaiveDate"@.len() != "i64"@.len());
        assert("NaiveDate"@.len() != "f32"@.len());
        assert("NaiveDate"@.len() != "f64"@.len());
        assert("NaiveDate"@.len() != "Decimal"@.len());
        assert("NaiveDate"@.len() != "rust_decimal::Decimal"@.len());
        assert("NaiveDate"@.len() != "rust_decimal::decimal::Decimal"@.len());
        assert("NaiveDate"@.len() != "String"@.len());
        assert("NaiveDate"@.len() != "Vec<u8>"@.len());
        assert(getter_for("NaiveDate"@) == Getter::Date);
    } else if i == 14 {
        assert("chrono::NaiveDate"@.len() != "bool"@.len());
        assert("chrono::NaiveDate"@.len() != "u8"@.len());
        assert("chrono::NaiveDate"@.len() != "i8"@.len());
        assert("chrono::NaiveDate"@.len() != "i16"@.len());
        assert("chrono::NaiveDate"@.len() != "i32"@.len());
        assert("chrono::NaiveDate"@.len() != "i64"@.len());
        assert("chrono::NaiveDate"@.len() != "f32"@.len());
        assert("chrono::NaiveDate"@.len() != "f64"@.len());
        assert("chrono::NaiveDate"@.len() != "Decimal"@.len());
        assert("chrono::NaiveDate"@.len() != "rust_decimal::Decimal"@.len());
        assert("chrono::NaiveDate"@.len() != "rust_decimal::decimal::Decimal"@.len());
        assert("chrono::NaiveDate"@.len() != "String"@.len());
        assert("chrono::NaiveDate"@.len() != "Vec<u8>"@.len());
        assert("chrono::NaiveDate"@.len() != "NaiveDate"@.len());
        assert(getter_for("chrono::NaiveDate"@) == Getter::Date);
    } else if i == 15 {
        assert("NaiveTime"@.len() != "bool"@.len());
        assert("NaiveTime"@.len() != "u8"@.len());
        assert("NaiveTime"@.len() != "i8"@.len());
        assert("NaiveTime"@.len() != "i16"@.len());
        assert("NaiveTime"@.len() != "i32"@.len());
        assert("NaiveTime"@.len() != "i64"@.len());
        assert("NaiveTime"@.len() != "f32"@.len());
        assert("NaiveTime"@.len() != "f64"@.len());
        assert("NaiveTime"@.len() != "Decimal"@.len());
        assert("NaiveTime"@.len() != "rust_decimal::Decimal"@.len());
        assert("NaiveTime"@.len() != "rust_decimal::decimal::Decimal"@.len());
        assert("NaiveTime"@.len() != "String"@.len());
        assert("NaiveTime"@.len() != "Vec<u8>"@.len());
        assert("NaiveTime"@[5] != "NaiveDate"@[5]);
        assert("NaiveTime"@.len() != "chrono::NaiveDate"@.len());
        assert(getter_for("NaiveTime"@) == Getter::Time);
    } else if i == 16 {
        assert("chrono::NaiveTime"@.len() != "bool"@.len());
        assert("chrono::NaiveTime"@.len() != "u8"@.len());
        assert("chrono::NaiveTime"@.len() != "i8"@.len());
        assert("chrono::NaiveTime"@.len() != "i16"@.len());
        assert("chrono::NaiveTime"@.len() != "i32"@.len());
        assert("chrono::NaiveTime"@.len() != "i64"@.len());
        assert("chrono::NaiveTime"@.len() != "f32"@.len());
        assert("chrono::NaiveTime"@.len() != "f64"@.len());
        assert("chrono::NaiveTime"@.len() != "Decimal"@.len());
        assert("chrono::NaiveTime"@.len() != "rust_decimal::Decimal"@.len());
        assert("chrono::NaiveTime"@.len() != "rust_decimal::decimal::Decimal"@.len());
        assert("chrono::NaiveTime"@.len() != "String"@.len());
        assert("chrono::NaiveTime"@.len() != "Vec<u8>"@.len());
        assert("chrono::NaiveTime"@.len() != "NaiveDate"@.len());
        assert("chrono::NaiveTime"@[13] != "chrono::NaiveDate"@[13]);
        assert("chrono::NaiveTime"@.len() != "NaiveTime"@.len());
        assert(getter_for("chrono::NaiveTime"@) == Getter::Time);
    } else if i == 17 {
        assert("DateTime<Utc>"@.len() != "bool"@.len());
        assert("DateTime<Utc>"@.len() != "u8"@.len());
        assert("DateTime<Utc>"@.len() != "i8"@.len());
        assert("DateTime<Utc>"@.len() != "i16"@.len());
        assert("DateTime<Utc>"@.len() != "i32"@.len());
        assert("DateTime<Utc>"@.len() != "i64"@.len());
        assert("DateTime<Utc>"@.len() != "f32"@.len());
        assert("DateTime<Utc>"@.len() != "f64"@.len());
        assert("DateTime<Utc>"@.len() != "Decimal"@.len());
        assert("DateTime<Utc>"@.len() != "rust_decimal::Decimal"@.len());
        assert("DateTime<Utc>"@.len() != "rust_decimal::decimal::Decimal"@.len());
        assert("DateTime<Utc>"@.len() != "String"@.len());
        assert("DateTime<Utc>"@.len() != "Vec<u8>"@.len());
        assert("DateTime<Utc>"@.len() != "NaiveDate"@.len());
        assert("DateTime<Utc>"@.len() != "chrono::NaiveDate"@.len());
        assert("DateTime<Utc>"@.len() != "NaiveTime"@.len());
        assert("DateTime<Utc>"@.len() != "chrono::NaiveTime"@.len());
        assert(getter_for("DateTime<Utc>"@) == Getter::DateTime);
    } else if i == 18 {
        assert("chrono::DateTime<Utc>"@.len() != "bool"@.len());
        assert("chrono::DateTime<Utc>"@.len() != "u8"@.len());
        assert("chrono::DateTime<Utc>"@.len() != "i8"@.len());
        assert("chrono::DateTime<Utc>"@.len() != "i16"@.len());
        assert("chrono::DateTime<Utc>"@.len() != "i32"@.len());
        assert("chrono::DateTime<Utc>"@.len() != "i64"@.len());
        assert("chrono::DateTime<Utc>"@.len() != "f32"@.len());
        assert("chrono::DateTime<Utc>"@.len() != "f64"@.len());
        assert("chrono::DateTime<Utc>"@.len() != "Decimal"@.len());
        assert("chrono::DateTime<Utc>"@[0] != "rust_decimal::Decimal"@[0]);
        assert("chrono::DateTime<Utc>"@.len() != "rust_decimal::decimal::Decimal"@.len());
        assert("chrono::DateTime<Utc>"@.len() != "String"@.len());
        assert("chrono::DateTime<Utc>"@.len() != "Vec<u8>"@.len());
        assert("chrono::DateTime<Utc>"@.len() != "NaiveDate"@.len());
        assert("chrono::DateTime<Utc>"@.len() != "chrono::NaiveDate"@.len());
        assert("chrono::DateTime<Utc>"@.len() != "NaiveTime"@.len());
        assert("chrono::DateTime<Utc>"@.len() != "chrono::NaiveTime"@.len());
        assert("chrono::DateTime<Utc>"@.len() != "DateTime<Utc>"@.len());
        assert(getter_for("chrono::DateTime<Utc>"@) == Getter::DateTime);
    } else if i == 19 {
        assert("chrono::DateTime<chrono::Utc>"@.len() != "bool"@.len());
        assert("chrono::DateTime<chrono::Utc>"@.len() != "u8"@.len());
        assert("chrono::DateTime<chrono::Utc>"@.len() != "i8"@.len());
        assert("chrono::DateTime<chrono::Utc>"@.len() != "i16"@.len());
        assert("chrono::DateTime<chrono::Utc>"@.len() != "i32"@.len());
        assert("chrono::DateTime<chrono::Utc>"@.len() != "i64"@.len());
        assert("chrono::DateTime<chrono::Utc>"@.len() != "f32"@.len());
        assert("chrono::DateTime<chrono::Utc>"@.len() != "f64"@.len());
        assert("chrono::DateTime<chrono::Utc>"@.len() != "Decimal"@.len());
        assert("chrono::DateTime<chrono::Utc>"@.len() != "rust_decimal::Decimal"@.len());
        assert("chrono::DateTime<chrono::Utc>"@.len() != "rust_decimal::decimal::Decimal"@.len());
        assert("chrono::DateTime<chrono::Utc>"@.len() != "String"@.len());
        assert("chrono::DateTime<chrono::Utc>"@.len() != "Vec<u8>"@.len());
        assert("chrono::DateTime<chrono::Utc>"@.len() != "NaiveDate"@.len());
        assert("chrono::DateTime<chrono::Utc>"@.len() != "chrono::NaiveDate"@.len());
        assert("chrono::DateTime<chrono::Utc>"@.len() != "NaiveTime"@.len());
        assert("chrono::DateTime<chrono::Utc>"@.len() != "chrono::NaiveTime"@.len());
        assert("chrono::DateTime<chrono::Utc>"@.len() != "DateTime<Utc>"@.len());
        assert("chrono::DateTime<chrono::Utc>"@.len() != "chrono::DateTime<Utc>"@.len());
        assert(getter_for("chrono::DateTime<chrono::Utc>"@) == Getter::DateTime);
    } else if i == 20 {
        assert("DateTime<FixedOffset>"@.len() != "bool"@.len());
        assert("DateTime<FixedOffset>"@.len() != "u8"@.len());
        assert("DateTime<FixedOffset>"@.len() != "i8"@.len());
        assert("DateTime<FixedOffset>"@.len() != "i16"@.len());
        assert("DateTime<FixedOffset>"@.len() != "i32"@.len());
        assert("DateTime<FixedOffset>"@.len() != "i64"@.len());
        assert("DateTime<FixedOffset>"@.len() != "f32"@.len());
        assert("DateTime<FixedOffset>"@.len() != "f64"@.len());
        assert("DateTime<FixedOffset>"@.len() != "Decimal"@.len());
        assert("DateTime<FixedOffset>"@[0] != "rust_decimal::Decimal"@[0]);
        assert("DateTime<FixedOffset>"@.len() != "rust_decimal::decimal::Decimal"@.len());
        assert("DateTime<FixedOffset>"@.len() != "String"@.len());
        assert("DateTime<FixedOffset>"@.len() != "Vec<u8>"@.len());
        assert("DateTime<FixedOffset>"@.len() != "NaiveDate"@.len());
        assert("DateTime<FixedOffset>"@.len() != "chrono::NaiveDate"@.len());
        assert("DateTime<FixedOffset>"@.len() != "NaiveTime"@.len());
        assert("DateTime<FixedOffset>"@.len() != "chrono::NaiveTime"@.len());
        assert("DateTime<FixedOffset>"@.len() != "DateTime<Utc>"@.len());
        assert("DateTime<FixedOffset>"@[0] != "chrono::DateTime<Utc>"@[0]);
        assert("DateTime<FixedOffset>"@.len() != "chrono::DateTime<chrono::Utc>"@.len());
        assert(getter_for("DateTime<FixedOffset>"@) == Getter::DateTimeOffset);
    } else if i == 21 {
        assert("chrono::DateTime<FixedOffset>"@.len() != "bool"@.len());
        assert("chrono::DateTime<FixedOffset>"@.len() != "u8"@.len());
        assert("chrono::DateTime<FixedOffset>"@.len() != "i8"@.len());
        assert("chrono::DateTime<FixedOffset>"@.len() != "i16"@.len());
        assert("chrono::DateTime<FixedOffset>"@.len() != "i32"@.len());
        assert("chrono::DateTime<FixedOffset>"@.len() != "i64"@.len());
        assert("chrono::DateTime<FixedOffset>"@.len() != "f32"@.len());
        assert("chrono::DateTime<FixedOffset>"@.len() != "f64"@.len());
        assert("chrono::DateTime<FixedOffset>"@.len() != "Decimal"@.len());
        assert("chrono::DateTime<FixedOffset>"@.len() != "rust_decimal::Decimal"@.len());
        assert("chrono::DateTime<FixedOffset>"@.len() != "rust_decimal::decimal::Decimal"@.len());
        assert("chrono::DateTime<FixedOffset>"@.len() != "String"@.len());
        assert("chrono::DateTime<FixedOffset>"@.len() != "Vec<u8>"@.len());
        assert("chrono::DateTime<FixedOffset>"@.len() != "NaiveDate"@.len());
        assert("chrono::DateTime<FixedOffset>"@.len() != "chrono::NaiveDate"@.len());
        assert("chrono::DateTime<FixedOffset>"@.len() != "NaiveTime"@.len());
        assert("chrono::DateTime<FixedOffset>"@.len() != "chrono::NaiveTime"@.len());
        assert("chrono::DateTime<FixedOffset>"@.len() != "DateTime<Utc>"@.len());
        assert("chrono::DateTime<FixedOffset>"@.len() != "chrono::DateTime<Utc>"@.len());
        assert("chrono::DateTime<FixedOffset>"@[17] != "chrono::DateTime<chrono::Utc>"@[17]);
        assert("chrono::DateTime<FixedOffset>"@.len() != "DateTime<FixedOffset>"@.len());
        assert(getter_for("chrono::DateTime<FixedOffset>"@) == Getter::DateTimeOffset);
    } else if i == 22 {
        assert("chrono::DateTime<chrono::FixedOffset>"@.len() != "bool"@.len());
        assert("chrono::DateTime<chrono::FixedOffset>"@.len() != "u8"@.len());
        assert("chrono::DateTime<chrono::FixedOffset>"@.len() != "i8"@.len());
        assert("chrono::DateTime<chrono::FixedOffset>"@.len() != "i16"@.len());
        assert("chrono::DateTime<chrono::FixedOffset>"@.len() != "i32"@.len());
        assert("chrono::DateTime<chrono::FixedOffset>"@.len() != "i64"@.len());
        assert("chrono::DateTime<chrono::FixedOffset>"@.len() != "f32"@.len());
        assert("chrono::DateTime<chrono::FixedOffset>"@.len() != "f64"@.len());
        assert("chrono::DateTime<chrono::FixedOffset>"@.len() != "Decimal"@.len());
        assert("chrono::DateTime<chrono::FixedOffset>"@.len() != "rust_decimal::Decimal"@.len());
        assert("chrono::DateTime<chrono::FixedOffset>"@.len() != "rust_decimal::decimal::Decimal"@.len());
        assert("chrono::DateTime<chrono::FixedOffset>"@.len() != "String"@.len());
        assert("chrono::DateTime<chrono::FixedOffset>"@.len() != "Vec<u8>"@.len());
        assert("chrono::DateTime<chrono::FixedOffset>"@.len() != "NaiveDate"@.len());
        assert("chrono::DateTime<chrono::FixedOffset>"@.len() != "chrono::NaiveDate"@.len());
        assert("chrono::DateTime<chrono::FixedOffset>"@.len() != "NaiveTime"@.len());
        assert("chrono::DateTime<chrono::FixedOffset>"@.len() != "chrono::NaiveTime"@.len());
        assert("chrono::DateTime<chrono::FixedOffset>"@.len() != "DateTime<Utc>"@.len());
        assert("chrono::DateTime<chrono::FixedOffset>"@.len() != "chrono::DateTime<Utc>"@.len());
        assert("chrono::DateTime<chrono::FixedOffset>"@.len() != "chrono::DateTime<chrono::Utc>"@.len());
        assert("chrono::DateTime<chrono::FixedOffset>"@.len() != "DateTime<FixedOffset>"@.len());
        assert("chrono::DateTime<chrono::FixedOffset>"@.len() != "chrono::DateTime<FixedOffset>"@.len());
        assert(getter_for("chrono::DateTime<chrono::FixedOffset>"@) == Getter::DateTimeOffset);
    } else if i == 23 {
        assert("Uuid"@[0] != "bool"@[0]);
        assert("Uuid"@.len() != "u8"@.len());
        assert("Uuid"@.len() != "i8"@.len());
        assert("Uuid"@.len() != "i16"@.len());
        assert("Uuid"@.len() != "i32"@.len());
        assert("Uuid"@.len() != "i64"@.len());
        assert("Uuid"@.len() != "f32"@.len());
        assert("Uuid"@.len() != "f64"@.len());
        assert("Uuid"@.len() != "Decimal"@.len());
        assert("Uuid"@.len() != "rust_decimal::Decimal"@.len());
        assert("Uuid"@.len() != "rust_decimal::decimal::Decimal"@.len());
        assert("Uuid"@.len() != "String"@.len());
        assert("Uuid"@.len() != "Vec<u8>"@.len());
        assert("Uuid"@.len() != "NaiveDate"@.len());
        assert("Uuid"@.len() != "chrono::NaiveDate"@.len());
        assert("Uuid"@.len() != "NaiveTime"@.len());
        assert("Uuid"@.len() != "chrono::NaiveTime"@.len());
        assert("Uuid"@.len() != "DateTime<Utc>"@.len());
        assert("Uuid"@.len() != "chrono::DateTime<Utc>"@.len());
        assert("Uuid"@.len() != "chrono::DateTime<chrono::Utc>"@.len());
        assert("Uuid"@.len() != "DateTime<FixedOffset>"@.len());
        assert("Uuid"@.len() != "chrono::DateTime<FixedOffset>"@.len());
        assert("Uuid"@.len() != "chrono::DateTime<chrono::FixedOffset>"@.len());
        assert(getter_for("Uuid"@) == Getter::Uuid);
    } else if i == 24 {
        assert("uuid::Uuid"@.len() != "bool"@.len());
        assert("uuid::Uuid"@.len() != "u8"@.len());
        assert("uuid::Uuid"@.len() != "i8"@.len());
        assert("uuid::Uuid"@.len() != "i16"@.len());
        assert("uuid::Uuid"@.len() != "i32"@.len());
        assert("uuid::Uuid"@.len() != "i64"@.len());
        assert("uuid::Uuid"@.len() != "f32"@.len());
        assert("uuid::Uuid"@.len() != "f64"@.len());
        assert("uuid::Uuid"@.len() != "Decimal"@.len());
        assert("uuid::Uuid"@.len() != "rust_decimal::Decimal"@.len());
        assert("uuid::Uuid"@.len() != "rust_decimal::decimal::Decimal"@.len());
        assert("uuid::Uuid"@.len() != "String"@.len());
        assert("uuid::Uuid"@.len() != "Vec<u8>"@.len());
        assert("uuid::Uuid"@.len() != "NaiveDate"@.len());
        assert("uuid::Uuid"@.len() != "chrono::NaiveDate"@.len());
        assert("uuid::Uuid"@.len() != "NaiveTime"@.len());
        assert("uuid::Uuid"@.len() != "chrono::NaiveTime"@.len());
        assert("uuid::Uuid"@.len() != "DateTime<Utc>"@.len());
        assert("uuid::Uuid"@.len() != "chrono::DateTime<Utc>"@.len());
        assert("uuid::Uuid"@.len() != "chrono::DateTime<chrono::Utc>"@.len());
        assert("uuid::Uuid"@.len() != "DateTime<FixedOffset>"@.len());
        assert("uuid::Uuid"@.len() != "chrono::DateTime<FixedOffset>"@.len());
        assert("uuid::Uuid"@.len() != "chrono::DateTime<chrono::FixedOffset>"@.len());
        assert("uuid::Uuid"@.len() != "Uuid"@.len());
        assert(getter_for("uuid::Uuid"@) == Getter::Uuid);
    }
}

/// Every built-in type is read with its own typed getter, and an `Option` of it (for the
/// names that do not end in `>`) with the same getter in its `_opt` form.
pub proof fn law_builtin_type_getters(i: int)
    requires
        0 <= i < builtin_types().len(),
    ensures
        read_for_type(builtin_types()[i].0) == (FieldRead::Get { getter: builtin_types()[i].1, optional: false }),
        builtin_types()[i].0.last() != '>' ==> read_for_type("Option<"@ + builtin_types()[i].0 + ">"@)
            == (FieldRead::Get { getter: builtin_types()[i].1, optional: true }),
{
    reveal_strlit("bool");
    reveal_strlit("u8");
    reveal_strlit("i8");
    reveal_strlit("i16");
    reveal_strlit("i32");
    reveal_strlit("i64");
    reveal_strlit("f32");
    reveal_strlit("f64");
    reveal_strlit("Decimal");
    reveal_strlit("rust_decimal::Decimal");
    reveal_strlit("rust_decimal::decimal::Decimal");
    reveal_strlit("String");
    reveal_strlit("Vec<u8>");
    reveal_strlit("NaiveDate");
    reveal_strlit("chrono::NaiveDate");
    reveal_strlit("NaiveTime");
    reveal_strlit("chrono::NaiveTime");
    reveal_strlit("DateTime<Utc>");
    reveal_strlit("chrono::DateTime<Utc>");
    reveal_strlit("chrono::DateTime<chrono::Utc>");
    reveal_strlit("DateTime<FixedOffset>");
    reveal_strlit("chrono::DateTime<FixedOffset>");
    reveal_strlit("chrono::DateTime<chrono::FixedOffset>");
    reveal_strlit("Uuid");
    reveal_strlit("uuid::Uuid");
    reveal_strlit("Option<");
    reveal_strlit(">");
    let name = builtin_types()[i].0;
    assert(name.len() > 0 && name[0] != 'O');
    assert(forall|k: int| 0 <= k < name.len() ==> name[k] != ' ');
    lemma_table_getter(i);
    lemma_without_spaces_id(name);
    assert("Option<"@[0] == 'O');
    if name.len() >= 7 {
        assert(name.take(7)[0] == name[0]);
    }
    assert(!starts_with(name, "Option<"@));
    if name.last() != '>' {
        let t = "Option<"@ + name + ">"@;
        assert(forall|k: int| 0 <= k < t.len() ==> t[k] != ' ');
        lemma_without_spaces_id(t);
        assert(t.take(7) =~= "Option<"@);
        assert(t.skip(7) =~= name + ">"@);
        let rest = name + ">"@;
        assert(rest[0] == name[0]);
        if rest.len() >= 7 {
            assert(rest.take(7)[0] == rest[0]);
        }
        assert(!starts_with(rest, "Option<"@));
        assert(strip_all_prefix(rest, "Option<"@) == rest);
        assert(strip_all_prefix(t, "Option<"@) == rest);
        assert(rest.drop_last() =~= name);
        assert(strip_all_gt(rest) == strip_all_gt(name));
    }
}

/// A type is read as parsed text exactly when it is not one of the built-in types.
pub proof fn law_parsed_only_outside_table(t: Seq<char>)
    ensures
        (getter_for(t) == Getter::Parsed)
            <==> (forall|i: int| 0 <= i < builtin_types().len() ==> builtin_types()[i].0 != t),
{
    reveal_strlit("bool");
    reveal_strlit("u8");
    reveal_strlit("i8");
    reveal_strlit("i16");
    reveal_strlit("i32");
    reveal_strlit("i64");
    reveal_strlit("f32");
    reveal_strlit("f64");
    reveal_strlit("Decimal");
    reveal_strlit("rust_decimal::Decimal");
    reveal_strlit("rust_decimal::decimal::Decimal");
    reveal_strlit("String");
    reveal_strlit("Vec<u8>");
    reveal_strlit("NaiveDate");
    reveal_strlit("chrono::NaiveDate");
    reveal_strlit("NaiveTime");
    reveal_strlit("chrono::NaiveTime");
    reveal_strlit("DateTime<Utc>");
    reveal_strlit("chrono::DateTime<Utc>");
    reveal_strlit("chrono::DateTime<chrono::Utc>");
    reveal_strlit("DateTime<FixedOffset>");
    reveal_strlit("chrono::DateTime<FixedOffset>");
    reveal_strlit("chrono::DateTime<chrono::FixedOffset>");
    reveal_strlit("Uuid");
    reveal_strlit("uuid::Uuid");
    let tbl = builtin_types();
    if getter_for(t) != Getter::Parsed {
        assert(exists|i: int| 0 <= i < tbl.len() && tbl[i].0 == t) by {
            if t == "bool"@ { assert(tbl[0].0 == t); }
            if t == "u8"@ { assert(tbl[1].0 == t); }
            if t == "i8"@ { assert(tbl[2].0 == t); }
            if t == "i16"@ { assert(tbl[3].0 == t); }
            if t == "i32"@ { assert(tbl[4].0 == t); }
            if t == "i64"@ { assert(tbl[5].0 == t); }
            if t == "f32"@ { assert(tbl[6].0 == t); }
            if t == "f64"@ { assert(tbl[7].0 == t); }
            if t == "Decimal"@ { assert(tbl[8].0 == t); }
            if t == "rust_decimal::Decimal"@ { assert(tbl[9].0 == t); }
            if t == "rust_decimal::decimal::Decimal"@ { assert(tbl[10].0 == t); }
            if t == "String"@ { assert(tbl[11].0 == t); }
            if t == "Vec<u8>"@ { assert(tbl[12].0 == t); }
            if t == "NaiveDate"@ { assert(tbl[13].0 == t); }
            if t == "chrono::NaiveDate"@ { assert(tbl[14].0 == t); }
            if t == "NaiveTime"@ { assert(tbl[15].0 == t); }
            if t == "chrono::NaiveTime"@ { assert(tbl[16].0 == t); }
            if t == "DateTime<Utc>"@ { assert(tbl[17].0 == t); }
            if t == "chrono::DateTime<Utc>"@ { assert(tbl[18].0 == t); }
            if t == "chrono::DateTime<chrono::Utc>"@ { assert(tbl[19].0 == t); }
            if t == "DateTime<FixedOffset>"@ { assert(tbl[20].0 == t); }
            if t == "chrono::DateTime<FixedOffset>"@ { assert(tbl[21].0 == t); }
            if t == "chrono::DateTime<chrono::FixedOffset>"@ { assert(tbl[22].0 == t); }
            if t == "Uuid"@ { assert(tbl[23].0 == t); }
            if t == "uuid::Uuid"@ { assert(tbl[24].0 == t); }
        }
    } else {
        assert forall|i: int| 0 <= i < tbl.len() implies tbl[i].0 != t by {
            if tbl[i].0 == t {
                lemma_table_getter(i);
            }
        }
    }
}

/// How `from_row` fills a field.
pub open spec fn read_for_field(f: FieldView) -> FieldRead {
    if f.is_ignored {
        FieldRead::Default
    } else if f.is_masked {
        FieldRead::Masked
    } else {
        read_for_type(f.ty)
    }
}

fn without_spaces_exec(t: &Vec<char>) -> (r: Vec<char>)
    ensures
        r@ == without_spaces(t@),
{
    let mut r: Vec<char> = Vec::new();
    let mut i: usize = 0;
    while i < t.len()
        invariant
            i <= t@.len(),
            r@ == without_spaces(t@.take(i as int)),
        decreases t@.len() - i,
    {
        assert(t@.take(i as int + 1).drop_last() =~= t@.take(i as int));
        if t[i] != ' ' {
            r.push(t[i]);
        }
        i = i + 1;
    }
    assert(t@.take(t@.len() as int) =~= t@);
    r
}

fn starts_with_exec(t: &Vec<char>, p: &Vec<char>, from: usize) -> (b: bool)
    requires
        from <= t@.len(),
    ensures
        b == starts_with(t@.skip(from as int), p@),
{
    let ghost u = t@.skip(from as int);
    let n = t.len();
    if p.len() > n - from {
        return false;
    }
    let mut i: usize = 0;
    while i < p.len()
        invariant
            n == t@.len(),
            i <= p@.len(),
            from + p@.len() <= t@.len(),
            u == t@.skip(from as int),
            forall|k: int| 0 <= k < i ==> u[k] == p@[k],
        decreases p@.len() - i,
    {
        if t[from + i] != p[i] {
            assert(u.take(p@.len() as int)[i as int] != p@[i as int]);
            return false;
        }
        i = i + 1;
    }
    assert(u.take(p@.len() as int) =~= p@);
    true
}

fn strip_option_wrappers(t: &Vec<char>) -> (r: Vec<char>)
    ensures
        r@ == strip_all_gt(strip_all_prefix(t@, "Option<"@)),
{
    let p = chars_of("Option<");
    proof {
        reveal_strlit("Option<");
    }
    let mut from: usize = 0;
    let n = t.len();
    assert(t@.skip(0) =~= t@);
    while starts_with_exec(t, &p, from)
        invariant
            n == t@.len(),
            from <= t@.len(),
            p@ == "Option<"@,
            p@.len() == 7,
            strip_all_prefix(t@.skip(from as int), p@) == strip_all_prefix(t@, p@),
        decreases t@.len() - from,
    {
        assert(t@.skip(from as int).skip(7) =~= t@.skip(from as int + 7));
        from = from + 7;
    }
    let mut end: usize = t.len();
    while end > from && t[end - 1] == '>'
        invariant
            from <= end <= t@.len(),
            strip_all_gt(t@.subrange(from as int, end as int))
                == strip_all_gt(t@.skip(from as int)),
        decreases end,
    {
        assert(t@.subrange(from as int, end as int).drop_last() =~= t@.subrange(from as int, end as int - 1));
        end = end - 1;
    }
    proof {
        assert(t@.skip(from as int) =~= t@.subrange(from as int, t@.len() as int));
    }
    let mut r: Vec<char> = Vec::new();
    let mut i = from;
    while i < end
        invariant
            from <= i <= end <= t@.len(),
            r@ == t@.subrange(from as int, i as int),
        decreases end - i,
    {
        r.push(t[i]);
        i = i + 1;
        assert(r@ =~= t@.subrange(from as int, i as int));
    }
    assert(strip_all_prefix(t@.skip(from as int), p@) == t@.skip(from as int));
    r
}

fn getter_for_exec(t: &str) -> (g: Getter)
    ensures
        g == getter_for(t@),
{
    if str_eq(t, "bool") {
        Getter::Bool
    } else if str_eq(t, "u8") {
        Getter::U8
    } else if str_eq(t, "i8") {
        Getter::I8
    } else if str_eq(t, "i16") {
        Getter::I16
    } else if str_eq(t, "i32") {
        Getter::I32
    } else if str_eq(t, "i64") {
        Getter::I64
    } else if str_eq(t, "f32") {
        Getter::F32
    } else if str_eq(t, "f64") {
        Getter::F64
    } else if str_eq(t, "Decimal") || str_eq(t, "rust_decimal::Decimal") || str_eq(t, "rust_decimal::decimal::Decimal") {
        Getter::Decimal
    } else if str_eq(t, "String") {
        Getter::Text
    } else if str_eq(t, "Vec<u8>") {
        Getter::Bytes
    } else if str_eq(t, "NaiveDate") || str_eq(t, "chrono::NaiveDate") {
        Getter::Date
    } else if str_eq(t, "NaiveTime") || str_eq(t, "chrono::NaiveTime") {
        Getter::Time
    } else if str_eq(t, "DateTime<Utc>") || str_eq(t, "chrono::DateTime<Utc>")
        || str_eq(t, "chrono::DateTime<chrono::Utc>") {
        Getter::DateTime
    } else if str_eq(t, "DateTime<FixedOffset>") || str_eq(t, "chrono::DateTime<FixedOffset>")
        || str_eq(t, "chrono::DateTime<chrono::FixedOffset>") {
        Getter::DateTimeOffset
    } else if str_eq(t, "Uuid") || str_eq(t, "uuid::Uuid") {
        Getter::Uuid
    } else {
        Getter::Parsed
    }
}

/// How a field of the given type text is read by the generated `from_row`.
pub fn read_for_type_exec(ty: &str) -> (r: FieldRead)
    ensures
        r == read_for_type(ty@),
{
    let t = without_spaces_exec(&chars_of(ty));
    let p = chars_of("Option<");
    if starts_with_exec(&t, &p, 0) {
        assert(t@.skip(0) =~= t@);
        let inner = string_of_chars(&strip_option_wrappers(&t));
        FieldRead::Get { getter: getter_for_exec(inner.as_str()), optional: true }
    } else {
        assert(t@.skip(0) =~= t@);
        let whole = string_of_chars(&t);
        FieldRead::Get { getter: getter_for_exec(whole.as_str()), optional: false }
    }
}

impl StructInfo {
    /// How the generated `from_row` fills each field, in declaration order.
    pub fn from_row_plan(&self) -> (r: Vec<FieldRead>)
        ensures
            r@.len() == self.fields@.len(),
            forall|i: int| 0 <= i < r@.len() ==> #[trigger] r@[i] == read_for_field(self.fields@[i]@),
    {
        let mut r: Vec<FieldRead> = Vec::new();
        let mut i: usize = 0;
        while i < self.fields.len()
            invariant
                i <= self.fields@.len(),
                r@.len() == i,
                forall|k: int| 0 <= k < i ==> #[trigger] r@[k] == read_for_field(self.fields@[k]@),
            decreases self.fields@.len() - i,
        {
            let f = &self.fields[i];
            let read = if f.is_ignored {
                FieldRead::Default
            } else if f.is_masked {
                FieldRead::Masked
            } else {
                read_for_type_exec(f.ty.as_str())
            };
            r.push(read);
            i = i + 1;
        }
        r
    }

    /// The parameter names the generated `to_params` binds: the Rust names of the fields
    /// that are neither ignored nor computed, in declaration order.
    pub fn param_names(&self) -> (r: Vec<String>)
        ensures
            r@.len() == select_fields(fields_view(self.fields@), FieldSet::Params).len(),
            forall|k: int| 0 <= k < r@.len() ==> (#[trigger] r@[k])@
                == select_fields(fields_view(self.fields@), FieldSet::Params)[k].rust_name,
    {
        let idx = self.field_indices(FieldSet::Params);
        let mut r: Vec<String> = Vec::new();
        let mut k: usize = 0;
        while k < idx.len()
            invariant
                k <= idx@.len(),
                idx@.len() == select_fields(fields_view(self.fields@), FieldSet::Params).len(),
                forall|j: int| 0 <= j < idx@.len() ==> (#[trigger] idx@[j]) < self.fields@.len()
                    && self.fields@[idx@[j] as int]@ == select_fields(fields_view(self.fields@), FieldSet::Params)[j],
                r@.len() == k,
                forall|j: int| 0 <= j < k ==> (#[trigger] r@[j])@
                    == select_fields(fields_view(self.fields@), FieldSet::Params)[j].rust_name,
            decreases idx@.len() - k,
        {
            let f = &self.fields[idx[k]];
            assert(f@ == select_fields(fields_view(self.fields@), FieldSet::Params)[k as int]);
            r.push(f.rust_name.clone());
            k = k + 1;
        }
        r
    }

    /// The Rust name of the key field the generated `pk_value` reads, if there is one.
    pub fn pk_value_field(&self) -> (r: Option<String>)
        ensures
            match first_pk(fields_view(self.fields@)) {
                Some(i) => r matches Some(s) && s@ == fields_view(self.fields@)[i].rust_name,
                None => r is None,
            },
    {
        match self.pk_field() {
            Some(f) => Some(f.rust_name.clone()),
            None => None,
        }
    }
}

/// The values the derive gives the entity's constants.
pub struct EntityConstants {
    /// `TABLE_NAME`: the qualified table name.
    pub table_name: String,
    pub schema: String,
    pub select_cols: String,
    pub select_sql: String,
    pub select_by_pk_sql: String,
    pub insert_sql: String,
    pub update_sql: String,
    pub delete_sql: String,
    pub upsert_sql: String,
    pub count_sql: String,
    pub exists_sql: String,
    /// `PK_COLUMN`: the key's column name.
    pub pk_column: String,
    pub pk_is_identity: bool,
    pub cache_prefix: String,
    /// `COLUMN_COUNT`: the number of selected columns.
    pub column_count: usize,
}

/// The constants of the entity described by `info`: each statement generated for it, the
/// key's column and kind, and the number of selected columns.
pub fn entity_constants(info: &StructInfo) -> (c: EntityConstants)
    requires
        first_pk(fields_view(info.fields@)) is Some,
    ensures
        ({
            let pk = fields_view(info.fields@)[first_pk(fields_view(info.fields@))->0];
            let g = generated_spec(struct_view(*info), pk);
            &&& c.table_name@ == g.fq_table
            &&& c.schema@ == g.schema
            &&& c.select_cols@ == g.select_cols
            &&& c.select_sql@ == g.select_sql
            &&& c.select_by_pk_sql@ == g.select_by_pk_sql
            &&& c.insert_sql@ == g.insert_sql
            &&& c.update_sql@ == g.update_sql
            &&& c.delete_sql@ == g.delete_sql
            &&& c.upsert_sql@ == g.upsert_sql
            &&& c.count_sql@ == g.count_sql
            &&& c.exists_sql@ == g.exists_sql
            &&& c.pk_column@ == pk.sql_name
            &&& c.pk_is_identity == pk.pk_is_identity
            &&& c.cache_prefix@ == g.cache_prefix
            &&& c.column_count == select_fields(fields_view(info.fields@), FieldSet::Active).len()
        }),
{
    let g = GeneratedSql::from_struct(info);
    let pk = info.pk_field().unwrap();
    let pk_column = pk.sql_name.clone();
    let pk_is_identity = pk.pk_is_identity;
    let column_count = info.active_fields().len();
    EntityConstants {
        table_name: g.fq_table,
        schema: g.schema,
        select_cols: g.select_cols,
        select_sql: g.select_sql,
        select_by_pk_sql: g.select_by_pk_sql,
        insert_sql: g.insert_sql,
        update_sql: g.update_sql,
        delete_sql: g.delete_sql,
        upsert_sql: g.upsert_sql,
        count_sql: g.count_sql,
        exists_sql: g.exists_sql,
        pk_column,
        pk_is_identity,
        cache_prefix: g.cache_prefix,
        column_count,
    }
}

} // verus!
