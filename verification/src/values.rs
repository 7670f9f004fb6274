//! Plain-valued forms of the SQL Server scalar types that the library passes around:
//! fixed-precision decimals, GUIDs, dates, times and timestamps.
//!
//! Decimal, GUID and date texts and all parsing go through `rust_decimal`, `uuid` and
//! `chrono`; each such call is a trusted wrapper whose result is named by an uninterpreted
//! function of its arguments. Time and offset texts are written here.
use vstd::prelude::*;
use crate::text::padded_text;

verus! {

// ── Names for what the outside conversions return ────────────────────────────

/// `rust_decimal::Decimal::from_i128_with_scale(m, s).to_string()`.
pub uninterp spec fn decimal_text(m: int, s: int) -> Seq<char>;

/// `text.parse::<rust_decimal::Decimal>()`, as (mantissa, scale) or the error's text.
pub uninterp spec fn decimal_parse(text: Seq<char>) -> Result<(int, int), Seq<char>>;

/// `uuid::Uuid::from_u128(u).to_string()` (hyphenated, lower case).
pub uninterp spec fn guid_text(u: int) -> Seq<char>;

/// `uuid::Uuid::parse_str(text)`, as its 128-bit value or the error's text.
pub uninterp spec fn guid_parse(text: Seq<char>) -> Result<int, Seq<char>>;

/// `NaiveDate::from_ymd_opt(y, m, d)` formatted as `%Y-%m-%d`, or `None` when chrono
/// rejects the components.
pub uninterp spec fn date_text(y: int, m: int, d: int) -> Option<Seq<char>>;

/// chrono's rule for a time of day (`NaiveTime::from_hms_nano_opt`): hour, minute and
/// second in range, and a nanosecond count of a second or more only during a leap second,
/// which chrono places at second 59.
pub open spec fn time_valid(h: int, mi: int, s: int, n: int) -> bool {
    &&& 0 <= h < 24
    &&& 0 <= mi < 60
    &&& 0 <= s < 60
    &&& 0 <= n < 2_000_000_000
    &&& n >= 1_000_000_000 ==> s == 59
}

/// A time as SQL Server writes `time(7)`: `HH:MM:SS` (a leap second shows as second 60),
/// a dot, and the fraction in 100-nanosecond units as seven digits.
pub open spec fn time_format(h: int, mi: int, s: int, n: int) -> Seq<char> {
    padded_text(h as nat, 2) + ":"@ + padded_text(mi as nat, 2) + ":"@
        + padded_text((s + n / 1_000_000_000) as nat, 2) + "."@
        + padded_text(((n % 1_000_000_000) / 100) as nat, 7)
}

/// The text of a valid time, or `None` when chrono rejects the components.
pub open spec fn time_text(h: int, mi: int, s: int, n: int) -> Option<Seq<char>> {
    if time_valid(h, mi, s, n) { Some(time_format(h, mi, s, n)) } else { None }
}

/// The fraction of a second as chrono's `Debug` writes it: nothing when zero, else a dot
/// and 3, 6 or 9 digits, the fewest that hold it exactly.
pub open spec fn fraction_debug(nano: int) -> Seq<char> {
    if nano == 0 {
        Seq::empty()
    } else if nano % 1_000_000 == 0 {
        "."@ + padded_text((nano / 1_000_000) as nat, 3)
    } else if nano % 1_000 == 0 {
        "."@ + padded_text((nano / 1_000) as nat, 6)
    } else {
        "."@ + padded_text(nano as nat, 9)
    }
}

/// A time as chrono's `Debug` writes it: `HH:MM:SS` (a leap second shows as second 60)
/// and the fraction.
pub open spec fn time_debug(t: (int, int, int, int)) -> Seq<char> {
    let leap = t.3 >= 1_000_000_000;
    let sec = if leap { t.2 + 1 } else { t.2 };
    let nano = if leap { t.3 - 1_000_000_000 } else { t.3 };
    padded_text(t.0 as nat, 2) + ":"@ + padded_text(t.1 as nat, 2) + ":"@ + padded_text(sec as nat, 2)
        + fraction_debug(nano)
}

/// A UTC offset as chrono's `Debug` writes it: sign, `HH:MM`, and `:SS` when the seconds
/// are not zero.
pub open spec fn offset_debug(off: int) -> Seq<char> {
    let a = if off < 0 { -off } else { off };
    let sec = a % 60;
    let min = (a / 60) % 60;
    let hour = a / 3600;
    seq![if off < 0 { '-' } else { '+' }] + padded_text(hour as nat, 2) + ":"@ + padded_text(min as nat, 2)
        + (if sec == 0 { Seq::<char>::empty() } else { ":"@ + padded_text(sec as nat, 2) })
}

/// The date and the time joined by a space (`datetime2(7)` text), or `None` when either
/// part is rejected.
pub open spec fn datetime_text(d: (int, int, int), t: (int, int, int, int)) -> Option<Seq<char>> {
    match date_text(d.0, d.1, d.2) {
        Some(dt) => if time_valid(t.0, t.1, t.2, t.3) {
            Some(dt + " "@ + time_format(t.0, t.1, t.2, t.3))
        } else {
            None
        },
        None => None,
    }
}

/// A UTC offset as `%:z` writes it: the sign, then hours and minutes, rounded to the
/// nearest minute.
pub open spec fn offset_text(off: int) -> Seq<char> {
    let a = if off < 0 { -off } else { off };
    let m = (a + 30) / 60;
    seq![if off < 0 { '-' } else { '+' }] + padded_text((m / 60) as nat, 2) + ":"@
        + padded_text((m % 60) as nat, 2)
}

/// Whether `FixedOffset::from_local_datetime(..).single()` gives a value for the local date
/// and time at UTC offset `off` seconds (chrono refuses a timestamp whose UTC instant falls
/// outside its range).
pub uninterp spec fn local_datetime_single(d: (int, int, int), t: (int, int, int, int), off: int) -> bool;

/// The local date, time and offset (`datetimeoffset(7)` text), or `None` when chrono
/// rejects the parts.
pub open spec fn datetime_offset_text(d: (int, int, int), t: (int, int, int, int), off: int) -> Option<Seq<char>> {
    if -86_400 < off < 86_400 && local_datetime_single(d, t, off) {
        match datetime_text(d, t) {
            Some(x) => Some(x + " "@ + offset_text(off)),
            None => None,
        }
    } else {
        None
    }
}

/// `NaiveDate::parse_from_str(text, fmt)`, as (year, month, day) or the error's text.
pub uninterp spec fn date_parse(text: Seq<char>, fmt: Seq<char>) -> Result<(int, int, int), Seq<char>>;

/// `NaiveTime::parse_from_str(text, fmt)`, as (hour, minute, second, nanosecond) or the error's text.
pub uninterp spec fn time_parse(text: Seq<char>, fmt: Seq<char>) -> Result<(int, int, int, int), Seq<char>>;

/// `NaiveDateTime::parse_from_str(text, fmt)`, as date and time parts or the error's text.
pub uninterp spec fn naive_datetime_parse(text: Seq<char>, fmt: Seq<char>) -> Result<((int, int, int), (int, int, int, int)), Seq<char>>;

/// `text.parse::<DateTime<Utc>>()`, as the UTC date and time parts or the error's text.
pub uninterp spec fn utc_datetime_parse(text: Seq<char>) -> Result<((int, int, int), (int, int, int, int)), Seq<char>>;

/// `DateTime::parse_from_str(text, fmt)` (a `DateTime<FixedOffset>`), as the local date and
/// time parts and the offset in seconds, or the error's text.
pub uninterp spec fn offset_datetime_parse(text: Seq<char>, fmt: Seq<char>) -> Result<((int, int, int), (int, int, int, int), int), Seq<char>>;

/// `DateTime::parse_from_rfc3339(text)`, as the local date and time parts and the offset in
/// seconds, or the error's text.
pub uninterp spec fn rfc3339_parse(text: Seq<char>) -> Result<((int, int, int), (int, int, int, int), int), Seq<char>>;

// ── Decimal ──────────────────────────────────────────────────────────────────

/// Largest mantissa magnitude of a `rust_decimal::Decimal` (2^96 - 1).
pub const DECIMAL_MAX_MANTISSA: i128 = 0x0000_0000_FFFF_FFFF_FFFF_FFFF_FFFF_FFFF;

/// Largest scale of a `rust_decimal::Decimal`.
pub const DECIMAL_MAX_SCALE: u32 = 28;

pub open spec fn decimal_parts_ok(m: int, s: int) -> bool {
    -DECIMAL_MAX_MANTISSA <= m <= DECIMAL_MAX_MANTISSA && 0 <= s <= DECIMAL_MAX_SCALE
}

/// A fixed-precision decimal: `mantissa × 10^-scale`.
#[derive(Debug, Clone, Copy, PartialEq, Eq)]
pub struct SqlDecimal {
    mantissa: i128,
    scale: u32,
}

impl SqlDecimal {
    #[verifier::type_invariant]
    spec fn inv(self) -> bool {
        decimal_parts_ok(self.mantissa as int, self.scale as int)
    }

    pub closed spec fn mantissa_spec(self) -> int {
        self.mantissa as int
    }

    pub closed spec fn scale_spec(self) -> int {
        self.scale as int
    }

    /// A decimal from its parts, or `None` when the parts are out of range.
    pub fn new(mantissa: i128, scale: u32) -> (r: Option<SqlDecimal>)
        ensures
            decimal_parts_ok(mantissa as int, scale as int) <==> r is Some,
            r matches Some(d) ==> d.mantissa_spec() == mantissa && d.scale_spec() == scale,
    {
        if scale <= DECIMAL_MAX_SCALE && -DECIMAL_MAX_MANTISSA <= mantissa && mantissa <= DECIMAL_MAX_MANTISSA {
            Some(SqlDecimal { mantissa, scale })
        } else {
            None
        }
    }

    /// A whole-number decimal.
    pub fn from_i64(v: i64) -> (d: SqlDecimal)
        ensures
            d.mantissa_spec() == v,
            d.scale_spec() == 0,
    {
        SqlDecimal { mantissa: v as i128, scale: 0 }
    }

    pub fn mantissa(&self) -> (m: i128)
        ensures
            m == self.mantissa_spec(),
            decimal_parts_ok(m as int, self.scale_spec()),
    {
        proof {
            use_type_invariant(self);
        }
        self.mantissa
    }

    pub fn scale(&self) -> (s: u32)
        ensures
            s == self.scale_spec(),
            decimal_parts_ok(self.mantissa_spec(), s as int),
    {
        proof {
            use_type_invariant(self);
        }
        self.scale
    }

    /// The decimal's text, as `rust_decimal` prints it.
    pub fn to_text(&self) -> (s: String)
        ensures
            s@ == decimal_text(self.mantissa_spec(), self.scale_spec()),
    {
        decimal_to_string(self.mantissa(), self.scale())
    }

    /// Parses decimal text; the error is the parser's message.
    pub fn parse(text: &str) -> (r: Result<SqlDecimal, String>)
        ensures
            match decimal_parse(text@) {
                Ok((m, s)) => r matches Ok(d) && d.mantissa_spec() == m && d.scale_spec() == s,
                Err(e) => r matches Err(msg) && msg@ == e,
            },
    {
        match parse_decimal(text) {
            Ok((m, s)) => Ok(SqlDecimal { mantissa: m, scale: s }),
            Err(e) => Err(e),
        }
    }
}

/// `Decimal::from_i128_with_scale(m, s).to_string()`: the text `rust_decimal` prints.
#[verifier::external_body]
fn decimal_to_string(m: i128, s: u32) -> (r: String)
    requires
        decimal_parts_ok(m as int, s as int),
    ensures
        r@ == decimal_text(m as int, s as int),
{
    rust_decimal::Decimal::from_i128_with_scale(m, s).to_string()
}

/// `str::parse::<Decimal>`: the parsed value's mantissa and scale (always within
/// `rust_decimal`'s limits), or the error's message.
#[verifier::external_body]
fn parse_decimal(text: &str) -> (r: Result<(i128, u32), String>)
    ensures
        match decimal_parse(text@) {
            Ok((m, s)) => decimal_parts_ok(m, s) && (r matches Ok(v) && v.0 as int == m && v.1 as int == s),
            Err(e) => r matches Err(msg) && msg@ == e,
        },
{
    match text.parse::<rust_decimal::Decimal>() {
        Ok(d) => Ok((d.mantissa(), d.scale())),
        Err(e) => Err(e.to_string()),
    }
}

// ── GUID ─────────────────────────────────────────────────────────────────────

/// `Uuid::from_u128(u).to_string()`: the hyphenated lower-case text of a GUID.
#[verifier::external_body]
pub fn guid_to_string(u: u128) -> (r: String)
    ensures
        r@ == guid_text(u as int),
{
    uuid::Uuid::from_u128(u).to_string()
}

/// `Uuid::parse_str`: the GUID's 128-bit value, or the error's message.
#[verifier::external_body]
pub fn parse_guid(text: &str) -> (r: Result<u128, String>)
    ensures
        match guid_parse(text@) {
            Ok(u) => r matches Ok(v) && v as int == u,
            Err(e) => r matches Err(msg) && msg@ == e,
        },
{
    match uuid::Uuid::parse_str(text) {
        Ok(u) => Ok(u.as_u128()),
        Err(e) => Err(e.to_string()),
    }
}

} // verus!
