//! Plain-valued dates, times and timestamps, checked and rendered by `chrono`.
use vstd::prelude::*;
use chrono::{Datelike, TimeZone, Timelike};
use crate::text::{push_char, push_padded};
use crate::values::{
    date_parse, date_text, datetime_offset_text, datetime_text, naive_datetime_parse,
    offset_datetime_parse, local_datetime_single, offset_text, time_debug, offset_debug,
    fraction_debug, rfc3339_parse, time_format,
    time_parse, time_text, time_valid, utc_datetime_parse,
};

verus! {

/// A calendar date (SQL Server `date`).
#[derive(Debug, Clone, Copy, PartialEq, Eq)]
pub struct SqlDate {
    year: i32,
    month: u32,
    day: u32,
}

/// A time of day (SQL Server `time`).
#[derive(Debug, Clone, Copy, PartialEq, Eq)]
pub struct SqlTime {
    hour: u32,
    minute: u32,
    second: u32,
    nano: u32,
}

/// A UTC timestamp (SQL Server `datetime`, `datetime2`, `smalldatetime`).
#[derive(Debug, Clone, Copy, PartialEq, Eq)]
pub struct SqlDateTime {
    date: SqlDate,
    time: SqlTime,
}

/// A local timestamp with its UTC offset (SQL Server `datetimeoffset`).
#[derive(Debug, Clone, Copy, PartialEq, Eq)]
pub struct SqlDateTimeOffset {
    date: SqlDate,
    time: SqlTime,
    offset_secs: i32,
}

impl SqlDate {
    #[verifier::type_invariant]
    spec fn inv(self) -> bool {
        date_text(self.year as int, self.month as int, self.day as int) is Some
    }

    pub closed spec fn parts(self) -> (int, int, int) {
        (self.year as int, self.month as int, self.day as int)
    }

    /// The date `y-m-d`, or `None` when chrono rejects it.
    pub fn from_ymd(y: i32, m: u32, d: u32) -> (r: Option<SqlDate>)
        ensures
            (date_text(y as int, m as int, d as int) is Some) <==> r is Some,
            r matches Some(v) ==> v.parts() == (y as int, m as int, d as int),
    {
        match format_date(y, m, d) {
            Some(_) => Some(SqlDate { year: y, month: m, day: d }),
            None => None,
        }
    }

    pub fn year(&self) -> (v: i32)
        ensures v as int == self.parts().0,
    {
        self.year
    }

    pub fn month(&self) -> (v: u32)
        ensures v as int == self.parts().1,
    {
        self.month
    }

    pub fn day(&self) -> (v: u32)
        ensures v as int == self.parts().2,
    {
        self.day
    }

    /// `%Y-%m-%d`
    pub fn to_text(&self) -> (s: String)
        ensures
            date_text(self.parts().0, self.parts().1, self.parts().2) == Some(s@),
    {
        proof {
            use_type_invariant(self);
        }
        format_date(self.year, self.month, self.day).unwrap()
    }

    /// Parses `text` with a chrono format string; the error is chrono's message.
    pub fn parse(text: &str, fmt: &str) -> (r: Result<SqlDate, String>)
        ensures
            match date_parse(text@, fmt@) {
                Ok(p) => r matches Ok(v) && v.parts() == p,
                Err(e) => r matches Err(m) && m@ == e,
            },
    {
        match parse_date(text, fmt) {
            Ok((y, m, d)) => Ok(SqlDate { year: y, month: m, day: d }),
            Err(e) => Err(e),
        }
    }
}

impl SqlTime {
    #[verifier::type_invariant]
    spec fn inv(self) -> bool {
        time_text(self.hour as int, self.minute as int, self.second as int, self.nano as int) is Some
    }

    pub closed spec fn parts(self) -> (int, int, int, int) {
        (self.hour as int, self.minute as int, self.second as int, self.nano as int)
    }

    /// The time `h:mi:s` plus `n` nanoseconds, or `None` when chrono rejects it.
    pub fn from_hms_nano(h: u32, mi: u32, s: u32, n: u32) -> (r: Option<SqlTime>)
        ensures
            (time_text(h as int, mi as int, s as int, n as int) is Some) <==> r is Some,
            r matches Some(v) ==> v.parts() == (h as int, mi as int, s as int, n as int),
    {
        if time_ok(h, mi, s, n) {
            Some(SqlTime { hour: h, minute: mi, second: s, nano: n })
        } else {
            None
        }
    }

    pub fn hour(&self) -> (v: u32)
        ensures v as int == self.parts().0,
    {
        self.hour
    }

    pub fn minute(&self) -> (v: u32)
        ensures v as int == self.parts().1,
    {
        self.minute
    }

    pub fn second(&self) -> (v: u32)
        ensures v as int == self.parts().2,
    {
        self.second
    }

    pub fn nanosecond(&self) -> (v: u32)
        ensures v as int == self.parts().3,
    {
        self.nano
    }

    /// `HH:MM:SS.fffffff`
    pub fn to_text(&self) -> (s: String)
        ensures
            time_text(self.parts().0, self.parts().1, self.parts().2, self.parts().3) == Some(s@),
    {
        proof {
            use_type_invariant(self);
        }
        let mut s = String::new();
        push_time(&mut s, self.hour, self.minute, self.second, self.nano);
        s
    }

    /// The time as chrono's `Debug` writes it.
    pub fn debug_text(&self) -> (s: String)
        ensures
            s@ == time_debug(self.parts()),
    {
        proof {
            use_type_invariant(self);
        }
        let leap = self.nano >= 1_000_000_000;
        let sec: u32 = if leap { self.second + 1 } else { self.second };
        let nano: u32 = if leap { self.nano - 1_000_000_000 } else { self.nano };
        let mut s = String::new();
        push_padded(&mut s, self.hour as u64, 2);
        push_char(&mut s, ':');
        push_padded(&mut s, self.minute as u64, 2);
        push_char(&mut s, ':');
        push_padded(&mut s, sec as u64, 2);
        let ghost head = s@;
        if nano == 0 {
        } else if nano % 1_000_000 == 0 {
            push_char(&mut s, '.');
            push_padded(&mut s, (nano / 1_000_000) as u64, 3);
        } else if nano % 1_000 == 0 {
            push_char(&mut s, '.');
            push_padded(&mut s, (nano / 1_000) as u64, 6);
        } else {
            push_char(&mut s, '.');
            push_padded(&mut s, nano as u64, 9);
        }
        proof {
            reveal_strlit(":");
            reveal_strlit(".");
            assert(s@ =~= head + fraction_debug(nano as int));
        }
        assert(s@ =~= time_debug(self.parts()));
        s
    }

    /// Parses `text` with a chrono format string; the error is chrono's message.
    pub fn parse(text: &str, fmt: &str) -> (r: Result<SqlTime, String>)
        ensures
            match time_parse(text@, fmt@) {
                Ok(p) => r matches Ok(v) && v.parts() == p,
                Err(e) => r matches Err(m) && m@ == e,
            },
    {
        match parse_time(text, fmt) {
            Ok((h, mi, s, n)) => Ok(SqlTime { hour: h, minute: mi, second: s, nano: n }),
            Err(e) => Err(e),
        }
    }
}

impl SqlDateTime {
    #[verifier::type_invariant]
    spec fn inv(self) -> bool {
        datetime_text(self.date.parts(), self.time.parts()) is Some
    }

    pub closed spec fn parts(self) -> ((int, int, int), (int, int, int, int)) {
        (self.date.parts(), self.time.parts())
    }

    /// The UTC timestamp at `time` on `date`.
    pub fn new(date: SqlDate, time: SqlTime) -> (v: SqlDateTime)
        ensures
            v.parts() == (date.parts(), time.parts()),
    {
        proof {
            use_type_invariant(&date);
            use_type_invariant(&time);
        }
        SqlDateTime { date, time }
    }

    pub fn date(&self) -> (d: SqlDate)
        ensures d.parts() == self.parts().0,
    {
        self.date
    }

    pub fn time(&self) -> (t: SqlTime)
        ensures t.parts() == self.parts().1,
    {
        self.time
    }

    /// `YYYY-MM-DD HH:MM:SS.fffffff`
    pub fn to_text(&self) -> (s: String)
        ensures
            datetime_text(self.parts().0, self.parts().1) == Some(s@),
    {
        proof {
            use_type_invariant(self);
            use_type_invariant(&self.date);
            use_type_invariant(&self.time);
        }
        let d = self.date;
        let t = self.time;
        let mut s = format_date(d.year, d.month, d.day).unwrap();
        push_char(&mut s, ' ');
        push_time(&mut s, t.hour, t.minute, t.second, t.nano);
        proof {
            reveal_strlit(" ");
        }
        assert(s@ =~= datetime_text(self.parts().0, self.parts().1)->0);
        s
    }

    /// Parses `text` as a naive timestamp with a chrono format string, read as UTC.
    pub fn parse_naive(text: &str, fmt: &str) -> (r: Result<SqlDateTime, String>)
        ensures
            match naive_datetime_parse(text@, fmt@) {
                Ok(p) => r matches Ok(v) && v.parts() == p,
                Err(e) => r matches Err(m) && m@ == e,
            },
    {
        match parse_naive_datetime(text, fmt) {
            Ok((d, t)) => Ok(SqlDateTime {
                date: SqlDate { year: d.0, month: d.1, day: d.2 },
                time: SqlTime { hour: t.0, minute: t.1, second: t.2, nano: t.3 },
            }),
            Err(e) => Err(e),
        }
    }

    /// Parses `text` with `DateTime<Utc>`'s `FromStr` (RFC 3339 and close variants).
    pub fn parse_utc(text: &str) -> (r: Result<SqlDateTime, String>)
        ensures
            match utc_datetime_parse(text@) {
                Ok(p) => r matches Ok(v) && v.parts() == p,
                Err(e) => r matches Err(m) && m@ == e,
            },
    {
        match parse_utc_datetime(text) {
            Ok((d, t)) => Ok(SqlDateTime {
                date: SqlDate { year: d.0, month: d.1, day: d.2 },
                time: SqlTime { hour: t.0, minute: t.1, second: t.2, nano: t.3 },
            }),
            Err(e) => Err(e),
        }
    }
}

impl SqlDateTimeOffset {
    #[verifier::type_invariant]
    spec fn inv(self) -> bool {
        datetime_offset_text(self.date.parts(), self.time.parts(), self.offset_secs as int) is Some
    }

    pub closed spec fn parts(self) -> ((int, int, int), (int, int, int, int), int) {
        (self.date.parts(), self.time.parts(), self.offset_secs as int)
    }

    /// The local timestamp `time` on `date` at `offset_secs` east of UTC, or `None` when
    /// chrono rejects it.
    pub fn new(date: SqlDate, time: SqlTime, offset_secs: i32) -> (r: Option<SqlDateTimeOffset>)
        ensures
            (datetime_offset_text(date.parts(), time.parts(), offset_secs as int) is Some) <==> r is Some,
            r matches Some(v) ==> v.parts() == (date.parts(), time.parts(), offset_secs as int),
    {
        proof {
            use_type_invariant(&date);
            use_type_invariant(&time);
        }
        if offset_ok(offset_secs)
            && local_datetime_ok(date.year, date.month, date.day, time.hour, time.minute, time.second, time.nano, offset_secs)
        {
            Some(SqlDateTimeOffset { date, time, offset_secs })
        } else {
            None
        }
    }

    pub fn date(&self) -> (d: SqlDate)
        ensures d.parts() == self.parts().0,
    {
        self.date
    }

    pub fn time(&self) -> (t: SqlTime)
        ensures t.parts() == self.parts().1,
    {
        self.time
    }

    pub fn offset_secs(&self) -> (o: i32)
        ensures o as int == self.parts().2,
    {
        self.offset_secs
    }

    /// The offset as chrono's `Debug` writes it.
    pub fn offset_debug_text(&self) -> (s: String)
        ensures
            s@ == offset_debug(self.parts().2),
    {
        proof {
            use_type_invariant(self);
        }
        let off = self.offset_secs;
        let a: u64 = if off < 0 { (-off) as u64 } else { off as u64 };
        let mut s = String::new();
        push_char(&mut s, if off < 0 { '-' } else { '+' });
        push_padded(&mut s, a / 3600, 2);
        push_char(&mut s, ':');
        push_padded(&mut s, (a / 60) % 60, 2);
        let ghost head = s@;
        if a % 60 != 0 {
            push_char(&mut s, ':');
            push_padded(&mut s, a % 60, 2);
        }
        proof {
            reveal_strlit(":");
            assert(a / 3600 == a / 60 / 60) by (nonlinear_arith)
                requires a >= 0;
        }
        assert(s@ =~= offset_debug(self.parts().2));
        s
    }

    /// `YYYY-MM-DD HH:MM:SS.fffffff +HH:MM`
    pub fn to_text(&self) -> (s: String)
        ensures
            datetime_offset_text(self.parts().0, self.parts().1, self.parts().2) == Some(s@),
    {
        proof {
            use_type_invariant(self);
            use_type_invariant(&self.date);
            use_type_invariant(&self.time);
        }
        let d = self.date;
        let t = self.time;
        let mut s = format_date(d.year, d.month, d.day).unwrap();
        push_char(&mut s, ' ');
        push_time(&mut s, t.hour, t.minute, t.second, t.nano);
        push_char(&mut s, ' ');
        push_offset(&mut s, self.offset_secs);
        proof {
            reveal_strlit(" ");
        }
        assert(s@ =~= datetime_offset_text(self.parts().0, self.parts().1, self.parts().2)->0);
        s
    }

    /// Parses `text` with a chrono format string that includes an offset.
    pub fn parse(text: &str, fmt: &str) -> (r: Result<SqlDateTimeOffset, String>)
        ensures
            match offset_datetime_parse(text@, fmt@) {
                Ok(p) => r matches Ok(v) && v.parts() == p,
                Err(e) => r matches Err(m) && m@ == e,
            },
    {
        match parse_offset_datetime(text, fmt) {
            Ok((d, t, o)) => Ok(SqlDateTimeOffset {
                date: SqlDate { year: d.0, month: d.1, day: d.2 },
                time: SqlTime { hour: t.0, minute: t.1, second: t.2, nano: t.3 },
                offset_secs: o,
            }),
            Err(e) => Err(e),
        }
    }

    /// Parses RFC 3339 text.
    pub fn parse_rfc3339(text: &str) -> (r: Result<SqlDateTimeOffset, String>)
        ensures
            match rfc3339_parse(text@) {
                Ok(p) => r matches Ok(v) && v.parts() == p,
                Err(e) => r matches Err(m) && m@ == e,
            },
    {
        match parse_rfc3339_datetime(text) {
            Ok((d, t, o)) => Ok(SqlDateTimeOffset {
                date: SqlDate { year: d.0, month: d.1, day: d.2 },
                time: SqlTime { hour: t.0, minute: t.1, second: t.2, nano: t.3 },
                offset_secs: o,
            }),
            Err(e) => Err(e),
        }
    }
}

// ── chrono calls ─────────────────────────────────────────────────────────────

/// `NaiveDate::from_ymd_opt(y, m, d)` formatted with `%Y-%m-%d`.
#[verifier::external_body]
fn format_date(y: i32, m: u32, d: u32) -> (r: Option<String>)
    ensures
        match date_text(y as int, m as int, d as int) {
            Some(t) => r matches Some(s) && s@ == t,
            None => r is None,
        },
{
    match chrono::NaiveDate::from_ymd_opt(y, m, d) {
        Some(v) => Some(v.format("%Y-%m-%d").to_string()),
        None => None,
    }
}

/// `NaiveTime::from_hms_nano_opt(h, mi, s, n).is_some()`: whether chrono accepts the time.
#[verifier::external_body]
fn time_ok(h: u32, mi: u32, s: u32, n: u32) -> (b: bool)
    ensures
        b == time_valid(h as int, mi as int, s as int, n as int),
{
    chrono::NaiveTime::from_hms_nano_opt(h, mi, s, n).is_some()
}

/// `FixedOffset::east_opt(off).is_some()`: chrono accepts offsets strictly within a day.
#[verifier::external_body]
fn offset_ok(off: i32) -> (b: bool)
    ensures
        b == (-86_400 < off < 86_400),
{
    chrono::FixedOffset::east_opt(off).is_some()
}

/// `FixedOffset::from_local_datetime(..).single().is_some()` for a valid date, time and
/// offset: whether chrono gives the timestamp.
#[verifier::external_body]
fn local_datetime_ok(y: i32, m: u32, d: u32, h: u32, mi: u32, s: u32, n: u32, off: i32) -> (b: bool)
    requires
        date_text(y as int, m as int, d as int) is Some,
        time_valid(h as int, mi as int, s as int, n as int),
        -86_400 < off < 86_400,
    ensures
        b == local_datetime_single((y as int, m as int, d as int), (h as int, mi as int, s as int, n as int), off as int),
{
    let local = chrono::NaiveDateTime::new(
        chrono::NaiveDate::from_ymd_opt(y, m, d).unwrap(),
        chrono::NaiveTime::from_hms_nano_opt(h, mi, s, n).unwrap(),
    );
    chrono::FixedOffset::east_opt(off).unwrap().from_local_datetime(&local).single().is_some()
}

/// Appends the text of a valid time: `HH:MM:SS`, a dot and seven digits of 100-nanosecond
/// units.
fn push_time(out: &mut String, h: u32, mi: u32, s: u32, n: u32)
    requires
        time_valid(h as int, mi as int, s as int, n as int),
    ensures
        final(out)@ == old(out)@ + time_format(h as int, mi as int, s as int, n as int),
{
    push_padded(out, h as u64, 2);
    push_char(out, ':');
    push_padded(out, mi as u64, 2);
    push_char(out, ':');
    push_padded(out, (s + n / 1_000_000_000) as u64, 2);
    push_char(out, '.');
    push_padded(out, ((n % 1_000_000_000) / 100) as u64, 7);
    proof {
        reveal_strlit(":");
        reveal_strlit(".");
    }
    assert(out@ =~= old(out)@ + time_format(h as int, mi as int, s as int, n as int));
}

/// Appends a UTC offset as `%:z` writes it: sign, hours, `:`, minutes (rounded to the
/// nearest minute).
fn push_offset(out: &mut String, off: i32)
    requires
        -86_400 < off < 86_400,
    ensures
        final(out)@ == old(out)@ + offset_text(off as int),
{
    let a: u64 = if off < 0 { (-off) as u64 } else { off as u64 };
    let m: u64 = (a + 30) / 60;
    push_char(out, if off < 0 { '-' } else { '+' });
    push_padded(out, m / 60, 2);
    push_char(out, ':');
    push_padded(out, m % 60, 2);
    proof {
        reveal_strlit(":");
    }
    assert(out@ =~= old(out)@ + offset_text(off as int));
}

/// `NaiveDate::parse_from_str(text, fmt)`: the parsed date's parts, or chrono's message.
#[verifier::external_body]
fn parse_date(text: &str, fmt: &str) -> (r: Result<(i32, u32, u32), String>)
    ensures
        match date_parse(text@, fmt@) {
            Ok(p) => r matches Ok(v) && (v.0 as int, v.1 as int, v.2 as int) == p
                && date_text(p.0, p.1, p.2) is Some,
            Err(e) => r matches Err(m) && m@ == e,
        },
{
    match chrono::NaiveDate::parse_from_str(text, fmt) {
        Ok(v) => Ok((v.year(), v.month(), v.day())),
        Err(e) => Err(e.to_string()),
    }
}

/// `NaiveTime::parse_from_str(text, fmt)`: the parsed time's parts, or chrono's message.
#[verifier::external_body]
fn parse_time(text: &str, fmt: &str) -> (r: Result<(u32, u32, u32, u32), String>)
    ensures
        match time_parse(text@, fmt@) {
            Ok(p) => r matches Ok(v) && (v.0 as int, v.1 as int, v.2 as int, v.3 as int) == p
                && time_text(p.0, p.1, p.2, p.3) is Some,
            Err(e) => r matches Err(m) && m@ == e,
        },
{
    match chrono::NaiveTime::parse_from_str(text, fmt) {
        Ok(v) => Ok((v.hour(), v.minute(), v.second(), v.nanosecond())),
        Err(e) => Err(e.to_string()),
    }
}

/// `NaiveDateTime::parse_from_str(text, fmt)`: the parsed timestamp's parts, or chrono's message.
#[verifier::external_body]
fn parse_naive_datetime(text: &str, fmt: &str) -> (r: Result<((i32, u32, u32), (u32, u32, u32, u32)), String>)
    ensures
        match naive_datetime_parse(text@, fmt@) {
            Ok(p) => r matches Ok(v) && (v.0.0 as int, v.0.1 as int, v.0.2 as int) == p.0
                && (v.1.0 as int, v.1.1 as int, v.1.2 as int, v.1.3 as int) == p.1
                && date_text(p.0.0, p.0.1, p.0.2) is Some && time_text(p.1.0, p.1.1, p.1.2, p.1.3) is Some
                && datetime_text(p.0, p.1) is Some,
            Err(e) => r matches Err(m) && m@ == e,
        },
{
    match chrono::NaiveDateTime::parse_from_str(text, fmt) {
        Ok(v) => Ok(((v.year(), v.month(), v.day()), (v.hour(), v.minute(), v.second(), v.nanosecond()))),
        Err(e) => Err(e.to_string()),
    }
}

/// `str::parse::<DateTime<Utc>>()`: the parsed UTC timestamp's parts, or chrono's message.
#[verifier::external_body]
fn parse_utc_datetime(text: &str) -> (r: Result<((i32, u32, u32), (u32, u32, u32, u32)), String>)
    ensures
        match utc_datetime_parse(text@) {
            Ok(p) => r matches Ok(v) && (v.0.0 as int, v.0.1 as int, v.0.2 as int) == p.0
                && (v.1.0 as int, v.1.1 as int, v.1.2 as int, v.1.3 as int) == p.1
                && date_text(p.0.0, p.0.1, p.0.2) is Some && time_text(p.1.0, p.1.1, p.1.2, p.1.3) is Some
                && datetime_text(p.0, p.1) is Some,
            Err(e) => r matches Err(m) && m@ == e,
        },
{
    match text.parse::<chrono::DateTime<chrono::Utc>>() {
        Ok(v) => {
            let n = v.naive_utc();
            Ok(((n.year(), n.month(), n.day()), (n.hour(), n.minute(), n.second(), n.nanosecond())))
        },
        Err(e) => Err(e.to_string()),
    }
}

/// `DateTime::parse_from_str(text, fmt)`: the parsed local timestamp's parts and offset, or
/// chrono's message.
#[verifier::external_body]
fn parse_offset_datetime(text: &str, fmt: &str) -> (r: Result<((i32, u32, u32), (u32, u32, u32, u32), i32), String>)
    ensures
        match offset_datetime_parse(text@, fmt@) {
            Ok(p) => r matches Ok(v) && (v.0.0 as int, v.0.1 as int, v.0.2 as int) == p.0
                && (v.1.0 as int, v.1.1 as int, v.1.2 as int, v.1.3 as int) == p.1 && v.2 as int == p.2
                && date_text(p.0.0, p.0.1, p.0.2) is Some && time_text(p.1.0, p.1.1, p.1.2, p.1.3) is Some
                && datetime_offset_text(p.0, p.1, p.2) is Some,
            Err(e) => r matches Err(m) && m@ == e,
        },
{
    match chrono::DateTime::parse_from_str(text, fmt) {
        Ok(v) => {
            let n = v.naive_local();
            Ok(((n.year(), n.month(), n.day()), (n.hour(), n.minute(), n.second(), n.nanosecond()), v.offset().local_minus_utc()))
        },
        Err(e) => Err(e.to_string()),
    }
}

/// `DateTime::parse_from_rfc3339(text)`: the parsed local timestamp's parts and offset, or
/// chrono's message.
#[verifier::external_body]
fn parse_rfc3339_datetime(text: &str) -> (r: Result<((i32, u32, u32), (u32, u32, u32, u32), i32), String>)
    ensures
        match rfc3339_parse(text@) {
            Ok(p) => r matches Ok(v) && (v.0.0 as int, v.0.1 as int, v.0.2 as int) == p.0
                && (v.1.0 as int, v.1.1 as int, v.1.2 as int, v.1.3 as int) == p.1 && v.2 as int == p.2
                && date_text(p.0.0, p.0.1, p.0.2) is Some && time_text(p.1.0, p.1.1, p.1.2, p.1.3) is Some
                && datetime_offset_text(p.0, p.1, p.2) is Some,
            Err(e) => r matches Err(m) && m@ == e,
        },
{
    match chrono::DateTime::parse_from_rfc3339(text) {
        Ok(v) => {
            let n = v.naive_local();
            Ok(((n.year(), n.month(), n.day()), (n.hour(), n.minute(), n.second(), n.nanosecond()), v.offset().local_minus_utc()))
        },
        Err(e) => Err(e.to_string()),
    }
}

} // verus!
