//! Parameter binding: `@name` placeholders become positional `?` markers.
//!
//! Values are never embedded in the SQL text: each `?` is bound to a parameter
//! value, which keeps execution-plan caching working and rules out SQL injection.
use vstd::prelude::*;
use crate::params::{OdbcParam, ParamValue, ParamView};
use crate::text::{chars_of, is_word_char, push_char, word_char};

verus! {

/// `name` occurs in `s` at `pos` and is not followed by another identifier character.
pub open spec fn name_at(s: Seq<char>, pos: int, name: Seq<char>) -> bool {
    &&& 0 <= pos
    &&& pos + name.len() <= s.len()
    &&& s.subrange(pos, pos + name.len()) == name
    &&& (pos + name.len() == s.len() || !word_char(s[pos + name.len()]))
}

/// `j` is the parameter bound at `pos`: the longest name found there, the first such
/// parameter among equally long ones.
pub open spec fn is_best(s: Seq<char>, pos: int, names: Seq<Seq<char>>, j: int) -> bool {
    &&& 0 <= j < names.len()
    &&& name_at(s, pos, names[j])
    &&& forall|k: int|
        0 <= k < names.len() && #[trigger] name_at(s, pos, names[k]) ==> names[k].len() < names[j].len()
            || (names[k].len() == names[j].len() && j <= k)
}

pub open spec fn best_at(s: Seq<char>, pos: int, names: Seq<Seq<char>>) -> Option<int> {
    if exists|j: int| is_best(s, pos, names, j) {
        Some(choose|j: int| is_best(s, pos, names, j))
    } else {
        None
    }
}

/// The rewritten SQL from `pos` on, and the parameters bound to its `?` markers in order.
pub open spec fn positional(s: Seq<char>, names: Seq<Seq<char>>, pos: int) -> (Seq<char>, Seq<int>)
    decreases s.len() - pos,
{
    if pos < 0 || pos >= s.len() {
        (Seq::empty(), Seq::empty())
    } else if s[pos] == '@' && best_at(s, pos + 1, names) is Some
        && pos + 1 + names[best_at(s, pos + 1, names)->0].len() <= s.len() {
        let j = best_at(s, pos + 1, names)->0;
        let rest = positional(s, names, pos + 1 + names[j].len());
        (seq!['?'] + rest.0, seq![j] + rest.1)
    } else {
        let rest = positional(s, names, pos + 1);
        (seq![s[pos]] + rest.0, rest.1)
    }
}

pub open spec fn param_names(params: Seq<OdbcParam>) -> Seq<Seq<char>> {
    params.map_values(|p: OdbcParam| p.name@)
}

fn name_at_exec(s: &Vec<char>, pos: usize, name: &Vec<char>) -> (b: bool)
    ensures
        b == name_at(s@, pos as int, name@),
{
    let n = name.len();
    if n > s.len() || pos > s.len() - n {
        return false;
    }
    let sl = s.len();
    let mut k: usize = 0;
    while k < n
        invariant
            n == name@.len(),
            sl == s@.len(),
            pos + n <= sl,
            k <= n,
            forall|t: int| 0 <= t < k ==> s@[pos + t] == name@[t],
        decreases n - k,
    {
        if s[pos + k] != name[k] {
            assert(s@.subrange(pos as int, pos + n)[k as int] != name@[k as int]);
            return false;
        }
        k = k + 1;
    }
    assert(s@.subrange(pos as int, pos + n) =~= name@);
    pos + n == s.len() || !is_word_char(s[pos + n])
}

fn find_best(s: &Vec<char>, pos: usize, names: &Vec<Vec<char>>) -> (r: Option<usize>)
    ensures
        match best_at(s@, pos as int, names@.map_values(|v: Vec<char>| v@)) {
            Some(j) => r matches Some(b) && b as int == j,
            None => r is None,
        },
{
    let ghost nv = names@.map_values(|v: Vec<char>| v@);
    let mut cur: Option<usize> = None;
    let mut j: usize = 0;
    while j < names.len()
        invariant
            nv == names@.map_values(|v: Vec<char>| v@),
            j <= names@.len(),
            cur is None ==> forall|k: int| 0 <= k < j ==> !name_at(s@, pos as int, #[trigger] nv[k]),
            cur matches Some(b) ==> {
                &&& b < j
                &&& name_at(s@, pos as int, nv[b as int])
                &&& forall|k: int|
                    0 <= k < j && #[trigger] name_at(s@, pos as int, nv[k]) ==> nv[k].len() < nv[b as int].len()
                        || (nv[k].len() == nv[b as int].len() && b <= k)
            },
        decreases names@.len() - j,
    {
        if name_at_exec(s, pos, &names[j]) {
            match cur {
                None => {
                    cur = Some(j);
                },
                Some(b) => {
                    if names[j].len() > names[b].len() {
                        cur = Some(j);
                    }
                },
            }
        }
        j = j + 1;
    }
    match cur {
        Some(b) => {
            assert(is_best(s@, pos as int, nv, b as int));
            let ghost c = choose|k: int| is_best(s@, pos as int, nv, k);
            assert(c == b as int) by {
                assert(is_best(s@, pos as int, nv, c));
            }
        },
        None => {
            assert(!exists|k: int| is_best(s@, pos as int, nv, k));
        },
    }
    cur
}

/// Rewrites every `@name` placeholder that names a parameter into a positional `?`,
/// and lists, in marker order, the index of the parameter each `?` binds.
///
/// Names are tried longest first, so `@id_suffix` is never taken for `@id`; a name only
/// matches when the next character does not continue an identifier. An `@` that names no
/// parameter (a system variable such as `@@ROWCOUNT`) is left as it is.
pub fn params_to_positional(sql: &str, params: &[OdbcParam]) -> (r: (String, Vec<usize>))
    ensures
        r.0@ == positional(sql@, param_names(params@), 0).0,
        r.1@.len() == positional(sql@, param_names(params@), 0).1.len(),
        forall|k: int| 0 <= k < r.1@.len() ==> r.1@[k] as int == #[trigger] positional(sql@, param_names(params@), 0).1[k],
{
    let s = chars_of(sql);
    let mut names: Vec<Vec<char>> = Vec::new();
    let mut t: usize = 0;
    while t < params.len()
        invariant
            t <= params@.len(),
            names@.len() == t,
            forall|k: int| 0 <= k < t ==> (#[trigger] names@[k])@ == params@[k].name@,
        decreases params@.len() - t,
    {
        names.push(chars_of(params[t].name.as_str()));
        t = t + 1;
    }
    let ghost nv = names@.map_values(|v: Vec<char>| v@);
    assert(nv =~= param_names(params@));
    let ghost full = positional(sql@, nv, 0);

    let mut out = String::new();
    let mut bound: Vec<usize> = Vec::new();
    let mut i: usize = 0;
    let n = s.len();
    while i < n
        invariant
            n == s@.len(),
            s@ == sql@,
            nv == names@.map_values(|v: Vec<char>| v@),
            full == positional(sql@, nv, 0),
            i <= n,
            full.0 == out@ + positional(sql@, nv, i as int).0,
            full.1 == bound@.map_values(|x: usize| x as int) + positional(sql@, nv, i as int).1,
        decreases n - i,
    {
        let ghost rest_here = positional(sql@, nv, i as int);
        let c = s[i];
        if c == '@' {
            let b = find_best(&s, i + 1, &names);
            match b {
                Some(j) => {
                    let len = names[j].len();
                    assert(name_at(sql@, i + 1, nv[j as int]));
                    let ghost next = positional(sql@, nv, i + 1 + len);
                    assert(rest_here == (seq!['?'] + next.0, seq![j as int] + next.1));
                    push_char(&mut out, '?');
                    let ghost old_bound = bound@;
                    bound.push(j);
                    assert(bound@.map_values(|x: usize| x as int) =~= old_bound.map_values(|x: usize| x as int).push(j as int));
                    i = i + 1 + len;
                    assert(full.0 =~= out@ + next.0);
                    assert(full.1 =~= bound@.map_values(|x: usize| x as int) + next.1);
                },
                None => {
                    let ghost next = positional(sql@, nv, i + 1);
                    assert(rest_here == (seq![c] + next.0, next.1));
                    push_char(&mut out, '@');
                    i = i + 1;
                    assert(full.0 =~= out@ + next.0);
                },
            }
        } else {
            let ghost next = positional(sql@, nv, i + 1);
            assert(rest_here == (seq![c] + next.0, next.1));
            push_char(&mut out, c);
            i = i + 1;
            assert(full.0 =~= out@ + next.0);
        }
    }
    assert(full.0 =~= out@);
    assert(full.1 =~= bound@.map_values(|x: usize| x as int));
    (out, bound)
}

} // verus!

verus! {

/// `s` with every `'` doubled (T-SQL string escaping).
pub open spec fn escape_quotes(s: Seq<char>) -> Seq<char>
    decreases s.len(),
{
    if s.len() == 0 {
        Seq::empty()
    } else if s.last() == '\'' {
        escape_quotes(s.drop_last()) + seq!['\'', '\'']
    } else {
        escape_quotes(s.drop_last()).push(s.last())
    }
}

pub open spec fn hex_digit(d: nat) -> char {
    if d < 10 { crate::text::digit_char(d) } else if d == 10 { 'A' } else if d == 11 { 'B' } else if d == 12 { 'C' }
    else if d == 13 { 'D' } else if d == 14 { 'E' } else { 'F' }
}

/// Upper-case hex, two digits per byte.
pub open spec fn hex_upper(b: Seq<u8>) -> Seq<char>
    decreases b.len(),
{
    if b.len() == 0 {
        Seq::empty()
    } else {
        hex_upper(b.drop_last()) + seq![hex_digit((b.last() / 16) as nat), hex_digit((b.last() % 16) as nat)]
    }
}

/// The T-SQL literal of a parameter value; floating-point values have none here.
pub open spec fn sql_literal(v: ParamView) -> Option<Seq<char>> {
    match v {
        ParamView::Bool(b) => Some(if b { "1"@ } else { "0"@ }),
        ParamView::U8(x) => Some(crate::text::int_text(x as int)),
        ParamView::I16(x) => Some(crate::text::int_text(x as int)),
        ParamView::I32(x) => Some(crate::text::int_text(x as int)),
        ParamView::I64(x) => Some(crate::text::int_text(x as int)),
        ParamView::F32(_) => None,
        ParamView::F64(_) => None,
        ParamView::Decimal(d) => Some(crate::values::decimal_text(d.mantissa_spec(), d.scale_spec())),
        ParamView::Str(s) => Some("N'"@ + escape_quotes(s) + "'"@),
        ParamView::Bytes(b) => Some("0x"@ + hex_upper(b)),
        ParamView::NaiveDate(d) => Some("'"@ + crate::values::date_text(d.parts().0, d.parts().1, d.parts().2)->0 + "'"@),
        ParamView::NaiveTime(t) => Some("'"@ + crate::values::time_text(t.parts().0, t.parts().1, t.parts().2, t.parts().3)->0 + "'"@),
        ParamView::DateTime(t) => Some("'"@ + crate::values::datetime_text(t.parts().0, t.parts().1)->0 + "'"@),
        ParamView::DateTimeOffset(t) => Some("'"@ + crate::values::datetime_offset_text(t.parts().0, t.parts().1, t.parts().2)->0 + "'"@),
        ParamView::Guid(g) => Some("'"@ + crate::values::guid_text(g as int) + "'"@),
        ParamView::Null => Some("NULL"@),
    }
}

fn hex_digit_exec(d: u8) -> (c: char)
    requires
        d < 16,
    ensures
        c == hex_digit(d as nat),
{
    if d == 0 { '0' } else if d == 1 { '1' } else if d == 2 { '2' } else if d == 3 { '3' }
    else if d == 4 { '4' } else if d == 5 { '5' } else if d == 6 { '6' } else if d == 7 { '7' }
    else if d == 8 { '8' } else if d == 9 { '9' } else if d == 10 { 'A' } else if d == 11 { 'B' }
    else if d == 12 { 'C' } else if d == 13 { 'D' } else if d == 14 { 'E' } else { 'F' }
}

fn push_quoted(out: &mut String, s: &str)
    ensures
        final(out)@ == old(out)@ + escape_quotes(s@),
{
    let c = chars_of(s);
    let mut i: usize = 0;
    while i < c.len()
        invariant
            c@ == s@,
            i <= c@.len(),
            out@ == old(out)@ + escape_quotes(c@.take(i as int)),
        decreases c@.len() - i,
    {
        assert(c@.take(i as int + 1).drop_last() =~= c@.take(i as int));
        if c[i] == '\'' {
            push_char(out, '\'');
            push_char(out, '\'');
            assert(out@ =~= old(out)@ + escape_quotes(c@.take(i as int + 1)));
        } else {
            push_char(out, c[i]);
            assert(out@ =~= old(out)@ + escape_quotes(c@.take(i as int + 1)));
        }
        i = i + 1;
    }
    assert(c@.take(c@.len() as int) =~= c@);
}

fn push_hex(out: &mut String, b: &Vec<u8>)
    ensures
        final(out)@ == old(out)@ + hex_upper(b@),
{
    let mut i: usize = 0;
    while i < b.len()
        invariant
            i <= b@.len(),
            out@ == old(out)@ + hex_upper(b@.take(i as int)),
        decreases b@.len() - i,
    {
        assert(b@.take(i as int + 1).drop_last() =~= b@.take(i as int));
        let x = b[i];
        push_char(out, hex_digit_exec(x / 16));
        push_char(out, hex_digit_exec(x % 16));
        assert(out@ =~= old(out)@ + hex_upper(b@.take(i as int + 1)));
        i = i + 1;
    }
    assert(b@.take(b@.len() as int) =~= b@);
}

fn wrap_quotes(inner: String) -> (s: String)
    ensures
        s@ == "'"@ + inner@ + "'"@,
{
    let mut s = String::from_str("'");
    s.append(inner.as_str());
    s.append("'");
    s
}

/// The T-SQL literal of a value; `None` for floating-point values, which the
/// application renders itself.
pub fn param_to_sql_literal(value: &ParamValue) -> (r: Option<String>)
    ensures
        match sql_literal(value@) {
            Some(t) => r matches Some(s) && s@ == t,
            None => r is None,
        },
{
    match value {
        ParamValue::Bool(v) => Some(String::from_str(if *v { "1" } else { "0" })),
        ParamValue::U8(v) => {
            let mut s = String::new();
            crate::text::push_i128(&mut s, *v as i128);
            Some(s)
        },
        ParamValue::I16(v) => {
            let mut s = String::new();
            crate::text::push_i128(&mut s, *v as i128);
            Some(s)
        },
        ParamValue::I32(v) => {
            let mut s = String::new();
            crate::text::push_i128(&mut s, *v as i128);
            Some(s)
        },
        ParamValue::I64(v) => {
            let mut s = String::new();
            crate::text::push_i128(&mut s, *v as i128);
            Some(s)
        },
        ParamValue::F32(_) => None,
        ParamValue::F64(_) => None,
        ParamValue::Decimal(d) => Some(d.to_text()),
        ParamValue::Str(v) => {
            let mut s = String::from_str("N'");
            push_quoted(&mut s, v.as_str());
            s.append("'");
            Some(s)
        },
        ParamValue::Bytes(v) => {
            let mut s = String::from_str("0x");
            push_hex(&mut s, v);
            Some(s)
        },
        ParamValue::NaiveDate(d) => Some(wrap_quotes(d.to_text())),
        ParamValue::NaiveTime(t) => Some(wrap_quotes(t.to_text())),
        ParamValue::DateTime(t) => Some(wrap_quotes(t.to_text())),
        ParamValue::DateTimeOffset(t) => Some(wrap_quotes(t.to_text())),
        ParamValue::Guid(g) => Some(wrap_quotes(crate::values::guid_to_string(*g))),
        ParamValue::Null => Some(String::from_str("NULL")),
    }
}

} // verus!
