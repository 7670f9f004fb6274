//! Text-level parsing used when reading cells: whitespace trimming, ASCII case folding
//! and the standard library's integer syntax.
use vstd::prelude::*;

verus! {

/// `char::is_whitespace`: the Unicode `White_Space` characters.
pub open spec fn is_ws(c: char) -> bool {
    ('\u{9}' <= c <= '\u{d}') || c == ' ' || c == '\u{85}' || c == '\u{a0}' || c == '\u{1680}'
        || ('\u{2000}' <= c <= '\u{200a}') || c == '\u{2028}' || c == '\u{2029}' || c == '\u{202f}'
        || c == '\u{205f}' || c == '\u{3000}'
}

pub fn is_ws_exec(c: char) -> (b: bool)
    ensures
        b == is_ws(c),
{
    ('\u{9}' <= c && c <= '\u{d}') || c == ' ' || c == '\u{85}' || c == '\u{a0}' || c == '\u{1680}'
        || ('\u{2000}' <= c && c <= '\u{200a}') || c == '\u{2028}' || c == '\u{2029}' || c == '\u{202f}'
        || c == '\u{205f}' || c == '\u{3000}'
}

pub open spec fn trim_start(s: Seq<char>) -> Seq<char>
    decreases s.len(),
{
    if s.len() > 0 && is_ws(s[0]) { trim_start(s.drop_first()) } else { s }
}

pub open spec fn trim_end(s: Seq<char>) -> Seq<char>
    decreases s.len(),
{
    if s.len() > 0 && is_ws(s.last()) { trim_end(s.drop_last()) } else { s }
}

/// `str::trim`: leading and trailing whitespace removed.
pub open spec fn trim(s: Seq<char>) -> Seq<char> {
    trim_end(trim_start(s))
}

proof fn lemma_trim_start_skip(s: Seq<char>, a: int)
    requires
        0 <= a <= s.len(),
        forall|k: int| 0 <= k < a ==> is_ws(s[k]),
    ensures
        trim_start(s) == trim_start(s.skip(a)),
    decreases a,
{
    if a > 0 {
        assert(s.drop_first().skip(a - 1) =~= s.skip(a));
        lemma_trim_start_skip(s.drop_first(), a - 1);
    } else {
        assert(s.skip(0) =~= s);
    }
}

proof fn lemma_trim_end_take(s: Seq<char>, b: int)
    requires
        0 <= b <= s.len(),
        forall|k: int| b <= k < s.len() ==> is_ws(s[k]),
    ensures
        trim_end(s) == trim_end(s.take(b)),
    decreases s.len() - b,
{
    if b < s.len() {
        assert(s.drop_last().take(b) =~= s.take(b));
        lemma_trim_end_take(s.drop_last(), b);
    } else {
        assert(s.take(b) =~= s);
    }
}

/// The trimmed characters of `s`.
pub fn trim_chars(s: &Vec<char>) -> (r: Vec<char>)
    ensures
        r@ == trim(s@),
{
    let n = s.len();
    let mut a: usize = 0;
    while a < n && is_ws_exec(s[a])
        invariant
            n == s@.len(),
            a <= n,
            forall|k: int| 0 <= k < a ==> is_ws(s@[k]),
        decreases n - a,
    {
        a = a + 1;
    }
    proof {
        lemma_trim_start_skip(s@, a as int);
    }
    let ghost t = s@.skip(a as int);
    assert(a == n || !is_ws(t[0]));
    let mut b: usize = n;
    while b > a && is_ws_exec(s[b - 1])
        invariant
            n == s@.len(),
            a <= b <= n,
            forall|k: int| b <= k < n ==> is_ws(s@[k]),
        decreases b,
    {
        b = b - 1;
    }
    let mut r: Vec<char> = Vec::new();
    let mut i: usize = a;
    while i < b
        invariant
            a <= i <= b <= n,
            n == s@.len(),
            r@ == s@.subrange(a as int, i as int),
        decreases b - i,
    {
        r.push(s[i]);
        i = i + 1;
        assert(r@ =~= s@.subrange(a as int, i as int));
    }
    proof {
        assert(trim_start(s@) == t);
        if a < n {
            assert(trim_start(t) == t);
        } else {
            assert(t.len() == 0);
        }
        lemma_trim_end_take(t, (b - a) as int);
        assert(t.take((b - a) as int) =~= r@);
        if b > a {
            assert(!is_ws(r@.last()));
        }
    }
    r
}

/// `char::to_ascii_lowercase`.
pub open spec fn ascii_lower(c: char) -> char {
    if 'A' <= c <= 'Z' { ((c as u32) + 32) as char } else { c }
}

/// `str::eq_ignore_ascii_case`.
pub open spec fn eq_ignore_ascii_case(a: Seq<char>, b: Seq<char>) -> bool {
    a.len() == b.len() && forall|i: int| 0 <= i < a.len() ==> ascii_lower(#[trigger] a[i]) == ascii_lower(b[i])
}

pub fn ascii_lower_exec(c: char) -> (r: char)
    ensures
        r == ascii_lower(c),
{
    if 'A' <= c && c <= 'Z' {
        let v: u8 = (c as u8) + 32;
        v as char
    } else {
        c
    }
}

pub fn eq_ignore_ascii_case_exec(a: &str, b: &str) -> (r: bool)
    ensures
        r == eq_ignore_ascii_case(a@, b@),
{
    let n = a.unicode_len();
    if n != b.unicode_len() {
        return false;
    }
    let mut i: usize = 0;
    while i < n
        invariant
            n == a@.len(),
            n == b@.len(),
            i <= n,
            forall|k: int| 0 <= k < i ==> ascii_lower(#[trigger] a@[k]) == ascii_lower(b@[k]),
        decreases n - i,
    {
        if ascii_lower_exec(a.get_char(i)) != ascii_lower_exec(b.get_char(i)) {
            return false;
        }
        i = i + 1;
    }
    true
}

/// Why an integer failed to parse (the standard library's `IntErrorKind`s that can occur).
#[derive(Debug, Clone, Copy, PartialEq, Eq)]
pub enum IntError {
    Empty,
    InvalidDigit,
    PosOverflow,
    NegOverflow,
}

/// The message `ParseIntError` displays for each kind.
pub open spec fn int_error_text(e: IntError) -> Seq<char> {
    match e {
        IntError::Empty => "cannot parse integer from empty string"@,
        IntError::InvalidDigit => "invalid digit found in string"@,
        IntError::PosOverflow => "number too large to fit in target type"@,
        IntError::NegOverflow => "number too small to fit in target type"@,
    }
}

pub fn int_error_message(e: IntError) -> (s: String)
    ensures
        s@ == int_error_text(e),
{
    match e {
        IntError::Empty => String::from_str("cannot parse integer from empty string"),
        IntError::InvalidDigit => String::from_str("invalid digit found in string"),
        IntError::PosOverflow => String::from_str("number too large to fit in target type"),
        IntError::NegOverflow => String::from_str("number too small to fit in target type"),
    }
}

pub open spec fn is_digit(c: char) -> bool {
    '0' <= c <= '9'
}

pub open spec fn digit_val(c: char) -> int {
    (c as int) - ('0' as int)
}

/// Decimal digits `ds` appended to `acc`, left to right, with the sign of `neg`, failing
/// at the first character that is not a digit or that takes the value out of `[lo, hi]`.
pub open spec fn accumulate(ds: Seq<char>, acc: int, neg: bool, lo: int, hi: int) -> Result<int, IntError>
    decreases ds.len(),
{
    if ds.len() == 0 {
        Ok(acc)
    } else if !is_digit(ds[0]) {
        Err(IntError::InvalidDigit)
    } else {
        let next = if neg { acc * 10 - digit_val(ds[0]) } else { acc * 10 + digit_val(ds[0]) };
        if next > hi {
            Err(IntError::PosOverflow)
        } else if next < lo {
            Err(IntError::NegOverflow)
        } else {
            accumulate(ds.drop_first(), next, neg, lo, hi)
        }
    }
}

/// `str::parse` for an integer type whose range is `[lo, hi]` (signed when `lo < 0`).
pub open spec fn parse_int(s: Seq<char>, lo: int, hi: int) -> Result<int, IntError> {
    if s.len() == 0 {
        Err(IntError::Empty)
    } else if (s[0] == '+' || s[0] == '-') && s.len() == 1 {
        Err(IntError::InvalidDigit)
    } else if s[0] == '+' {
        accumulate(s.drop_first(), 0, false, lo, hi)
    } else if s[0] == '-' && lo < 0 {
        accumulate(s.drop_first(), 0, true, lo, hi)
    } else {
        accumulate(s, 0, false, lo, hi)
    }
}

/// Parses `s` as an integer in `[lo, hi]`, with the standard library's syntax and errors.
pub fn parse_int_exec(s: &Vec<char>, lo: i128, hi: i128) -> (r: Result<i128, IntError>)
    requires
        lo <= 0 <= hi,
        -0x8000_0000_0000_0000 <= lo,
        hi <= 0xffff_ffff_ffff_ffff,
    ensures
        match parse_int(s@, lo as int, hi as int) {
            Ok(v) => r == Ok::<i128, IntError>(v as i128) && lo <= v <= hi,
            Err(e) => r == Err::<i128, IntError>(e),
        },
{
    let n = s.len();
    if n == 0 {
        return Err(IntError::Empty);
    }
    if (s[0] == '+' || s[0] == '-') && n == 1 {
        return Err(IntError::InvalidDigit);
    }
    let mut neg = false;
    let mut start: usize = 0;
    if s[0] == '+' {
        start = 1;
    } else if s[0] == '-' && lo < 0 {
        start = 1;
        neg = true;
    }
    let ghost ds0 = s@.skip(start as int);
    assert(start == 1 ==> ds0 =~= s@.drop_first());
    assert(start == 0 ==> ds0 =~= s@);
    assert(parse_int(s@, lo as int, hi as int) == accumulate(ds0, 0, neg, lo as int, hi as int));
    assert(s@.skip(start as int) == ds0);
    let mut acc: i128 = 0;
    let mut i: usize = start;
    while i < n
        invariant
            n == s@.len(),
            start <= i <= n,
            lo <= acc <= hi,
            lo <= 0 <= hi,
            -0x8000_0000_0000_0000 <= lo,
            hi <= 0xffff_ffff_ffff_ffff,
            accumulate(ds0, 0, neg, lo as int, hi as int) == accumulate(s@.skip(i as int), acc as int, neg, lo as int, hi as int),
            ds0 == s@.skip(start as int),
            parse_int(s@, lo as int, hi as int) == accumulate(ds0, 0, neg, lo as int, hi as int),
        decreases n - i,
    {
        let c = s[i];
        let ghost rest = s@.skip(i as int);
        assert(rest[0] == c);
        assert(rest.drop_first() =~= s@.skip(i as int + 1));
        if !('0' <= c && c <= '9') {
            return Err(IntError::InvalidDigit);
        }
        let d = (c as u32 - '0' as u32) as i128;
        assert(d == digit_val(c));
        let next = if neg { acc * 10 - d } else { acc * 10 + d };
        if next > hi {
            return Err(IntError::PosOverflow);
        }
        if next < lo {
            return Err(IntError::NegOverflow);
        }
        acc = next;
        i = i + 1;
    }
    assert(s@.skip(n as int).len() == 0);
    Ok(acc)
}

} // verus!
