//! Character- and string-level building blocks shared by the SQL builders.
use vstd::prelude::*;

verus! {

/// Appends one character to a `String` (`String::push`).
#[verifier::external_body]
pub(crate) fn push_char(s: &mut String, c: char)
    ensures
        final(s)@ == old(s)@.push(c),
{
    s.push(c);
}

/// The decimal digit character for `d < 10`.
pub open spec fn digit_char(d: nat) -> char {
    if d == 0 { '0' } else if d == 1 { '1' } else if d == 2 { '2' } else if d == 3 { '3' }
    else if d == 4 { '4' } else if d == 5 { '5' } else if d == 6 { '6' } else if d == 7 { '7' }
    else if d == 8 { '8' } else { '9' }
}

/// Decimal rendering of a natural number, most significant digit first, no leading zeros.
pub open spec fn nat_text(n: nat) -> Seq<char>
    decreases n,
{
    if n < 10 {
        seq![digit_char(n)]
    } else {
        nat_text(n / 10).push(digit_char(n % 10))
    }
}

/// Decimal rendering of an integer, with a leading `-` for negatives.
pub open spec fn int_text(n: int) -> Seq<char> {
    if n < 0 { seq!['-'] + nat_text((-n) as nat) } else { nat_text(n as nat) }
}

fn digit(d: u64) -> (c: char)
    requires
        d < 10,
    ensures
        c == digit_char(d as nat),
{
    if d == 0 { '0' } else if d == 1 { '1' } else if d == 2 { '2' } else if d == 3 { '3' }
    else if d == 4 { '4' } else if d == 5 { '5' } else if d == 6 { '6' } else if d == 7 { '7' }
    else if d == 8 { '8' } else { '9' }
}

/// The last `w` decimal digits of `n`, with leading zeros.
pub open spec fn padded_text(n: nat, w: nat) -> Seq<char>
    decreases w,
{
    if w == 0 {
        Seq::empty()
    } else {
        padded_text(n / 10, (w - 1) as nat).push(digit_char(n % 10))
    }
}

/// Appends the last `w` decimal digits of `n` to `out`, with leading zeros.
pub fn push_padded(out: &mut String, n: u64, w: u32)
    ensures
        final(out)@ == old(out)@ + padded_text(n as nat, w as nat),
    decreases w,
{
    if w > 0 {
        push_padded(out, n / 10, w - 1);
        push_char(out, digit(n % 10));
        assert(old(out)@ + padded_text((n / 10) as nat, (w - 1) as nat) + seq![digit_char((n % 10) as nat)]
            =~= old(out)@ + padded_text(n as nat, w as nat));
    } else {
        assert(old(out)@ + padded_text(n as nat, 0) =~= old(out)@);
    }
}

/// Appends the decimal text of `n` to `out`.
pub fn push_u128(out: &mut String, n: u128)
    ensures
        final(out)@ == old(out)@ + nat_text(n as nat),
    decreases n,
{
    if n < 10 {
        push_char(out, digit(n as u64));
        assert(nat_text(n as nat) == seq![digit_char(n as nat)]);
    } else {
        push_u128(out, n / 10);
        push_char(out, digit((n % 10) as u64));
        assert(old(out)@ + nat_text((n / 10) as nat) + seq![digit_char((n % 10) as nat)]
            =~= old(out)@ + nat_text(n as nat));
    }
}

/// Appends the decimal text of `n` (with `-` when negative) to `out`.
pub fn push_i128(out: &mut String, n: i128)
    ensures
        final(out)@ == old(out)@ + int_text(n as int),
{
    if n < 0 {
        push_char(out, '-');
        let m: u128 = if n == i128::MIN { (i128::MAX as u128) + 1 } else { (-n) as u128 };
        push_u128(out, m);
        assert(old(out)@.push('-') + nat_text(m as nat) =~= old(out)@ + int_text(n as int));
    } else {
        push_u128(out, n as u128);
    }
}

} // verus!

verus! {

/// Character-by-character equality of two string slices.
pub fn str_eq(a: &str, b: &str) -> (r: bool)
    ensures
        r <==> a@ == b@,
{
    let n = a.unicode_len();
    let m = b.unicode_len();
    if n != m {
        return false;
    }
    let mut i: usize = 0;
    while i < n
        invariant
            n == a@.len(),
            m == b@.len(),
            n == m,
            i <= n,
            forall|j: int| 0 <= j < i ==> a@[j] == b@[j],
        decreases n - i,
    {
        if a.get_char(i) != b.get_char(i) {
            return false;
        }
        i = i + 1;
    }
    assert(a@ =~= b@);
    true
}

/// A `String` holding the concatenation of two slices.
pub fn concat2(a: &str, b: &str) -> (r: String)
    ensures
        r@ == a@ + b@,
{
    let mut s = String::from_str(a);
    s.append(b);
    s
}

/// Copies a slice into a fresh `String`.
pub fn to_owned_string(a: &str) -> (r: String)
    ensures
        r@ == a@,
{
    String::from_str(a)
}

} // verus!

verus! {

/// The characters of a string slice.
pub fn chars_of(s: &str) -> (r: Vec<char>)
    ensures
        r@ == s@,
{
    let n = s.unicode_len();
    let mut r: Vec<char> = Vec::new();
    let mut i: usize = 0;
    while i < n
        invariant
            n == s@.len(),
            i <= n,
            r@ == s@.take(i as int),
        decreases n - i,
    {
        r.push(s.get_char(i));
        i = i + 1;
        assert(r@ =~= s@.take(i as int));
    }
    assert(s@.take(n as int) =~= s@);
    r
}

/// ASCII letters, digits and `_`: the characters that continue an identifier.
pub open spec fn word_char(c: char) -> bool {
    ('a' <= c <= 'z') || ('A' <= c <= 'Z') || ('0' <= c <= '9') || c == '_'
}

pub fn is_word_char(c: char) -> (b: bool)
    ensures
        b == word_char(c),
{
    ('a' <= c && c <= 'z') || ('A' <= c && c <= 'Z') || ('0' <= c && c <= '9') || c == '_'
}

} // verus!
