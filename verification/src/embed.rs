//! Literal embedding: every `@name` placeholder of a statement replaced by the T-SQL
//! literal of its value, longest names first so that `@created` never eats the start of
//! `@created_date`.
use vstd::prelude::*;
use crate::binding::sql_literal;
use crate::params::OdbcParam;
use crate::text::{chars_of, push_char};

verus! {

/// `s` with every leftmost, non-overlapping occurrence of `p` replaced by `t`
/// (`str::replace`), for a non-empty pattern.
pub open spec fn replace_all(s: Seq<char>, p: Seq<char>, t: Seq<char>) -> Seq<char>
    decreases s.len(),
{
    if p.len() == 0 || s.len() < p.len() {
        s
    } else if s.take(p.len() as int) == p {
        t + replace_all(s.skip(p.len() as int), p, t)
    } else {
        seq![s[0]] + replace_all(s.drop_first(), p, t)
    }
}

/// Where `x` goes in a list ordered by decreasing name length, after every entry at least
/// as long (so entries of equal length keep their order).
pub open spec fn insert_pos(sorted: Seq<(Seq<char>, Seq<char>)>, x: (Seq<char>, Seq<char>)) -> int
    decreases sorted.len(),
{
    if sorted.len() == 0 {
        0
    } else if sorted[0].0.len() < x.0.len() {
        0
    } else {
        1 + insert_pos(sorted.drop_first(), x)
    }
}

/// The (name, literal) pairs ordered by decreasing name length, stably.
pub open spec fn longest_first(ps: Seq<(Seq<char>, Seq<char>)>) -> Seq<(Seq<char>, Seq<char>)>
    decreases ps.len(),
{
    if ps.len() == 0 {
        Seq::empty()
    } else {
        let rest = longest_first(ps.drop_last());
        rest.insert(insert_pos(rest, ps.last()), ps.last())
    }
}

/// `sql` with `@name` replaced by its literal for each pair, in the given order.
pub open spec fn embed_in_order(sql: Seq<char>, ps: Seq<(Seq<char>, Seq<char>)>) -> Seq<char>
    decreases ps.len(),
{
    if ps.len() == 0 {
        sql
    } else {
        replace_all(embed_in_order(sql, ps.drop_last()), seq!['@'] + ps.last().0, ps.last().1)
    }
}

/// `sql` with every placeholder replaced by its literal, longest names first.
pub open spec fn embed_spec(sql: Seq<char>, ps: Seq<(Seq<char>, Seq<char>)>) -> Seq<char> {
    embed_in_order(sql, longest_first(ps))
}

proof fn lemma_insert_pos_bound(sorted: Seq<(Seq<char>, Seq<char>)>, x: (Seq<char>, Seq<char>))
    ensures
        0 <= insert_pos(sorted, x) <= sorted.len(),
    decreases sorted.len(),
{
    if sorted.len() > 0 && sorted[0].0.len() >= x.0.len() {
        lemma_insert_pos_bound(sorted.drop_first(), x);
    }
}

fn replace_all_exec(s: &Vec<char>, p: &Vec<char>, t: &Vec<char>) -> (r: Vec<char>)
    ensures
        r@ == replace_all(s@, p@, t@),
{
    let n = s.len();
    let m = p.len();
    if m == 0 {
        return s.clone();
    }
    let mut out: Vec<char> = Vec::new();
    let mut i: usize = 0;
    assert(s@.skip(0) =~= s@);
    while i < n
        invariant
            n == s@.len(),
            m == p@.len(),
            m > 0,
            i <= n,
            out@ + replace_all(s@.skip(i as int), p@, t@) == replace_all(s@, p@, t@),
        decreases n - i,
    {
        let ghost rest = s@.skip(i as int);
        let can = n - i >= m;
        let mut k: usize = 0;
        if can {
            while k < m && s[i + k] == p[k]
                invariant
                    n == s@.len(),
                    m == p@.len(),
                    i + m <= n,
                    k <= m,
                    forall|j: int| 0 <= j < k ==> s@[i + j] == p@[j],
                decreases m - k,
            {
                k = k + 1;
            }
        }
        let matched = can && k == m;
        if matched {
            assert(rest.take(m as int) =~= p@) by {
                assert forall|j: int| 0 <= j < m implies rest.take(m as int)[j] == p@[j] by {
                    assert(rest[j] == s@[i + j]);
                }
            }
            assert(rest.skip(m as int) =~= s@.skip(i as int + m as int));
            let ghost before = out@;
            let mut q: usize = 0;
            while q < t.len()
                invariant
                    q <= t@.len(),
                    out@ == before + t@.take(q as int),
                decreases t@.len() - q,
            {
                out.push(t[q]);
                q = q + 1;
                assert(out@ =~= before + t@.take(q as int));
            }
            assert(t@.take(t@.len() as int) =~= t@);
            assert(out@ + replace_all(s@.skip(i as int + m as int), p@, t@)
                =~= before + (t@ + replace_all(rest.skip(m as int), p@, t@)));
            i = i + m;
        } else {
            proof {
                if n - i >= m {
                    assert(k < m && s@[i + k] != p@[k as int]);
                    assert(rest.take(m as int)[k as int] != p@[k as int]);
                }
            }
            assert(rest.drop_first() =~= s@.skip(i as int + 1));
            let ghost before = out@;
            out.push(s[i]);
            assert(out@ + replace_all(s@.skip(i as int + 1), p@, t@)
                =~= before + (seq![rest[0]] + replace_all(rest.drop_first(), p@, t@)));
            i = i + 1;
        }
    }
    assert(out@ + replace_all(s@.skip(n as int), p@, t@) =~= out@);
    out
}

fn at_name(name: &str) -> (r: Vec<char>)
    ensures
        r@ == seq!['@'] + name@,
{
    let c = chars_of(name);
    let mut r: Vec<char> = Vec::new();
    r.push('@');
    let mut i: usize = 0;
    while i < c.len()
        invariant
            i <= c@.len(),
            c@ == name@,
            r@ == seq!['@'] + c@.take(i as int),
        decreases c@.len() - i,
    {
        r.push(c[i]);
        i = i + 1;
        assert(r@ =~= seq!['@'] + c@.take(i as int));
    }
    assert(c@.take(c@.len() as int) =~= c@);
    r
}

/// The (name, literal) pairs as plain text.
pub open spec fn pair_views(ps: Seq<(String, String)>) -> Seq<(Seq<char>, Seq<char>)> {
    ps.map_values(|p: (String, String)| (p.0@, p.1@))
}

/// Replace every `@name` of `sql` by the given literal text, longest names first; names of
/// equal length keep their order.
pub fn embed_literals(sql: &str, pairs: Vec<(String, String)>) -> (r: String)
    ensures
        r@ == embed_spec(sql@, pair_views(pairs@)),
{
    let ghost pv = pair_views(pairs@);
    let mut sorted: Vec<(String, String)> = Vec::new();
    let mut pairs = pairs;
    let ghost orig = pairs@;
    let mut taken: usize = 0;
    let total = pairs.len();
    while pairs.len() > 0
        invariant
            total == orig.len(),
            taken + pairs@.len() == orig.len(),
            pairs@ == orig.skip(taken as int),
            pv == pair_views(orig),
            pair_views(sorted@) == longest_first(pv.take(taken as int)),
        decreases pairs@.len(),
    {
        let x = pairs.remove(0);
        assert(x == orig[taken as int]);
        let ghost sv = pair_views(sorted@);
        let ghost xv = (x.0@, x.1@);
        let mut pos: usize = 0;
        assert(sv.skip(0) =~= sv);
        while pos < sorted.len() && sorted[pos].0.unicode_len() >= x.0.unicode_len()
            invariant
                pos <= sorted@.len(),
                sv == pair_views(sorted@),
                xv == (x.0@, x.1@),
                insert_pos(sv, xv) == pos + insert_pos(sv.skip(pos as int), xv),
            decreases sorted@.len() - pos,
        {
            assert(sv.skip(pos as int).drop_first() =~= sv.skip(pos as int + 1));
            pos = pos + 1;
        }
        proof {
            assert(sv.skip(0) =~= sv);
            if pos < sorted@.len() {
                assert(sv.skip(pos as int)[0] == sv[pos as int]);
            }
        }
        sorted.insert(pos, x);
        assert(pv.take(taken as int + 1).drop_last() =~= pv.take(taken as int));
        assert(pair_views(sorted@) =~= sv.insert(pos as int, xv));
        taken = taken + 1;
        assert(pairs@ =~= orig.skip(taken as int));
    }
    assert(pv.take(orig.len() as int) =~= pv);
    let ghost order = pair_views(sorted@);
    let mut cur = chars_of(sql);
    let mut j: usize = 0;
    while j < sorted.len()
        invariant
            j <= sorted@.len(),
            order == pair_views(sorted@),
            cur@ == embed_in_order(sql@, order.take(j as int)),
        decreases sorted@.len() - j,
    {
        let p = at_name(sorted[j].0.as_str());
        let t = chars_of(sorted[j].1.as_str());
        assert(order.take(j as int + 1).drop_last() =~= order.take(j as int));
        cur = replace_all_exec(&cur, &p, &t);
        j = j + 1;
    }
    assert(order.take(sorted@.len() as int) =~= order);
    crate::row::string_of_chars(&cur)
}

/// The (name, literal) pairs of the parameters, when every value has a literal.
pub open spec fn literal_pairs(ps: Seq<OdbcParam>) -> Option<Seq<(Seq<char>, Seq<char>)>>
    decreases ps.len(),
{
    if ps.len() == 0 {
        Some(Seq::empty())
    } else {
        match (literal_pairs(ps.drop_last()), sql_literal(ps.last().value@)) {
            (Some(rest), Some(l)) => Some(rest.push((ps.last().name@, l))),
            _ => None,
        }
    }
}

/// Embed the parameters' literals into `sql`; `None` when a value has no literal computed
/// here (a floating-point value, which the caller renders and passes to
/// [`embed_literals`]).
pub fn embed_params(sql: &str, params: &[OdbcParam]) -> (r: Option<String>)
    ensures
        match literal_pairs(params@) {
            Some(ps) => r matches Some(s) && s@ == embed_spec(sql@, ps),
            None => r is None,
        },
{
    let mut pairs: Vec<(String, String)> = Vec::new();
    let mut i: usize = 0;
    while i < params.len()
        invariant
            i <= params@.len(),
            literal_pairs(params@.take(i as int)) == Some(pair_views(pairs@)),
        decreases params@.len() - i,
    {
        assert(params@.take(i as int + 1).drop_last() =~= params@.take(i as int));
        match crate::binding::param_to_sql_literal(&params[i].value) {
            Some(l) => {
                let ghost before = pair_views(pairs@);
                pairs.push((params[i].name.clone(), l));
                assert(pair_views(pairs@) =~= before.push((params@[i as int].name@, l@)));
            },
            None => {
                proof {
                    lemma_literal_pairs_none(params@, i as int + 1);
                }
                return None;
            },
        }
        i = i + 1;
    }
    assert(params@.take(params@.len() as int) =~= params@);
    Some(embed_literals(sql, pairs))
}

proof fn lemma_literal_pairs_none(ps: Seq<OdbcParam>, k: int)
    requires
        0 <= k <= ps.len(),
        literal_pairs(ps.take(k)) is None,
    ensures
        literal_pairs(ps) is None,
    decreases ps.len() - k,
{
    if k < ps.len() {
        assert(ps.take(k + 1).drop_last() =~= ps.take(k));
        lemma_literal_pairs_none(ps, k + 1);
    } else {
        assert(ps.take(k) =~= ps);
    }
}

} // verus!
