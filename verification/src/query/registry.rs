//! Named query registry — compile-time SQL string lookup.
//!
//! Provides a lightweight map from static names to static SQL strings,
//! useful for centralising all query definitions in one place.
use vstd::prelude::*;
use crate::text::str_eq;

verus! {

/// The SQL registered last under `name`, if any.
pub open spec fn lookup(entries: Seq<(Seq<char>, Seq<char>)>, name: Seq<char>) -> Option<Seq<char>>
    decreases entries.len(),
{
    if entries.len() == 0 {
        None
    } else if entries.last().0 == name {
        Some(entries.last().1)
    } else {
        lookup(entries.drop_last(), name)
    }
}

/// Registry that maps named identifiers to SQL strings.
///
/// A later registration under a name replaces the earlier one.
#[derive(Debug, Clone)]
pub struct QueryRegistry {
    queries: Vec<(&'static str, &'static str)>,
}

impl View for QueryRegistry {
    type V = Map<Seq<char>, Seq<char>>;

    closed spec fn view(&self) -> Map<Seq<char>, Seq<char>> {
        let es = self.entries();
        Map::new(|k: Seq<char>| lookup(es, k) is Some, |k: Seq<char>| lookup(es, k).unwrap())
    }
}

impl QueryRegistry {
    closed spec fn entries(&self) -> Seq<(Seq<char>, Seq<char>)> {
        self.queries@.map_values(|e: (&'static str, &'static str)| (e.0@, e.1@))
    }

    /// An empty registry.
    pub fn new() -> (r: QueryRegistry)
        ensures
            r@ == Map::<Seq<char>, Seq<char>>::empty(),
    {
        let r = QueryRegistry { queries: Vec::new() };
        assert(r@ =~= Map::<Seq<char>, Seq<char>>::empty());
        r
    }

    /// Register a named SQL string.
    pub fn register(self, name: &'static str, sql: &'static str) -> (r: QueryRegistry)
        ensures
            r@ == self@.insert(name@, sql@),
    {
        let ghost old_map = self@;
        let mut s = self;
        let ghost old_es = s.entries();
        s.queries.push((name, sql));
        assert(s.entries() =~= old_es.push((name@, sql@)));
        assert(s.entries().drop_last() =~= old_es);
        assert(s@ =~= old_map.insert(name@, sql@)) by {
            assert forall|k: Seq<char>| true implies lookup(s.entries(), k) == (if k == name@ {
                Some(sql@)
            } else {
                lookup(old_es, k)
            }) by {}
        }
        s
    }

    /// Look up a registered SQL string by name.
    pub fn get(&self, name: &str) -> (r: Option<&'static str>)
        ensures
            self@.contains_key(name@) ==> (r matches Some(s) && s@ == self@[name@]),
            !self@.contains_key(name@) ==> r is None,
    {
        let ghost es = self.entries();
        let mut i: usize = self.queries.len();
        assert(es.take(i as int) =~= es);
        while i > 0
            invariant
                i <= self.queries@.len(),
                es == self.entries(),
                lookup(es, name@) == lookup(es.take(i as int), name@),
            decreases i,
        {
            let e = self.queries[i - 1];
            assert(es.take(i as int).drop_last() =~= es.take(i as int - 1));
            assert(es.take(i as int).last() == (e.0@, e.1@));
            if str_eq(e.0, name) {
                return Some(e.1);
            }
            i = i - 1;
        }
        None
    }
}

} // verus!
