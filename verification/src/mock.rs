//! An in-memory repository for tests: entities kept by the text of their key, with call
//! counters and a simple `column = @param` filter.
use vstd::prelude::*;
use crate::error::SqlError;
use crate::model::{param_views, SqlEntity};
use crate::entity::sql_gen::opt_str_view;
use crate::params::{pk_text, OdbcParam, ParamValue, ParamView, PkValue};
use crate::row::{CellValue, CellView, OdbcRow, RowView};
use crate::text::{chars_of, int_text, push_char, push_i128, to_owned_string};
use crate::textparse::{eq_ignore_ascii_case, eq_ignore_ascii_case_exec, is_ws, trim};
use crate::transaction::supplied_key_id;
use crate::values::{decimal_text, guid_text, guid_to_string};
use vstd::wrapping::i64_specs::wrapping_add;

verus! {

/// The position of key `k` among the entries, if present.
pub open spec fn find_key<T>(es: Seq<(Seq<char>, T)>, k: Seq<char>) -> Option<int> {
    if exists|i: int| 0 <= i < es.len() && (#[trigger] es[i]).0 == k {
        Some(choose|i: int| 0 <= i < es.len() && (#[trigger] es[i]).0 == k)
    } else {
        None
    }
}

/// No key occurs twice.
pub open spec fn keys_unique<T>(es: Seq<(Seq<char>, T)>) -> bool {
    forall|i: int, j: int| 0 <= i < j < es.len() ==> (#[trigger] es[i]).0 != (#[trigger] es[j]).0
}

/// The entity stored under key `k`.
pub open spec fn stored<T>(es: Seq<(Seq<char>, T)>, k: Seq<char>) -> Option<T> {
    match find_key(es, k) {
        Some(i) => Some(es[i].1),
        None => None,
    }
}

/// The entries after storing `v` under `k`: replaced in place when the key is present,
/// appended otherwise.
pub open spec fn upsert_entry<T>(es: Seq<(Seq<char>, T)>, k: Seq<char>, v: T) -> Seq<(Seq<char>, T)> {
    match find_key(es, k) {
        Some(i) => es.update(i, (k, v)),
        None => es.push((k, v)),
    }
}

/// The entries after removing key `k`, if present.
pub open spec fn remove_entry<T>(es: Seq<(Seq<char>, T)>, k: Seq<char>) -> Seq<(Seq<char>, T)> {
    match find_key(es, k) {
        Some(i) => es.remove(i),
        None => es,
    }
}

/// The entries after storing each item in order under its key.
pub open spec fn load<T: SqlEntity>(items: Seq<T>) -> Seq<(Seq<char>, T)>
    decreases items.len(),
{
    if items.len() == 0 {
        Seq::empty()
    } else {
        upsert_entry(load(items.drop_last()), key_text(items.last()), items.last())
    }
}

/// The text a key is stored under.
pub open spec fn key_text<T: SqlEntity>(e: T) -> Seq<char> {
    pk_text(e.key())
}

/// The id an insert reports: the next identity value for identity keys, else the key itself
/// (0 for text and GUID keys).
pub open spec fn insert_id<T: SqlEntity>(next_id: i64, e: T) -> i64 {
    if T::identity_spec() { next_id } else { supplied_key_id(e.key()) }
}

/// The text an inserted entity is stored under, given the id the insert reports: the
/// assigned identity value for identity keys (so that the entity is found again by that
/// id), else the entity's own key.
pub open spec fn stored_key<T: SqlEntity>(id: i64, e: T) -> Seq<char> {
    if T::identity_spec() { int_text(id as int) } else { key_text(e) }
}

/// The identity counter after `n` inserts that started at `next_id`: moved on by one per
/// insert (wrapping) when the key is an identity column, else unchanged.
pub open spec fn batch_next(next_id: i64, n: int, identity: bool) -> i64
    decreases n,
{
    if n <= 0 || !identity { next_id } else { wrapping_add(batch_next(next_id, n - 1, identity), 1) }
}

/// The cell a parameter value reads back as: the same value, text for a string.
pub open spec fn cell_of_param(v: ParamView) -> CellView {
    match v {
        ParamView::Bool(x) => CellView::Bool(x),
        ParamView::U8(x) => CellView::U8(x),
        ParamView::I16(x) => CellView::I16(x),
        ParamView::I32(x) => CellView::I32(x),
        ParamView::I64(x) => CellView::I64(x),
        ParamView::F32(x) => CellView::F32(x),
        ParamView::F64(x) => CellView::F64(x),
        ParamView::Decimal(x) => CellView::Decimal(x),
        ParamView::Str(x) => CellView::Text(x),
        ParamView::Bytes(x) => CellView::Bytes(x),
        ParamView::NaiveDate(x) => CellView::NaiveDate(x),
        ParamView::NaiveTime(x) => CellView::NaiveTime(x),
        ParamView::DateTime(x) => CellView::DateTime(x),
        ParamView::DateTimeOffset(x) => CellView::DateTimeOffset(x),
        ParamView::Guid(x) => CellView::Guid(x),
        ParamView::Null => CellView::Null,
    }
}

/// The row an entity's parameters read back as: one column per parameter, named after it.
pub open spec fn row_of_params(ps: Seq<(Seq<char>, ParamView)>) -> RowView {
    RowView {
        columns: ps.map_values(|p: (Seq<char>, ParamView)| p.0),
        values: ps.map_values(|p: (Seq<char>, ParamView)| cell_of_param(p.1)),
    }
}

fn cell_from_param(v: ParamValue) -> (c: CellValue)
    ensures
        c@ == cell_of_param(v@),
{
    match v {
        ParamValue::Bool(x) => CellValue::Bool(x),
        ParamValue::U8(x) => CellValue::U8(x),
        ParamValue::I16(x) => CellValue::I16(x),
        ParamValue::I32(x) => CellValue::I32(x),
        ParamValue::I64(x) => CellValue::I64(x),
        ParamValue::F32(x) => CellValue::F32(x),
        ParamValue::F64(x) => CellValue::F64(x),
        ParamValue::Decimal(x) => CellValue::Decimal(x),
        ParamValue::Str(x) => CellValue::Text(x),
        ParamValue::Bytes(x) => CellValue::Bytes(x),
        ParamValue::NaiveDate(x) => CellValue::NaiveDate(x),
        ParamValue::NaiveTime(x) => CellValue::NaiveTime(x),
        ParamValue::DateTime(x) => CellValue::DateTime(x),
        ParamValue::DateTimeOffset(x) => CellValue::DateTimeOffset(x),
        ParamValue::Guid(x) => CellValue::Guid(x),
        ParamValue::Null => CellValue::Null,
    }
}

fn row_from_params(ps: Vec<OdbcParam>) -> (r: OdbcRow)
    ensures
        r@ == row_of_params(param_views(ps@)),
{
    let ghost pv = param_views(ps@);
    let mut columns: Vec<String> = Vec::new();
    let mut values: Vec<CellValue> = Vec::new();
    let mut i: usize = 0;
    while i < ps.len()
        invariant
            i <= ps@.len(),
            pv == param_views(ps@),
            columns@.len() == i,
            values@.len() == i,
            forall|j: int| 0 <= j < i ==> (#[trigger] columns@[j])@ == pv[j].0,
            forall|j: int| 0 <= j < i ==> (#[trigger] values@[j])@ == cell_of_param(pv[j].1),
        decreases ps@.len() - i,
    {
        let p = ps[i].duplicate();
        columns.push(p.name);
        values.push(cell_from_param(p.value));
        i = i + 1;
    }
    let r = OdbcRow::new(columns, values);
    assert(r@.columns =~= row_of_params(pv).columns);
    assert(r@.values =~= row_of_params(pv).values);
    r
}

/// Whether the entity's key is stored.
pub open spec fn key_present<T: SqlEntity>(es: Seq<(Seq<char>, T)>, e: T) -> bool {
    stored(es, key_text(e)) is Some
}

/// Where a batch of updates stops: the position of the first entity whose key is not
/// stored, or the batch's length when every key is.
pub open spec fn update_stop<T: SqlEntity>(es: Seq<(Seq<char>, T)>, xs: Seq<T>) -> int {
    if exists|i: int| 0 <= i < xs.len() && !key_present(es, #[trigger] xs[i]) {
        choose|i: int| 0 <= i < xs.len() && !key_present(es, #[trigger] xs[i])
            && forall|j: int| 0 <= j < i ==> key_present(es, #[trigger] xs[j])
    } else {
        xs.len() as int
    }
}

/// Both entry lists hold the same keys at the same positions.
pub open spec fn same_keys<T>(a: Seq<(Seq<char>, T)>, b: Seq<(Seq<char>, T)>) -> bool {
    a.len() == b.len() && forall|p: int| 0 <= p < a.len() ==> (#[trigger] a[p]).0 == b[p].0
}

/// Entity `i` is the last one among the first `n` with its key.
pub open spec fn last_in_prefix<T: SqlEntity>(xs: Seq<T>, n: int, i: int) -> bool {
    forall|j: int| i < j < n ==> key_text(#[trigger] xs[j]) != key_text(xs[i])
}

proof fn lemma_same_keys_presence<T>(a: Seq<(Seq<char>, T)>, b: Seq<(Seq<char>, T)>, k: Seq<char>)
    requires
        same_keys(a, b),
    ensures
        (stored(a, k) is Some) == (stored(b, k) is Some),
{
    if exists|i: int| 0 <= i < a.len() && (#[trigger] a[i]).0 == k {
        let i = choose|i: int| 0 <= i < a.len() && (#[trigger] a[i]).0 == k;
        assert(b[i].0 == k);
    }
    if exists|i: int| 0 <= i < b.len() && (#[trigger] b[i]).0 == k {
        let i = choose|i: int| 0 <= i < b.len() && (#[trigger] b[i]).0 == k;
        assert(a[i].0 == k);
    }
}

proof fn lemma_upsert_present_same_keys<T>(es: Seq<(Seq<char>, T)>, k: Seq<char>, v: T)
    requires
        stored(es, k) is Some,
    ensures
        same_keys(upsert_entry(es, k, v), es),
{
}

proof fn lemma_update_step<T: SqlEntity + Clone>(es0: Seq<(Seq<char>, T)>, es: Seq<(Seq<char>, T)>, xs: Seq<T>, i: int, c: T)
    requires
        keys_unique(es),
        0 <= i < xs.len(),
        same_keys(es, es0),
        key_present(es, xs[i]),
        cloned(xs[i], c),
        forall|j: int| 0 <= j < i && last_in_prefix(xs, i, j)
            ==> (stored(es, key_text(#[trigger] xs[j])) matches Some(c2) && cloned(xs[j], c2)),
        forall|k: Seq<char>| (forall|j: int| 0 <= j < i ==> key_text(#[trigger] xs[j]) != k)
            ==> #[trigger] stored(es, k) == stored(es0, k),
    ensures
        same_keys(upsert_entry(es, key_text(xs[i]), c), es0),
        key_present(es0, xs[i]),
        forall|j: int| 0 <= j < i + 1 && last_in_prefix(xs, i + 1, j)
            ==> (stored(upsert_entry(es, key_text(xs[i]), c), key_text(#[trigger] xs[j])) matches Some(c2)
                && cloned(xs[j], c2)),
        forall|k: Seq<char>| (forall|j: int| 0 <= j < i + 1 ==> key_text(#[trigger] xs[j]) != k)
            ==> #[trigger] stored(upsert_entry(es, key_text(xs[i]), c), k) == stored(es0, k),
{
    let k0 = key_text(xs[i]);
    let u = upsert_entry(es, k0, c);
    law_read_after_write(es, k0, c);
    lemma_upsert_present_same_keys(es, k0, c);
    lemma_same_keys_presence(es, es0, k0);
    assert forall|j: int| 0 <= j < i + 1 && last_in_prefix(xs, i + 1, j)
        implies (stored(u, key_text(#[trigger] xs[j])) matches Some(c2) && cloned(xs[j], c2)) by {
        if j < i {
            assert(key_text(xs[i]) != key_text(xs[j]));
            assert(last_in_prefix(xs, i, j));
        }
    }
    assert forall|k: Seq<char>| (forall|j: int| 0 <= j < i + 1 ==> key_text(#[trigger] xs[j]) != k)
        implies #[trigger] stored(u, k) == stored(es0, k) by {
        assert(key_text(xs[i]) != k);
    }
}

proof fn lemma_update_stop_at<T: SqlEntity>(es: Seq<(Seq<char>, T)>, xs: Seq<T>, i: int)
    requires
        0 <= i < xs.len(),
        !key_present(es, xs[i]),
        forall|j: int| 0 <= j < i ==> key_present(es, #[trigger] xs[j]),
    ensures
        update_stop(es, xs) == i,
{
    assert(exists|i: int| 0 <= i < xs.len() && !key_present(es, #[trigger] xs[i]));
    let c = update_stop(es, xs);
    assert(0 <= c < xs.len() && !key_present(es, xs[c]));
    if c < i {
        assert(key_present(es, xs[c]));
    }
    if c > i {
        assert(key_present(es, xs[i]));
    }
}

proof fn lemma_update_stop_none<T: SqlEntity>(es: Seq<(Seq<char>, T)>, xs: Seq<T>)
    requires
        forall|j: int| 0 <= j < xs.len() ==> key_present(es, #[trigger] xs[j]),
    ensures
        update_stop(es, xs) == xs.len(),
{
}

/// The counters of calls made through the repository.
#[derive(Debug, Clone, Copy, PartialEq, Eq, Structural)]
pub struct CallCounts {
    pub insert: i64,
    pub update: i64,
    pub delete: i64,
    pub upsert: i64,
}

/// In-memory repository. Entities are kept under the text of their key, in the order their
/// keys were first stored.
pub struct MockRepository<T: SqlEntity + Clone> {
    store: Vec<(String, T)>,
    next_id: i64,
    calls: CallCounts,
}

impl<T: SqlEntity + Clone> MockRepository<T> {
    /// The stored entries: key text and entity.
    pub closed spec fn entries(&self) -> Seq<(Seq<char>, T)> {
        self.store@.map_values(|p: (String, T)| (p.0@, p.1))
    }

    /// The identity value the next identity insert reports.
    pub closed spec fn next_identity(&self) -> i64 {
        self.next_id
    }

    /// The call counters.
    pub closed spec fn counts(&self) -> CallCounts {
        self.calls
    }

    /// No key is stored twice.
    pub open spec fn wf(&self) -> bool {
        keys_unique(self.entries())
    }

    /// An empty repository; identity values start at 1.
    pub fn new() -> (r: MockRepository<T>)
        ensures
            r.wf(),
            r.entries() == Seq::<(Seq<char>, T)>::empty(),
            r.next_identity() == 1,
            r.counts() == (CallCounts { insert: 0, update: 0, delete: 0, upsert: 0 }),
    {
        let r = MockRepository {
            store: Vec::new(),
            next_id: 1,
            calls: CallCounts { insert: 0, update: 0, delete: 0, upsert: 0 },
        };
        assert(r.entries() =~= Seq::<(Seq<char>, T)>::empty());
        r
    }

    /// Position of `key` in the store.
    fn position(&self, key: &String) -> (r: Option<usize>)
        requires
            self.wf(),
        ensures
            match find_key(self.entries(), key@) {
                Some(i) => r matches Some(x) && x as int == i,
                None => r is None,
            },
    {
        let ghost es = self.entries();
        let mut i: usize = 0;
        while i < self.store.len()
            invariant
                i <= self.store@.len(),
                es == self.entries(),
                es.len() == self.store@.len(),
                keys_unique(es),
                forall|k: int| 0 <= k < i ==> (#[trigger] es[k]).0 != key@,
            decreases self.store@.len() - i,
        {
            if crate::text::str_eq(self.store[i].0.as_str(), key.as_str()) {
                assert(es[i as int].0 == key@);
                let ghost j = choose|j: int| 0 <= j < es.len() && (#[trigger] es[j]).0 == key@;
                assert(j == i) by {
                    if j != i {
                        if j < i {
                            assert(es[j].0 != key@);
                        } else {
                            assert(es[i as int].0 != es[j].0);
                        }
                    }
                }
                return Some(i);
            }
            i = i + 1;
        }
        None
    }

    /// Store `value` under `key`, replacing the entity stored there.
    fn put(&mut self, key: String, value: T)
        requires
            old(self).wf(),
        ensures
            final(self).wf(),
            final(self).entries() == upsert_entry(old(self).entries(), key@, value),
            final(self).next_identity() == old(self).next_identity(),
            final(self).counts() == old(self).counts(),
    {
        let ghost es = self.entries();
        let ghost k = key@;
        proof {
            law_read_after_write(es, k, value);
        }
        match self.position(&key) {
            Some(i) => {
                let _ = self.store.remove(i);
                self.store.insert(i, (key, value));
                assert(self.entries() =~= es.update(i as int, (k, value)));
            },
            None => {
                self.store.push((key, value));
                assert(self.entries() =~= es.push((k, value)));
            },
        }
    }

    /// Remove the entity stored under `key`, if any.
    fn take_out(&mut self, key: &String)
        requires
            old(self).wf(),
        ensures
            final(self).wf(),
            final(self).entries() == remove_entry(old(self).entries(), key@),
            final(self).next_identity() == old(self).next_identity(),
            final(self).counts() == old(self).counts(),
    {
        let ghost es = self.entries();
        proof {
            law_delete_removes(es, key@);
        }
        match self.position(key) {
            Some(i) => {
                let _ = self.store.remove(i);
                assert(self.entries() =~= es.remove(i as int));
            },
            None => {},
        }
    }

    /// A repository holding the given entities; a later entity with the same key replaces
    /// an earlier one.
    pub fn with_data(items: Vec<T>) -> (r: MockRepository<T>)
        ensures
            r.wf(),
            r.entries() == load(items@),
            r.next_identity() == 1,
            r.counts() == (CallCounts { insert: 0, update: 0, delete: 0, upsert: 0 }),
    {
        let mut r = MockRepository::<T>::new();
        let ghost all = items@;
        let mut items = items;
        let total = items.len();
        let mut j: usize = 0;
        while items.len() > 0
            invariant
                r.wf(),
                r.next_identity() == 1,
                r.counts() == (CallCounts { insert: 0, update: 0, delete: 0, upsert: 0 }),
                total == all.len(),
                j + items@.len() == all.len(),
                items@ == all.skip(j as int),
                r.entries() == load(all.take(j as int)),
            decreases items@.len(),
        {
            let item = items.remove(0);
            assert(item == all[j as int]);
            let key = item.pk_value().to_display_string();
            r.put(key, item);
            assert(all.take(j as int + 1).drop_last() =~= all.take(j as int));
            j = j + 1;
            assert(items@ =~= all.skip(j as int));
        }
        assert(all.take(j as int) =~= all);
        r
    }

    /// Number of `insert` calls.
    pub fn insert_call_count(&self) -> (n: i64)
        ensures
            n == self.counts().insert,
    {
        self.calls.insert
    }

    /// Number of `update` calls.
    pub fn update_call_count(&self) -> (n: i64)
        ensures
            n == self.counts().update,
    {
        self.calls.update
    }

    /// Number of `delete` calls.
    pub fn delete_call_count(&self) -> (n: i64)
        ensures
            n == self.counts().delete,
    {
        self.calls.delete
    }

    /// Number of `upsert` calls.
    pub fn upsert_call_count(&self) -> (n: i64)
        ensures
            n == self.counts().upsert,
    {
        self.calls.upsert
    }

    /// Number of stored entities.
    pub fn len(&self) -> (n: usize)
        ensures
            n == self.entries().len(),
    {
        self.store.len()
    }

    /// Copies of the stored entities, in store order.
    pub fn all_items(&self) -> (v: Vec<T>)
        ensures
            v@.len() == self.entries().len(),
            forall|i: int| 0 <= i < v@.len() ==> cloned(self.entries()[i].1, #[trigger] v@[i]),
    {
        let ghost es = self.entries();
        let mut v: Vec<T> = Vec::new();
        let mut i: usize = 0;
        while i < self.store.len()
            invariant
                i <= self.store@.len(),
                es == self.entries(),
                es.len() == self.store@.len(),
                v@.len() == i,
                forall|k: int| 0 <= k < i ==> cloned(es[k].1, #[trigger] v@[k]),
            decreases self.store@.len() - i,
        {
            let c = self.store[i].1.clone();
            assert(es[i as int].1 == self.store@[i as int].1);
            v.push(c);
            i = i + 1;
        }
        v
    }

    /// Store an entity directly, without counting a call.
    pub fn seed(&mut self, item: T)
        requires
            old(self).wf(),
        ensures
            final(self).wf(),
            final(self).entries() == upsert_entry(old(self).entries(), key_text(item), item),
            final(self).next_identity() == old(self).next_identity(),
            final(self).counts() == old(self).counts(),
    {
        let key = item.pk_value().to_display_string();
        self.put(key, item);
    }

    /// Remove every entity, without counting a call.
    pub fn clear(&mut self)
        ensures
            final(self).wf(),
            final(self).entries() == Seq::<(Seq<char>, T)>::empty(),
            final(self).next_identity() == old(self).next_identity(),
            final(self).counts() == old(self).counts(),
    {
        self.store.clear();
        assert(self.entries() =~= Seq::<(Seq<char>, T)>::empty());
    }

    /// A copy of the entity stored under the key, if any.
    pub fn get_by_id(&self, id: PkValue) -> (r: Result<Option<T>, SqlError>)
        requires
            self.wf(),
        ensures
            match stored(self.entries(), pk_text(id)) {
                Some(v) => r matches Ok(Some(c)) && cloned(v, c),
                None => r == Ok::<Option<T>, SqlError>(None),
            },
    {
        let key = id.to_display_string();
        match self.position(&key) {
            Some(i) => {
                assert(self.entries()[i as int].1 == self.store@[i as int].1);
                let c = self.store[i].1.clone();
                assert(stored(self.entries(), key@) == Some(self.entries()[i as int].1));
                Ok(Some(c))
            },
            None => Ok(None),
        }
    }

    /// Copies of all stored entities.
    pub fn get_all(&self) -> (r: Result<Vec<T>, SqlError>)
        ensures
            r matches Ok(v) && v@.len() == self.entries().len()
                && forall|i: int| 0 <= i < v@.len() ==> cloned(self.entries()[i].1, #[trigger] v@[i]),
    {
        Ok(self.all_items())
    }

    /// Whether an entity is stored under the key.
    pub fn exists_by_id(&self, id: PkValue) -> (r: Result<bool, SqlError>)
        requires
            self.wf(),
        ensures
            r == Ok::<bool, SqlError>(stored(self.entries(), pk_text(id)) is Some),
    {
        let key = id.to_display_string();
        Ok(self.position(&key).is_some())
    }

    /// The number of stored entities.
    pub fn count(&self) -> (r: Result<i64, SqlError>)
        ensures
            r == Ok::<i64, SqlError>(self.entries().len() as i64),
    {
        Ok(self.store.len() as i64)
    }

    /// Store a copy of the entity and report its id: the next identity value (then
    /// advanced) when the key is an identity column, else the key itself (0 for text and
    /// GUID keys). The copy is stored under the reported identity value, or under the
    /// entity's own key when it is not an identity column.
    pub fn insert(&mut self, entity: &T) -> (r: Result<i64, SqlError>)
        requires
            old(self).wf(),
        ensures
            final(self).wf(),
            r == Ok::<i64, SqlError>(insert_id(old(self).next_identity(), *entity)),
            final(self).next_identity() == (if T::identity_spec() {
                wrapping_add(old(self).next_identity(), 1)
            } else {
                old(self).next_identity()
            }),
            final(self).counts() == (CallCounts {
                insert: wrapping_add(old(self).counts().insert, 1), ..old(self).counts()
            }),
            ({
                let k = stored_key(insert_id(old(self).next_identity(), *entity), *entity);
                stored(final(self).entries(), k) matches Some(c) && cloned(*entity, c)
                    && final(self).entries() == upsert_entry(old(self).entries(), k, c)
            }),
    {
        self.calls.insert = self.calls.insert.wrapping_add(1);
        let (id, key) = if T::pk_is_identity() {
            let id = self.next_id;
            self.next_id = self.next_id.wrapping_add(1);
            (id, PkValue::I64(id).to_display_string())
        } else {
            let pk = entity.pk_value();
            (crate::transaction::inserted_id(&pk), pk.to_display_string())
        };
        let c = entity.clone();
        let ghost es = self.entries();
        self.put(key, c);
        proof {
            lemma_upsert_stored(es, stored_key(id, *entity), c);
        }
        Ok(id)
    }

    /// Replace the stored entity with a copy of `entity`; an error when its key is not stored.
    pub fn update(&mut self, entity: &T) -> (r: Result<(), SqlError>)
        requires
            old(self).wf(),
        ensures
            final(self).wf(),
            final(self).next_identity() == old(self).next_identity(),
            final(self).counts() == (CallCounts {
                update: wrapping_add(old(self).counts().update, 1), ..old(self).counts()
            }),
            stored(old(self).entries(), key_text(*entity)) is Some ==> r is Ok,
            stored(old(self).entries(), key_text(*entity)) is Some ==> (
                stored(final(self).entries(), key_text(*entity)) matches Some(c) && cloned(*entity, c)
                && final(self).entries() == upsert_entry(old(self).entries(), key_text(*entity), c)),
            stored(old(self).entries(), key_text(*entity)) is None ==> (
                r matches Err(SqlError::NotFound { table, pk })
                && table@ == T::table_spec() && pk@ == key_text(*entity)
                && final(self).entries() == old(self).entries()),
    {
        self.calls.update = self.calls.update.wrapping_add(1);
        let key = entity.pk_value().to_display_string();
        match self.position(&key) {
            Some(_) => {
                let c = entity.clone();
                let ghost es = self.entries();
                self.put(key, c);
                proof {
                    lemma_upsert_stored(es, key_text(*entity), c);
                }
                Ok(())
            },
            None => Err(SqlError::NotFound { table: to_owned_string(T::table_name()), pk: key }),
        }
    }

    /// Remove the entity stored under the key, if any.
    pub fn delete(&mut self, id: PkValue) -> (r: Result<(), SqlError>)
        requires
            old(self).wf(),
        ensures
            final(self).wf(),
            r is Ok,
            final(self).entries() == remove_entry(old(self).entries(), pk_text(id)),
            final(self).next_identity() == old(self).next_identity(),
            final(self).counts() == (CallCounts {
                delete: wrapping_add(old(self).counts().delete, 1), ..old(self).counts()
            }),
    {
        self.calls.delete = self.calls.delete.wrapping_add(1);
        let key = id.to_display_string();
        self.take_out(&key);
        Ok(())
    }

    /// Store a copy of the entity, replacing the one stored under its key.
    pub fn upsert(&mut self, entity: &T) -> (r: Result<(), SqlError>)
        requires
            old(self).wf(),
        ensures
            final(self).wf(),
            r is Ok,
            final(self).next_identity() == old(self).next_identity(),
            final(self).counts() == (CallCounts {
                upsert: wrapping_add(old(self).counts().upsert, 1), ..old(self).counts()
            }),
            stored(final(self).entries(), key_text(*entity)) matches Some(c) && cloned(*entity, c)
                && final(self).entries() == upsert_entry(old(self).entries(), key_text(*entity), c),
    {
        self.calls.upsert = self.calls.upsert.wrapping_add(1);
        let key = entity.pk_value().to_display_string();
        let c = entity.clone();
        let ghost es = self.entries();
        self.put(key, c);
        proof {
            lemma_upsert_stored(es, key_text(*entity), c);
        }
        Ok(())
    }

    /// Copies of the entities of one page, in store order: page numbers below 1 count as 1,
    /// page sizes below 1 as 1.
    pub fn get_paged(&self, page: i64, page_size: i64) -> (r: Result<Vec<T>, SqlError>)
        requires
            page <= usize::MAX,
            page_size <= usize::MAX,
            (if page < 1 { 0int } else { page - 1 }) * (if page_size < 1 { 1int } else { page_size as int })
                <= usize::MAX,
        ensures
            ({
                let start = (if page < 1 { 0int } else { page - 1 }) * (if page_size < 1 { 1int } else { page_size as int });
                let size = if page_size < 1 { 1int } else { page_size as int };
                let es = self.entries();
                let n = if start >= es.len() { 0 } else if es.len() - start < size { es.len() - start } else { size };
                r matches Ok(v) && v@.len() == n
                    && forall|i: int| 0 <= i < n ==> cloned(es[start + i].1, #[trigger] v@[i])
            }),
    {
        let p: usize = if page < 1 { 1 } else { page as usize };
        let size: usize = if page_size < 1 { 1 } else { page_size as usize };
        let start = (p - 1) * size;
        let ghost es = self.entries();
        let mut v: Vec<T> = Vec::new();
        let len = self.store.len();
        if start >= len {
            return Ok(v);
        }
        let n = if len - start < size { len - start } else { size };
        let mut i: usize = 0;
        while i < n
            invariant
                i <= n,
                start + n <= len,
                len == self.store@.len(),
                es == self.entries(),
                es.len() == len,
                v@.len() == i,
                forall|k: int| 0 <= k < i ==> cloned(es[start + k].1, #[trigger] v@[k]),
            decreases n - i,
        {
            let c = self.store[start + i].1.clone();
            assert(es[start + i as int].1 == self.store@[start + i as int].1);
            v.push(c);
            i = i + 1;
        }
        Ok(v)
    }

    /// Insert each entity in order, reporting each id.
    pub fn batch_insert(&mut self, entities: &[T]) -> (r: Result<Vec<i64>, SqlError>)
        requires
            old(self).wf(),
        ensures
            final(self).wf(),
            r is Ok,
            r matches Ok(ids) ==> ids@.len() == entities@.len(),
            r matches Ok(ids) ==> forall|i: int| 0 <= i < entities@.len()
                ==> #[trigger] ids@[i] == insert_id(batch_next(old(self).next_identity(), i, T::identity_spec()), entities@[i]),
            final(self).next_identity() == batch_next(old(self).next_identity(), entities@.len() as int, T::identity_spec()),
            r matches Ok(ids) ==> forall|i: int| 0 <= i < entities@.len()
                ==> stored(final(self).entries(), stored_key(#[trigger] ids@[i], entities@[i])) is Some,
            r matches Ok(ids) ==> forall|k: Seq<char>|
                (forall|i: int| 0 <= i < entities@.len() ==> stored_key(#[trigger] ids@[i], entities@[i]) != k)
                ==> #[trigger] stored(final(self).entries(), k) == stored(old(self).entries(), k),
    {
        let mut ids: Vec<i64> = Vec::new();
        let mut i: usize = 0;
        while i < entities.len()
            invariant
                self.wf(),
                i <= entities@.len(),
                ids@.len() == i,
                self.next_identity() == batch_next(old(self).next_identity(), i as int, T::identity_spec()),
                forall|j: int| 0 <= j < i
                    ==> #[trigger] ids@[j] == insert_id(batch_next(old(self).next_identity(), j, T::identity_spec()), entities@[j]),
                forall|j: int| 0 <= j < i ==> stored(self.entries(), stored_key(#[trigger] ids@[j], entities@[j])) is Some,
                forall|k: Seq<char>| (forall|j: int| 0 <= j < i ==> stored_key(#[trigger] ids@[j], entities@[j]) != k)
                    ==> #[trigger] stored(self.entries(), k) == stored(old(self).entries(), k),
            decreases entities@.len() - i,
        {
            let ghost es = self.entries();
            let ghost n0 = self.next_identity();
            let id = match self.insert(&entities[i]) {
                Ok(id) => id,
                Err(e) => return Err(e),
            };
            let ghost k0 = stored_key(id, entities@[i as int]);
            proof {
                law_read_after_write(es, k0, stored(self.entries(), k0).unwrap());
            }
            let ghost ids0 = ids@;
            ids.push(id);
            proof {
                assert(ids@[i as int] == id);
                assert forall|j: int| 0 <= j < i + 1
                    implies stored(self.entries(), stored_key(#[trigger] ids@[j], entities@[j])) is Some by {
                    if j < i {
                        assert(ids@[j] == ids0[j]);
                        if stored_key(ids@[j], entities@[j]) != k0 {
                            assert(stored(self.entries(), stored_key(ids@[j], entities@[j]))
                                == stored(es, stored_key(ids@[j], entities@[j])));
                        }
                    }
                }
            }
            proof {
                assert forall|k: Seq<char>|
                    (forall|j: int| 0 <= j < i + 1 ==> stored_key(#[trigger] ids@[j], entities@[j]) != k)
                    implies #[trigger] stored(self.entries(), k) == stored(old(self).entries(), k) by {
                    assert(stored_key(ids@[i as int], entities@[i as int]) != k);
                    assert forall|j: int| 0 <= j < i implies stored_key(#[trigger] ids0[j], entities@[j]) != k by {
                        assert(ids@[j] == ids0[j]);
                    }
                }
            }
            i = i + 1;
        }
        Ok(ids)
    }

    /// Update each entity in order; the first one whose key is not stored stops the batch
    /// with its not-found error (updates before it stay).
    pub fn batch_update(&mut self, entities: &[T]) -> (r: Result<(), SqlError>)
        requires
            old(self).wf(),
        ensures
            final(self).wf(),
            ({
                let stop = update_stop(old(self).entries(), entities@);
                &&& stop == entities@.len() ==> r is Ok
                &&& stop < entities@.len() ==> (r matches Err(SqlError::NotFound { table, pk })
                    && table@ == T::table_spec() && pk@ == key_text(entities@[stop]))
                &&& same_keys(final(self).entries(), old(self).entries())
                &&& forall|i: int| 0 <= i < stop && last_in_prefix(entities@, stop, i)
                    ==> (stored(final(self).entries(), key_text(#[trigger] entities@[i])) matches Some(c)
                        && cloned(entities@[i], c))
                &&& forall|k: Seq<char>| (forall|i: int| 0 <= i < stop ==> key_text(#[trigger] entities@[i]) != k)
                    ==> #[trigger] stored(final(self).entries(), k) == stored(old(self).entries(), k)
                &&& final(self).counts() == (CallCounts {
                    update: batch_next(old(self).counts().update,
                        if stop < entities@.len() { stop + 1 } else { stop }, true),
                    ..old(self).counts()
                })
                &&& final(self).next_identity() == old(self).next_identity()
            }),
    {
        let ghost es0 = self.entries();
        let ghost xs = entities@;
        let mut i: usize = 0;
        while i < entities.len()
            invariant
                self.wf(),
                es0 == old(self).entries(),
                xs == entities@,
                i <= xs.len(),
                same_keys(self.entries(), es0),
                forall|j: int| 0 <= j < i ==> key_present(es0, #[trigger] xs[j]),
                forall|j: int| 0 <= j < i && last_in_prefix(xs, i as int, j)
                    ==> (stored(self.entries(), key_text(#[trigger] xs[j])) matches Some(c) && cloned(xs[j], c)),
                forall|k: Seq<char>| (forall|j: int| 0 <= j < i ==> key_text(#[trigger] xs[j]) != k)
                    ==> #[trigger] stored(self.entries(), k) == stored(es0, k),
                self.counts() == (CallCounts {
                    update: batch_next(old(self).counts().update, i as int, true), ..old(self).counts()
                }),
                self.next_identity() == old(self).next_identity(),
            decreases entities@.len() - i,
        {
            let ghost es = self.entries();
            let ghost k0 = key_text(xs[i as int]);
            proof {
                lemma_same_keys_presence(es, es0, k0);
            }
            match self.update(&entities[i]) {
                Ok(()) => {
                    proof {
                        let c = stored(self.entries(), k0).unwrap();
                        lemma_update_step(es0, es, xs, i as int, c);
                    }
                },
                Err(e) => {
                    proof {
                        assert(!key_present(es0, xs[i as int]));
                        lemma_update_stop_at(es0, xs, i as int);
                    }
                    return Err(e);
                },
            }
            i = i + 1;
        }
        proof {
            lemma_update_stop_none(es0, xs);
        }
        Ok(())
    }

    /// Delete each key in order.
    pub fn batch_delete(&mut self, ids: &[PkValue]) -> (r: Result<(), SqlError>)
        requires
            old(self).wf(),
        ensures
            final(self).wf(),
            r is Ok,
            forall|i: int| 0 <= i < ids@.len() ==> stored(final(self).entries(), pk_text(#[trigger] ids@[i])) is None,
            forall|k: Seq<char>| (forall|i: int| 0 <= i < ids@.len() ==> pk_text(#[trigger] ids@[i]) != k)
                ==> #[trigger] stored(final(self).entries(), k) == stored(old(self).entries(), k),
    {
        let mut i: usize = 0;
        while i < ids.len()
            invariant
                self.wf(),
                i <= ids@.len(),
                forall|j: int| 0 <= j < i ==> stored(self.entries(), pk_text(#[trigger] ids@[j])) is None,
                forall|k: Seq<char>| (forall|j: int| 0 <= j < i ==> pk_text(#[trigger] ids@[j]) != k)
                    ==> #[trigger] stored(self.entries(), k) == stored(old(self).entries(), k),
            decreases ids@.len() - i,
        {
            let ghost es = self.entries();
            let ghost k0 = pk_text(ids@[i as int]);
            let _ = self.delete(ids[i].duplicate());
            proof {
                law_delete_removes(es, k0);
            }
            i = i + 1;
        }
        Ok(())
    }

    /// Raw queries are not run: every stored entity comes back as a row of its
    /// parameters, in store order.
    pub fn query_raw(&self, sql: &str, params: &[OdbcParam]) -> (r: Result<Vec<OdbcRow>, SqlError>)
        ensures
            r is Ok,
            r matches Ok(rows) ==> rows@.len() == self.entries().len(),
            r matches Ok(rows) ==> forall|i: int| 0 <= i < rows@.len()
                ==> (#[trigger] rows@[i])@ == row_of_params(self.entries()[i].1.param_list()),
    {
        let mut rows: Vec<OdbcRow> = Vec::new();
        let mut i: usize = 0;
        while i < self.store.len()
            invariant
                i <= self.store@.len(),
                rows@.len() == i,
                forall|j: int| 0 <= j < i
                    ==> (#[trigger] rows@[j])@ == row_of_params(self.entries()[j].1.param_list()),
            decreases self.store@.len() - i,
        {
            let ps = self.store[i].1.to_params();
            let row = row_from_params(ps);
            proof {
                assert(self.entries()[i as int].1 == self.store@[i as int].1);
            }
            rows.push(row);
            i = i + 1;
        }
        Ok(rows)
    }

    /// Raw statements are not run: no row is ever affected.
    pub fn execute_raw(&self, sql: &str, params: &[OdbcParam]) -> (r: Result<usize, SqlError>)
        ensures
            r == Ok::<usize, SqlError>(0),
    {
        Ok(0)
    }

    /// Scalar queries are not supported by the in-memory repository.
    pub fn scalar<S>(&self, sql: &str, params: &[OdbcParam]) -> (r: Result<S, SqlError>)
        ensures
            r matches Err(SqlError::Config(m))
                && m@ == "MockRepository::scalar is not supported \u{2014} use a custom mock for scalar queries"@,
    {
        Err(SqlError::config(to_owned_string(
            "MockRepository::scalar is not supported \u{2014} use a custom mock for scalar queries",
        )))
    }
}

/// With unique keys, the entity at position `i` is the one stored under its key.
pub proof fn lemma_find_unique<T>(es: Seq<(Seq<char>, T)>, i: int)
    requires
        keys_unique(es),
        0 <= i < es.len(),
    ensures
        find_key(es, es[i].0) == Some(i),
{
    let k = es[i].0;
    assert(0 <= i < es.len() && es[i].0 == k);
    let j = choose|j: int| 0 <= j < es.len() && (#[trigger] es[j]).0 == k;
    if j != i {
        if j < i {
            assert(es[j].0 != es[i].0);
        } else {
            assert(es[i].0 != es[j].0);
        }
    }
}

/// Read after write: storing `v` under `k` keeps keys unique, makes `v` what is read
/// under `k`, and leaves what is read under every other key unchanged.
pub proof fn law_read_after_write<T>(es: Seq<(Seq<char>, T)>, k: Seq<char>, v: T)
    requires
        keys_unique(es),
    ensures
        keys_unique(upsert_entry(es, k, v)),
        stored(upsert_entry(es, k, v), k) == Some(v),
        forall|k2: Seq<char>| k2 != k ==> #[trigger] stored(upsert_entry(es, k, v), k2) == stored(es, k2),
{
    let u = upsert_entry(es, k, v);
    match find_key(es, k) {
        Some(i) => {
            assert(u == es.update(i, (k, v)));
            assert(es[i].0 == k);
            assert forall|a: int, b: int| 0 <= a < b < u.len() implies (#[trigger] u[a]).0 != (#[trigger] u[b]).0 by {
                assert(u[a].0 == es[a].0);
                assert(u[b].0 == es[b].0);
            }
            lemma_find_unique(u, i);
            assert forall|k2: Seq<char>| k2 != k implies #[trigger] stored(u, k2) == stored(es, k2) by {
                if exists|x: int| 0 <= x < es.len() && (#[trigger] es[x]).0 == k2 {
                    let x = choose|x: int| 0 <= x < es.len() && (#[trigger] es[x]).0 == k2;
                    lemma_find_unique(es, x);
                    assert(u[x].0 == k2);
                    lemma_find_unique(u, x);
                } else {
                    assert forall|x: int| 0 <= x < u.len() implies (#[trigger] u[x]).0 != k2 by {
                        if x != i {
                            assert(u[x] == es[x]);
                        }
                    }
                }
            }
        },
        None => {
            assert(u == es.push((k, v)));
            assert forall|a: int, b: int| 0 <= a < b < u.len() implies (#[trigger] u[a]).0 != (#[trigger] u[b]).0 by {
                if b == es.len() {
                    assert(u[a] == es[a]);
                } else {
                    assert(u[a] == es[a]);
                    assert(u[b] == es[b]);
                }
            }
            lemma_find_unique(u, es.len() as int);
            assert forall|k2: Seq<char>| k2 != k implies #[trigger] stored(u, k2) == stored(es, k2) by {
                if exists|x: int| 0 <= x < es.len() && (#[trigger] es[x]).0 == k2 {
                    let x = choose|x: int| 0 <= x < es.len() && (#[trigger] es[x]).0 == k2;
                    lemma_find_unique(es, x);
                    assert(u[x] == es[x]);
                    lemma_find_unique(u, x);
                } else {
                    assert forall|x: int| 0 <= x < u.len() implies (#[trigger] u[x]).0 != k2 by {
                        if x < es.len() {
                            assert(u[x] == es[x]);
                        }
                    }
                }
            }
        },
    }
}

/// What storing `c` under `k` leaves stored under `k`.
pub proof fn lemma_upsert_stored<T>(es: Seq<(Seq<char>, T)>, k: Seq<char>, c: T)
    requires
        keys_unique(es),
    ensures
        stored(upsert_entry(es, k, c), k) == Some(c),
{
    law_read_after_write(es, k, c);
}

/// Delete: removing `k` keeps keys unique, leaves nothing under `k`, and leaves what is
/// read under every other key unchanged.
pub proof fn law_delete_removes<T>(es: Seq<(Seq<char>, T)>, k: Seq<char>)
    requires
        keys_unique(es),
    ensures
        keys_unique(remove_entry(es, k)),
        stored(remove_entry(es, k), k) is None,
        forall|k2: Seq<char>| k2 != k ==> #[trigger] stored(remove_entry(es, k), k2) == stored(es, k2),
{
    let u = remove_entry(es, k);
    match find_key(es, k) {
        Some(i) => {
            assert(u == es.remove(i));
            assert(es[i].0 == k);
            assert forall|a: int, b: int| 0 <= a < b < u.len() implies (#[trigger] u[a]).0 != (#[trigger] u[b]).0 by {
                let a2 = if a < i { a } else { a + 1 };
                let b2 = if b < i { b } else { b + 1 };
                assert(u[a] == es[a2]);
                assert(u[b] == es[b2]);
            }
            assert forall|x: int| 0 <= x < u.len() implies (#[trigger] u[x]).0 != k by {
                let x2 = if x < i { x } else { x + 1 };
                assert(u[x] == es[x2]);
                if x2 < i {
                    assert(es[x2].0 != es[i].0);
                } else {
                    assert(es[i].0 != es[x2].0);
                }
            }
            assert forall|k2: Seq<char>| k2 != k implies #[trigger] stored(u, k2) == stored(es, k2) by {
                if exists|x: int| 0 <= x < es.len() && (#[trigger] es[x]).0 == k2 {
                    let x = choose|x: int| 0 <= x < es.len() && (#[trigger] es[x]).0 == k2;
                    lemma_find_unique(es, x);
                    assert(x != i);
                    let y = if x < i { x } else { x - 1 };
                    assert(u[y] == es[x]);
                    lemma_find_unique(u, y);
                } else {
                    assert forall|x: int| 0 <= x < u.len() implies (#[trigger] u[x]).0 != k2 by {
                        let x2 = if x < i { x } else { x + 1 };
                        assert(u[x] == es[x2]);
                    }
                }
            }
        },
        None => {},
    }
}

/// The count grows by one exactly when an entity is stored under a new key, and shrinks by
/// one exactly when a stored key is removed.
pub proof fn law_count_tracks_keys<T>(es: Seq<(Seq<char>, T)>, k: Seq<char>, v: T)
    requires
        keys_unique(es),
    ensures
        upsert_entry(es, k, v).len() == es.len() + (if stored(es, k) is None { 1int } else { 0int }),
        remove_entry(es, k).len() == es.len() - (if stored(es, k) is None { 0int } else { 1int }),
{
}

/// Identity keys are numbered consecutively: an insert reports the current counter, which
/// then moves on by one, and the entity is stored under the reported id, so that looking
/// it up by that id finds it.
pub proof fn law_identity_ids<T: SqlEntity>(next_id: i64, e: T)
    requires
        T::identity_spec(),
        next_id < i64::MAX,
    ensures
        insert_id::<T>(next_id, e) == next_id,
        wrapping_add(next_id, 1) == next_id + 1,
        stored_key::<T>(insert_id::<T>(next_id, e), e) == pk_text(PkValue::I64(next_id)),
        i32::MIN <= next_id <= i32::MAX
            ==> stored_key::<T>(insert_id::<T>(next_id, e), e) == pk_text(PkValue::I32(next_id as i32)),
{
}

/// `[` or `]`.
pub open spec fn is_bracket(c: char) -> bool {
    c == '[' || c == ']'
}

pub open spec fn strip_brackets_start(s: Seq<char>) -> Seq<char>
    decreases s.len(),
{
    if s.len() > 0 && is_bracket(s[0]) { strip_brackets_start(s.drop_first()) } else { s }
}

pub open spec fn strip_brackets_end(s: Seq<char>) -> Seq<char>
    decreases s.len(),
{
    if s.len() > 0 && is_bracket(s.last()) { strip_brackets_end(s.drop_last()) } else { s }
}

/// `trim_matches(|c| c == '[' || c == ']')`: brackets removed from both ends.
pub open spec fn strip_brackets(s: Seq<char>) -> Seq<char> {
    strip_brackets_end(strip_brackets_start(s))
}

proof fn lemma_strip_start_skip(s: Seq<char>, a: int)
    requires
        0 <= a <= s.len(),
        forall|k: int| 0 <= k < a ==> is_bracket(s[k]),
    ensures
        strip_brackets_start(s) == strip_brackets_start(s.skip(a)),
    decreases a,
{
    if a > 0 {
        assert(s.drop_first().skip(a - 1) =~= s.skip(a));
        lemma_strip_start_skip(s.drop_first(), a - 1);
    } else {
        assert(s.skip(0) =~= s);
    }
}

proof fn lemma_strip_end_take(s: Seq<char>, b: int)
    requires
        0 <= b <= s.len(),
        forall|k: int| b <= k < s.len() ==> is_bracket(s[k]),
    ensures
        strip_brackets_end(s) == strip_brackets_end(s.take(b)),
    decreases s.len() - b,
{
    if b < s.len() {
        assert(s.drop_last().take(b) =~= s.take(b));
        lemma_strip_end_take(s.drop_last(), b);
    } else {
        assert(s.take(b) =~= s);
    }
}

/// The characters of `s` without leading and trailing brackets.
pub fn strip_brackets_chars(s: &Vec<char>) -> (r: Vec<char>)
    ensures
        r@ == strip_brackets(s@),
{
    let n = s.len();
    let mut a: usize = 0;
    while a < n && (s[a] == '[' || s[a] == ']')
        invariant
            n == s@.len(),
            a <= n,
            forall|k: int| 0 <= k < a ==> is_bracket(s@[k]),
        decreases n - a,
    {
        a = a + 1;
    }
    proof {
        lemma_strip_start_skip(s@, a as int);
    }
    let ghost t = s@.skip(a as int);
    let mut b: usize = n;
    while b > a && (s[b - 1] == '[' || s[b - 1] == ']')
        invariant
            n == s@.len(),
            a <= b <= n,
            forall|k: int| b <= k < n ==> is_bracket(s@[k]),
        decreases b,
    {
        b = b - 1;
    }
    let r = sub_chars(s, a, b);
    proof {
        assert(strip_brackets_start(s@) == t);
        if a < n {
            assert(strip_brackets_start(t) == t);
        } else {
            assert(t.len() == 0);
        }
        lemma_strip_end_take(t, (b - a) as int);
        assert(t.take((b - a) as int) =~= r@);
        if b > a {
            assert(!is_bracket(r@.last()));
        }
    }
    r
}

/// The characters of `s` in `[lo, hi)`.
pub fn sub_chars(s: &Vec<char>, lo: usize, hi: usize) -> (r: Vec<char>)
    requires
        lo <= hi <= s@.len(),
    ensures
        r@ == s@.subrange(lo as int, hi as int),
{
    let mut r: Vec<char> = Vec::new();
    let mut i = lo;
    while i < hi
        invariant
            lo <= i <= hi <= s@.len(),
            r@ == s@.subrange(lo as int, i as int),
        decreases hi - i,
    {
        r.push(s[i]);
        i = i + 1;
        assert(r@ =~= s@.subrange(lo as int, i as int));
    }
    r
}

/// `p` is the position of the first `=`.
pub open spec fn is_first_eq(s: Seq<char>, p: int) -> bool {
    &&& 0 <= p < s.len()
    &&& s[p] == '='
    &&& forall|k: int| 0 <= k < p ==> #[trigger] s[k] != '='
}

/// `s` holds an ASCII space.
pub open spec fn has_space(s: Seq<char>) -> bool {
    exists|i: int| 0 <= i < s.len() && #[trigger] s[i] == ' '
}

/// The column and parameter names of a `column = @param` filter (spaces around `=`
/// allowed, brackets around the column stripped), or `None` for any other filter.
pub open spec fn eq_filter_spec(filter: Seq<char>) -> Option<(Seq<char>, Seq<char>)> {
    let f = trim(filter);
    if exists|p: int| is_first_eq(f, p) {
        let p = choose|p: int| is_first_eq(f, p);
        let col = strip_brackets(trim(f.take(p)));
        let rhs = trim(f.skip(p + 1));
        if rhs.len() > 0 && rhs[0] == '@' {
            let param = rhs.drop_first();
            if has_space(col) || has_space(param) { None } else { Some((col, param)) }
        } else {
            None
        }
    } else {
        None
    }
}

fn has_space_exec(s: &Vec<char>) -> (b: bool)
    ensures
        b == has_space(s@),
{
    let mut i: usize = 0;
    while i < s.len()
        invariant
            i <= s@.len(),
            forall|k: int| 0 <= k < i ==> s@[k] != ' ',
        decreases s@.len() - i,
    {
        if s[i] == ' ' {
            assert(s@[i as int] == ' ');
            return true;
        }
        i = i + 1;
    }
    false
}

/// Parse a simple `column = @param` filter into `(column, param)`.
pub fn parse_simple_eq_filter(filter: &str) -> (r: Option<(String, String)>)
    ensures
        match eq_filter_spec(filter@) {
            Some((c, p)) => r matches Some((rc, rp)) && rc@ == c && rp@ == p,
            None => r is None,
        },
{
    let f = crate::row::trimmed_chars(filter);
    let n = f.len();
    let mut p: usize = 0;
    while p < n && f[p] != '='
        invariant
            n == f@.len(),
            p <= n,
            forall|k: int| 0 <= k < p ==> #[trigger] f@[k] != '=',
        decreases n - p,
    {
        p = p + 1;
    }
    if p == n {
        assert(!exists|q: int| is_first_eq(f@, q));
        return None;
    }
    proof {
        assert(is_first_eq(f@, p as int));
        let q = choose|q: int| is_first_eq(f@, q);
        assert(q == p) by {
            if q < p {
                assert(f@[q] != '=');
            }
            if q > p {
                assert(f@[p as int] != '=');
            }
        }
    }
    let lhs = sub_chars(&f, 0, p);
    assert(lhs@ =~= f@.take(p as int));
    let col = strip_brackets_chars(&crate::textparse::trim_chars(&lhs));
    let rest = sub_chars(&f, p + 1, n);
    assert(rest@ =~= f@.skip(p as int + 1));
    let rhs = crate::textparse::trim_chars(&rest);
    if rhs.len() == 0 || rhs[0] != '@' {
        return None;
    }
    let param = sub_chars(&rhs, 1, rhs.len());
    assert(param@ =~= rhs@.drop_first());
    if has_space_exec(&col) || has_space_exec(&param) {
        return None;
    }
    Some((crate::row::string_of_chars(&col), crate::row::string_of_chars(&param)))
}

/// The text a parameter value is compared by: `1`/`0` for booleans, the decimal form of
/// integers and decimals, the text of strings, the hyphenated form of GUIDs. Floats, dates,
/// binary and `NULL` give none (floats are held as bit patterns and are not rendered here).
pub open spec fn param_text(v: ParamView) -> Option<Seq<char>> {
    match v {
        ParamView::Bool(b) => Some(if b { "1"@ } else { "0"@ }),
        ParamView::U8(x) => Some(int_text(x as int)),
        ParamView::I16(x) => Some(int_text(x as int)),
        ParamView::I32(x) => Some(int_text(x as int)),
        ParamView::I64(x) => Some(int_text(x as int)),
        ParamView::Decimal(d) => Some(decimal_text(d.mantissa_spec(), d.scale_spec())),
        ParamView::Str(s) => Some(s),
        ParamView::Guid(g) => Some(guid_text(g as int)),
        _ => None,
    }
}

/// Render a parameter value as comparison text.
pub fn param_value_to_str(value: &ParamValue) -> (r: Option<String>)
    ensures
        match param_text(value@) {
            Some(t) => r matches Some(s) && s@ == t,
            None => r is None,
        },
{
    match value {
        ParamValue::Bool(b) => Some(to_owned_string(if *b { "1" } else { "0" })),
        ParamValue::U8(x) => {
            let mut s = String::new();
            push_i128(&mut s, *x as i128);
            Some(s)
        },
        ParamValue::I16(x) => {
            let mut s = String::new();
            push_i128(&mut s, *x as i128);
            Some(s)
        },
        ParamValue::I32(x) => {
            let mut s = String::new();
            push_i128(&mut s, *x as i128);
            Some(s)
        },
        ParamValue::I64(x) => {
            let mut s = String::new();
            push_i128(&mut s, *x as i128);
            Some(s)
        },
        ParamValue::Decimal(d) => Some(d.to_text()),
        ParamValue::Str(v) => Some(v.clone()),
        ParamValue::Guid(g) => Some(guid_to_string(*g)),
        _ => None,
    }
}

impl<T: SqlEntity + Clone> MockRepository<T> {
    /// Copies of every stored entity, in store order: the filter and its parameters are
    /// not evaluated.
    pub fn get_where(&self, filter: &str, params: &[OdbcParam]) -> (r: Result<Vec<T>, SqlError>)
        ensures
            r matches Ok(v) && v@.len() == self.entries().len()
                && forall|i: int| 0 <= i < v@.len() ==> cloned(self.entries()[i].1, #[trigger] v@[i]),
    {
        Ok(self.all_items())
    }
}

} // verus!
