//! Runtime query builder — wraps static SQL templates with dynamic extensions.
use vstd::prelude::*;
use crate::text::{int_text, push_i128, to_owned_string};

verus! {

/// Abstract content of a [`QueryBuilder`].
pub struct QueryBuilderView {
    pub base_sql: Seq<char>,
    pub where_clause: Option<Seq<char>>,
    pub order_by: Option<Seq<char>>,
    pub offset: Option<i64>,
    pub fetch: Option<i64>,
}

/// Wraps a static SQL template with an optional WHERE, ORDER BY and OFFSET/FETCH.
pub struct QueryBuilder {
    base_sql: String,
    where_clause: Option<String>,
    order_by: Option<String>,
    offset: Option<i64>,
    fetch: Option<i64>,
}

pub open spec fn opt_view(o: Option<String>) -> Option<Seq<char>> {
    match o {
        Some(s) => Some(s@),
        None => None,
    }
}

impl View for QueryBuilder {
    type V = QueryBuilderView;

    closed spec fn view(&self) -> QueryBuilderView {
        QueryBuilderView {
            base_sql: self.base_sql@,
            where_clause: opt_view(self.where_clause),
            order_by: opt_view(self.order_by),
            offset: self.offset,
            fetch: self.fetch,
        }
    }
}

/// The SQL text a builder produces.
pub open spec fn build_spec(q: QueryBuilderView) -> Seq<char> {
    let s1 = match q.where_clause {
        Some(w) => q.base_sql + " WHERE "@ + w,
        None => q.base_sql,
    };
    let s2 = match q.order_by {
        Some(o) => s1 + " ORDER BY "@ + o,
        None => s1,
    };
    match (q.offset, q.fetch) {
        (Some(off), Some(f)) => {
            let s3 = if q.order_by is None { s2 + " ORDER BY (SELECT NULL)"@ } else { s2 };
            s3 + " OFFSET "@ + int_text(off as int) + " ROWS FETCH NEXT "@ + int_text(f as int)
                + " ROWS ONLY"@
        },
        _ => s2,
    }
}

/// The built text always starts with the template and the WHERE condition; an ORDER BY,
/// when one was given, follows right after, whether or not the query is paged; without
/// paging nothing more is added.
pub proof fn law_build_keeps_order_by(q: QueryBuilderView)
    ensures
        ({
            let head = match q.where_clause {
                Some(w) => q.base_sql + " WHERE "@ + w,
                None => q.base_sql,
            };
            let ordered = match q.order_by {
                Some(o) => head + " ORDER BY "@ + o,
                None => head,
            };
            &&& ordered.len() <= build_spec(q).len()
            &&& build_spec(q).take(ordered.len() as int) == ordered
            &&& (q.offset is None || q.fetch is None) ==> build_spec(q) == ordered
        }),
{
    let head = match q.where_clause {
        Some(w) => q.base_sql + " WHERE "@ + w,
        None => q.base_sql,
    };
    let ordered = match q.order_by {
        Some(o) => head + " ORDER BY "@ + o,
        None => head,
    };
    match (q.offset, q.fetch) {
        (Some(off), Some(f)) => {
            let s3 = if q.order_by is None { ordered + " ORDER BY (SELECT NULL)"@ } else { ordered };
            let tail = " OFFSET "@ + int_text(off as int) + " ROWS FETCH NEXT "@ + int_text(f as int)
                + " ROWS ONLY"@;
            assert(build_spec(q) == s3 + tail);
            if q.order_by is None {
                assert(build_spec(q) =~= ordered + (" ORDER BY (SELECT NULL)"@ + tail));
            } else {
                assert(build_spec(q) =~= ordered + tail);
            }
            assert(build_spec(q).take(ordered.len() as int) =~= ordered);
        },
        _ => {
            assert(build_spec(q).take(ordered.len() as int) =~= ordered);
        },
    }
}

impl QueryBuilder {
    /// Starts from a static SQL template with no extensions.
    pub fn new(base_sql: &str) -> (q: QueryBuilder)
        ensures
            q@ == (QueryBuilderView {
                base_sql: base_sql@,
                where_clause: None,
                order_by: None,
                offset: None,
                fetch: None,
            }),
    {
        QueryBuilder {
            base_sql: to_owned_string(base_sql),
            where_clause: None,
            order_by: None,
            offset: None,
            fetch: None,
        }
    }

    /// Sets (or replaces) the WHERE clause.
    pub fn where_clause(self, clause: &str) -> (q: QueryBuilder)
        ensures
            q@ == (QueryBuilderView { where_clause: Some(clause@), ..self@ }),
    {
        let mut s = self;
        s.where_clause = Some(to_owned_string(clause));
        s
    }

    /// Sets (or replaces) the ORDER BY list.
    pub fn order_by(self, col: &str) -> (q: QueryBuilder)
        ensures
            q@ == (QueryBuilderView { order_by: Some(col@), ..self@ }),
    {
        let mut s = self;
        s.order_by = Some(to_owned_string(col));
        s
    }

    /// Selects the 1-based page `page` of `page_size` rows.
    pub fn paged(self, page: i64, page_size: i64) -> (q: QueryBuilder)
        requires
            page > i64::MIN,
            i64::MIN <= (page - 1) * page_size <= i64::MAX,
        ensures
            q@ == (QueryBuilderView {
                offset: Some(((page - 1) * page_size) as i64),
                fetch: Some(page_size),
                ..self@
            }),
    {
        let mut s = self;
        let prev: i64 = page - 1;
        s.offset = Some(prev * page_size);
        s.fetch = Some(page_size);
        s
    }

    /// Renders the final SQL text.
    pub fn build(self) -> (sql: String)
        ensures
            sql@ == build_spec(self@),
    {
        let ghost v = self@;
        let mut sql = self.base_sql;
        let has_order_by = self.order_by.is_some();
        match &self.where_clause {
            Some(w) => {
                sql.append(" WHERE ");
                sql.append(w.as_str());
            },
            None => {},
        }
        match &self.order_by {
            Some(o) => {
                sql.append(" ORDER BY ");
                sql.append(o.as_str());
            },
            None => {},
        }
        match (self.offset, self.fetch) {
            (Some(offset), Some(fetch)) => {
                if !has_order_by {
                    sql.append(" ORDER BY (SELECT NULL)");
                }
                sql.append(" OFFSET ");
                push_i128(&mut sql, offset as i128);
                sql.append(" ROWS FETCH NEXT ");
                push_i128(&mut sql, fetch as i128);
                sql.append(" ROWS ONLY");
            },
            _ => {},
        }
        sql
    }
}

/// SQL for one page of a base SELECT, ordered by its key column.
pub open spec fn paged_sql_spec(select_sql: Seq<char>, pk_col: Seq<char>, page: int, page_size: int) -> Seq<char> {
    select_sql + " ORDER BY "@ + pk_col + " OFFSET "@ + int_text((page - 1) * page_size)
        + " ROWS FETCH NEXT "@ + int_text(page_size) + " ROWS ONLY"@
}

/// Build a paged SELECT from a static base SELECT SQL.
pub fn paged_sql(select_sql: &str, pk_col: &str, page: i64, page_size: i64) -> (sql: String)
    requires
        page > i64::MIN,
        i64::MIN <= (page - 1) * page_size <= i64::MAX,
    ensures
        sql@ == paged_sql_spec(select_sql@, pk_col@, page as int, page_size as int),
{
    QueryBuilder::new(select_sql).order_by(pk_col).paged(page, page_size).build()
}

/// Build a WHERE-filtered SELECT.
pub fn filtered_sql(select_sql: &str, filter: &str) -> (sql: String)
    ensures
        sql@ == select_sql@ + " WHERE "@ + filter@,
{
    QueryBuilder::new(select_sql).where_clause(filter).build()
}

/// Build batch INSERT SQL strings (one per row, to be executed in a transaction).
pub fn batch_insert_sqls(insert_sql: &str, count: usize) -> (v: Vec<String>)
    ensures
        v@.len() == count,
        forall|i: int| 0 <= i < count ==> (#[trigger] v@[i])@ == insert_sql@,
{
    let mut v: Vec<String> = Vec::new();
    let mut i: usize = 0;
    while i < count
        invariant
            i <= count,
            v@.len() == i,
            forall|j: int| 0 <= j < i ==> (#[trigger] v@[j])@ == insert_sql@,
        decreases count - i,
    {
        v.push(to_owned_string(insert_sql));
        i = i + 1;
    }
    v
}

} // verus!
