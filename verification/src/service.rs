//! The entity service's own logic: its settings, the parameter list sent with each query,
//! reading counts and scalars from result rows, named queries and batch splitting.
use vstd::prelude::*;
use crate::config::QueryConfig;
use crate::error::SqlError;
use crate::model::param_views;
use crate::params::{OdbcParam, ParamValue, ParamView};
use crate::query::registry::QueryRegistry;
use crate::row::{first_string, first_text, rows_view, trimmed_chars, OdbcRow, RowView};
use crate::text::to_owned_string;
use crate::textparse::{parse_int, parse_int_exec, trim};

verus! {

/// The per-service settings: query limits and the tenant every query is scoped to.
#[derive(Debug, Clone)]
pub struct ServiceSettings {
    pub query_cfg: QueryConfig,
    /// Appended as `@__tenant_id` to the parameters of every query when set.
    pub tenant_id: Option<ParamValue>,
}

/// The parameters a query is sent with: the caller's, then the tenant id when one is set.
pub open spec fn scoped_params(
    params: Seq<(Seq<char>, ParamView)>,
    tenant: Option<ParamView>,
) -> Seq<(Seq<char>, ParamView)> {
    match tenant {
        None => params,
        Some(t) => params.push(("__tenant_id"@, t)),
    }
}

impl ServiceSettings {
    /// Settings with the given query configuration and no tenant.
    pub fn new(query_cfg: QueryConfig) -> (s: ServiceSettings)
        ensures
            s.query_cfg == query_cfg,
            s.tenant_id is None,
    {
        ServiceSettings { query_cfg, tenant_id: None }
    }

    /// Override the query timeout.
    pub fn with_timeout(self, secs: u64) -> (s: ServiceSettings)
        ensures
            s.query_cfg == (QueryConfig { timeout_secs: Some(secs), ..self.query_cfg }),
            s.tenant_id == self.tenant_id,
    {
        let mut s = self;
        s.query_cfg.timeout_secs = Some(secs);
        s
    }

    /// Scope every query to a tenant.
    pub fn with_tenant(self, tenant_id: ParamValue) -> (s: ServiceSettings)
        ensures
            s.query_cfg == self.query_cfg,
            s.tenant_id == Some(tenant_id),
    {
        ServiceSettings { query_cfg: self.query_cfg, tenant_id: Some(tenant_id) }
    }

    /// The tenant as a parameter value, if set.
    pub open spec fn tenant_view(&self) -> Option<ParamView> {
        match self.tenant_id {
            Some(t) => Some(t@),
            None => None,
        }
    }

    /// The final parameter list of a query.
    pub fn build_params(&self, params: &[OdbcParam]) -> (r: Vec<OdbcParam>)
        ensures
            param_views(r@) == scoped_params(param_views(params@), self.tenant_view()),
    {
        let mut all: Vec<OdbcParam> = Vec::new();
        let mut i: usize = 0;
        while i < params.len()
            invariant
                i <= params@.len(),
                param_views(all@) == param_views(params@.take(i as int)),
            decreases params@.len() - i,
        {
            let ghost before = all@;
            let d = params[i].duplicate();
            all.push(d);
            assert(params@.take(i as int + 1) =~= params@.take(i as int).push(params@[i as int]));
            assert(param_views(all@) =~= param_views(before).push((d.name@, d.value@)));
            assert(param_views(params@.take(i as int + 1)) =~= param_views(params@.take(i as int)).push(
                (params@[i as int].name@, params@[i as int].value@)));
            i = i + 1;
        }
        assert(params@.take(params@.len() as int) =~= params@);
        match &self.tenant_id {
            None => {},
            Some(t) => {
                let ghost before = all@;
                all.push(OdbcParam::new("__tenant_id", t.duplicate()));
                assert(param_views(all@) =~= param_views(before).push(("__tenant_id"@, t@)));
            },
        }
        all
    }
}

/// A count read from a `COUNT(*)` result: the first cell's trimmed text as an `i64`, or 0
/// when there is no row or the text is not a number.
pub open spec fn count_spec(rows: Seq<RowView>) -> int {
    match first_text(rows) {
        Some(t) => match parse_int(trim(t), i64::MIN as int, i64::MAX as int) {
            Ok(v) => v,
            Err(_) => 0,
        },
        None => 0,
    }
}

/// Read a row count.
pub fn count_from_rows(rows: &Vec<OdbcRow>) -> (n: i64)
    ensures
        n == count_spec(rows_view(rows@)),
{
    match first_string(rows) {
        None => 0,
        Some(s) => {
            let t = trimmed_chars(s.as_str());
            match parse_int_exec(&t, i64::MIN as i128, i64::MAX as i128) {
                Ok(v) => v as i64,
                Err(_) => 0,
            }
        },
    }
}

/// The raw text of a scalar query: the first cell of the first row, or an error when the
/// query returned nothing readable.
pub fn scalar_text(rows: &Vec<OdbcRow>) -> (r: Result<String, SqlError>)
    ensures
        match first_text(rows_view(rows@)) {
            Some(t) => r matches Ok(s) && s@ == t,
            None => r matches Err(SqlError::Config(m)) && m@ == "scalar query returned no rows"@,
        },
{
    match first_string(rows) {
        Some(s) => Ok(s),
        None => Err(SqlError::config(to_owned_string("scalar query returned no rows"))),
    }
}

/// The SQL of a registered query, or an error naming the missing query.
pub fn named_sql(registry: &QueryRegistry, name: &str) -> (r: Result<&'static str, SqlError>)
    ensures
        registry@.contains_key(name@) ==> (r matches Ok(s) && s@ == registry@[name@]),
        !registry@.contains_key(name@) ==> (r matches Err(SqlError::Config(m))
            && m@ == "Query '"@ + name@ + "' not found in registry"@),
{
    match registry.get(name) {
        Some(sql) => Ok(sql),
        None => {
            let mut m = to_owned_string("Query '");
            m.append(name);
            m.append("' not found in registry");
            Err(SqlError::config(m))
        },
    }
}

/// Split `n` items into consecutive batches of `batch_size` items (a size of 0 counts
/// as 1); the last batch may be shorter.
pub fn batch_ranges(n: usize, batch_size: usize) -> (r: Vec<(usize, usize)>)
    ensures
        r@.len() == (if n == 0 { 0 } else { (n - 1) / (if batch_size == 0 { 1 } else { batch_size as int }) + 1 }),
        forall|k: int| 0 <= k < r@.len() ==> {
            let size = if batch_size == 0 { 1int } else { batch_size as int };
            &&& (#[trigger] r@[k]).0 == k * size
            &&& r@[k].1 == if (k + 1) * size < n { (k + 1) * size } else { n as int }
        },
{
    let size: usize = if batch_size == 0 { 1 } else { batch_size };
    let mut r: Vec<(usize, usize)> = Vec::new();
    if n == 0 {
        return r;
    }
    let count = (n - 1) / size + 1;
    let mut k: usize = 0;
    while k < count
        invariant
            size >= 1,
            size == (if batch_size == 0 { 1 } else { batch_size }),
            n > 0,
            count == (n - 1) / (size as int) + 1,
            k <= count,
            r@.len() == k,
            forall|j: int| 0 <= j < r@.len() ==> {
                &&& (#[trigger] r@[j]).0 == j * size
                &&& r@[j].1 == if (j + 1) * size < n { (j + 1) * size } else { n as int }
            },
        decreases count - k,
    {
        proof {
            assert(k * size <= n - 1) by (nonlinear_arith)
                requires k <= (n - 1) / (size as int), size >= 1, n >= 1;
            assert((k + 1) * size == k * size + size) by (nonlinear_arith);
        }
        let start = k * size;
        let end = if n - start > size { start + size } else { n };
        r.push((start, end));
        k = k + 1;
    }
    r
}

} // verus!
