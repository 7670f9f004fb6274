use statiq::cache::{
    all_key, by_id_key, count_key, local_table_keys, table_pattern, NoCache,
    RedisCache, ScanProgress,
};
use statiq::config::{QueryConfig, RedisConfig};
use statiq::error::SqlError;
use statiq::params::{OdbcParam, ParamValue};
use statiq::query::registry::QueryRegistry;
use statiq::row::{CellValue, OdbcRow};
use statiq::service::{batch_ranges, count_from_rows, named_sql, scalar_text, ServiceSettings};

fn one_cell(text: &str) -> Vec<OdbcRow> {
    vec![OdbcRow::new(vec!["c".to_string()], vec![CellValue::Text(text.to_string())])]
}

#[test]
fn cache_keys() {
    assert_eq!(by_id_key("SqlService::Users", "42"), "SqlService::Users::GetById::42");
    assert_eq!(all_key("SqlService::Users"), "SqlService::Users::GetAll");
    assert_eq!(count_key("SqlService::Users"), "SqlService::Users::Count");
    assert_eq!(table_pattern("SqlService::Users"), "SqlService::Users::*");
    assert_eq!(by_id_key("P", "7"), "P::GetById::7");
    assert_eq!(local_table_keys("P"), vec!["P::GetAll".to_string(), "P::Count".to_string(), "P::GetById".to_string()]);
}

#[test]
fn cache_ttls() {
    let n = NoCache;
    assert_eq!((n.default_ttl_secs(), n.count_ttl_secs()), (300, 60));
    let r = RedisCache::new(&RedisConfig::default());
    assert_eq!((r.default_ttl_secs(), r.count_ttl_secs()), (300, 60));
}

#[test]
fn scan_until_cursor_returns_to_zero() {
    let mut p = ScanProgress::start();
    assert_eq!(p.cursor, 0);
    p.step(17, 3);
    assert!(!p.done);
    assert_eq!(p.cursor, 17);
    assert!(ScanProgress::needs_delete(3));
    p.step(0, 0);
    assert!(p.done);
    assert_eq!(p.deleted, 3);
    assert!(!ScanProgress::needs_delete(0));
}

#[test]
fn tenant_parameter_appended() {
    let s = ServiceSettings::new(QueryConfig::default()).with_tenant(ParamValue::I32(9));
    let ps = s.build_params(&[OdbcParam::new("active", ParamValue::Bool(true))]);
    assert_eq!(ps.len(), 2);
    assert_eq!(ps[0].name, "active");
    assert_eq!(ps[1].name, "__tenant_id");
    assert!(matches!(ps[1].value, ParamValue::I32(9)));
    let plain = ServiceSettings::new(QueryConfig::default());
    assert_eq!(plain.build_params(&[]).len(), 0);
}

#[test]
fn timeout_override() {
    let s = ServiceSettings::new(QueryConfig::default()).with_timeout(7);
    assert_eq!(s.query_cfg.timeout_secs, Some(7));
    assert_eq!(s.query_cfg.max_text_bytes, 65536);
}

#[test]
fn counts_and_scalars() {
    assert_eq!(count_from_rows(&one_cell(" 15 ")), 15);
    assert_eq!(count_from_rows(&one_cell("n/a")), 0);
    assert_eq!(count_from_rows(&vec![]), 0);
    assert_eq!(scalar_text(&one_cell("x")), Ok("x".to_string()));
    assert_eq!(scalar_text(&vec![]), Err(SqlError::Config("scalar query returned no rows".to_string())));
}

#[test]
fn named_queries() {
    let reg = QueryRegistry::new().register("active_users", "SELECT 1");
    assert_eq!(named_sql(&reg, "active_users"), Ok("SELECT 1"));
    assert_eq!(
        named_sql(&reg, "nope"),
        Err(SqlError::Config("Query 'nope' not found in registry".to_string()))
    );
}

#[test]
fn batch_splitting() {
    assert_eq!(batch_ranges(5, 2), vec![(0, 2), (2, 4), (4, 5)]);
    assert_eq!(batch_ranges(3, 0), vec![(0, 1), (1, 2), (2, 3)]);
    assert_eq!(batch_ranges(0, 4), vec![]);
    assert_eq!(batch_ranges(4, 10), vec![(0, 4)]);
}
