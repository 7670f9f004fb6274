use statiq::error::SqlError;
use statiq::query::builder::{batch_insert_sqls, filtered_sql, paged_sql, QueryBuilder};
use statiq::query::order::OrderBy;
use statiq::query::registry::QueryRegistry;

#[test]
fn builder_where_order_and_page() {
    let sql = QueryBuilder::new("SELECT * FROM t")
        .where_clause("a = 1")
        .order_by("id")
        .paged(2, 10)
        .build();
    assert_eq!(sql, "SELECT * FROM t WHERE a = 1 ORDER BY id OFFSET 10 ROWS FETCH NEXT 10 ROWS ONLY");
}

#[test]
fn builder_paging_without_order_uses_select_null() {
    let sql = QueryBuilder::new("SELECT * FROM t").paged(1, 5).build();
    assert_eq!(sql, "SELECT * FROM t ORDER BY (SELECT NULL) OFFSET 0 ROWS FETCH NEXT 5 ROWS ONLY");
}

#[test]
fn builder_plain_is_base_sql() {
    assert_eq!(QueryBuilder::new("SELECT 1").build(), "SELECT 1");
}

#[test]
fn paged_sql_orders_by_key() {
    assert_eq!(
        paged_sql("SELECT Id FROM [dbo].[Users]", "Id", 3, 20),
        "SELECT Id FROM [dbo].[Users] ORDER BY Id OFFSET 40 ROWS FETCH NEXT 20 ROWS ONLY"
    );
}

#[test]
fn paged_sql_negative_offset_for_page_zero() {
    assert_eq!(
        paged_sql("SELECT Id FROM t", "Id", 0, 10),
        "SELECT Id FROM t ORDER BY Id OFFSET -10 ROWS FETCH NEXT 10 ROWS ONLY"
    );
}

#[test]
fn filtered_sql_appends_where() {
    assert_eq!(
        filtered_sql("SELECT Id FROM t", "Active = @active"),
        "SELECT Id FROM t WHERE Active = @active"
    );
}

#[test]
fn batch_insert_sqls_repeats_statement() {
    let v = batch_insert_sqls("INSERT INTO t (a) VALUES (@a)", 3);
    assert_eq!(v.len(), 3);
    for s in &v {
        assert_eq!(s, "INSERT INTO t (a) VALUES (@a)");
    }
    assert!(batch_insert_sqls("X", 0).is_empty());
}

#[test]
fn order_by_doc_example() {
    let clause = OrderBy::new().asc("LastName").desc("CreatedAt").to_sql().unwrap();
    assert_eq!(clause, "LastName ASC, CreatedAt DESC");
}

#[test]
fn order_by_empty_is_empty_text() {
    assert_eq!(OrderBy::new().to_sql().unwrap(), "");
    assert_eq!(OrderBy::default().to_sql().unwrap(), "");
}

#[test]
fn order_by_allows_brackets_and_dots() {
    assert_eq!(OrderBy::new().asc("[dbo].[Users].Id").to_sql().unwrap(), "[dbo].[Users].Id ASC");
}

#[test]
fn order_by_rejects_empty_column() {
    let e = OrderBy::new().asc("").to_sql().unwrap_err();
    assert_eq!(e, SqlError::Config("ORDER BY column name must not be empty".to_string()));
}

#[test]
fn order_by_rejects_injection() {
    let e = OrderBy::new().asc("Id").desc("Name;DROP").to_sql().unwrap_err();
    assert_eq!(
        e,
        SqlError::Config("Disallowed character in ORDER BY column 'Name;DROP': ';'".to_string())
    );
}

#[test]
fn registry_register_and_get() {
    let r = QueryRegistry::new()
        .register("active_users", "SELECT * FROM Users WHERE Active = 1")
        .register("all", "SELECT * FROM Users");
    assert_eq!(r.get("active_users"), Some("SELECT * FROM Users WHERE Active = 1"));
    assert_eq!(r.get("all"), Some("SELECT * FROM Users"));
    assert_eq!(r.get("missing"), None);
}

#[test]
fn registry_last_registration_wins() {
    let r = QueryRegistry::new().register("q", "SELECT 1").register("q", "SELECT 2");
    assert_eq!(r.get("q"), Some("SELECT 2"));
}
