use statiq::error::SqlError;
use statiq::row::{CellValue, OdbcRow};

fn row() -> OdbcRow {
    OdbcRow::new(
        vec!["Id".into(), "Name".into(), "Active".into(), "Note".into(), "Blob".into(), "Key".into(), "Price".into(), "Born".into()],
        vec![
            CellValue::Text(" 42 ".into()),
            CellValue::Text("Ann".into()),
            CellValue::Text("true".into()),
            CellValue::Null,
            CellValue::Text("0xCAFE".into()),
            CellValue::Text("67e55044-10b1-426f-9247-bb680e5fe0c8".into()),
            CellValue::Text(" $1234.50".into()),
            CellValue::Text("2024-02-29".into()),
        ],
    )
}

#[test]
fn typed_getters() {
    let r = row();
    assert_eq!(r.get_i32("id"), Ok(42));
    assert_eq!(r.get_i64("ID"), Ok(42));
    assert_eq!(r.get_string("name"), Ok("Ann".to_string()));
    assert_eq!(r.get_bool("Active"), Ok(true));
    assert_eq!(r.get_string_opt("Note"), Ok(None));
    assert_eq!(r.get_bytes("Blob"), Ok(vec![0xca, 0xfe]));
    assert_eq!(r.get_uuid("Key"), Ok(0x67e5504410b1426f9247bb680e5fe0c8));
    let d = r.get_decimal("Price").unwrap();
    assert_eq!(d.to_text(), "1234.50");
    let born = r.get_naive_date("Born").unwrap();
    assert_eq!((born.year(), born.month(), born.day()), (2024, 2, 29));
}

#[test]
fn getter_errors() {
    let r = row();
    assert_eq!(
        r.get_i32("Missing"),
        Err(SqlError::RowMapping { column: "Missing".into(), reason: "column 'Missing' not found in result set".into() })
    );
    assert_eq!(
        r.get_string("Note"),
        Err(SqlError::RowMapping { column: "Note".into(), reason: "unexpected NULL".into() })
    );
    assert_eq!(
        r.get_i32("Name"),
        Err(SqlError::RowMapping { column: "Name".into(), reason: "invalid digit found in string".into() })
    );
}

#[test]
fn first_string_and_positions() {
    let r = row();
    assert_eq!(r.get_first_string(), Ok(" 42 ".to_string()));
    assert!(r.value_at(7).is_ok());
    assert_eq!(
        r.value_at(8).err(),
        Some(SqlError::RowMapping { column: "__index__".into(), reason: "column index out of range".into() })
    );
    let empty = OdbcRow::new(vec![], vec![]);
    assert_eq!(
        empty.get_first_string(),
        Err(SqlError::RowMapping { column: "__first__".into(), reason: "NULL or empty row".into() })
    );
}

#[test]
fn error_renderings() {
    let e = SqlError::PoolExhausted { timeout_ms: 5000 };
    assert_eq!(e.error_code(), "pool_exhausted");
    assert_eq!(e.http_status(), 503);
    assert_eq!(e.safe_message(), "Service busy, pool timeout after 5000ms");
    assert_eq!(e.to_display_string(), "Connection pool exhausted (timeout: 5000ms)");
    let nf = SqlError::NotFound { table: "[dbo].[Users]".into(), pk: "7".into() };
    assert_eq!(nf.http_status(), 404);
    assert_eq!(nf.safe_message(), "[dbo].[Users] with pk=7 not found");
    let odbc = SqlError::odbc(1205, "secret connection detail".into());
    assert!(odbc.is_deadlock());
    assert_eq!(odbc.safe_message(), "An internal database error occurred");
    assert_eq!(odbc.to_display_string(), "ODBC error [1205]: secret connection detail");
}
