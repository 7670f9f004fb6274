use statiq::error::SqlError;
use statiq::row::{CellValue, OdbcRow};
use statiq::temporal::{SqlDate, SqlDateTime, SqlDateTimeOffset, SqlTime};
use statiq::values::SqlDecimal;

fn one(c: CellValue) -> OdbcRow {
    OdbcRow::new(vec!["C".into()], vec![c])
}

fn reason(e: SqlError) -> String {
    match e {
        SqlError::RowMapping { reason, .. } => reason,
        other => panic!("unexpected error {:?}", other),
    }
}

#[test]
fn decimal_cell_shows_its_number() {
    let d = SqlDecimal::new(150, 2).unwrap();
    let e = one(CellValue::Decimal(d)).get_i32("C").unwrap_err();
    assert_eq!(reason(e), "expected i32, got Decimal(1.50)");
}

#[test]
fn scalar_cells_show_their_values() {
    assert_eq!(reason(one(CellValue::Bool(true)).get_bytes("C").unwrap_err()), "expected Bytes, got Bool(true)");
    assert_eq!(reason(one(CellValue::I16(-7)).get_uuid("C").unwrap_err()), "expected Uuid, got I16(-7)");
    assert_eq!(reason(one(CellValue::U8(9)).get_naive_date("C").unwrap_err()), "expected NaiveDate, got U8(9)");
    assert_eq!(reason(one(CellValue::Bytes(vec![1, 2, 255])).get_i32("C").unwrap_err()), "expected i32, got Bytes([1, 2, 255])");
    assert_eq!(reason(one(CellValue::Bytes(vec![])).get_i32("C").unwrap_err()), "expected i32, got Bytes([])");
    assert_eq!(
        reason(one(CellValue::Guid(0x67e5504410b1426f9247bb680e5fe0c8)).get_i64("C").unwrap_err()),
        "expected i64, got Guid(67e55044-10b1-426f-9247-bb680e5fe0c8)"
    );
}

#[test]
fn date_and_time_cells_show_chrono_debug() {
    let d = SqlDate::from_ymd(2024, 1, 15).unwrap();
    let t = SqlTime::from_hms_nano(10, 0, 0, 500_000_000).unwrap();
    let whole = SqlTime::from_hms_nano(10, 0, 0, 0).unwrap();
    let micro = SqlTime::from_hms_nano(10, 0, 0, 1_000).unwrap();
    let nano = SqlTime::from_hms_nano(10, 0, 0, 7).unwrap();
    assert_eq!(reason(one(CellValue::NaiveDate(d)).get_i32("C").unwrap_err()), "expected i32, got NaiveDate(2024-01-15)");
    assert_eq!(reason(one(CellValue::NaiveTime(t)).get_i32("C").unwrap_err()), "expected i32, got NaiveTime(10:00:00.500)");
    assert_eq!(reason(one(CellValue::NaiveTime(whole)).get_i32("C").unwrap_err()), "expected i32, got NaiveTime(10:00:00)");
    assert_eq!(reason(one(CellValue::NaiveTime(micro)).get_i32("C").unwrap_err()), "expected i32, got NaiveTime(10:00:00.000001)");
    assert_eq!(reason(one(CellValue::NaiveTime(nano)).get_i32("C").unwrap_err()), "expected i32, got NaiveTime(10:00:00.000000007)");
    assert_eq!(
        reason(one(CellValue::DateTime(SqlDateTime::new(d, whole))).get_i32("C").unwrap_err()),
        "expected i32, got DateTime(2024-01-15T10:00:00Z)"
    );
    let off = SqlDateTimeOffset::new(d, whole, 19_800).unwrap();
    assert_eq!(
        reason(one(CellValue::DateTimeOffset(off)).get_i32("C").unwrap_err()),
        "expected i32, got DateTimeOffset(2024-01-15T10:00:00+05:30)"
    );
    let odd = SqlDateTimeOffset::new(d, whole, -3_661).unwrap();
    assert_eq!(
        reason(one(CellValue::DateTimeOffset(odd)).get_i32("C").unwrap_err()),
        "expected i32, got DateTimeOffset(2024-01-15T10:00:00-01:01:01)"
    );
}

#[test]
fn odd_hex_is_detected_before_reading_bytes() {
    assert!(one(CellValue::Text("0xABC".into())).bytes_read_panics("C"));
    assert!(!one(CellValue::Text("0xABCD".into())).bytes_read_panics("C"));
    assert!(!one(CellValue::Text("plain".into())).bytes_read_panics("C"));
    assert!(!one(CellValue::Null).bytes_read_panics("C"));
}
