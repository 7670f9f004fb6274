use statiq::binding::{param_to_sql_literal, params_to_positional};
use statiq::params::{OdbcParam, ParamValue, PkValue};
use statiq::values::SqlDecimal;

#[test]
fn pk_display_text() {
    assert_eq!(PkValue::I32(-12).to_display_string(), "-12");
    assert_eq!(PkValue::I64(9_000_000_000).to_display_string(), "9000000000");
    assert_eq!(PkValue::Str("abc".into()).to_display_string(), "abc");
    assert_eq!(
        PkValue::Guid(0x67e5504410b1426f9247bb680e5fe0c8).to_display_string(),
        "67e55044-10b1-426f-9247-bb680e5fe0c8"
    );
}

#[test]
fn pk_as_param() {
    assert!(matches!(PkValue::I32(3).as_param(), ParamValue::I32(3)));
    assert!(matches!(PkValue::Guid(9).as_param(), ParamValue::Guid(9)));
}

#[test]
fn positional_longest_name_first() {
    let ps = vec![
        OdbcParam::new("id", ParamValue::I32(1)),
        OdbcParam::new("id_suffix", ParamValue::I32(2)),
    ];
    let (sql, order) = params_to_positional("WHERE a = @id_suffix AND b = @id", &ps);
    assert_eq!(sql, "WHERE a = ? AND b = ?");
    assert_eq!(order, vec![1, 0]);
}

#[test]
fn positional_keeps_unknown_and_repeats() {
    let ps = vec![OdbcParam::new("x", ParamValue::I32(1))];
    let (sql, order) = params_to_positional("SELECT @x, @x, @@ROWCOUNT, @xy", &ps);
    assert_eq!(sql, "SELECT ?, ?, @@ROWCOUNT, @xy");
    assert_eq!(order, vec![0, 0]);
    let (same, none) = params_to_positional("SELECT @x", &[]);
    assert_eq!(same, "SELECT @x");
    assert!(none.is_empty());
}

#[test]
fn literals_of_values() {
    assert_eq!(param_to_sql_literal(&ParamValue::Bool(true)).unwrap(), "1");
    assert_eq!(param_to_sql_literal(&ParamValue::I16(-5)).unwrap(), "-5");
    assert_eq!(param_to_sql_literal(&ParamValue::Str("O'Brien".into())).unwrap(), "N'O''Brien'");
    assert_eq!(param_to_sql_literal(&ParamValue::Bytes(vec![0x0a, 0xff])).unwrap(), "0x0AFF");
    assert_eq!(param_to_sql_literal(&ParamValue::Bytes(vec![])).unwrap(), "0x");
    assert_eq!(param_to_sql_literal(&ParamValue::Null).unwrap(), "NULL");
    assert_eq!(param_to_sql_literal(&ParamValue::F64(0)), None);
    let d = SqlDecimal::new(12345, 2).unwrap();
    assert_eq!(param_to_sql_literal(&ParamValue::Decimal(d)).unwrap(), "123.45");
}
