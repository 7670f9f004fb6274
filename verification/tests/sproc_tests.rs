use statiq::error::SqlError;
use statiq::model::SqlEntity;
use statiq::params::{OdbcParam, ParamValue, PkValue};
use statiq::row::{CellValue, OdbcRow};
use statiq::sproc::{
    pop_front, strip_at, FromResultSet, MultiReader, Required, Scalar, Single, SprocParams,
    SprocResult,
};

#[derive(Debug, Clone, PartialEq)]
struct Dealer {
    id: i32,
    name: String,
}

impl SqlEntity for Dealer {
    fn table_name() -> &'static str {
        "[Dealer].[Dealers]"
    }
    fn pk_is_identity() -> bool {
        true
    }
    fn cache_prefix() -> &'static str {
        "SqlService::Dealers"
    }
    fn from_row(row: &OdbcRow) -> Result<Self, SqlError> {
        Ok(Dealer { id: row.get_i32("Id")?, name: row.get_string("Name")? })
    }
    fn to_params(&self) -> Vec<OdbcParam> {
        vec![
            OdbcParam::new("id", ParamValue::I32(self.id)),
            OdbcParam::new("name", ParamValue::Str(self.name.clone())),
        ]
    }
    fn pk_value(&self) -> PkValue {
        PkValue::I32(self.id)
    }
}

fn dealer_row(id: &str, name: &str) -> OdbcRow {
    OdbcRow::new(
        vec!["Id".to_string(), "Name".to_string()],
        vec![CellValue::Text(id.to_string()), CellValue::Text(name.to_string())],
    )
}

fn scalar_row(text: &str) -> OdbcRow {
    OdbcRow::new(vec!["TotalCount".to_string()], vec![CellValue::Text(text.to_string())])
}

#[test]
fn strip_at_removes_one_leading_at() {
    assert_eq!(strip_at("@PageNumber"), "PageNumber");
    assert_eq!(strip_at("PageNumber"), "PageNumber");
    assert_eq!(strip_at("@@x"), "@x");
    assert_eq!(strip_at(""), "");
}

#[test]
fn exec_statement_without_params() {
    let (sql, ps) = SprocParams::new().into_exec("dbo.sp_Ping");
    assert_eq!(sql, "EXEC dbo.sp_Ping");
    assert!(ps.is_empty());
}

#[test]
fn exec_statement_with_params() {
    let p = SprocParams::new()
        .add("@PageNumber", ParamValue::I32(1))
        .add("PageSize", ParamValue::I32(20))
        .add_nullable("@TaxId", None);
    assert_eq!(p.len(), 3);
    let (sql, ps) = p.into_exec("Dealer.sp_DealerList");
    assert_eq!(sql, "EXEC Dealer.sp_DealerList @PageNumber = @PageNumber, @PageSize = @PageSize, @TaxId = @TaxId");
    assert_eq!(ps.len(), 3);
    assert_eq!(ps[0].name, "PageNumber");
    assert_eq!(ps[1].name, "PageSize");
    assert_eq!(ps[2].name, "TaxId");
    assert!(matches!(ps[2].value, ParamValue::Null));
    assert!(matches!(ps[1].value, ParamValue::I32(20)));
}

#[test]
fn pop_front_takes_sets_in_order() {
    let mut sets = vec![vec![scalar_row("1")], vec![], vec![scalar_row("3")]];
    assert_eq!(pop_front(&mut sets).len(), 1);
    assert_eq!(pop_front(&mut sets).len(), 0);
    assert_eq!(pop_front(&mut sets).len(), 1);
    assert_eq!(sets.len(), 0);
    assert_eq!(pop_front(&mut sets).len(), 0);
}

#[test]
fn multireader_reads_in_order_then_empty() {
    let mut r = MultiReader::new(vec![
        vec![scalar_row("42")],
        vec![dealer_row("1", "Acme"), dealer_row("2", "Beta")],
        vec![dealer_row("7", "Solo")],
    ]);
    assert_eq!(r.remaining(), 3);
    let total: Option<i64> = r.read_scalar().unwrap();
    assert_eq!(total, Some(42));
    let list: Vec<Dealer> = r.read_list().unwrap();
    assert_eq!(list, vec![Dealer { id: 1, name: "Acme".into() }, Dealer { id: 2, name: "Beta".into() }]);
    let one: Dealer = r.read_required().unwrap();
    assert_eq!(one, Dealer { id: 7, name: "Solo".into() });
    assert_eq!(r.remaining(), 0);
    assert!(r.read_raw().is_empty());
    let none: Option<Dealer> = r.read_single().unwrap();
    assert_eq!(none, None);
    let err = r.read_required::<Dealer>().unwrap_err();
    assert_eq!(err, SqlError::Config("read_required: result set is empty".to_string()));
}

#[test]
fn from_result_set_wrappers() {
    let Single(d) = Single::<Dealer>::from_result_set(vec![dealer_row("3", "C")]).unwrap();
    assert_eq!(d, Some(Dealer { id: 3, name: "C".into() }));
    let Single(n) = Single::<Dealer>::from_result_set(vec![]).unwrap();
    assert_eq!(n, None);
    let e = Required::<Dealer>::from_result_set(vec![]).unwrap_err();
    assert_eq!(e, SqlError::Config("query_required: sproc returned no rows".to_string()));
    let Scalar(t) = Scalar::<i64>::from_result_set(vec![scalar_row("  17 ")]).unwrap();
    assert_eq!(t, Some(17));
    let Scalar(s) = Scalar::<String>::from_result_set(vec![scalar_row(" x ")]).unwrap();
    assert_eq!(s, Some("x".to_string()));
    let Scalar(none) = Scalar::<i32>::from_result_set(vec![]).unwrap();
    assert_eq!(none, None);
    let bad = Scalar::<i32>::from_result_set(vec![scalar_row("abc")]).unwrap_err();
    assert_eq!(bad, SqlError::Config("invalid digit found in string".to_string()));
    let all = Vec::<Dealer>::from_result_set(vec![dealer_row("1", "A"), dealer_row("x", "B")]).unwrap_err();
    assert!(matches!(all, SqlError::RowMapping { .. }));
}

#[test]
fn sproc_result_envelopes() {
    let ok = SprocResult::ok(5);
    assert!(ok.is_success());
    assert_eq!(ok.data, Some(5));
    let fail: SprocResult<i32> = SprocResult::fail(Some("E1".into()), Some("bad".into()));
    assert!(!fail.is_success());
    assert_eq!(fail.error_code.as_deref(), Some("E1"));
    assert_eq!(fail.data, None);
    let unit = SprocResult::ok_unit();
    assert!(unit.success && unit.data.is_none());
}
