use statiq::error::SqlError;
use statiq::mock::{param_value_to_str, parse_simple_eq_filter, MockRepository};
use statiq::model::SqlEntity;
use statiq::params::{OdbcParam, ParamValue, PkValue};
use statiq::row::OdbcRow;

#[derive(Debug, Clone, PartialEq)]
struct User {
    id: i32,
    name: String,
    active: bool,
}

impl SqlEntity for User {
    fn table_name() -> &'static str {
        "[dbo].[Users]"
    }
    fn pk_is_identity() -> bool {
        true
    }
    fn cache_prefix() -> &'static str {
        "SqlService::Users"
    }
    fn from_row(row: &OdbcRow) -> Result<Self, SqlError> {
        Ok(User { id: row.get_i32("id")?, name: row.get_string("name")?, active: row.get_bool("active")? })
    }
    fn to_params(&self) -> Vec<OdbcParam> {
        vec![
            OdbcParam::new("id", ParamValue::I32(self.id)),
            OdbcParam::new("name", ParamValue::Str(self.name.clone())),
            OdbcParam::new("Active", ParamValue::Bool(self.active)),
        ]
    }
    fn pk_value(&self) -> PkValue {
        PkValue::I32(self.id)
    }
}

#[derive(Debug, Clone, PartialEq)]
struct Tag {
    code: String,
}

impl SqlEntity for Tag {
    fn table_name() -> &'static str {
        "[dbo].[Tags]"
    }
    fn pk_is_identity() -> bool {
        false
    }
    fn cache_prefix() -> &'static str {
        "SqlService::Tags"
    }
    fn from_row(row: &OdbcRow) -> Result<Self, SqlError> {
        Ok(Tag { code: row.get_string("code")? })
    }
    fn to_params(&self) -> Vec<OdbcParam> {
        vec![OdbcParam::new("code", ParamValue::Str(self.code.clone()))]
    }
    fn pk_value(&self) -> PkValue {
        PkValue::Str(self.code.clone())
    }
}

fn user(id: i32, name: &str, active: bool) -> User {
    User { id, name: name.to_string(), active }
}

#[test]
fn read_after_write() {
    let mut repo = MockRepository::<User>::new();
    let id = repo.insert(&user(0, "Alice", true)).unwrap();
    assert_eq!(id, 1);
    assert_eq!(repo.get_by_id(PkValue::I32(1)).unwrap(), Some(user(0, "Alice", true)));
    assert_eq!(repo.get_by_id(PkValue::I64(1)).unwrap(), Some(user(0, "Alice", true)));
    assert_eq!(repo.get_by_id(PkValue::I32(0)).unwrap(), None);
    assert_eq!(repo.exists_by_id(PkValue::I32(1)).unwrap(), true);
    assert_eq!(repo.count().unwrap(), 1);
    assert_eq!(repo.insert_call_count(), 1);
}

#[test]
fn insert_and_get_by_reported_id() {
    let mut repo = MockRepository::<User>::new();
    let id = repo.insert(&user(0, "Alice", true)).unwrap();
    assert_eq!(id, 1);
    let found = repo.get_by_id(PkValue::I32(1)).unwrap();
    assert!(found.is_some());
    assert_eq!(repo.insert_call_count(), 1);
}

#[test]
fn pre_seeded_data() {
    let mut repo = MockRepository::with_data(vec![user(1, "Alice", true), user(2, "Bob", false)]);
    assert_eq!(repo.get_all().unwrap().len(), 2);
    repo.delete(PkValue::I32(2)).unwrap();
    assert_eq!(repo.len(), 1);
    assert_eq!(repo.delete_call_count(), 1);
}

#[test]
fn identity_ids_are_consecutive() {
    let mut repo = MockRepository::<User>::new();
    let ids = repo.batch_insert(&[user(0, "a", true), user(0, "b", true), user(0, "c", false)]).unwrap();
    assert_eq!(ids, vec![1, 2, 3]);
    assert_eq!(repo.insert_call_count(), 3);
    assert_eq!(repo.len(), 3);
    assert_eq!(repo.get_by_id(PkValue::I32(2)).unwrap(), Some(user(0, "b", true)));
    assert_eq!(repo.all_items().iter().map(|u| u.name.clone()).collect::<Vec<_>>(), vec!["a", "b", "c"]);
}

#[test]
fn supplied_keys_report_zero_for_text() {
    let mut repo = MockRepository::<Tag>::new();
    assert_eq!(repo.insert(&Tag { code: "x".into() }).unwrap(), 0);
    assert_eq!(repo.get_by_id(PkValue::Str("x".into())).unwrap(), Some(Tag { code: "x".into() }));
}

#[test]
fn delete_removes() {
    let mut repo = MockRepository::with_data(vec![user(1, "a", true), user(2, "b", true)]);
    repo.delete(PkValue::I32(1)).unwrap();
    assert_eq!(repo.get_by_id(PkValue::I32(1)).unwrap(), None);
    assert_eq!(repo.exists_by_id(PkValue::I32(2)).unwrap(), true);
    assert_eq!(repo.delete_call_count(), 1);
    repo.batch_delete(&[PkValue::I32(2), PkValue::I32(99)]).unwrap();
    assert_eq!(repo.count().unwrap(), 0);
    assert_eq!(repo.delete_call_count(), 3);
}

#[test]
fn update_missing_is_not_found() {
    let mut repo = MockRepository::<User>::new();
    let e = repo.update(&user(8, "x", true)).unwrap_err();
    assert_eq!(e, SqlError::NotFound { table: "[dbo].[Users]".into(), pk: "8".into() });
    assert_eq!(repo.len(), 0);
    assert_eq!(repo.update_call_count(), 1);
}

#[test]
fn update_and_upsert_replace() {
    let mut repo = MockRepository::with_data(vec![user(1, "a", true)]);
    repo.update(&user(1, "renamed", false)).unwrap();
    assert_eq!(repo.get_by_id(PkValue::I32(1)).unwrap(), Some(user(1, "renamed", false)));
    repo.upsert(&user(2, "new", true)).unwrap();
    assert_eq!(repo.len(), 2);
    assert_eq!(repo.upsert_call_count(), 1);
    let e = repo.batch_update(&[user(1, "one", true), user(3, "missing", true)]).unwrap_err();
    assert_eq!(e, SqlError::NotFound { table: "[dbo].[Users]".into(), pk: "3".into() });
    assert_eq!(repo.get_by_id(PkValue::I32(1)).unwrap(), Some(user(1, "one", true)));
    assert_eq!(repo.update_call_count(), 3);
    assert_eq!(repo.get_by_id(PkValue::I32(3)).unwrap(), None);
    assert_eq!(repo.len(), 2);
}

#[test]
fn with_data_later_item_wins() {
    let repo = MockRepository::with_data(vec![user(1, "first", true), user(1, "second", true)]);
    assert_eq!(repo.len(), 1);
    assert_eq!(repo.all_items(), vec![user(1, "second", true)]);
}

#[test]
fn paging_slices_store_order() {
    let repo = MockRepository::with_data((1..=5).map(|i| user(i, "u", true)).collect());
    let p2 = repo.get_paged(2, 2).unwrap();
    assert_eq!(p2.iter().map(|u| u.id).collect::<Vec<_>>(), vec![3, 4]);
    let p3 = repo.get_paged(3, 2).unwrap();
    assert_eq!(p3.iter().map(|u| u.id).collect::<Vec<_>>(), vec![5]);
    let p0 = repo.get_paged(0, 0).unwrap();
    assert_eq!(p0.iter().map(|u| u.id).collect::<Vec<_>>(), vec![1]);
    assert!(repo.get_paged(9, 2).unwrap().is_empty());
}

#[test]
fn seed_and_clear_do_not_count_calls() {
    let mut repo = MockRepository::<User>::new();
    repo.seed(user(4, "s", true));
    assert_eq!(repo.len(), 1);
    assert_eq!(repo.insert_call_count(), 0);
    repo.clear();
    assert_eq!(repo.len(), 0);
}

#[test]
fn filter_parsing() {
    assert_eq!(parse_simple_eq_filter("Active = @active"), Some(("Active".into(), "active".into())));
    assert_eq!(parse_simple_eq_filter(" [Active]=@a "), Some(("Active".into(), "a".into())));
    assert_eq!(parse_simple_eq_filter("Active = 1"), None);
    assert_eq!(parse_simple_eq_filter("Active"), None);
    assert_eq!(parse_simple_eq_filter("Is Active = @a"), None);
}

#[test]
fn param_texts() {
    assert_eq!(param_value_to_str(&ParamValue::Bool(true)), Some("1".into()));
    assert_eq!(param_value_to_str(&ParamValue::I64(-3)), Some("-3".into()));
    assert_eq!(param_value_to_str(&ParamValue::Str("x".into())), Some("x".into()));
    assert_eq!(param_value_to_str(&ParamValue::Null), None);
}

#[test]
fn get_where_returns_every_item() {
    let repo = MockRepository::with_data(vec![user(1, "a", true), user(2, "b", false), user(3, "c", true)]);
    let filtered = repo
        .get_where("[active] = @flag", &[OdbcParam::new("FLAG", ParamValue::Bool(true))])
        .unwrap();
    assert_eq!(filtered.iter().map(|u| u.id).collect::<Vec<_>>(), vec![1, 2, 3]);
    let all = repo.get_where("Id > 1", &[]).unwrap();
    assert_eq!(all.len(), 3);
    let by_null = repo.get_where("name = @n", &[OdbcParam::new("n", ParamValue::Null)]).unwrap();
    assert_eq!(by_null.len(), 3);
}

#[test]
fn raw_and_scalar_behaviour() {
    let repo = MockRepository::<User>::new();
    assert!(repo.query_raw("SELECT 1", &[]).unwrap().is_empty());
    let seeded = MockRepository::with_data(vec![user(1, "a", true), user(2, "b", false)]);
    let rows = seeded.query_raw("SELECT * FROM Users WHERE 1 = 0", &[]).unwrap();
    assert_eq!(rows.len(), 2);
    assert_eq!(rows[0].get_i32("id").unwrap(), 1);
    assert_eq!(rows[1].get_string("name").unwrap(), "b");
    assert_eq!(rows[1].get_bool("active").unwrap(), false);
    assert_eq!(repo.execute_raw("DELETE", &[]).unwrap(), 0);
    let e = repo.scalar::<i64>("SELECT 1", &[]).unwrap_err();
    assert_eq!(
        e,
        SqlError::Config("MockRepository::scalar is not supported \u{2014} use a custom mock for scalar queries".into())
    );
}
