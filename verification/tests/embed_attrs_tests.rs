use statiq::embed::{embed_literals, embed_params};
use statiq::entity::attrs::{AttrInput, AttrToken, ColumnAttr, ComputedAttr, IgnoreAttr, PkAttr, ServerDefaultAttr, TableAttr};
use statiq::entity::parse::{FieldInput, ItemShape, StructInfo};
use statiq::params::{OdbcParam, ParamValue};

fn attr(path: &str, tokens: Option<Vec<AttrToken>>, exprs: Option<Vec<Option<String>>>, metas: Vec<&str>) -> AttrInput {
    AttrInput { path: path.to_string(), tokens, exprs, metas: metas.into_iter().map(|m| m.to_string()).collect() }
}

#[test]
fn embed_longest_name_first() {
    let ps = vec![
        OdbcParam::new("created", ParamValue::I32(1)),
        OdbcParam::new("created_date", ParamValue::Str("2024".into())),
    ];
    let sql = embed_params("WHERE a = @created AND b = @created_date", &ps).unwrap();
    assert_eq!(sql, "WHERE a = 1 AND b = N'2024'");
}

#[test]
fn embed_replaces_every_occurrence() {
    let ps = vec![OdbcParam::new("id", ParamValue::Null)];
    assert_eq!(embed_params("@id, @id", &ps).unwrap(), "NULL, NULL");
    assert_eq!(embed_params("@id", &[OdbcParam::new("id", ParamValue::F64(0))]), None);
    assert_eq!(
        embed_literals("x = @v", vec![("v".to_string(), "2.5".to_string())]),
        "x = 2.5"
    );
}

#[test]
fn table_attribute_parsing() {
    let a = attr(
        "sql_table",
        Some(vec![
            AttrToken::Str("Users".into()),
            AttrToken::Comma,
            AttrToken::Ident("schema".into()),
            AttrToken::Eq,
            AttrToken::Str("Keycloak".into()),
        ]),
        None,
        vec![],
    );
    let t = TableAttr::from_attrs(&vec![a]);
    assert_eq!(t.table_name.as_deref(), Some("Users"));
    assert_eq!(t.schema.as_deref(), Some("Keycloak"));
    let other = attr("serde", Some(vec![AttrToken::Str("x".into())]), None, vec![]);
    let none = TableAttr::from_attrs(&vec![other]);
    assert!(none.table_name.is_none() && none.schema.is_none());
    let broken = attr("sql_table", Some(vec![AttrToken::Str("T".into()), AttrToken::Ident("schema".into())]), None, vec![]);
    let partial = TableAttr::from_attrs(&vec![broken]);
    assert_eq!(partial.table_name.as_deref(), Some("T"));
    assert!(partial.schema.is_none());
}

#[test]
fn field_attribute_parsing() {
    let attrs = vec![
        attr("sql_column", None, Some(vec![None, Some("UserName".into())]), vec![]),
        attr("sql_primary_key", None, None, vec!["identity"]),
        attr("sql_ignore", None, None, vec![]),
    ];
    assert_eq!(ColumnAttr::from_attrs(&attrs).column_name.as_deref(), Some("UserName"));
    assert!(PkAttr::from_attrs(&attrs).is_identity);
    assert!(IgnoreAttr::from_attrs(&attrs).ignore);
    assert!(!ComputedAttr::from_attrs(&attrs).is_computed);
    assert!(!ServerDefaultAttr::from_attrs(&attrs).is_server_default);
}

#[test]
fn struct_parsing_from_attributes() {
    let fields = vec![
        FieldInput { name: "id".into(), ty: "i32".into(), attrs: vec![attr("sql_primary_key", None, None, vec!["identity"])] },
        FieldInput { name: "secret".into(), ty: "String".into(), attrs: vec![attr("sql_mask", None, None, vec![])] },
    ];
    let s = StructInfo::parse("Account".into(), ItemShape::NamedStruct, &vec![], fields).unwrap();
    assert_eq!(s.table_name, "Account");
    assert_eq!(s.schema, "");
    assert!(s.fields[0].is_pk && s.fields[0].pk_is_identity);
    let two = vec![
        FieldInput { name: "a".into(), ty: "i32".into(), attrs: vec![attr("sql_primary_key", None, None, vec![])] },
        FieldInput { name: "b".into(), ty: "i32".into(), attrs: vec![attr("sql_primary_key", None, None, vec![])] },
    ];
    assert!(StructInfo::parse("Two".into(), ItemShape::NamedStruct, &vec![], two).is_err());
    assert!(s.fields[1].is_masked);
    assert_eq!(
        StructInfo::parse("E".into(), ItemShape::NotStruct, &vec![], vec![]).err().unwrap(),
        "SqlEntity can only be derived on structs"
    );
    assert_eq!(
        StructInfo::parse("T".into(), ItemShape::OtherStruct, &vec![], vec![]).err().unwrap(),
        "SqlEntity requires named fields"
    );
}
