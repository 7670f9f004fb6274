use statiq::entity::attrs::{ColumnAttr, ComputedAttr, IgnoreAttr, PkAttr, ServerDefaultAttr, TableAttr};
use statiq::entity::codegen::{read_for_type_exec, FieldRead, Getter};
use statiq::entity::parse::{FieldInfo, StructInfo};
use statiq::entity::sql_gen::GeneratedSql;

fn field(name: &str, ty: &str, pk: Option<bool>, col: Option<&str>, ignore: bool, computed: bool, default: bool, masked: bool) -> FieldInfo {
    FieldInfo::resolve(
        name.to_string(),
        ty.to_string(),
        pk.is_some(),
        PkAttr { is_identity: pk.unwrap_or(false) },
        ColumnAttr { column_name: col.map(|c| c.to_string()) },
        IgnoreAttr { ignore },
        ComputedAttr { is_computed: computed },
        ServerDefaultAttr { is_server_default: default },
        masked,
    )
}

fn users() -> StructInfo {
    let fields = vec![
        field("id", "i32", Some(true), None, false, false, false, false),
        field("name", "String", None, Some("UserName"), false, false, false, false),
        field("email", "Option < String >", None, None, false, false, false, false),
        field("created_at", "chrono :: DateTime < chrono :: Utc >", None, None, false, false, true, false),
        field("full_name", "String", None, None, false, true, false, false),
        field("secret", "String", None, None, false, false, false, true),
        field("cache", "Vec < u8 >", None, None, true, false, false, false),
    ];
    StructInfo::from_parts(
        "User".to_string(),
        TableAttr { table_name: Some("Users".to_string()), schema: None },
        fields,
        None,
        None,
    )
    .unwrap()
}

#[test]
fn missing_key_is_refused() {
    let r = StructInfo::from_parts(
        "NoKey".to_string(),
        TableAttr { table_name: None, schema: None },
        vec![field("a", "i32", None, None, false, false, false, false)],
        None,
        None,
    );
    assert_eq!(
        r.err().unwrap(),
        "SqlEntity requires exactly one field marked with `#[sql_primary_key]` or `#[sql_primary_key(identity)]`. Add the attribute to your primary-key field."
    );
}

#[test]
fn table_defaults() {
    let s = StructInfo::from_parts(
        "Order".to_string(),
        TableAttr { table_name: None, schema: None },
        vec![field("id", "i64", Some(false), None, false, false, false, false)],
        None,
        None,
    )
    .unwrap();
    assert_eq!(s.table_name, "Order");
    assert_eq!(s.schema, "");
    assert_eq!(GeneratedSql::from_struct(&s).fq_table, "[Order]");
}

#[test]
fn generated_statements() {
    let g = GeneratedSql::from_struct(&users());
    assert_eq!(g.fq_table, "[Users]");
    assert_eq!(g.select_cols, "id, UserName, email, created_at, full_name, secret");
    assert_eq!(g.select_sql, "SELECT id, UserName, email, created_at, full_name, secret FROM [Users]");
    assert_eq!(
        g.select_by_pk_sql,
        "SELECT id, UserName, email, created_at, full_name, secret FROM [Users] WHERE id = @id"
    );
    assert_eq!(
        g.insert_sql,
        "INSERT INTO [Users] (UserName, email, secret) OUTPUT INSERTED.id VALUES (@name, @email, @secret)"
    );
    assert_eq!(
        g.update_sql,
        "UPDATE [Users] SET UserName = @name, email = @email, created_at = @created_at, secret = @secret WHERE id = @id"
    );
    assert_eq!(g.delete_sql, "DELETE FROM [Users] WHERE id = @id");
    assert_eq!(g.count_sql, "SELECT COUNT_BIG(*) FROM [Users]");
    assert_eq!(g.exists_sql, "SELECT CAST(1 AS BIT) FROM [Users] WHERE id = @id");
    assert_eq!(g.cache_prefix, "SqlService::Users");
    assert_eq!(
        g.upsert_sql,
        "MERGE [Users] AS target USING (SELECT @id AS id, @name AS UserName, @email AS email, @created_at AS created_at, @secret AS secret) AS source (id, UserName, email, created_at, secret) ON (target.id = source.id) WHEN MATCHED THEN UPDATE SET target.UserName = source.UserName, target.email = source.email, target.created_at = source.created_at, target.secret = source.secret WHEN NOT MATCHED THEN INSERT (UserName, email, secret) VALUES (source.UserName, source.email, source.secret);"
    );
}

#[test]
fn soft_delete_and_tenant_filters() {
    let s = StructInfo::from_parts(
        "Doc".to_string(),
        TableAttr { table_name: Some("Docs".to_string()), schema: Some("app".to_string()) },
        vec![
            field("id", "i32", Some(false), None, false, false, false, false),
            field("title", "String", None, None, false, false, false, false),
        ],
        Some("IsDeleted".to_string()),
        Some("TenantId".to_string()),
    )
    .unwrap();
    let g = GeneratedSql::from_struct(&s);
    assert_eq!(g.select_sql, "SELECT id, title FROM [app].[Docs] WHERE [IsDeleted] = 0 AND [TenantId] = @__tenant_id");
    assert_eq!(g.delete_sql, "UPDATE [app].[Docs] SET [IsDeleted] = 1 WHERE id = @id");
    assert_eq!(g.hard_delete_sql, "DELETE FROM [app].[Docs] WHERE id = @id");
    assert_eq!(g.insert_sql, "INSERT INTO [app].[Docs] (id, title) VALUES (@id, @title)");
    assert_eq!(
        g.upsert_sql,
        "MERGE [app].[Docs] AS target USING (SELECT @id AS id, @title AS title) AS source (id, title) ON (target.id = source.id) WHEN MATCHED THEN UPDATE SET target.title = source.title WHEN NOT MATCHED THEN INSERT (id, title) VALUES (source.id, source.title);"
    );
}

#[test]
fn getter_choice_by_type() {
    assert_eq!(read_for_type_exec("i32"), FieldRead::Get { getter: Getter::I32, optional: false });
    assert_eq!(read_for_type_exec("Option < i64 >"), FieldRead::Get { getter: Getter::I64, optional: true });
    assert_eq!(read_for_type_exec("rust_decimal :: Decimal"), FieldRead::Get { getter: Getter::Decimal, optional: false });
    assert_eq!(read_for_type_exec("Vec < u8 >"), FieldRead::Get { getter: Getter::Bytes, optional: false });
    assert_eq!(read_for_type_exec("Option < Vec < u8 > >"), FieldRead::Get { getter: Getter::Parsed, optional: true });
    assert_eq!(read_for_type_exec("MyEnum"), FieldRead::Get { getter: Getter::Parsed, optional: false });
    assert_eq!(read_for_type_exec("uuid::Uuid"), FieldRead::Get { getter: Getter::Uuid, optional: false });
}

#[test]
fn from_row_plan_and_params() {
    let info = users();
    let plan = info.from_row_plan();
    assert_eq!(plan[0], FieldRead::Get { getter: Getter::I32, optional: false });
    assert_eq!(plan[2], FieldRead::Get { getter: Getter::Text, optional: true });
    assert_eq!(plan[3], FieldRead::Get { getter: Getter::DateTime, optional: false });
    assert_eq!(plan[5], FieldRead::Masked);
    assert_eq!(plan[6], FieldRead::Default);
    assert_eq!(info.param_names(), vec!["id", "name", "email", "created_at", "secret"]);
    assert_eq!(info.pk_value_field(), Some("id".to_string()));
}

#[test]
fn field_selections() {
    let s = users();
    let names = |fs: Vec<&FieldInfo>| fs.iter().map(|f| f.rust_name.clone()).collect::<Vec<_>>();
    assert_eq!(
        names(s.active_fields()),
        vec!["id", "name", "email", "created_at", "full_name", "secret"]
    );
    assert_eq!(names(s.insert_fields()), vec!["name", "email", "secret"]);
    assert_eq!(names(s.update_fields()), vec!["name", "email", "created_at", "secret"]);
}

#[test]
fn two_keys_are_refused() {
    let r = StructInfo::from_parts(
        "TwoKeys".to_string(),
        TableAttr { table_name: None, schema: None },
        vec![
            field("a", "i32", Some(false), None, false, false, false, false),
            field("b", "i32", Some(true), None, false, false, false, false),
        ],
        None,
        None,
    );
    assert_eq!(
        r.err().unwrap(),
        "SqlEntity requires exactly one field marked with `#[sql_primary_key]` or `#[sql_primary_key(identity)]`. Add the attribute to your primary-key field."
    );
}

#[test]
fn explicit_schema_prefixes_the_table() {
    let s = StructInfo::from_parts(
        "User".to_string(),
        TableAttr { table_name: Some("Users".to_string()), schema: Some("dbo".to_string()) },
        vec![field("id", "i32", Some(true), None, false, false, false, false)],
        None,
        None,
    )
    .unwrap();
    let g = GeneratedSql::from_struct(&s);
    assert_eq!(g.fq_table, "[dbo].[Users]");
    assert_eq!(g.delete_sql, "DELETE FROM [dbo].[Users] WHERE id = @id");
}
