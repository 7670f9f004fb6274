//! The SQL statements generated for an entity from its metadata.
use vstd::prelude::*;
use vstd::string::StrSliceExecFns;
use crate::entity::parse::{
    fields_view, first_pk, in_set, in_set_exec, select_fields, FieldInfo, FieldSet, FieldView,
    StructInfo,
};
use crate::text::to_owned_string;

verus! {

/// How one field is rendered inside a generated list.
#[derive(Clone, Copy, PartialEq, Eq, Debug)]
pub enum Render {
    /// `Col`
    Sql,
    /// `@field`
    AtRust,
    /// `Col = @field`
    SetAssign,
    /// `@field AS Col`
    UsingAs,
    /// `target.Col = source.Col`
    MergeSet,
    /// `source.Col`
    SourceCol,
}

pub open spec fn render(f: FieldView, r: Render) -> Seq<char> {
    match r {
        Render::Sql => f.sql_name,
        Render::AtRust => "@"@ + f.rust_name,
        Render::SetAssign => f.sql_name + " = @"@ + f.rust_name,
        Render::UsingAs => "@"@ + f.rust_name + " AS "@ + f.sql_name,
        Render::MergeSet => "target."@ + f.sql_name + " = source."@ + f.sql_name,
        Render::SourceCol => "source."@ + f.sql_name,
    }
}

/// `xs` joined by `sep`.
pub open spec fn join(xs: Seq<Seq<char>>, sep: Seq<char>) -> Seq<char>
    decreases xs.len(),
{
    if xs.len() == 0 {
        Seq::empty()
    } else if xs.len() == 1 {
        xs[0]
    } else {
        join(xs.drop_last(), sep) + sep + xs.last()
    }
}

pub open spec fn rendered(fs: Seq<FieldView>, r: Render) -> Seq<Seq<char>> {
    fs.map_values(|f: FieldView| render(f, r))
}

/// The selected fields of `fs`, each rendered with `r`, joined by `sep`.
pub open spec fn list_text(fs: Seq<FieldView>, w: FieldSet, r: Render, sep: Seq<char>) -> Seq<char> {
    join(rendered(select_fields(fs, w), r), sep)
}

pub proof fn lemma_join_push(xs: Seq<Seq<char>>, x: Seq<char>, sep: Seq<char>)
    ensures
        join(xs.push(x), sep) == (if xs.len() == 0 { x } else { join(xs, sep) + sep + x }),
{
    assert(xs.push(x).drop_last() =~= xs);
    if xs.len() == 0 {
        assert(xs.push(x).len() == 1);
    }
}

fn append_render(out: &mut String, f: &FieldInfo, r: Render)
    ensures
        final(out)@ == old(out)@ + render(f@, r),
{
    match r {
        Render::Sql => {
            out.append(f.sql_name.as_str());
        },
        Render::AtRust => {
            out.append("@");
            out.append(f.rust_name.as_str());
        },
        Render::SetAssign => {
            out.append(f.sql_name.as_str());
            out.append(" = @");
            out.append(f.rust_name.as_str());
        },
        Render::UsingAs => {
            out.append("@");
            out.append(f.rust_name.as_str());
            out.append(" AS ");
            out.append(f.sql_name.as_str());
        },
        Render::MergeSet => {
            out.append("target.");
            out.append(f.sql_name.as_str());
            out.append(" = source.");
            out.append(f.sql_name.as_str());
        },
        Render::SourceCol => {
            out.append("source.");
            out.append(f.sql_name.as_str());
        },
    }
    assert(old(out)@ + render(f@, r) =~= final(out)@) by {
        match r {
            Render::Sql => {},
            _ => {},
        }
    }
}

/// The selected fields rendered with `r` and joined by `sep`.
pub fn field_list(fields: &Vec<FieldInfo>, w: FieldSet, r: Render, sep: &str) -> (s: String)
    ensures
        s@ == list_text(fields_view(fields@), w, r, sep@),
{
    let ghost fs = fields_view(fields@);
    let mut out = String::new();
    let mut any = false;
    let mut i: usize = 0;
    while i < fields.len()
        invariant
            i <= fields@.len(),
            fs == fields_view(fields@),
            any <==> select_fields(fs.take(i as int), w).len() > 0,
            out@ == list_text(fs.take(i as int), w, r, sep@),
        decreases fields@.len() - i,
    {
        let ghost prev = select_fields(fs.take(i as int), w);
        assert(fs.take(i as int + 1).drop_last() =~= fs.take(i as int));
        assert(fs.take(i as int + 1).last() == fields@[i as int]@);
        let f = &fields[i];
        if in_set_exec(f, w) {
            assert(select_fields(fs.take(i as int + 1), w) == prev.push(f@));
            assert(rendered(prev.push(f@), r) =~= rendered(prev, r).push(render(f@, r)));
            proof {
                lemma_join_push(rendered(prev, r), render(f@, r), sep@);
            }
            if any {
                out.append(sep);
            }
            append_render(&mut out, f, r);
            any = true;
        } else {
            assert(select_fields(fs.take(i as int + 1), w) == prev);
        }
        i = i + 1;
    }
    assert(fs.take(fields@.len() as int) =~= fs);
    out
}

/// Abstract content of a [`StructInfo`].
pub struct StructView {
    pub struct_name: Seq<char>,
    pub table_name: Seq<char>,
    pub schema: Seq<char>,
    pub fields: Seq<FieldView>,
    pub soft_delete_col: Option<Seq<char>>,
    pub tenant_id_col: Option<Seq<char>>,
}

pub open spec fn opt_str_view(o: Option<String>) -> Option<Seq<char>> {
    match o {
        Some(s) => Some(s@),
        None => None,
    }
}

pub open spec fn struct_view(s: StructInfo) -> StructView {
    StructView {
        struct_name: s.struct_name@,
        table_name: s.table_name@,
        schema: s.schema@,
        fields: fields_view(s.fields@),
        soft_delete_col: opt_str_view(s.soft_delete_col),
        tenant_id_col: opt_str_view(s.tenant_id_col),
    }
}

/// `[schema].[table]`, or `[table]` when no schema was given.
pub open spec fn fq_table(s: StructView) -> Seq<char> {
    if s.schema.len() == 0 {
        "["@ + s.table_name + "]"@
    } else {
        "["@ + s.schema + "].["@ + s.table_name + "]"@
    }
}

/// The row filters added by soft-delete and tenant columns, in that order.
pub open spec fn extra_filters(s: StructView) -> Seq<Seq<char>> {
    let soft = match s.soft_delete_col {
        Some(c) => seq!["["@ + c + "] = 0"@],
        None => Seq::empty(),
    };
    let tenant = match s.tenant_id_col {
        Some(c) => seq!["["@ + c + "] = @__tenant_id"@],
        None => Seq::empty(),
    };
    soft + tenant
}

pub open spec fn extra_where(s: StructView) -> Seq<char> {
    if extra_filters(s).len() == 0 { Seq::empty() } else { " WHERE "@ + join(extra_filters(s), " AND "@) }
}

pub open spec fn extra_and(s: StructView) -> Seq<char> {
    if extra_filters(s).len() == 0 { Seq::empty() } else { " AND "@ + join(extra_filters(s), " AND "@) }
}

/// All generated statements, as text.
pub struct GeneratedView {
    pub table_name: Seq<char>,
    pub schema: Seq<char>,
    pub fq_table: Seq<char>,
    pub select_cols: Seq<char>,
    pub select_sql: Seq<char>,
    pub select_by_pk_sql: Seq<char>,
    pub insert_sql: Seq<char>,
    pub update_sql: Seq<char>,
    pub delete_sql: Seq<char>,
    pub hard_delete_sql: Seq<char>,
    pub upsert_sql: Seq<char>,
    pub count_sql: Seq<char>,
    pub exists_sql: Seq<char>,
    pub cache_prefix: Seq<char>,
}

/// The statements generated for the struct `s` whose key field is `pk`.
pub open spec fn generated_spec(s: StructView, pk: FieldView) -> GeneratedView {
    let fq = fq_table(s);
    let cols = list_text(s.fields, FieldSet::Active, Render::Sql, ", "@);
    let ins_cols = list_text(s.fields, FieldSet::Insert, Render::Sql, ", "@);
    let ins_params = list_text(s.fields, FieldSet::Insert, Render::AtRust, ", "@);
    let upd_sets = list_text(s.fields, FieldSet::Update, Render::SetAssign, ", "@);
    let using_cols = list_text(s.fields, FieldSet::Params, Render::UsingAs, ", "@);
    let source_cols = list_text(s.fields, FieldSet::Params, Render::Sql, ", "@);
    let merge_update = list_text(s.fields, FieldSet::Update, Render::MergeSet, ", "@);
    let merge_vals = list_text(s.fields, FieldSet::Insert, Render::SourceCol, ", "@);
    let pk_col = pk.sql_name;
    let hard_delete = "DELETE FROM "@ + fq + " WHERE "@ + pk_col + " = @"@ + pk_col;
    GeneratedView {
        table_name: s.table_name,
        schema: s.schema,
        fq_table: fq,
        select_cols: cols,
        select_sql: "SELECT "@ + cols + " FROM "@ + fq + extra_where(s),
        select_by_pk_sql: "SELECT "@ + cols + " FROM "@ + fq + " WHERE "@ + pk_col + " = @"@ + pk_col
            + extra_and(s),
        insert_sql: if pk.pk_is_identity {
            "INSERT INTO "@ + fq + " ("@ + ins_cols + ") OUTPUT INSERTED."@ + pk_col + " VALUES ("@
                + ins_params + ")"@
        } else {
            "INSERT INTO "@ + fq + " ("@ + ins_cols + ") VALUES ("@ + ins_params + ")"@
        },
        update_sql: "UPDATE "@ + fq + " SET "@ + upd_sets + " WHERE "@ + pk_col + " = @"@ + pk.rust_name,
        delete_sql: match s.soft_delete_col {
            Some(sd) => "UPDATE "@ + fq + " SET ["@ + sd + "] = 1"@ + " WHERE "@ + pk_col + " = @"@ + pk_col,
            None => hard_delete,
        },
        hard_delete_sql: hard_delete,
        upsert_sql: "MERGE "@ + fq + " AS target USING (SELECT "@ + using_cols + ") AS source ("@
            + source_cols + ") ON (target."@ + pk_col + " = source."@ + pk_col
            + ") WHEN MATCHED THEN UPDATE SET "@ + merge_update + " WHEN NOT MATCHED THEN INSERT ("@
            + ins_cols + ") VALUES ("@ + merge_vals + ");"@,
        count_sql: "SELECT COUNT_BIG(*) FROM "@ + fq + extra_where(s),
        exists_sql: "SELECT CAST(1 AS BIT) FROM "@ + fq + " WHERE "@ + pk_col + " = @"@ + pk_col
            + extra_and(s),
        cache_prefix: "SqlService::"@ + s.table_name,
    }
}

/// The WHERE text of the row filters, written out from the struct's soft-delete and tenant
/// columns.
pub open spec fn row_filter_text(s: StructView) -> Seq<char> {
    match (s.soft_delete_col, s.tenant_id_col) {
        (Some(c), Some(t)) => " WHERE ["@ + c + "] = 0 AND ["@ + t + "] = @__tenant_id"@,
        (Some(c), None) => " WHERE ["@ + c + "] = 0"@,
        (None, Some(t)) => " WHERE ["@ + t + "] = @__tenant_id"@,
        (None, None) => Seq::empty(),
    }
}

/// The list SELECT and the COUNT read the same rows: a soft-deleted row (`[col] = 0`
/// fails) and a row of another tenant (`[col] = @__tenant_id` fails) are left out of both,
/// and the COUNT is the SELECT with its column list replaced by `COUNT_BIG(*)`.
pub proof fn law_count_filters_like_select(s: StructView, pk: FieldView)
    ensures
        generated_spec(s, pk).select_sql
            == "SELECT "@ + generated_spec(s, pk).select_cols + " FROM "@ + generated_spec(s, pk).fq_table
                + row_filter_text(s),
        generated_spec(s, pk).count_sql == "SELECT COUNT_BIG(*) FROM "@ + generated_spec(s, pk).fq_table
            + row_filter_text(s),
        generated_spec(s, pk).count_sql == "SELECT COUNT_BIG(*)"@
            + generated_spec(s, pk).select_sql.skip(("SELECT "@ + generated_spec(s, pk).select_cols).len() as int),
{
    let g = generated_spec(s, pk);
    reveal_strlit("SELECT ");
    reveal_strlit(" FROM ");
    reveal_strlit("SELECT COUNT_BIG(*)");
    reveal_strlit("SELECT COUNT_BIG(*) FROM ");
    reveal_strlit(" WHERE ");
    reveal_strlit(" AND ");
    reveal_strlit(" WHERE [");
    reveal_strlit("] = 0");
    reveal_strlit("] = 0 AND [");
    reveal_strlit("] = @__tenant_id");
    reveal_strlit("[");
    let fs = extra_filters(s);
    match (s.soft_delete_col, s.tenant_id_col) {
        (Some(c), Some(t)) => {
            assert(fs =~= seq!["["@ + c + "] = 0"@, "["@ + t + "] = @__tenant_id"@]);
            assert(fs.drop_last() =~= seq!["["@ + c + "] = 0"@]);
            assert(join(fs.drop_last(), " AND "@) == "["@ + c + "] = 0"@);
            assert(join(fs, " AND "@) == "["@ + c + "] = 0"@ + " AND "@ + ("["@ + t + "] = @__tenant_id"@));
            assert(extra_where(s) =~= row_filter_text(s));
        },
        (Some(c), None) => {
            assert(fs =~= seq!["["@ + c + "] = 0"@]);
            assert(extra_where(s) =~= row_filter_text(s));
        },
        (None, Some(t)) => {
            assert(fs =~= seq!["["@ + t + "] = @__tenant_id"@]);
            assert(extra_where(s) =~= row_filter_text(s));
        },
        (None, None) => {
            assert(fs =~= Seq::<Seq<char>>::empty());
            assert(extra_where(s) =~= row_filter_text(s));
        },
    }
    let head = "SELECT "@ + g.select_cols;
    assert(g.select_sql =~= head + (" FROM "@ + g.fq_table + row_filter_text(s)));
    assert(g.select_sql.skip(head.len() as int) =~= " FROM "@ + g.fq_table + row_filter_text(s));
    assert(g.count_sql =~= "SELECT COUNT_BIG(*)"@ + (" FROM "@ + g.fq_table + row_filter_text(s)));
}

/// Generates all `const` SQL strings from the parsed struct metadata.
pub struct GeneratedSql {
    pub table_name: String,
    pub schema: String,
    /// `[schema].[table]`, or `[table]` without a schema.
    pub fq_table: String,
    pub select_cols: String,
    pub select_sql: String,
    pub select_by_pk_sql: String,
    pub insert_sql: String,
    pub update_sql: String,
    pub delete_sql: String,
    /// Physical DELETE — only differs from `delete_sql` when soft-delete is active.
    pub hard_delete_sql: String,
    pub upsert_sql: String,
    pub count_sql: String,
    pub exists_sql: String,
    pub cache_prefix: String,
}

impl View for GeneratedSql {
    type V = GeneratedView;

    open spec fn view(&self) -> GeneratedView {
        GeneratedView {
            table_name: self.table_name@,
            schema: self.schema@,
            fq_table: self.fq_table@,
            select_cols: self.select_cols@,
            select_sql: self.select_sql@,
            select_by_pk_sql: self.select_by_pk_sql@,
            insert_sql: self.insert_sql@,
            update_sql: self.update_sql@,
            delete_sql: self.delete_sql@,
            hard_delete_sql: self.hard_delete_sql@,
            upsert_sql: self.upsert_sql@,
            count_sql: self.count_sql@,
            exists_sql: self.exists_sql@,
            cache_prefix: self.cache_prefix@,
        }
    }
}

fn extra_clauses(info: &StructInfo, lead: &str) -> (s: String)
    ensures
        s@ == (if extra_filters(struct_view(*info)).len() == 0 {
            Seq::empty()
        } else {
            lead@ + join(extra_filters(struct_view(*info)), " AND "@)
        }),
{
    let ghost sv = struct_view(*info);
    let mut out = String::new();
    match &info.soft_delete_col {
        Some(c) => {
            out.append(lead);
            out.append("[");
            out.append(c.as_str());
            out.append("] = 0");
        },
        None => {},
    }
    match &info.tenant_id_col {
        Some(c) => {
            if info.soft_delete_col.is_some() {
                out.append(" AND ");
            } else {
                out.append(lead);
            }
            out.append("[");
            out.append(c.as_str());
            out.append("] = @__tenant_id");
        },
        None => {},
    }
    proof {
        let fl = extra_filters(sv);
        match (sv.soft_delete_col, sv.tenant_id_col) {
            (Some(a), Some(b)) => {
                assert(fl =~= seq!["["@ + a + "] = 0"@, "["@ + b + "] = @__tenant_id"@]);
                assert(fl.drop_last() =~= seq!["["@ + a + "] = 0"@]);
                assert(join(fl.drop_last(), " AND "@) == "["@ + a + "] = 0"@);
                assert(out@ =~= lead@ + join(fl, " AND "@));
            },
            (Some(a), None) => {
                assert(fl =~= seq!["["@ + a + "] = 0"@]);
                assert(out@ =~= lead@ + join(fl, " AND "@));
            },
            (None, Some(b)) => {
                assert(fl =~= seq!["["@ + b + "] = @__tenant_id"@]);
                assert(out@ =~= lead@ + join(fl, " AND "@));
            },
            (None, None) => {
                assert(fl =~= Seq::<Seq<char>>::empty());
                assert(out@ =~= Seq::<char>::empty());
            },
        }
    }
    out
}

/// `a + b + c + ...` for string slices, as one `String`.
fn cat2(a: &str, b: &str) -> (s: String)
    ensures
        s@ == a@ + b@,
{
    let mut o = String::from_str(a);
    o.append(b);
    o
}

fn select_stmt(cols: &str, fq: &str, tail: &str) -> (s: String)
    ensures
        s@ == "SELECT "@ + cols@ + " FROM "@ + fq@ + tail@,
{
    let mut o = String::from_str("SELECT ");
    o.append(cols);
    o.append(" FROM ");
    o.append(fq);
    o.append(tail);
    o
}

fn where_pk(head: &str, pk_col: &str, param: &str, tail: &str) -> (s: String)
    ensures
        s@ == head@ + " WHERE "@ + pk_col@ + " = @"@ + param@ + tail@,
{
    let mut o = String::from_str(head);
    o.append(" WHERE ");
    o.append(pk_col);
    o.append(" = @");
    o.append(param);
    o.append(tail);
    o
}

fn insert_stmt(fq: &str, ins_cols: &str, ins_params: &str, identity: bool, pk_col: &str) -> (s: String)
    ensures
        s@ == (if identity {
            "INSERT INTO "@ + fq@ + " ("@ + ins_cols@ + ") OUTPUT INSERTED."@ + pk_col@ + " VALUES ("@
                + ins_params@ + ")"@
        } else {
            "INSERT INTO "@ + fq@ + " ("@ + ins_cols@ + ") VALUES ("@ + ins_params@ + ")"@
        }),
{
    let mut o = String::from_str("INSERT INTO ");
    o.append(fq);
    o.append(" (");
    o.append(ins_cols);
    if identity {
        o.append(") OUTPUT INSERTED.");
        o.append(pk_col);
        o.append(" VALUES (");
    } else {
        o.append(") VALUES (");
    }
    o.append(ins_params);
    o.append(")");
    o
}

fn merge_stmt(fq: &str, using_cols: &str, source_cols: &str, ins_cols: &str, pk_col: &str, merge_update: &str, merge_vals: &str) -> (s: String)
    ensures
        s@ == "MERGE "@ + fq@ + " AS target USING (SELECT "@ + using_cols@ + ") AS source ("@
            + source_cols@ + ") ON (target."@ + pk_col@ + " = source."@ + pk_col@
            + ") WHEN MATCHED THEN UPDATE SET "@ + merge_update@ + " WHEN NOT MATCHED THEN INSERT ("@
            + ins_cols@ + ") VALUES ("@ + merge_vals@ + ");"@,
{
    let mut o = String::from_str("MERGE ");
    o.append(fq);
    o.append(" AS target USING (SELECT ");
    o.append(using_cols);
    o.append(") AS source (");
    o.append(source_cols);
    o.append(") ON (target.");
    o.append(pk_col);
    o.append(" = source.");
    o.append(pk_col);
    o.append(") WHEN MATCHED THEN UPDATE SET ");
    o.append(merge_update);
    o.append(" WHEN NOT MATCHED THEN INSERT (");
    o.append(ins_cols);
    o.append(") VALUES (");
    o.append(merge_vals);
    o.append(");");
    o
}

impl GeneratedSql {
    /// Generates every statement of the entity described by `info`.
    pub fn from_struct(info: &StructInfo) -> (g: GeneratedSql)
        requires
            first_pk(fields_view(info.fields@)) is Some,
        ensures
            g@ == generated_spec(
                struct_view(*info),
                fields_view(info.fields@)[first_pk(fields_view(info.fields@))->0],
            ),
    {
        let ghost sv = struct_view(*info);
        let schema = info.schema.as_str();
        let table = info.table_name.as_str();
        let mut fq = String::from_str("[");
        if schema.unicode_len() > 0 {
            fq.append(schema);
            fq.append("].[");
        }
        fq.append(table);
        fq.append("]");

        let select_cols = field_list(&info.fields, FieldSet::Active, Render::Sql, ", ");

        let pk = info.pk_field().unwrap();
        let pk_col = pk.sql_name.as_str();
        let pk_rust = pk.rust_name.as_str();

        let extra_where = extra_clauses(info, " WHERE ");
        let extra_and = extra_clauses(info, " AND ");

        let select_sql = select_stmt(select_cols.as_str(), fq.as_str(), extra_where.as_str());
        let sel_head = select_stmt(select_cols.as_str(), fq.as_str(), "");
        let select_by_pk_sql = where_pk(sel_head.as_str(), pk_col, pk_col, extra_and.as_str());

        let ins_cols = field_list(&info.fields, FieldSet::Insert, Render::Sql, ", ");
        let ins_params = field_list(&info.fields, FieldSet::Insert, Render::AtRust, ", ");
        let insert_sql = insert_stmt(fq.as_str(), ins_cols.as_str(), ins_params.as_str(), pk.pk_is_identity, pk_col);

        let upd_sets = field_list(&info.fields, FieldSet::Update, Render::SetAssign, ", ");
        let mut upd_head = cat2("UPDATE ", fq.as_str());
        upd_head.append(" SET ");
        upd_head.append(upd_sets.as_str());
        let update_sql = where_pk(upd_head.as_str(), pk_col, pk_rust, "");

        let del_head = cat2("DELETE FROM ", fq.as_str());
        let hard_delete_sql = where_pk(del_head.as_str(), pk_col, pk_col, "");
        let delete_sql = match &info.soft_delete_col {
            Some(sd) => {
                let mut h = cat2("UPDATE ", fq.as_str());
                h.append(" SET [");
                h.append(sd.as_str());
                h.append("] = 1");
                where_pk(h.as_str(), pk_col, pk_col, "")
            },
            None => where_pk(del_head.as_str(), pk_col, pk_col, ""),
        };

        let using_cols = field_list(&info.fields, FieldSet::Params, Render::UsingAs, ", ");
        let source_cols = field_list(&info.fields, FieldSet::Params, Render::Sql, ", ");
        let merge_update = field_list(&info.fields, FieldSet::Update, Render::MergeSet, ", ");
        let merge_vals = field_list(&info.fields, FieldSet::Insert, Render::SourceCol, ", ");
        let upsert_sql = merge_stmt(fq.as_str(), using_cols.as_str(), source_cols.as_str(), ins_cols.as_str(), pk_col, merge_update.as_str(), merge_vals.as_str());

        let count_sql = cat2("SELECT COUNT_BIG(*) FROM ", fq.as_str());
        let count_sql = cat2(count_sql.as_str(), extra_where.as_str());
        let ex_head = cat2("SELECT CAST(1 AS BIT) FROM ", fq.as_str());
        let exists_sql = where_pk(ex_head.as_str(), pk_col, pk_col, extra_and.as_str());

        let cache_prefix = cat2("SqlService::", table);

        let g = GeneratedSql {
            table_name: to_owned_string(table),
            schema: to_owned_string(schema),
            fq_table: fq,
            select_cols,
            select_sql,
            select_by_pk_sql,
            insert_sql,
            update_sql,
            delete_sql,
            hard_delete_sql,
            upsert_sql,
            count_sql,
            exists_sql,
            cache_prefix,
        };
        proof {
            reveal_strlit("");
        }
        assert(""@ =~= Seq::<char>::empty());
        let ghost pki = first_pk(fields_view(info.fields@))->0;
        let ghost pkv = fields_view(info.fields@)[pki];
        assert(0 <= pki < info.fields@.len());
        assert(pk@ == pkv);
        let ghost gs = generated_spec(sv, pkv);
        assert(fq@ == fq_table(sv));
        assert(g@.select_sql == gs.select_sql);
        assert(g@.select_by_pk_sql == gs.select_by_pk_sql);
        assert(g@.insert_sql == gs.insert_sql);
        assert(g@.update_sql == gs.update_sql);
        assert(g@.delete_sql == gs.delete_sql);
        assert(g@.hard_delete_sql == gs.hard_delete_sql);
        assert(g@.upsert_sql == gs.upsert_sql);
        assert(g@.count_sql == gs.count_sql);
        assert(g@.exists_sql == gs.exists_sql);
        assert(g@ =~= gs);
        g
    }
}

} // verus!
