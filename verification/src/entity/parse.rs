//! Resolved field and struct metadata of an entity.
use vstd::prelude::*;
use crate::entity::attrs::{
    any_named, has_attr, has_identity, opt_text, read_str_attrs, read_table_attrs, str_from_attrs, AttrInput,
    ColumnAttr, ComputedAttr, IgnoreAttr, PkAttr, ServerDefaultAttr, TableAttr,
};
use crate::text::to_owned_string;

verus! {

/// One field of the struct, fully resolved.
pub struct FieldInfo {
    pub rust_name: String,
    pub sql_name: String,
    /// The field's Rust type, as written in the source.
    pub ty: String,
    pub is_pk: bool,
    pub pk_is_identity: bool,
    pub is_ignored: bool,
    /// `#[sql_computed]` — DB-computed column; SELECT-only, excluded from all writes.
    pub is_computed: bool,
    /// `#[sql_default]` — server-side default; excluded from INSERT, included in UPDATE.
    pub is_server_default: bool,
    /// `#[sql_mask]` — value replaced with `"***"` in `from_row`.
    pub is_masked: bool,
}

/// Abstract content of a [`FieldInfo`].
pub struct FieldView {
    pub rust_name: Seq<char>,
    pub sql_name: Seq<char>,
    pub ty: Seq<char>,
    pub is_pk: bool,
    pub pk_is_identity: bool,
    pub is_ignored: bool,
    pub is_computed: bool,
    pub is_server_default: bool,
    pub is_masked: bool,
}

impl View for FieldInfo {
    type V = FieldView;

    open spec fn view(&self) -> FieldView {
        FieldView {
            rust_name: self.rust_name@,
            sql_name: self.sql_name@,
            ty: self.ty@,
            is_pk: self.is_pk,
            pk_is_identity: self.pk_is_identity,
            is_ignored: self.is_ignored,
            is_computed: self.is_computed,
            is_server_default: self.is_server_default,
            is_masked: self.is_masked,
        }
    }
}

/// Field selections used by the generated statements.
#[derive(Clone, Copy, PartialEq, Eq, Debug)]
pub enum FieldSet {
    /// Non-ignored fields (SELECT list, `from_row`).
    Active,
    /// Fields written by INSERT: not ignored, not an identity key, not computed, no server default.
    Insert,
    /// Fields written by UPDATE: not ignored, not the key, not computed.
    Update,
    /// Fields bound as parameters (and the columns of the upsert's source row): not
    /// ignored, not computed.
    Params,
}

pub open spec fn in_set(f: FieldView, w: FieldSet) -> bool {
    match w {
        FieldSet::Active => !f.is_ignored,
        FieldSet::Insert => !f.is_ignored && !(f.is_pk && f.pk_is_identity) && !f.is_computed
            && !f.is_server_default,
        FieldSet::Update => !f.is_ignored && !f.is_pk && !f.is_computed,
        FieldSet::Params => !f.is_ignored && !f.is_computed,
    }
}

/// The fields of `fs` in the selection `w`, in declaration order.
pub open spec fn select_fields(fs: Seq<FieldView>, w: FieldSet) -> Seq<FieldView>
    decreases fs.len(),
{
    if fs.len() == 0 {
        Seq::empty()
    } else if in_set(fs.last(), w) {
        select_fields(fs.drop_last(), w).push(fs.last())
    } else {
        select_fields(fs.drop_last(), w)
    }
}

/// Index of the first key field, if there is one.
pub open spec fn first_pk(fs: Seq<FieldView>) -> Option<int> {
    if exists|i: int| 0 <= i < fs.len() && fs[i].is_pk {
        Some(choose|i: int| 0 <= i < fs.len() && fs[i].is_pk && forall|j: int| 0 <= j < i ==> !fs[j].is_pk)
    } else {
        None
    }
}

pub struct StructInfo {
    pub struct_name: String,
    pub table_name: String,
    pub schema: String,
    pub fields: Vec<FieldInfo>,
    /// Column name for soft-delete flag (from `#[sql_soft_delete("IsDeleted")]`).
    pub soft_delete_col: Option<String>,
    /// Column name for tenant isolation (from `#[sql_tenant_id("TenantId")]`).
    pub tenant_id_col: Option<String>,
}

pub open spec fn fields_view(fs: Seq<FieldInfo>) -> Seq<FieldView> {
    fs.map_values(|f: FieldInfo| f@)
}

/// Exactly one of the fields is marked as the primary key.
pub open spec fn one_pk(fs: Seq<FieldInfo>) -> bool {
    exists|i: int| 0 <= i < fs.len() && (#[trigger] fs[i]).is_pk
        && forall|j: int| 0 <= j < fs.len() && j != i ==> !(#[trigger] fs[j]).is_pk
}

/// The message given unless exactly one field is marked as the primary key.
pub open spec fn missing_pk_message() -> Seq<char> {
    "SqlEntity requires exactly one field marked with `#[sql_primary_key]` or `#[sql_primary_key(identity)]`. Add the attribute to your primary-key field."@
}

impl FieldInfo {
    /// Resolves one field from its name, type text and parsed attributes.
    ///
    /// `has_pk_attr` is whether the field carries `#[sql_primary_key]` at all.
    pub fn resolve(
        rust_name: String,
        ty: String,
        has_pk_attr: bool,
        pk: PkAttr,
        col: ColumnAttr,
        ignore: IgnoreAttr,
        computed: ComputedAttr,
        default: ServerDefaultAttr,
        is_masked: bool,
    ) -> (f: FieldInfo)
        ensures
            f.rust_name@ == rust_name@,
            f.sql_name@ == (match col.column_name {
                Some(c) => c@,
                None => rust_name@,
            }),
            f.ty == ty,
            f.is_pk == has_pk_attr,
            f.pk_is_identity == pk.is_identity,
            f.is_ignored == ignore.ignore,
            f.is_computed == computed.is_computed,
            f.is_server_default == default.is_server_default,
            f.is_masked == is_masked,
    {
        let sql_name = match col.column_name {
            Some(c) => c,
            None => to_owned_string(rust_name.as_str()),
        };
        FieldInfo {
            rust_name,
            sql_name,
            ty,
            is_pk: has_pk_attr,
            pk_is_identity: pk.is_identity,
            is_ignored: ignore.ignore,
            is_computed: computed.is_computed,
            is_server_default: default.is_server_default,
            is_masked,
        }
    }
}

impl StructInfo {
    /// Assembles the struct metadata: the table name defaults to the struct name and the
    /// schema to none (no schema prefix); a struct without exactly one key field is rejected.
    pub fn from_parts(
        struct_name: String,
        table: TableAttr,
        fields: Vec<FieldInfo>,
        soft_delete_col: Option<String>,
        tenant_id_col: Option<String>,
    ) -> (r: Result<StructInfo, String>)
        ensures
            one_pk(fields@) <==> r is Ok,
            r matches Err(m) ==> m@ == missing_pk_message(),
            r matches Ok(s) ==> {
                &&& s.struct_name == struct_name
                &&& s.table_name@ == (match table.table_name {
                    Some(t) => t@,
                    None => struct_name@,
                })
                &&& s.schema@ == (match table.schema {
                    Some(t) => t@,
                    None => Seq::<char>::empty(),
                })
                &&& s.fields == fields
                &&& s.soft_delete_col == soft_delete_col
                &&& s.tenant_id_col == tenant_id_col
            },
    {
        let mut first: Option<usize> = None;
        let mut dup = false;
        let mut i: usize = 0;
        while i < fields.len()
            invariant
                i <= fields@.len(),
                first is None <==> forall|j: int| 0 <= j < i ==> !(#[trigger] fields@[j]).is_pk,
                first matches Some(f) ==> f < i && fields@[f as int].is_pk
                    && forall|j: int| 0 <= j < f ==> !(#[trigger] fields@[j]).is_pk,
                dup <==> exists|a: int, b: int| 0 <= a < b < i && (#[trigger] fields@[a]).is_pk
                    && (#[trigger] fields@[b]).is_pk,
            decreases fields@.len() - i,
        {
            if fields[i].is_pk {
                match first {
                    Some(f) => {
                        assert(fields@[f as int].is_pk && f < i);
                        dup = true;
                    },
                    None => {
                        first = Some(i);
                    },
                }
            }
            i = i + 1;
        }
        proof {
            match first {
                Some(f) => {
                    if !dup {
                        assert forall|j: int| 0 <= j < fields@.len() && j != f implies !(#[trigger] fields@[j]).is_pk by {
                            if fields@[j].is_pk && j > f {
                                assert(fields@[f as int].is_pk && fields@[j].is_pk);
                            }
                        }
                        assert(fields@[f as int].is_pk);
                    } else {
                        if one_pk(fields@) {
                            let a_b = choose|a: int, b: int| 0 <= a < b < fields@.len() && (#[trigger] fields@[a]).is_pk
                                && (#[trigger] fields@[b]).is_pk;
                            let w = choose|w: int| 0 <= w < fields@.len() && (#[trigger] fields@[w]).is_pk
                                && forall|j: int| 0 <= j < fields@.len() && j != w ==> !(#[trigger] fields@[j]).is_pk;
                            assert(fields@[a_b.0].is_pk && fields@[a_b.1].is_pk);
                        }
                    }
                },
                None => {
                    if one_pk(fields@) {
                        let w = choose|w: int| 0 <= w < fields@.len() && (#[trigger] fields@[w]).is_pk
                            && forall|j: int| 0 <= j < fields@.len() && j != w ==> !(#[trigger] fields@[j]).is_pk;
                        assert(fields@[w].is_pk);
                    }
                },
            }
        }
        if first.is_none() || dup {
            return Err(to_owned_string(
                "SqlEntity requires exactly one field marked with `#[sql_primary_key]` or `#[sql_primary_key(identity)]`. Add the attribute to your primary-key field.",
            ));
        }
        let table_name = match table.table_name {
            Some(t) => t,
            None => to_owned_string(struct_name.as_str()),
        };
        let schema = match table.schema {
            Some(s) => s,
            None => String::new(),
        };
        Ok(StructInfo { struct_name, table_name, schema, fields, soft_delete_col, tenant_id_col })
    }

    /// Index of the key field (the first field marked as key).
    pub fn pk_index(&self) -> (r: Option<usize>)
        ensures
            match first_pk(fields_view(self.fields@)) {
                Some(i) => (r matches Some(j) && j as int == i),
                None => r is None,
            },
            r matches Some(i) ==> i < self.fields@.len() && self.fields@[i as int].is_pk,
    {
        let ghost fs = fields_view(self.fields@);
        let mut i: usize = 0;
        while i < self.fields.len()
            invariant
                i <= self.fields@.len(),
                fs == fields_view(self.fields@),
                forall|j: int| 0 <= j < i ==> !fs[j].is_pk,
            decreases self.fields@.len() - i,
        {
            if self.fields[i].is_pk {
                let ghost k = choose|k: int| 0 <= k < fs.len() && fs[k].is_pk && forall|j: int| 0 <= j < k ==> !fs[j].is_pk;
                assert(fs[i as int].is_pk);
                assert(k == i) by {
                    if k < i { assert(!fs[k].is_pk); }
                    if k > i { assert(!fs[i as int].is_pk); }
                }
                return Some(i);
            }
            i = i + 1;
        }
        None
    }

    /// PK field (first one).
    pub fn pk_field(&self) -> (r: Option<&FieldInfo>)
        ensures
            match first_pk(fields_view(self.fields@)) {
                Some(i) => 0 <= i < self.fields@.len() && r == Some(&self.fields@[i]),
                None => r is None,
            },
    {
        let ghost fp = first_pk(fields_view(self.fields@));
        match self.pk_index() {
            Some(i) => {
                assert(fp == Some(i as int));
                let f = &self.fields[i];
                assert(*f == self.fields@[i as int]);
                Some(f)
            },
            None => None,
        }
    }

    /// Indices of the fields in the selection `w`, in declaration order.
    pub fn field_indices(&self, w: FieldSet) -> (r: Vec<usize>)
        ensures
            r@.len() == select_fields(fields_view(self.fields@), w).len(),
            forall|k: int| 0 <= k < r@.len() ==> (#[trigger] r@[k]) < self.fields@.len()
                && self.fields@[r@[k] as int]@ == select_fields(fields_view(self.fields@), w)[k],
    {
        let ghost fs = fields_view(self.fields@);
        let mut r: Vec<usize> = Vec::new();
        let mut i: usize = 0;
        while i < self.fields.len()
            invariant
                i <= self.fields@.len(),
                fs == fields_view(self.fields@),
                r@.len() == select_fields(fs.take(i as int), w).len(),
                forall|k: int| 0 <= k < r@.len() ==> (#[trigger] r@[k]) < self.fields@.len()
                    && self.fields@[r@[k] as int]@ == select_fields(fs.take(i as int), w)[k],
            decreases self.fields@.len() - i,
        {
            assert(fs.take(i as int + 1).drop_last() =~= fs.take(i as int));
            assert(fs.take(i as int + 1).last() == self.fields@[i as int]@);
            if in_set_exec(&self.fields[i], w) {
                r.push(i);
            }
            i = i + 1;
        }
        assert(fs.take(self.fields@.len() as int) =~= fs);
        r
    }

    /// The fields in the selection `w`, in declaration order.
    fn fields_in(&self, w: FieldSet) -> (r: Vec<&FieldInfo>)
        ensures
            r@.len() == select_fields(fields_view(self.fields@), w).len(),
            forall|k: int| 0 <= k < r@.len()
                ==> (#[trigger] r@[k])@ == select_fields(fields_view(self.fields@), w)[k],
    {
        let ghost fs = fields_view(self.fields@);
        let mut r: Vec<&FieldInfo> = Vec::new();
        let mut i: usize = 0;
        while i < self.fields.len()
            invariant
                i <= self.fields@.len(),
                fs == fields_view(self.fields@),
                r@.len() == select_fields(fs.take(i as int), w).len(),
                forall|k: int| 0 <= k < r@.len()
                    ==> (#[trigger] r@[k])@ == select_fields(fs.take(i as int), w)[k],
            decreases self.fields@.len() - i,
        {
            assert(fs.take(i as int + 1).drop_last() =~= fs.take(i as int));
            assert(fs.take(i as int + 1).last() == self.fields@[i as int]@);
            if in_set_exec(&self.fields[i], w) {
                r.push(&self.fields[i]);
            }
            i = i + 1;
        }
        assert(fs.take(self.fields@.len() as int) =~= fs);
        r
    }

    /// Non-ignored fields (for the SELECT list and `from_row`).
    pub fn active_fields(&self) -> (r: Vec<&FieldInfo>)
        ensures
            r@.len() == select_fields(fields_view(self.fields@), FieldSet::Active).len(),
            forall|k: int| 0 <= k < r@.len()
                ==> (#[trigger] r@[k])@ == select_fields(fields_view(self.fields@), FieldSet::Active)[k],
    {
        self.fields_in(FieldSet::Active)
    }

    /// Non-ignored, non-identity-key, non-computed, non-server-default fields (for the
    /// INSERT column list).
    pub fn insert_fields(&self) -> (r: Vec<&FieldInfo>)
        ensures
            r@.len() == select_fields(fields_view(self.fields@), FieldSet::Insert).len(),
            forall|k: int| 0 <= k < r@.len()
                ==> (#[trigger] r@[k])@ == select_fields(fields_view(self.fields@), FieldSet::Insert)[k],
    {
        self.fields_in(FieldSet::Insert)
    }

    /// Non-ignored, non-key, non-computed fields (for the UPDATE SET clause); fields with
    /// a server default are included, since they can be updated explicitly.
    pub fn update_fields(&self) -> (r: Vec<&FieldInfo>)
        ensures
            r@.len() == select_fields(fields_view(self.fields@), FieldSet::Update).len(),
            forall|k: int| 0 <= k < r@.len()
                ==> (#[trigger] r@[k])@ == select_fields(fields_view(self.fields@), FieldSet::Update)[k],
    {
        self.fields_in(FieldSet::Update)
    }
}

/// Whether a field belongs to the selection `w`.
pub fn in_set_exec(f: &FieldInfo, w: FieldSet) -> (b: bool)
    ensures
        b == in_set(f@, w),
{
    match w {
        FieldSet::Active => !f.is_ignored,
        FieldSet::Insert => !f.is_ignored && !(f.is_pk && f.pk_is_identity) && !f.is_computed
            && !f.is_server_default,
        FieldSet::Update => !f.is_ignored && !f.is_pk && !f.is_computed,
        FieldSet::Params => !f.is_ignored && !f.is_computed,
    }
}

/// What kind of item the derive is applied to.
#[derive(Debug, Clone, Copy, PartialEq, Eq)]
pub enum ItemShape {
    /// A struct with named fields.
    NamedStruct,
    /// A tuple or unit struct.
    OtherStruct,
    /// An enum or a union.
    NotStruct,
}

/// One named field of the struct: its name, its type as text and its attributes.
#[derive(Debug, Clone)]
pub struct FieldInput {
    pub name: String,
    pub ty: String,
    pub attrs: Vec<AttrInput>,
}

/// Exactly one of the fields carries `#[sql_primary_key]`.
pub open spec fn one_pk_attr(fs: Seq<FieldInput>) -> bool {
    exists|i: int| 0 <= i < fs.len() && has_attr((#[trigger] fs[i]).attrs@, "sql_primary_key"@)
        && forall|j: int| 0 <= j < fs.len() && j != i ==> !has_attr((#[trigger] fs[j]).attrs@, "sql_primary_key"@)
}

proof fn lemma_one_pk_attr(infos: Seq<FieldInfo>, fs: Seq<FieldInput>)
    requires
        infos.len() == fs.len(),
        forall|k: int| 0 <= k < fs.len() ==> (#[trigger] infos[k]).is_pk == has_attr(fs[k].attrs@, "sql_primary_key"@),
    ensures
        one_pk(infos) == one_pk_attr(fs),
{
    if one_pk(infos) {
        let w = choose|w: int| 0 <= w < infos.len() && (#[trigger] infos[w]).is_pk
            && forall|j: int| 0 <= j < infos.len() && j != w ==> !(#[trigger] infos[j]).is_pk;
        assert(has_attr(fs[w].attrs@, "sql_primary_key"@));
        assert forall|j: int| 0 <= j < fs.len() && j != w implies !has_attr((#[trigger] fs[j]).attrs@, "sql_primary_key"@) by {
            assert(!infos[j].is_pk);
        }
    }
    if one_pk_attr(fs) {
        let w = choose|w: int| 0 <= w < fs.len() && has_attr((#[trigger] fs[w]).attrs@, "sql_primary_key"@)
            && forall|j: int| 0 <= j < fs.len() && j != w ==> !has_attr((#[trigger] fs[j]).attrs@, "sql_primary_key"@);
        assert(infos[w].is_pk);
        assert forall|j: int| 0 <= j < infos.len() && j != w implies !(#[trigger] infos[j]).is_pk by {
            assert(!has_attr(fs[j].attrs@, "sql_primary_key"@));
        }
    }
}

/// The metadata a field's attributes give it.
pub open spec fn resolved_field(f: FieldInput) -> FieldView {
    FieldView {
        rust_name: f.name@,
        sql_name: match read_str_attrs(f.attrs@, "sql_column"@) {
            Some(c) => c,
            None => f.name@,
        },
        ty: f.ty@,
        is_pk: has_attr(f.attrs@, "sql_primary_key"@),
        pk_is_identity: has_identity(f.attrs@),
        is_ignored: has_attr(f.attrs@, "sql_ignore"@),
        is_computed: has_attr(f.attrs@, "sql_computed"@),
        is_server_default: has_attr(f.attrs@, "sql_default"@),
        is_masked: has_attr(f.attrs@, "sql_mask"@),
    }
}

impl StructInfo {
    /// Read the struct metadata from the item: `#[sql_table]`, `#[sql_soft_delete("Col")]`
    /// and `#[sql_tenant_id("Col")]` on the struct, and each field's own attributes.
    pub fn parse(struct_name: String, shape: ItemShape, attrs: &Vec<AttrInput>, fields: Vec<FieldInput>)
        -> (r: Result<StructInfo, String>)
        ensures
            shape == ItemShape::NotStruct ==> (r matches Err(m)
                && m@ == "SqlEntity can only be derived on structs"@),
            shape == ItemShape::OtherStruct ==> (r matches Err(m) && m@ == "SqlEntity requires named fields"@),
            shape == ItemShape::NamedStruct ==> (one_pk_attr(fields@) <==> r is Ok),
            shape == ItemShape::NamedStruct ==> (r matches Err(m) ==> m@ == missing_pk_message()),
            r matches Ok(s) ==> {
                &&& s.struct_name == struct_name
                &&& s.table_name@ == (match read_table_attrs(attrs@).0 {
                    Some(t) => t,
                    None => struct_name@,
                })
                &&& s.schema@ == (match read_table_attrs(attrs@).1 {
                    Some(t) => t,
                    None => Seq::<char>::empty(),
                })
                &&& fields_view(s.fields@) == fields@.map_values(|f: FieldInput| resolved_field(f))
                &&& opt_text(s.soft_delete_col) == read_str_attrs(attrs@, "sql_soft_delete"@)
                &&& opt_text(s.tenant_id_col) == read_str_attrs(attrs@, "sql_tenant_id"@)
            },
    {
        match shape {
            ItemShape::NotStruct => {
                return Err(to_owned_string("SqlEntity can only be derived on structs"));
            },
            ItemShape::OtherStruct => {
                return Err(to_owned_string("SqlEntity requires named fields"));
            },
            ItemShape::NamedStruct => {},
        }
        let table = TableAttr::from_attrs(attrs);
        let soft = str_from_attrs(attrs, "sql_soft_delete");
        let tenant = str_from_attrs(attrs, "sql_tenant_id");
        let ghost inputs = fields@;
        let mut infos: Vec<FieldInfo> = Vec::new();
        let mut i: usize = 0;
        while i < fields.len()
            invariant
                i <= fields@.len(),
                inputs == fields@,
                infos@.len() == i,
                forall|k: int| 0 <= k < i ==> (#[trigger] infos@[k])@ == resolved_field(fields@[k])
                    && infos@[k].is_pk == has_attr(fields@[k].attrs@, "sql_primary_key"@),
            decreases fields@.len() - i,
        {
            let f = &fields[i];
            let info = FieldInfo::resolve(
                f.name.clone(),
                f.ty.clone(),
                any_named(&f.attrs, "sql_primary_key"),
                PkAttr::from_attrs(&f.attrs),
                ColumnAttr::from_attrs(&f.attrs),
                IgnoreAttr::from_attrs(&f.attrs),
                ComputedAttr::from_attrs(&f.attrs),
                ServerDefaultAttr::from_attrs(&f.attrs),
                any_named(&f.attrs, "sql_mask"),
            );
            infos.push(info);
            i = i + 1;
        }
        assert(fields_view(infos@) =~= fields@.map_values(|f: FieldInput| resolved_field(f)));
        let ghost infos_v = infos@;
        let r = StructInfo::from_parts(struct_name, table, infos, soft, tenant);
        proof {
            lemma_one_pk_attr(infos_v, fields@);
        }
        r
    }
}

} // verus!
