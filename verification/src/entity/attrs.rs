//! Parsed forms of the entity attributes.
use vstd::prelude::*;
use crate::text::str_eq;

verus! {

/// Parsed result of `#[sql_table("name", schema = "dbo")]`
#[derive(Default)]
pub struct TableAttr {
    pub table_name: Option<String>,
    pub schema: Option<String>,
}

/// Parsed result of `#[sql_column("ColName")]`
#[derive(Default, Clone)]
pub struct ColumnAttr {
    pub column_name: Option<String>,
}

/// Parsed from `#[sql_primary_key(identity)]`
#[derive(Default, Clone)]
pub struct PkAttr {
    pub is_identity: bool,
}

/// Marker for `#[sql_ignore]`
#[derive(Default, Clone)]
pub struct IgnoreAttr {
    pub ignore: bool,
}

/// Marker for `#[sql_computed]` — DB-computed column (read-only).
/// Included in SELECT / `from_row`; excluded from INSERT, UPDATE, MERGE, and `to_params`.
#[derive(Default, Clone)]
pub struct ComputedAttr {
    pub is_computed: bool,
}

/// Marker for `#[sql_default]` — column with a server-side default (GETDATE(), NEWID(), etc.).
/// Included in SELECT / `from_row` and UPDATE; excluded from INSERT and MERGE-insert source.
#[derive(Default, Clone)]
pub struct ServerDefaultAttr {
    pub is_server_default: bool,
}

/// One token inside an attribute's parentheses.
#[derive(Debug, Clone, PartialEq, Eq)]
pub enum AttrToken {
    /// A string literal, by its value.
    Str(String),
    /// An identifier that is not a keyword.
    Ident(String),
    /// `=`
    Eq,
    /// `,`
    Comma,
    /// Anything else.
    Other,
}

/// Abstract content of an [`AttrToken`].
pub enum TokenView {
    Str(Seq<char>),
    Ident(Seq<char>),
    Eq,
    Comma,
    Other,
}

impl View for AttrToken {
    type V = TokenView;

    open spec fn view(&self) -> TokenView {
        match self {
            AttrToken::Str(s) => TokenView::Str(s@),
            AttrToken::Ident(s) => TokenView::Ident(s@),
            AttrToken::Eq => TokenView::Eq,
            AttrToken::Comma => TokenView::Comma,
            AttrToken::Other => TokenView::Other,
        }
    }
}

/// One outer attribute of an item, with what the entity attributes read of it.
#[derive(Debug, Clone)]
pub struct AttrInput {
    /// The attribute's path when it is a single identifier (`sql_table`), else empty.
    pub path: String,
    /// The tokens inside its parentheses; `None` for `#[name]` and `#[name = value]`.
    pub tokens: Option<Vec<AttrToken>>,
    /// Its arguments read as comma-separated expressions: the value of each string literal,
    /// `None` for any other expression; `None` overall when they do not form such a list.
    pub exprs: Option<Vec<Option<String>>>,
    /// The paths of its nested meta items (`identity` in `sql_primary_key(identity)`), up
    /// to the first malformed item.
    pub metas: Vec<String>,
}

pub open spec fn tokens_view(ts: Seq<AttrToken>) -> Seq<TokenView> {
    ts.map_values(|t: AttrToken| t@)
}

/// Skip one `,` if it is next.
pub open spec fn skip_comma(ts: Seq<TokenView>) -> Seq<TokenView> {
    if ts.len() > 0 && ts[0] is Comma { ts.drop_first() } else { ts }
}

/// The schema after reading `key = "value"` pairs (each optionally followed by `,`): a
/// `schema` key sets it; reading stops at the first token sequence that is not such a pair.
pub open spec fn read_named(ts: Seq<TokenView>, schema: Option<Seq<char>>) -> Option<Seq<char>>
    decreases ts.len(),
{
    if ts.len() >= 3 && ts[0] is Ident && ts[1] is Eq && ts[2] is Str {
        let key = ts[0]->Ident_0;
        let value = ts[2]->Str_0;
        let next = if key == "schema"@ { Some(value) } else { schema };
        read_named(skip_comma(ts.skip(3)), next)
    } else {
        schema
    }
}

/// `(table, schema)` after one `sql_table(...)` argument list: an optional leading string
/// literal names the table, then `key = "value"` pairs.
pub open spec fn read_table_args(ts: Seq<TokenView>, table: Option<Seq<char>>, schema: Option<Seq<char>>)
    -> (Option<Seq<char>>, Option<Seq<char>>)
{
    if ts.len() > 0 && ts[0] is Str {
        (Some(ts[0]->Str_0), read_named(skip_comma(ts.drop_first()), schema))
    } else {
        (table, read_named(ts, schema))
    }
}

pub open spec fn opt_text(o: Option<String>) -> Option<Seq<char>> {
    match o {
        Some(s) => Some(s@),
        None => None,
    }
}

/// `(table, schema)` after reading every `sql_table` attribute in order.
pub open spec fn read_table_attrs(attrs: Seq<AttrInput>) -> (Option<Seq<char>>, Option<Seq<char>>)
    decreases attrs.len(),
{
    if attrs.len() == 0 {
        (None, None)
    } else {
        let before = read_table_attrs(attrs.drop_last());
        let a = attrs.last();
        if a.path@ == "sql_table"@ && a.tokens is Some {
            read_table_args(tokens_view(a.tokens->Some_0@), before.0, before.1)
        } else {
            before
        }
    }
}

fn is_named(a: &AttrInput, name: &str) -> (b: bool)
    ensures
        b == (a.path@ == name@),
{
    str_eq(a.path.as_str(), name)
}

fn read_named_exec(ts: &Vec<AttrToken>, start: usize, schema: Option<String>) -> (r: Option<String>)
    requires
        start <= ts@.len(),
    ensures
        opt_text(r) == read_named(tokens_view(ts@).skip(start as int), opt_text(schema)),
    decreases ts@.len() - start,
{
    let ghost tv = tokens_view(ts@).skip(start as int);
    let n = ts.len();
    if n - start >= 3 {
        match (&ts[start], &ts[start + 1], &ts[start + 2]) {
            (AttrToken::Ident(k), AttrToken::Eq, AttrToken::Str(v)) => {
                assert(tv[0] == ts@[start as int]@);
                assert(tv[1] == ts@[start as int + 1]@);
                assert(tv[2] == ts@[start as int + 2]@);
                let next = if str_eq(k.as_str(), "schema") { Some(v.clone()) } else { schema };
                let mut after = start + 3;
                assert(tv.skip(3) =~= tokens_view(ts@).skip(after as int));
                if after < n {
                    if let AttrToken::Comma = ts[after] {
                        assert(tokens_view(ts@).skip(after as int).drop_first()
                            =~= tokens_view(ts@).skip(after as int + 1));
                        after = after + 1;
                    }
                }
                return read_named_exec(ts, after, next);
            },
            _ => {
                assert(!(tv[0] is Ident && tv[1] is Eq && tv[2] is Str)) by {
                    assert(tv[0] == ts@[start as int]@);
                    assert(tv[1] == ts@[start as int + 1]@);
                    assert(tv[2] == ts@[start as int + 2]@);
                }
                schema
            },
        }
    } else {
        schema
    }
}

impl TableAttr {
    /// Read `#[sql_table("name", schema = "dbo")]` attributes; later ones override
    /// earlier values, and a malformed argument list keeps what was read before the fault.
    pub fn from_attrs(attrs: &Vec<AttrInput>) -> (r: TableAttr)
        ensures
            (opt_text(r.table_name), opt_text(r.schema)) == read_table_attrs(attrs@),
    {
        let mut table: Option<String> = None;
        let mut schema: Option<String> = None;
        let mut i: usize = 0;
        while i < attrs.len()
            invariant
                i <= attrs@.len(),
                (opt_text(table), opt_text(schema)) == read_table_attrs(attrs@.take(i as int)),
            decreases attrs@.len() - i,
        {
            assert(attrs@.take(i as int + 1).drop_last() =~= attrs@.take(i as int));
            let a = &attrs[i];
            if is_named(a, "sql_table") {
                match &a.tokens {
                    Some(ts) => {
                        let ghost tv = tokens_view(ts@);
                        assert(tv.skip(0) =~= tv);
                        let n = ts.len();
                        if n > 0 {
                            if let AttrToken::Str(v) = &ts[0] {
                                assert(tv[0] == ts@[0]@);
                                table = Some(v.clone());
                                let mut start: usize = 1;
                                assert(tv.drop_first() =~= tv.skip(1));
                                if n > 1 {
                                    if let AttrToken::Comma = ts[1] {
                                        assert(tv.skip(1).drop_first() =~= tv.skip(2));
                                        start = 2;
                                    }
                                }
                                schema = read_named_exec(ts, start, schema);
                            } else {
                                assert(tv[0] == ts@[0]@);
                                schema = read_named_exec(ts, 0, schema);
                            }
                        } else {
                            schema = read_named_exec(ts, 0, schema);
                        }
                    },
                    None => {},
                }
            }
            i = i + 1;
        }
        assert(attrs@.take(attrs@.len() as int) =~= attrs@);
        TableAttr { table_name: table, schema }
    }
}

/// The first string literal among a `sql_column(...)` argument list, if any.
pub open spec fn first_str(es: Seq<Option<String>>) -> Option<Seq<char>>
    decreases es.len(),
{
    if es.len() == 0 {
        None
    } else {
        match es[0] {
            Some(s) => Some(s@),
            None => first_str(es.drop_first()),
        }
    }
}

/// The value read from attributes named `name` whose first string-literal argument names
/// a column; a later such attribute overrides an earlier one.
pub open spec fn read_str_attrs(attrs: Seq<AttrInput>, name: Seq<char>) -> Option<Seq<char>>
    decreases attrs.len(),
{
    if attrs.len() == 0 {
        None
    } else {
        let before = read_str_attrs(attrs.drop_last(), name);
        let a = attrs.last();
        if a.path@ == name && a.exprs is Some && first_str(a.exprs->Some_0@) is Some {
            first_str(a.exprs->Some_0@)
        } else {
            before
        }
    }
}

/// Read the first string-literal argument of the attributes named `name`.
pub fn str_from_attrs(attrs: &Vec<AttrInput>, attr_name: &str) -> (r: Option<String>)
    ensures
        opt_text(r) == read_str_attrs(attrs@, attr_name@),
{
    let mut value: Option<String> = None;
    let mut i: usize = 0;
    while i < attrs.len()
        invariant
            i <= attrs@.len(),
            opt_text(value) == read_str_attrs(attrs@.take(i as int), attr_name@),
        decreases attrs@.len() - i,
    {
        assert(attrs@.take(i as int + 1).drop_last() =~= attrs@.take(i as int));
        let a = &attrs[i];
        if is_named(a, attr_name) {
            match &a.exprs {
                Some(es) => match first_str_exec(es) {
                    Some(s) => value = Some(s),
                    None => {},
                },
                None => {},
            }
        }
        i = i + 1;
    }
    assert(attrs@.take(attrs@.len() as int) =~= attrs@);
    value
}

fn first_str_exec(es: &Vec<Option<String>>) -> (r: Option<String>)
    ensures
        opt_text(r) == first_str(es@),
{
    let mut i: usize = 0;
    assert(es@.skip(0) =~= es@);
    while i < es.len()
        invariant
            i <= es@.len(),
            first_str(es@) == first_str(es@.skip(i as int)),
        decreases es@.len() - i,
    {
        assert(es@.skip(i as int)[0] == es@[i as int]);
        assert(es@.skip(i as int).drop_first() =~= es@.skip(i as int + 1));
        match &es[i] {
            Some(s) => return Some(s.clone()),
            None => {},
        }
        i = i + 1;
    }
    None
}

impl ColumnAttr {
    /// Read `#[sql_column("ColName")]` attributes: the first string-literal argument names
    /// the column; a later attribute with one overrides an earlier one.
    pub fn from_attrs(attrs: &Vec<AttrInput>) -> (r: ColumnAttr)
        ensures
            opt_text(r.column_name) == read_str_attrs(attrs@, "sql_column"@),
    {
        ColumnAttr { column_name: str_from_attrs(attrs, "sql_column") }
    }
}

/// Some attribute is named `name`.
pub open spec fn has_attr(attrs: Seq<AttrInput>, name: Seq<char>) -> bool {
    exists|i: int| 0 <= i < attrs.len() && (#[trigger] attrs[i]).path@ == name
}

/// Some `sql_primary_key` attribute lists `identity` among its nested items.
pub open spec fn has_identity(attrs: Seq<AttrInput>) -> bool {
    exists|i: int, j: int| 0 <= i < attrs.len() && (#[trigger] attrs[i]).path@ == "sql_primary_key"@
        && 0 <= j < attrs[i].metas@.len() && (#[trigger] attrs[i].metas@[j])@ == "identity"@
}

pub fn any_named(attrs: &Vec<AttrInput>, name: &str) -> (b: bool)
    ensures
        b == has_attr(attrs@, name@),
{
    let mut i: usize = 0;
    while i < attrs.len()
        invariant
            i <= attrs@.len(),
            forall|k: int| 0 <= k < i ==> (#[trigger] attrs@[k]).path@ != name@,
        decreases attrs@.len() - i,
    {
        if is_named(&attrs[i], name) {
            return true;
        }
        i = i + 1;
    }
    false
}

impl PkAttr {
    /// Read `#[sql_primary_key(identity)]`: the key is an identity column when some
    /// `sql_primary_key` attribute lists `identity`.
    pub fn from_attrs(attrs: &Vec<AttrInput>) -> (r: PkAttr)
        ensures
            r.is_identity == has_identity(attrs@),
    {
        let mut i: usize = 0;
        while i < attrs.len()
            invariant
                i <= attrs@.len(),
                forall|k: int, j: int| 0 <= k < i && (#[trigger] attrs@[k]).path@ == "sql_primary_key"@
                    && 0 <= j < attrs@[k].metas@.len() ==> (#[trigger] attrs@[k].metas@[j])@ != "identity"@,
            decreases attrs@.len() - i,
        {
            let a = &attrs[i];
            if is_named(a, "sql_primary_key") {
                let mut j: usize = 0;
                while j < a.metas.len()
                    invariant
                        i < attrs@.len(),
                        *a == attrs@[i as int],
                        a.path@ == "sql_primary_key"@,
                        j <= a.metas@.len(),
                        forall|m: int| 0 <= m < j ==> (#[trigger] a.metas@[m])@ != "identity"@,
                    decreases a.metas@.len() - j,
                {
                    if str_eq(a.metas[j].as_str(), "identity") {
                        assert(attrs@[i as int].metas@[j as int]@ == "identity"@);
                        assert(has_identity(attrs@));
                        return PkAttr { is_identity: true };
                    }
                    j = j + 1;
                }
            }
            i = i + 1;
        }
        PkAttr { is_identity: false }
    }
}

impl IgnoreAttr {
    /// `#[sql_ignore]` is present.
    pub fn from_attrs(attrs: &Vec<AttrInput>) -> (r: IgnoreAttr)
        ensures
            r.ignore == has_attr(attrs@, "sql_ignore"@),
    {
        IgnoreAttr { ignore: any_named(attrs, "sql_ignore") }
    }
}

impl ComputedAttr {
    /// `#[sql_computed]` is present.
    pub fn from_attrs(attrs: &Vec<AttrInput>) -> (r: ComputedAttr)
        ensures
            r.is_computed == has_attr(attrs@, "sql_computed"@),
    {
        ComputedAttr { is_computed: any_named(attrs, "sql_computed") }
    }
}

impl ServerDefaultAttr {
    /// `#[sql_default]` is present.
    pub fn from_attrs(attrs: &Vec<AttrInput>) -> (r: ServerDefaultAttr)
        ensures
            r.is_server_default == has_attr(attrs@, "sql_default"@),
    {
        ServerDefaultAttr { is_server_default: any_named(attrs, "sql_default") }
    }
}

} // verus!
