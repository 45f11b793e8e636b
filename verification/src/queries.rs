//! The SQL synthesizer and method binder: per operation family, the
//! canonical statement text, the ordered positional parameter list, and
//! the return-shape policy of each generated accessor.

use vstd::prelude::*;
use vstd::string::StringExecFns;

use crate::catalog::build_catalog;
use crate::catalog::spec_catalog;
use crate::catalog::FieldSpec;
use crate::catalog::FieldSpecView;
use crate::catalog::TypeDef;
use crate::catalog::TypeDefView;
use crate::directives::parse_table_directives;
use crate::directives::spec_table_dirs;
use crate::directives::TableDirectivesView;
use crate::errors::GenError;
use crate::errors::GenErrorView;
use crate::parser::MethodSpecView;
use crate::render::columns_sql;
use crate::render::delete_stmt;
use crate::render::numbered_join;
use crate::render::render_columns;
use crate::render::render_numbered;
use crate::render::render_table_name;
use crate::render::select_stmt;
use crate::render::stmt_delete;
use crate::render::stmt_select;
use crate::render::table_name_of;
use crate::strutil::clone_strings;
use crate::strutil::str_eq;

verus! {

broadcast use vstd::std_specs::vec::axiom_spec_len;

/// The operation family of one synthesized query.
#[derive(Clone, Copy, Debug, PartialEq, Eq, Structural)]
pub enum OpKind {
    Select,
    SelectMany,
    SelectAll,
    Insert,
    InsertMany,
    Update,
    Delete,
}

/// A role tag: which filter group a field belongs to.
#[derive(Clone, Copy, Debug, PartialEq, Eq, Structural)]
pub enum Role {
    Select,
    SelectMany,
    Update,
    Delete,
}

/// Whether the catalog entry `f` carries role `r`.
pub open spec fn has_role(f: FieldSpecView, r: Role) -> bool {
    match r {
        Role::Select => f.roles.select,
        Role::SelectMany => f.roles.select_many,
        Role::Update => f.roles.update,
        Role::Delete => f.roles.delete,
    }
}

fn has_role_x(f: &FieldSpec, r: Role) -> (b: bool)
    ensures
        b == has_role(f.deep_view(), r),
{
    match r {
        Role::Select => f.roles.select,
        Role::SelectMany => f.roles.select_many,
        Role::Update => f.roles.update,
        Role::Delete => f.roles.delete,
    }
}

/// The result shape an accessor hands its caller.
#[derive(Debug)]
pub enum ReturnShape {
    /// An optional single decoded row.
    OptionalRow,
    /// An ordered row collection.
    Rows,
    /// A generic affected-row summary.
    Affected,
    /// A single decoded row of the named override type.
    Row(String),
    /// No value: side effects only.
    Nothing,
}

/// The mathematical shape of a [`ReturnShape`].
pub enum ReturnShapeView {
    OptionalRow,
    Rows,
    Affected,
    Row(Seq<char>),
    Nothing,
}

impl DeepView for ReturnShape {
    type V = ReturnShapeView;

    open spec fn deep_view(&self) -> ReturnShapeView {
        match self {
            ReturnShape::OptionalRow => ReturnShapeView::OptionalRow,
            ReturnShape::Rows => ReturnShapeView::Rows,
            ReturnShape::Affected => ReturnShapeView::Affected,
            ReturnShape::Row(t) => ReturnShapeView::Row(t@),
            ReturnShape::Nothing => ReturnShapeView::Nothing,
        }
    }
}

/// One accessor parameter: a field name and the rendered text of its type.
#[derive(Debug)]
pub struct Param {
    pub name: String,
    pub ty: String,
}

/// The mathematical shape of a [`Param`].
pub struct ParamView {
    pub name: Seq<char>,
    pub ty: Seq<char>,
}

impl DeepView for Param {
    type V = ParamView;

    open spec fn deep_view(&self) -> ParamView {
        ParamView { name: self.name@, ty: self.ty@ }
    }
}

/// One synthesized query: its family, its SQL text, its ordered parameter
/// list and its return shape.
#[derive(Debug)]
pub struct QuerySpec {
    pub kind: OpKind,
    pub sql: String,
    pub params: Vec<Param>,
    pub shape: ReturnShape,
}

/// The mathematical shape of a [`QuerySpec`].
pub struct QuerySpecView {
    pub kind: OpKind,
    pub sql: Seq<char>,
    pub params: Seq<ParamView>,
    pub shape: ReturnShapeView,
}

impl DeepView for QuerySpec {
    type V = QuerySpecView;

    open spec fn deep_view(&self) -> QuerySpecView {
        QuerySpecView {
            kind: self.kind,
            sql: self.sql@,
            params: self.params.deep_view(),
            shape: self.shape.deep_view(),
        }
    }
}

/// A named accessor bound to one synthesized query.
#[derive(Debug)]
pub struct Accessor {
    pub name: String,
    pub query: QuerySpec,
}

/// The mathematical shape of an [`Accessor`].
pub struct AccessorView {
    pub name: Seq<char>,
    pub query: QuerySpecView,
}

impl DeepView for Accessor {
    type V = AccessorView;

    open spec fn deep_view(&self) -> AccessorView {
        AccessorView { name: self.name@, query: self.query.deep_view() }
    }
}

/// The field names of the catalog entries, in order.
pub open spec fn names_of(fs: Seq<FieldSpecView>) -> Seq<Seq<char>> {
    Seq::new(fs.len(), |i: int| fs[i].name)
}

/// The accessor parameters of the catalog entries, in order.
pub open spec fn params_of(fs: Seq<FieldSpecView>) -> Seq<ParamView> {
    Seq::new(fs.len(), |i: int| ParamView { name: fs[i].name, ty: fs[i].ty })
}

/// The first catalog entry named `n`, scanning from `i`.
pub open spec fn find_field(c: Seq<FieldSpecView>, n: Seq<char>, i: int) -> Option<FieldSpecView>
    decreases c.len() - i,
{
    if i < c.len() {
        if c[i].name == n {
            Some(c[i])
        } else {
            find_field(c, n, i + 1)
        }
    } else {
        None
    }
}

/// The catalog entries for the names of a custom method spec, in the order
/// the spec gives them; names absent from the catalog are dropped.
pub open spec fn resolve_fields(c: Seq<FieldSpecView>, names: Seq<Seq<char>>, i: int) -> Seq<
    FieldSpecView,
>
    decreases names.len() - i,
{
    if i < names.len() {
        match find_field(c, names[i], 0) {
            Some(f) => seq![f] + resolve_fields(c, names, i + 1),
            None => resolve_fields(c, names, i + 1),
        }
    } else {
        seq![]
    }
}

/// The role whose fields filter the given family.
pub open spec fn role_for(kind: OpKind) -> Role {
    match kind {
        OpKind::SelectMany => Role::SelectMany,
        OpKind::Delete => Role::Delete,
        _ => Role::Select,
    }
}

/// The name prefix of the family's per-field auto accessors.
pub open spec fn auto_prefix(kind: OpKind) -> Seq<char> {
    match kind {
        OpKind::SelectMany => "select_many_by_"@,
        OpKind::Delete => "delete_by_"@,
        _ => "select_by_"@,
    }
}

/// The custom method specs the directives carry for the given family.
pub open spec fn family_methods(kind: OpKind, d: TableDirectivesView) -> Seq<MethodSpecView> {
    match kind {
        OpKind::SelectMany => d.select_manys,
        OpKind::Delete => d.deletes,
        _ => d.selects,
    }
}

/// The return shape of the family's accessors.
pub open spec fn filter_shape(kind: OpKind) -> ReturnShapeView {
    match kind {
        OpKind::SelectMany => ReturnShapeView::Rows,
        OpKind::Delete => ReturnShapeView::Affected,
        _ => ReturnShapeView::OptionalRow,
    }
}

/// The family's statement around a rendered filter list.
pub open spec fn filter_stmt(kind: OpKind, cols: Seq<char>, table: Seq<char>, filt: Seq<char>) -> Seq<
    char,
> {
    match kind {
        OpKind::Delete => delete_stmt(table, filt),
        _ => select_stmt(cols, table, filt),
    }
}

/// One filter-family accessor: the given fields rendered `name=$i` from 1,
/// ANDed, with the family's statement, parameters and shape.
pub open spec fn filter_accessor(
    kind: OpKind,
    cols: Seq<char>,
    table: Seq<char>,
    fs: Seq<FieldSpecView>,
    name: Seq<char>,
) -> AccessorView {
    AccessorView {
        name,
        query: QuerySpecView {
            kind,
            sql: filter_stmt(kind, cols, table, numbered_join(names_of(fs), 1, " AND "@)),
            params: params_of(fs),
            shape: filter_shape(kind),
        },
    }
}

/// The family's per-field auto accessors, one per role-tagged catalog
/// entry from position `j` on.
pub open spec fn auto_accessors(
    kind: OpKind,
    cols: Seq<char>,
    table: Seq<char>,
    c: Seq<FieldSpecView>,
    j: int,
) -> Seq<AccessorView>
    decreases c.len() - j,
{
    if j < c.len() {
        if has_role(c[j], role_for(kind)) {
            seq![filter_accessor(kind, cols, table, seq![c[j]], auto_prefix(kind) + c[j].name)]
                + auto_accessors(kind, cols, table, c, j + 1)
        } else {
            auto_accessors(kind, cols, table, c, j + 1)
        }
    } else {
        seq![]
    }
}

/// The family's custom accessors from method spec `i` on: each spec's
/// fields resolved against the catalog in the spec's own order, or the
/// failure naming the first spec whose fields all miss.
pub open spec fn custom_accessors(
    kind: OpKind,
    cols: Seq<char>,
    table: Seq<char>,
    c: Seq<FieldSpecView>,
    ms: Seq<MethodSpecView>,
    i: int,
) -> Result<Seq<AccessorView>, GenErrorView>
    decreases ms.len() - i,
{
    if i < ms.len() {
        let resolved = resolve_fields(c, ms[i].fields, 0);
        if resolved.len() == 0 {
            Err(GenErrorView::UnresolvedMethod(ms[i].name, ms[i].fields))
        } else {
            match custom_accessors(kind, cols, table, c, ms, i + 1) {
                Err(e) => Err(e),
                Ok(rest) => Ok(
                    seq![filter_accessor(kind, cols, table, resolved, ms[i].name)] + rest,
                ),
            }
        }
    } else {
        Ok(seq![])
    }
}

/// What generating one filter family (single-row select, multi-row select
/// or delete) yields for a type: its auto accessors in declaration order
/// followed by its custom accessors in directive order, or the first
/// failure of the pass.
pub open spec fn spec_filter_family(t: TypeDefView, kind: OpKind) -> Result<
    Seq<AccessorView>,
    GenErrorView,
> {
    match spec_table_dirs(t.attrs) {
        Err(e) => Err(e),
        Ok(d) => match spec_catalog(t.fields) {
            Err(e) => Err(e),
            Ok(c) => {
                let table = table_name_of(d.name, t.name);
                let cols = columns_sql(c);
                match custom_accessors(kind, cols, table, c, family_methods(kind, d), 0) {
                    Err(e) => Err(e),
                    Ok(cust) => Ok(auto_accessors(kind, cols, table, c, 0) + cust),
                }
            },
        },
    }
}

/// Copies a catalog entry.
fn dup_field(f: &FieldSpec) -> (r: FieldSpec)
    ensures
        r.deep_view() == f.deep_view(),
{
    FieldSpec {
        name: f.name.clone(),
        ty: f.ty.clone(),
        alias: match &f.alias {
            Some(a) => Some(a.clone()),
            None => None,
        },
        roles: f.roles,
    }
}

/// The field names of catalog entries, copied out in order.
#[verifier::loop_isolation(false)]
fn names_of_x(fs: &Vec<FieldSpec>) -> (r: Vec<String>)
    ensures
        r.deep_view() == names_of(fs.deep_view()),
{
    let mut out: Vec<String> = Vec::new();
    let n = fs.len();
    let mut i: usize = 0;
    while i < n
        invariant
            i <= n,
            out.deep_view() == names_of(fs.deep_view()).take(i as int),
        decreases n - i,
    {
        let ghost prior = out.deep_view();
        out.push(fs[i].name.clone());
        proof {
            assert(out.deep_view() =~= prior.push(fs.deep_view()[i as int].name));
            assert(prior.push(fs.deep_view()[i as int].name) =~= names_of(fs.deep_view()).take(
                i + 1,
            ));
        }
        i += 1;
    }
    proof {
        assert(names_of(fs.deep_view()).take(n as int) =~= names_of(fs.deep_view()));
    }
    out
}

/// The accessor parameters of catalog entries, copied out in order.
#[verifier::loop_isolation(false)]
fn params_of_x(fs: &Vec<FieldSpec>) -> (r: Vec<Param>)
    ensures
        r.deep_view() == params_of(fs.deep_view()),
{
    let mut out: Vec<Param> = Vec::new();
    let n = fs.len();
    let mut i: usize = 0;
    while i < n
        invariant
            i <= n,
            out.deep_view() == params_of(fs.deep_view()).take(i as int),
        decreases n - i,
    {
        let ghost prior = out.deep_view();
        out.push(Param { name: fs[i].name.clone(), ty: fs[i].ty.clone() });
        proof {
            assert(out.deep_view() =~= prior.push(params_of(fs.deep_view())[i as int]));
            assert(prior.push(params_of(fs.deep_view())[i as int]) =~= params_of(
                fs.deep_view(),
            ).take(i + 1));
        }
        i += 1;
    }
    proof {
        assert(params_of(fs.deep_view()).take(n as int) =~= params_of(fs.deep_view()));
    }
    out
}

/// Looks a field up by name, first catalog match.
#[verifier::loop_isolation(false)]
fn find_field_x(c: &Vec<FieldSpec>, n: &str) -> (r: Option<FieldSpec>)
    ensures
        match r {
            Some(f) => find_field(c.deep_view(), n@, 0) == Some(f.deep_view()),
            None => find_field(c.deep_view(), n@, 0) is None,
        },
{
    let len = c.len();
    let mut i: usize = 0;
    while i < len
        invariant
            i <= len,
            find_field(c.deep_view(), n@, 0) == find_field(c.deep_view(), n@, i as int),
        decreases len - i,
    {
        if str_eq(c[i].name.as_str(), n) {
            return Some(dup_field(&c[i]));
        }
        i += 1;
    }
    None
}

/// Resolves a custom method spec's names against the catalog, keeping the
/// spec's order and dropping names the catalog lacks.
#[verifier::loop_isolation(false)]
fn resolve_fields_x(c: &Vec<FieldSpec>, names: &Vec<String>) -> (r: Vec<FieldSpec>)
    ensures
        r.deep_view() == resolve_fields(c.deep_view(), names.deep_view(), 0),
{
    let mut out: Vec<FieldSpec> = Vec::new();
    let n = names.len();
    let mut i: usize = 0;
    while i < n
        invariant
            i <= n,
            resolve_fields(c.deep_view(), names.deep_view(), 0) == out.deep_view()
                + resolve_fields(c.deep_view(), names.deep_view(), i as int),
        decreases n - i,
    {
        let ghost prior = out.deep_view();
        match find_field_x(c, names[i].as_str()) {
            Some(f) => {
                let ghost fv = f.deep_view();
                out.push(f);
                proof {
                    assert(out.deep_view() =~= prior.push(fv));
                    assert(prior.push(fv) =~= prior + seq![fv]);
                    assert(prior + seq![fv] + resolve_fields(
                        c.deep_view(),
                        names.deep_view(),
                        i + 1,
                    ) =~= prior + (seq![fv] + resolve_fields(c.deep_view(), names.deep_view(), i + 1)));
                }
            },
            None => {},
        }
        i += 1;
    }
    proof {
        assert(out.deep_view() + resolve_fields(c.deep_view(), names.deep_view(), n as int)
            =~= out.deep_view());
    }
    out
}

/// Builds one filter-family accessor for the given fields.
fn filter_accessor_x(
    kind: OpKind,
    cols: &str,
    table: &str,
    fs: &Vec<FieldSpec>,
    name: String,
) -> (r: Accessor)
    ensures
        r.deep_view() == filter_accessor(kind, cols@, table@, fs.deep_view(), name@),
{
    let names = names_of_x(fs);
    proof {
        assert(names.len() == names@.len());
    }
    let filt = render_numbered(&names, 1, " AND ");
    let sql = match kind {
        OpKind::Delete => stmt_delete(table, filt.as_str()),
        _ => stmt_select(cols, table, filt.as_str()),
    };
    let shape = match kind {
        OpKind::SelectMany => ReturnShape::Rows,
        OpKind::Delete => ReturnShape::Affected,
        _ => ReturnShape::OptionalRow,
    };
    Accessor { name, query: QuerySpec { kind, sql, params: params_of_x(fs), shape } }
}

#[verifier::loop_isolation(false)]
fn filter_family_x(t: &TypeDef, kind: OpKind) -> (r: Result<Vec<Accessor>, GenError>)
    ensures
        match r {
            Ok(v) => spec_filter_family(t.deep_view(), kind) == Ok::<
                Seq<AccessorView>,
                GenErrorView,
            >(v.deep_view()),
            Err(e) => spec_filter_family(t.deep_view(), kind) == Err::<
                Seq<AccessorView>,
                GenErrorView,
            >(e.deep_view()),
        },
{
    let d = match parse_table_directives(&t.attrs) {
        Ok(d) => d,
        Err(e) => {
            return Err(e);
        },
    };
    let c = match build_catalog(&t.fields) {
        Ok(c) => c,
        Err(e) => {
            return Err(e);
        },
    };
    let table = render_table_name(&d.name, t.name.as_str());
    let cols = render_columns(&c);
    let ghost cv = c.deep_view();
    let ghost tablev = table@;
    let ghost colsv = cols@;

    let mut out: Vec<Accessor> = Vec::new();
    let n = c.len();
    let mut j: usize = 0;
    while j < n
        invariant
            j <= n,
            n == c@.len(),
            auto_accessors(kind, colsv, tablev, cv, 0) == out.deep_view() + auto_accessors(
                kind,
                colsv,
                tablev,
                cv,
                j as int,
            ),
        decreases n - j,
    {
        let ghost prior = out.deep_view();
        if has_role_x(&c[j], match kind {
            OpKind::SelectMany => Role::SelectMany,
            OpKind::Delete => Role::Delete,
            _ => Role::Select,
        }) {
            proof {
                assert(has_role(cv[j as int], role_for(kind)));
            }
            let mut name = String::from_str(match kind {
                OpKind::SelectMany => "select_many_by_",
                OpKind::Delete => "delete_by_",
                _ => "select_by_",
            });
            name.append(c[j].name.as_str());
            let mut single: Vec<FieldSpec> = Vec::new();
            single.push(dup_field(&c[j]));
            proof {
                assert(single.deep_view() =~= seq![cv[j as int]]);
                assert(name@ == auto_prefix(kind) + cv[j as int].name);
            }
            let acc = filter_accessor_x(kind, cols.as_str(), table.as_str(), &single, name);
            let ghost accv = acc.deep_view();
            out.push(acc);
            proof {
                assert(out.deep_view() =~= prior.push(accv));
                assert(prior.push(accv) =~= prior + seq![accv]);
                assert(prior + seq![accv] + auto_accessors(kind, colsv, tablev, cv, j + 1) =~= prior
                    + (seq![accv] + auto_accessors(kind, colsv, tablev, cv, j + 1)));
            }
        } else {
            proof {
                assert(!has_role(cv[j as int], role_for(kind)));
            }
        }
        j += 1;
    }
    proof {
        assert(out.deep_view() + auto_accessors(kind, colsv, tablev, cv, n as int)
            =~= out.deep_view());
    }

    let ms = match kind {
        OpKind::SelectMany => &d.select_manys,
        OpKind::Delete => &d.deletes,
        _ => &d.selects,
    };
    let ghost msv = ms.deep_view();
    proof {
        assert(msv == family_methods(kind, spec_table_dirs(t.deep_view().attrs)->Ok_0));
    }
    let m = ms.len();
    let mut i: usize = 0;
    let mut cust: Vec<Accessor> = Vec::new();
    while i < m
        invariant
            i <= m,
            m == ms@.len(),
            custom_accessors(kind, colsv, tablev, cv, msv, 0) == (match custom_accessors(
                kind,
                colsv,
                tablev,
                cv,
                msv,
                i as int,
            ) {
                Ok(rest) => Ok::<Seq<AccessorView>, GenErrorView>(cust.deep_view() + rest),
                Err(e) => Err::<Seq<AccessorView>, GenErrorView>(e),
            }),
        decreases m - i,
    {
        let ghost prior = cust.deep_view();
        let spec = &ms[i];
        let resolved = resolve_fields_x(&c, &spec.fields);
        if resolved.len() == 0 {
            return Err(GenError::UnresolvedMethod(spec.name.clone(), clone_strings(&spec.fields)));
        }
        let acc = filter_accessor_x(kind, cols.as_str(), table.as_str(), &resolved, spec.name.clone());
        let ghost accv = acc.deep_view();
        cust.push(acc);
        proof {
            assert(cust.deep_view() =~= prior.push(accv));
            assert(prior.push(accv) =~= prior + seq![accv]);
            if custom_accessors(kind, colsv, tablev, cv, msv, i + 1) is Ok {
                let rest = custom_accessors(kind, colsv, tablev, cv, msv, i + 1)->Ok_0;
                assert(prior + seq![accv] + rest =~= prior + (seq![accv] + rest));
            }
        }
        i += 1;
    }
    proof {
        assert(cust.deep_view() + Seq::<AccessorView>::empty() =~= cust.deep_view());
    }
    let mut all = out;
    let ghost autov = all.deep_view();
    let ghost custv = cust.deep_view();
    all.append(&mut cust);
    proof {
        assert(all.deep_view() =~= autov + custv);
    }
    Ok(all)
}

/// The catalog entries carrying role `r`, in declaration order, from
/// position `j` on.
pub open spec fn fields_with(c: Seq<FieldSpecView>, r: Role, j: int) -> Seq<FieldSpecView>
    decreases c.len() - j,
{
    if j < c.len() {
        if has_role(c[j], r) {
            seq![c[j]] + fields_with(c, r, j + 1)
        } else {
            fields_with(c, r, j + 1)
        }
    } else {
        seq![]
    }
}

/// The catalog entries not carrying role `r`, in declaration order, from
/// position `j` on.
pub open spec fn fields_without(c: Seq<FieldSpecView>, r: Role, j: int) -> Seq<FieldSpecView>
    decreases c.len() - j,
{
    if j < c.len() {
        if has_role(c[j], r) {
            fields_without(c, r, j + 1)
        } else {
            seq![c[j]] + fields_without(c, r, j + 1)
        }
    } else {
        seq![]
    }
}

/// The fragment a `spec_columns` directive appends to the SET list.
pub open spec fn spec_columns_suffix(sc: Option<Seq<char>>) -> Seq<char> {
    match sc {
        Some(s) => ", "@ + s,
        None => Seq::empty(),
    }
}

/// Binds an insert or update statement to its accessor: with a
/// `return_type` directive the statement gains a RETURNING clause and the
/// accessor decodes a single row of the override type; without one it
/// returns an affected-row summary.
pub open spec fn returning_accessor(
    kind: OpKind,
    name: Seq<char>,
    base: Seq<char>,
    params: Seq<ParamView>,
    d: TableDirectivesView,
) -> AccessorView {
    match d.return_type {
        Some(rt) => AccessorView {
            name,
            query: QuerySpecView {
                kind,
                sql: base + crate::render::returning_clause(d.return_fields),
                params,
                shape: ReturnShapeView::Row(rt),
            },
        },
        None => AccessorView {
            name,
            query: QuerySpecView { kind, sql: base, params, shape: ReturnShapeView::Affected },
        },
    }
}

/// What generating the full-table select yields: `SELECT <columns> FROM
/// <table>`, no parameters, an ordered row collection.
pub open spec fn spec_select_all(t: TypeDefView) -> Result<AccessorView, GenErrorView> {
    match spec_table_dirs(t.attrs) {
        Err(e) => Err(e),
        Ok(d) => match spec_catalog(t.fields) {
            Err(e) => Err(e),
            Ok(c) => Ok(
                AccessorView {
                    name: "select_all"@,
                    query: QuerySpecView {
                        kind: OpKind::SelectAll,
                        sql: crate::render::select_all_stmt(
                            columns_sql(c),
                            table_name_of(d.name, t.name),
                        ),
                        params: Seq::empty(),
                        shape: ReturnShapeView::Rows,
                    },
                },
            ),
        },
    }
}

/// What generating the single-row insert yields: all fields as values in
/// declaration order, numbered from 1, with the return-shape override of
/// `return_type`/`return_fields`; a record without fields is refused.
pub open spec fn spec_insert(t: TypeDefView) -> Result<AccessorView, GenErrorView> {
    match spec_table_dirs(t.attrs) {
        Err(e) => Err(e),
        Ok(d) => match spec_catalog(t.fields) {
            Err(e) => Err(e),
            Ok(c) => if c.len() == 0 {
                Err(GenErrorView::EmptyFields)
            } else {
                Ok(
                    returning_accessor(
                        OpKind::Insert,
                        "insert"@,
                        crate::render::insert_stmt(
                            table_name_of(d.name, t.name),
                            columns_sql(c),
                            c.len() as int,
                        ),
                        params_of(c),
                        d,
                    ),
                )
            },
        },
    }
}

/// What generating the batch insert yields: the per-row statement
/// `INSERT ... RETURNING *`, bound positionally from each row's fields,
/// with no return value; the `return_type` override is not supported.
pub open spec fn spec_insert_many(t: TypeDefView) -> Result<AccessorView, GenErrorView> {
    match spec_table_dirs(t.attrs) {
        Err(e) => Err(e),
        Ok(d) => match spec_catalog(t.fields) {
            Err(e) => Err(e),
            Ok(c) => if c.len() == 0 {
                Err(GenErrorView::EmptyFields)
            } else {
                let base = crate::render::insert_stmt(
                    table_name_of(d.name, t.name),
                    columns_sql(c),
                    c.len() as int,
                );
                Ok(
                    AccessorView {
                        name: "insert_many"@,
                        query: QuerySpecView {
                            kind: OpKind::InsertMany,
                            sql: base + crate::render::returning_clause(None),
                            params: params_of(c),
                            shape: ReturnShapeView::Nothing,
                        },
                    },
                )
            },
        },
    }
}

/// What generating the update yields: SET lists every field without the
/// update role, numbered from 1 in declaration order, with the
/// `spec_columns` fragment appended verbatim; WHERE lists the update-role
/// fields, numbered on from the SET count; the return shape follows
/// `return_type`/`return_fields` as for insert.
pub open spec fn spec_update(t: TypeDefView) -> Result<AccessorView, GenErrorView> {
    match spec_table_dirs(t.attrs) {
        Err(e) => Err(e),
        Ok(d) => match spec_catalog(t.fields) {
            Err(e) => Err(e),
            Ok(c) => {
                let sets = fields_without(c, Role::Update, 0);
                let wheres = fields_with(c, Role::Update, 0);
                let set_text = numbered_join(names_of(sets), 1, ", "@) + spec_columns_suffix(
                    d.spec_columns,
                );
                let where_text = numbered_join(
                    names_of(wheres),
                    sets.len() as int + 1,
                    " AND "@,
                );
                Ok(
                    returning_accessor(
                        OpKind::Update,
                        "update"@,
                        crate::render::update_stmt(
                            table_name_of(d.name, t.name),
                            set_text,
                            where_text,
                        ),
                        params_of(sets) + params_of(wheres),
                        d,
                    ),
                )
            },
        },
    }
}

/// The reflective descriptor of an annotated type.
pub struct TableDescriptor {
    /// The resolved table name.
    pub name: String,
    /// The field names in declaration order.
    pub fields: Vec<String>,
    /// The aliased SQL column list, one entry per field.
    pub sql_columns: Vec<String>,
}

/// The mathematical shape of a [`TableDescriptor`].
pub struct TableDescriptorView {
    pub name: Seq<char>,
    pub fields: Seq<Seq<char>>,
    pub sql_columns: Seq<Seq<char>>,
}

impl DeepView for TableDescriptor {
    type V = TableDescriptorView;

    open spec fn deep_view(&self) -> TableDescriptorView {
        TableDescriptorView {
            name: self.name@,
            fields: self.fields.deep_view(),
            sql_columns: self.sql_columns.deep_view(),
        }
    }
}

/// What the descriptor pass yields: the table name, the field-name list
/// and the per-field column texts.
pub open spec fn spec_descriptor(t: TypeDefView) -> Result<TableDescriptorView, GenErrorView> {
    match spec_table_dirs(t.attrs) {
        Err(e) => Err(e),
        Ok(d) => match spec_catalog(t.fields) {
            Err(e) => Err(e),
            Ok(c) => Ok(
                TableDescriptorView {
                    name: table_name_of(d.name, t.name),
                    fields: names_of(c),
                    sql_columns: crate::render::column_parts(c),
                },
            ),
        },
    }
}

/// Splits the catalog into the entries without and with the update role,
/// both in declaration order.
#[verifier::loop_isolation(false)]
fn partition_update_x(c: &Vec<FieldSpec>) -> (r: (Vec<FieldSpec>, Vec<FieldSpec>))
    ensures
        r.0.deep_view() == fields_without(c.deep_view(), Role::Update, 0),
        r.1.deep_view() == fields_with(c.deep_view(), Role::Update, 0),
        r.0@.len() + r.1@.len() == c@.len(),
{
    let mut sets: Vec<FieldSpec> = Vec::new();
    let mut wheres: Vec<FieldSpec> = Vec::new();
    let n = c.len();
    let mut j: usize = 0;
    while j < n
        invariant
            j <= n,
            n == c@.len(),
            sets@.len() + wheres@.len() == j,
            fields_without(c.deep_view(), Role::Update, 0) == sets.deep_view() + fields_without(
                c.deep_view(),
                Role::Update,
                j as int,
            ),
            fields_with(c.deep_view(), Role::Update, 0) == wheres.deep_view() + fields_with(
                c.deep_view(),
                Role::Update,
                j as int,
            ),
        decreases n - j,
    {
        let f = dup_field(&c[j]);
        let ghost fv = f.deep_view();
        if c[j].roles.update {
            let ghost prior = wheres.deep_view();
            wheres.push(f);
            proof {
                assert(wheres.deep_view() =~= prior + seq![fv]);
                assert(prior + seq![fv] + fields_with(c.deep_view(), Role::Update, j + 1) =~= prior
                    + (seq![fv] + fields_with(c.deep_view(), Role::Update, j + 1)));
            }
        } else {
            let ghost prior = sets.deep_view();
            sets.push(f);
            proof {
                assert(sets.deep_view() =~= prior + seq![fv]);
                assert(prior + seq![fv] + fields_without(c.deep_view(), Role::Update, j + 1)
                    =~= prior + (seq![fv] + fields_without(c.deep_view(), Role::Update, j + 1)));
            }
        }
        j += 1;
    }
    proof {
        assert(sets.deep_view() + Seq::<FieldSpecView>::empty() =~= sets.deep_view());
        assert(wheres.deep_view() + Seq::<FieldSpecView>::empty() =~= wheres.deep_view());
    }
    (sets, wheres)
}

/// Generates the full-table select accessor `select_all`.
pub fn generate_select_all(t: &TypeDef) -> (r: Result<Accessor, GenError>)
    ensures
        match r {
            Ok(a) => spec_select_all(t.deep_view()) == Ok::<AccessorView, GenErrorView>(
                a.deep_view(),
            ),
            Err(e) => spec_select_all(t.deep_view()) == Err::<AccessorView, GenErrorView>(
                e.deep_view(),
            ),
        },
{
    let d = match parse_table_directives(&t.attrs) {
        Ok(d) => d,
        Err(e) => {
            return Err(e);
        },
    };
    let c = match build_catalog(&t.fields) {
        Ok(c) => c,
        Err(e) => {
            return Err(e);
        },
    };
    let table = render_table_name(&d.name, t.name.as_str());
    let cols = render_columns(&c);
    let sql = crate::render::stmt_select_all(cols.as_str(), table.as_str());
    let params: Vec<Param> = Vec::new();
    proof {
        assert(params.deep_view() =~= Seq::<ParamView>::empty());
    }
    Ok(
        Accessor {
            name: String::from_str("select_all"),
            query: QuerySpec { kind: OpKind::SelectAll, sql, params, shape: ReturnShape::Rows },
        },
    )
}

/// Generates the single-row insert accessor `insert`.
pub fn generate_insert(t: &TypeDef) -> (r: Result<Accessor, GenError>)
    ensures
        match r {
            Ok(a) => spec_insert(t.deep_view()) == Ok::<AccessorView, GenErrorView>(a.deep_view()),
            Err(e) => spec_insert(t.deep_view()) == Err::<AccessorView, GenErrorView>(
                e.deep_view(),
            ),
        },
{
    let d = match parse_table_directives(&t.attrs) {
        Ok(d) => d,
        Err(e) => {
            return Err(e);
        },
    };
    let c = match build_catalog(&t.fields) {
        Ok(c) => c,
        Err(e) => {
            return Err(e);
        },
    };
    if c.len() == 0 {
        return Err(GenError::EmptyFields);
    }
    let table = render_table_name(&d.name, t.name.as_str());
    let cols = render_columns(&c);
    let mut sql = crate::render::stmt_insert(table.as_str(), cols.as_str(), c.len());
    let shape = match &d.return_type {
        Some(rt) => {
            crate::render::append_returning(&mut sql, &d.return_fields);
            ReturnShape::Row(rt.clone())
        },
        None => ReturnShape::Affected,
    };
    Ok(
        Accessor {
            name: String::from_str("insert"),
            query: QuerySpec { kind: OpKind::Insert, sql, params: params_of_x(&c), shape },
        },
    )
}

/// Generates the batch insert accessor `insert_many`.
pub fn generate_insert_many(t: &TypeDef) -> (r: Result<Accessor, GenError>)
    ensures
        match r {
            Ok(a) => spec_insert_many(t.deep_view()) == Ok::<AccessorView, GenErrorView>(
                a.deep_view(),
            ),
            Err(e) => spec_insert_many(t.deep_view()) == Err::<AccessorView, GenErrorView>(
                e.deep_view(),
            ),
        },
{
    let d = match parse_table_directives(&t.attrs) {
        Ok(d) => d,
        Err(e) => {
            return Err(e);
        },
    };
    let c = match build_catalog(&t.fields) {
        Ok(c) => c,
        Err(e) => {
            return Err(e);
        },
    };
    if c.len() == 0 {
        return Err(GenError::EmptyFields);
    }
    let table = render_table_name(&d.name, t.name.as_str());
    let cols = render_columns(&c);
    let mut sql = crate::render::stmt_insert(table.as_str(), cols.as_str(), c.len());
    crate::render::append_returning(&mut sql, &None);
    Ok(
        Accessor {
            name: String::from_str("insert_many"),
            query: QuerySpec {
                kind: OpKind::InsertMany,
                sql,
                params: params_of_x(&c),
                shape: ReturnShape::Nothing,
            },
        },
    )
}

/// Generates the update accessor `update`.
pub fn generate_update(t: &TypeDef) -> (r: Result<Accessor, GenError>)
    ensures
        match r {
            Ok(a) => spec_update(t.deep_view()) == Ok::<AccessorView, GenErrorView>(a.deep_view()),
            Err(e) => spec_update(t.deep_view()) == Err::<AccessorView, GenErrorView>(
                e.deep_view(),
            ),
        },
{
    let d = match parse_table_directives(&t.attrs) {
        Ok(d) => d,
        Err(e) => {
            return Err(e);
        },
    };
    let c = match build_catalog(&t.fields) {
        Ok(c) => c,
        Err(e) => {
            return Err(e);
        },
    };
    let table = render_table_name(&d.name, t.name.as_str());
    let (sets, wheres) = partition_update_x(&c);
    let set_names = names_of_x(&sets);
    proof {
        assert(set_names.len() == set_names@.len());
    }
    let mut set_text = render_numbered(&set_names, 1, ", ");
    match &d.spec_columns {
        Some(sc) => {
            set_text.append(", ");
            set_text.append(sc.as_str());
        },
        None => {},
    }
    proof {
        assert(set_text@ =~= numbered_join(
            names_of(sets.deep_view()),
            1,
            ", "@,
        ) + spec_columns_suffix(d.deep_view().spec_columns));
    }
    let k = sets.len();
    let where_text = if wheres.len() == 0 {
        let s = String::new();
        proof {
            assert(names_of(wheres.deep_view()).len() == 0);
            assert(crate::render::numbered_parts(
                names_of(wheres.deep_view()),
                k as int + 1,
            ).len() == 0);
            assert(s@ =~= numbered_join(names_of(wheres.deep_view()), k as int + 1, " AND "@));
        }
        s
    } else {
        let where_names = names_of_x(&wheres);
        proof {
            assert(c.len() == c@.len());
            assert(wheres.len() == wheres@.len());
            assert(where_names.len() == where_names@.len());
        }
        render_numbered(&where_names, k + 1, " AND ")
    };
    let mut sql = crate::render::stmt_update(table.as_str(), set_text.as_str(), where_text.as_str());
    let shape = match &d.return_type {
        Some(rt) => {
            crate::render::append_returning(&mut sql, &d.return_fields);
            ReturnShape::Row(rt.clone())
        },
        None => ReturnShape::Affected,
    };
    let mut params = params_of_x(&sets);
    let mut wparams = params_of_x(&wheres);
    let ghost pv = params.deep_view();
    let ghost wv = wparams.deep_view();
    params.append(&mut wparams);
    proof {
        assert(params.deep_view() =~= pv + wv);
    }
    Ok(
        Accessor {
            name: String::from_str("update"),
            query: QuerySpec { kind: OpKind::Update, sql, params, shape },
        },
    )
}

/// Generates the reflective table descriptor.
#[verifier::loop_isolation(false)]
pub fn generate_table(t: &TypeDef) -> (r: Result<TableDescriptor, GenError>)
    ensures
        match r {
            Ok(desc) => spec_descriptor(t.deep_view()) == Ok::<TableDescriptorView, GenErrorView>(
                desc.deep_view(),
            ),
            Err(e) => spec_descriptor(t.deep_view()) == Err::<TableDescriptorView, GenErrorView>(
                e.deep_view(),
            ),
        },
{
    let d = match parse_table_directives(&t.attrs) {
        Ok(d) => d,
        Err(e) => {
            return Err(e);
        },
    };
    let c = match build_catalog(&t.fields) {
        Ok(c) => c,
        Err(e) => {
            return Err(e);
        },
    };
    let table = render_table_name(&d.name, t.name.as_str());
    let fields = names_of_x(&c);
    let mut sql_columns: Vec<String> = Vec::new();
    let n = c.len();
    let mut i: usize = 0;
    while i < n
        invariant
            i <= n,
            n == c@.len(),
            sql_columns.deep_view() == crate::render::column_parts(c.deep_view()).take(i as int),
        decreases n - i,
    {
        let ghost prior = sql_columns.deep_view();
        let piece = crate::render::render_column(&c[i]);
        let ghost piecev = piece@;
        sql_columns.push(piece);
        proof {
            assert(sql_columns.deep_view() =~= prior.push(piecev));
            assert(prior.push(piecev) =~= crate::render::column_parts(c.deep_view()).take(i + 1));
        }
        i += 1;
    }
    proof {
        assert(crate::render::column_parts(c.deep_view()).take(n as int) =~= crate::render::column_parts(
            c.deep_view(),
        ));
    }
    Ok(TableDescriptor { name: table, fields, sql_columns })
}

/// Generates the single-row select family: one `select_by_<field>`
/// accessor per select-role field, then one accessor per custom `select`
/// spec, each `SELECT <columns> FROM <table> WHERE <filters>` with
/// positional parameters numbered from 1 in field order, returning an
/// optional single row.
pub fn generate_select(t: &TypeDef) -> (r: Result<Vec<Accessor>, GenError>)
    ensures
        match r {
            Ok(v) => spec_filter_family(t.deep_view(), OpKind::Select) == Ok::<
                Seq<AccessorView>,
                GenErrorView,
            >(v.deep_view()),
            Err(e) => spec_filter_family(t.deep_view(), OpKind::Select) == Err::<
                Seq<AccessorView>,
                GenErrorView,
            >(e.deep_view()),
        },
{
    filter_family_x(t, OpKind::Select)
}

/// Generates the multi-row select family, as [`generate_select`] does for
/// the `select_many` role and specs; its accessors return an ordered row
/// collection.
pub fn generate_select_many(t: &TypeDef) -> (r: Result<Vec<Accessor>, GenError>)
    ensures
        match r {
            Ok(v) => spec_filter_family(t.deep_view(), OpKind::SelectMany) == Ok::<
                Seq<AccessorView>,
                GenErrorView,
            >(v.deep_view()),
            Err(e) => spec_filter_family(t.deep_view(), OpKind::SelectMany) == Err::<
                Seq<AccessorView>,
                GenErrorView,
            >(e.deep_view()),
        },
{
    filter_family_x(t, OpKind::SelectMany)
}

/// Generates the delete family: one `delete_by_<field>` accessor per
/// delete-role field, then one accessor per custom `delete` spec, each
/// `DELETE FROM <table> WHERE <filters>` returning an affected-row
/// summary.
pub fn generate_delete(t: &TypeDef) -> (r: Result<Vec<Accessor>, GenError>)
    ensures
        match r {
            Ok(v) => spec_filter_family(t.deep_view(), OpKind::Delete) == Ok::<
                Seq<AccessorView>,
                GenErrorView,
            >(v.deep_view()),
            Err(e) => spec_filter_family(t.deep_view(), OpKind::Delete) == Err::<
                Seq<AccessorView>,
                GenErrorView,
            >(e.deep_view()),
        },
{
    filter_family_x(t, OpKind::Delete)
}

} // verus!
