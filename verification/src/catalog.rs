//! The field catalog: a type's ordered field declarations, their parsed
//! role tags and column aliases, validated for the synthesizer.

use vstd::prelude::*;

use crate::directives::first_scalar;
use crate::directives::first_scalar_x;
use crate::errors::GenError;
use crate::errors::GenErrorView;
use crate::parser::parse_group_list;
use crate::parser::parse_groups;
use crate::parser::Directive;
use crate::parser::DirectiveView;
use crate::strutil::str_eq;
use crate::tokens::Tok;
use crate::tokens::TokView;

verus! {

/// One field declaration as handed to the generator: its name, the rendered
/// text of its declared type, and its metadata groups.
pub struct FieldDef {
    pub name: String,
    pub ty: String,
    pub attrs: Vec<Vec<Tok>>,
}

/// The mathematical shape of a [`FieldDef`].
pub struct FieldDefView {
    pub name: Seq<char>,
    pub ty: Seq<char>,
    pub attrs: Seq<Seq<TokView>>,
}

impl DeepView for FieldDef {
    type V = FieldDefView;

    open spec fn deep_view(&self) -> FieldDefView {
        FieldDefView { name: self.name@, ty: self.ty@, attrs: self.attrs.deep_view() }
    }
}

/// A whole annotated record type: its name, its type-level metadata groups
/// and its ordered field declarations.
pub struct TypeDef {
    pub name: String,
    pub attrs: Vec<Vec<Tok>>,
    pub fields: Vec<FieldDef>,
}

/// The mathematical shape of a [`TypeDef`].
pub struct TypeDefView {
    pub name: Seq<char>,
    pub attrs: Seq<Seq<TokView>>,
    pub fields: Seq<FieldDefView>,
}

impl DeepView for TypeDef {
    type V = TypeDefView;

    open spec fn deep_view(&self) -> TypeDefView {
        TypeDefView {
            name: self.name@,
            attrs: self.attrs.deep_view(),
            fields: self.fields.deep_view(),
        }
    }
}

/// The role tags a field carries: membership in the filter groups of the
/// single-row select, multi-row select, update and delete families.
#[derive(Clone, Copy)]
pub struct Roles {
    pub select: bool,
    pub select_many: bool,
    pub update: bool,
    pub delete: bool,
}

/// One validated catalog entry: a field, its column alias if any, and its
/// role tags.
pub struct FieldSpec {
    pub name: String,
    pub ty: String,
    pub alias: Option<String>,
    pub roles: Roles,
}

/// The mathematical shape of a [`FieldSpec`].
pub struct FieldSpecView {
    pub name: Seq<char>,
    pub ty: Seq<char>,
    pub alias: Option<Seq<char>>,
    pub roles: Roles,
}

impl DeepView for FieldSpec {
    type V = FieldSpecView;

    open spec fn deep_view(&self) -> FieldSpecView {
        FieldSpecView {
            name: self.name@,
            ty: self.ty@,
            alias: self.alias.deep_view(),
            roles: self.roles,
        }
    }
}

/// The bare markers recognized as role tags on a field.
pub open spec fn is_role_marker(m: Seq<char>) -> bool {
    m == "select"@ || m == "select_many"@ || m == "update"@ || m == "delete"@
}

/// Why one field-level directive is rejected, if it is: an unrecognized
/// bare marker, or an `as_type` alias that is not a quoted literal.
pub open spec fn field_dir_err(d: DirectiveView) -> Option<GenErrorView> {
    match d {
        DirectiveView::Marker(m) => if is_role_marker(m) {
            None
        } else {
            Some(GenErrorView::UnknownRole(m))
        },
        DirectiveView::Scalar(k, v) => if k == "as_type"@ && !(v is Text) {
            Some(GenErrorView::BadDirective)
        } else {
            None
        },
        DirectiveView::Method(k, m) => None,
    }
}

/// The first rejection within one group, from entry `i` on.
pub open spec fn first_field_err_in(g: Seq<DirectiveView>, i: int) -> Option<GenErrorView>
    decreases g.len() - i,
{
    if i < g.len() {
        match field_dir_err(g[i]) {
            Some(e) => Some(e),
            None => first_field_err_in(g, i + 1),
        }
    } else {
        None
    }
}

/// The first rejection over all of a field's groups, from group `i` on.
pub open spec fn first_field_err(gs: Seq<Seq<DirectiveView>>, i: int) -> Option<GenErrorView>
    decreases gs.len() - i,
{
    if i < gs.len() {
        match first_field_err_in(gs[i], 0) {
            Some(e) => Some(e),
            None => first_field_err(gs, i + 1),
        }
    } else {
        None
    }
}

/// Whether one group carries the bare marker `m`, from entry `i` on.
pub open spec fn has_marker_in(g: Seq<DirectiveView>, m: Seq<char>, i: int) -> bool
    decreases g.len() - i,
{
    if i < g.len() {
        (g[i] matches DirectiveView::Marker(x) && x == m) || has_marker_in(g, m, i + 1)
    } else {
        false
    }
}

/// Whether any group carries the bare marker `m`, from group `i` on.
pub open spec fn has_marker(gs: Seq<Seq<DirectiveView>>, m: Seq<char>, i: int) -> bool
    decreases gs.len() - i,
{
    if i < gs.len() {
        has_marker_in(gs[i], m, 0) || has_marker(gs, m, i + 1)
    } else {
        false
    }
}

/// The role tags carried by a field's parsed groups.
pub open spec fn spec_roles(gs: Seq<Seq<DirectiveView>>) -> Roles {
    Roles {
        select: has_marker(gs, "select"@, 0),
        select_many: has_marker(gs, "select_many"@, 0),
        update: has_marker(gs, "update"@, 0),
        delete: has_marker(gs, "delete"@, 0),
    }
}

/// What cataloguing one field declaration yields.
pub open spec fn spec_field(fd: FieldDefView) -> Result<FieldSpecView, GenErrorView> {
    match parse_groups(fd.attrs, 0) {
        None => Err(GenErrorView::BadDirective),
        Some(ds) => match first_field_err(ds, 0) {
            Some(e) => Err(e),
            None => Ok(
                FieldSpecView {
                    name: fd.name,
                    ty: fd.ty,
                    alias: first_scalar(ds, "as_type"@, 0),
                    roles: spec_roles(ds),
                },
            ),
        },
    }
}

/// What cataloguing the declarations from `i` on yields: the entries in
/// declaration order, or the first field's failure.
pub open spec fn spec_fields(fds: Seq<FieldDefView>, i: int) -> Result<
    Seq<FieldSpecView>,
    GenErrorView,
>
    decreases fds.len() - i,
{
    if i < fds.len() {
        match spec_field(fds[i]) {
            Err(e) => Err(e),
            Ok(f) => match spec_fields(fds, i + 1) {
                Err(e) => Err(e),
                Ok(rest) => Ok(seq![f] + rest),
            },
        }
    } else {
        Ok(seq![])
    }
}

/// Whether some entry before position `j` already bears the name `n`.
pub open spec fn has_name_before(c: Seq<FieldSpecView>, n: Seq<char>, j: int) -> bool {
    exists|k: int| 0 <= k < j && c[k].name == n
}

/// The first name that repeats an earlier one, scanning from `j`.
pub open spec fn first_dup(c: Seq<FieldSpecView>, j: int) -> Option<Seq<char>>
    decreases c.len() - j,
{
    if j < c.len() {
        if has_name_before(c, c[j].name, j) {
            Some(c[j].name)
        } else {
            first_dup(c, j + 1)
        }
    } else {
        None
    }
}

/// What building the whole catalog yields: the validated entries, or the
/// failure that aborts the pass (a field's directive rejection first, a
/// repeated field name second).
pub open spec fn spec_catalog(fds: Seq<FieldDefView>) -> Result<Seq<FieldSpecView>, GenErrorView> {
    match spec_fields(fds, 0) {
        Err(e) => Err(e),
        Ok(c) => match first_dup(c, 0) {
            Some(n) => Err(GenErrorView::DuplicateField(n)),
            None => Ok(c),
        },
    }
}

fn field_dir_err_x(d: &Directive) -> (r: Option<GenError>)
    ensures
        match r {
            Some(e) => field_dir_err(d.deep_view()) == Some(e.deep_view()),
            None => field_dir_err(d.deep_view()) is None,
        },
{
    match d {
        Directive::Marker(m) => {
            if str_eq(m.as_str(), "select") || str_eq(m.as_str(), "select_many") || str_eq(
                m.as_str(),
                "update",
            ) || str_eq(m.as_str(), "delete") {
                None
            } else {
                Some(GenError::UnknownRole(m.clone()))
            }
        },
        Directive::Scalar(k, v) => {
            if str_eq(k.as_str(), "as_type") && !matches!(v, crate::parser::ScalarValue::Text(_)) {
                Some(GenError::BadDirective)
            } else {
                None
            }
        },
        Directive::Method(k, m) => None,
    }
}

#[verifier::loop_isolation(false)]
fn field_err_x(groups: &Vec<Vec<Directive>>) -> (r: Option<GenError>)
    ensures
        match r {
            Some(e) => first_field_err(groups.deep_view(), 0) == Some(e.deep_view()),
            None => first_field_err(groups.deep_view(), 0) is None,
        },
{
    let n = groups.len();
    let mut i: usize = 0;
    while i < n
        invariant
            i <= n,
            first_field_err(groups.deep_view(), 0) == first_field_err(
                groups.deep_view(),
                i as int,
            ),
        decreases n - i,
    {
        let g = &groups[i];
        let m = g.len();
        let mut j: usize = 0;
        while j < m
            invariant
                j <= m,
                i < n,
                first_field_err_in(g.deep_view(), 0) == first_field_err_in(g.deep_view(), j as int),
            decreases m - j,
        {
            match field_dir_err_x(&g[j]) {
                Some(e) => {
                    return Some(e);
                },
                None => {},
            }
            j += 1;
        }
        i += 1;
    }
    None
}

#[verifier::loop_isolation(false)]
fn has_marker_x(groups: &Vec<Vec<Directive>>, m: &str) -> (r: bool)
    ensures
        r == has_marker(groups.deep_view(), m@, 0),
{
    let n = groups.len();
    let mut i: usize = 0;
    while i < n
        invariant
            i <= n,
            has_marker(groups.deep_view(), m@, 0) == has_marker(groups.deep_view(), m@, i as int),
        decreases n - i,
    {
        let g = &groups[i];
        let glen = g.len();
        let mut j: usize = 0;
        while j < glen
            invariant
                j <= glen,
                i < n,
                has_marker_in(g.deep_view(), m@, 0) == has_marker_in(g.deep_view(), m@, j as int),
            decreases glen - j,
        {
            match &g[j] {
                Directive::Marker(x) => {
                    if str_eq(x.as_str(), m) {
                        return true;
                    }
                },
                _ => {},
            }
            j += 1;
        }
        i += 1;
    }
    false
}

/// Catalogues one field declaration, exactly as [`spec_field`] describes.
pub fn build_field(fd: &FieldDef) -> (r: Result<FieldSpec, GenError>)
    ensures
        match r {
            Ok(f) => spec_field(fd.deep_view()) == Ok::<FieldSpecView, GenErrorView>(f.deep_view()),
            Err(e) => spec_field(fd.deep_view()) == Err::<FieldSpecView, GenErrorView>(
                e.deep_view(),
            ),
        },
{
    let parsed = match parse_group_list(&fd.attrs) {
        Ok(p) => p,
        Err(e) => {
            return Err(e);
        },
    };
    match field_err_x(&parsed) {
        Some(e) => {
            return Err(e);
        },
        None => {},
    }
    let roles = Roles {
        select: has_marker_x(&parsed, "select"),
        select_many: has_marker_x(&parsed, "select_many"),
        update: has_marker_x(&parsed, "update"),
        delete: has_marker_x(&parsed, "delete"),
    };
    Ok(
        FieldSpec {
            name: fd.name.clone(),
            ty: fd.ty.clone(),
            alias: first_scalar_x(&parsed, "as_type"),
            roles,
        },
    )
}

/// Builds the validated catalog from the ordered field declarations,
/// exactly as [`spec_catalog`] describes: each field's directives parsed
/// and checked in declaration order, then field names checked for
/// uniqueness.
#[verifier::loop_isolation(false)]
pub fn build_catalog(fields: &Vec<FieldDef>) -> (r: Result<Vec<FieldSpec>, GenError>)
    ensures
        match r {
            Ok(c) => spec_catalog(fields.deep_view()) == Ok::<Seq<FieldSpecView>, GenErrorView>(
                c.deep_view(),
            ),
            Err(e) => spec_catalog(fields.deep_view()) == Err::<Seq<FieldSpecView>, GenErrorView>(
                e.deep_view(),
            ),
        },
{
    let n = fields.len();
    let mut out: Vec<FieldSpec> = Vec::new();
    let mut i: usize = 0;
    while i < n
        invariant
            i <= n,
            out@.len() == i,
            forall|k: int|
                0 <= k < i ==> spec_field(fields.deep_view()[k]) == Ok::<
                    FieldSpecView,
                    GenErrorView,
                >(#[trigger] out.deep_view()[k]),
        decreases n - i,
    {
        let ghost prior = out.deep_view();
        match build_field(&fields[i]) {
            Ok(f) => {
                let ghost fv = f.deep_view();
                out.push(f);
                proof {
                    assert(out.deep_view()[i as int] == fv);
                    assert(forall|k: int|
                        0 <= k < i ==> #[trigger] out.deep_view()[k] == prior[k]);
                }
            },
            Err(e) => {
                proof {
                    assert forall|k: int|
                        0 <= k < i implies (#[trigger] spec_field(fields.deep_view()[k])) is Ok by {
                        assert(spec_field(fields.deep_view()[k]) == Ok::<
                            FieldSpecView,
                            GenErrorView,
                        >(out.deep_view()[k]));
                    }
                    lemma_spec_fields_err(fields.deep_view(), i as int, e.deep_view());
                }
                return Err(e);
            },
        }
        i += 1;
    }
    proof {
        lemma_spec_fields_ok(fields.deep_view(), out.deep_view(), 0);
        assert(out.deep_view().skip(0) =~= out.deep_view());
    }
    // Field names must be unique within the type.
    let mut j: usize = 1;
    while j < n
        invariant
            1 <= j || n == 0,
            j <= n || n == 0,
            out@.len() == n,
            spec_fields(fields.deep_view(), 0) == Ok::<Seq<FieldSpecView>, GenErrorView>(
                out.deep_view(),
            ),
            first_dup(out.deep_view(), 0) == first_dup(out.deep_view(), j as int),
        decreases n - j,
    {
        let mut k: usize = 0;
        while k < j
            invariant
                k <= j,
                j < n,
                out@.len() == n,
                forall|p: int| 0 <= p < k ==> out.deep_view()[p].name != out.deep_view()[j as int].name,
            decreases j - k,
        {
            if str_eq(out[k].name.as_str(), out[j].name.as_str()) {
                proof {
                    assert(out.deep_view()[k as int].name == out.deep_view()[j as int].name);
                    assert(has_name_before(out.deep_view(), out.deep_view()[j as int].name, j as int));
                }
                return Err(GenError::DuplicateField(out[j].name.clone()));
            }
            k += 1;
        }
        proof {
            assert(!has_name_before(out.deep_view(), out.deep_view()[j as int].name, j as int));
        }
        j += 1;
    }
    Ok(out)
}

proof fn lemma_spec_fields_err(fds: Seq<FieldDefView>, i: int, e: GenErrorView)
    requires
        0 <= i < fds.len(),
        spec_field(fds[i]) == Err::<FieldSpecView, GenErrorView>(e),
        forall|k: int| 0 <= k < i ==> (#[trigger] spec_field(fds[k])) is Ok,
    ensures
        spec_fields(fds, 0) == Err::<Seq<FieldSpecView>, GenErrorView>(e),
{
    lemma_spec_fields_err_from(fds, 0, i, e);
}

proof fn lemma_spec_fields_err_from(fds: Seq<FieldDefView>, s: int, i: int, e: GenErrorView)
    requires
        0 <= s <= i < fds.len(),
        spec_field(fds[i]) == Err::<FieldSpecView, GenErrorView>(e),
        forall|k: int| 0 <= k < i ==> (#[trigger] spec_field(fds[k])) is Ok,
    ensures
        spec_fields(fds, s) == Err::<Seq<FieldSpecView>, GenErrorView>(e),
    decreases i - s,
{
    if s < i {
        lemma_spec_fields_err_from(fds, s + 1, i, e);
    }
}

proof fn lemma_spec_fields_ok(fds: Seq<FieldDefView>, c: Seq<FieldSpecView>, s: int)
    requires
        0 <= s <= fds.len(),
        c.len() == fds.len(),
        forall|k: int|
            0 <= k < fds.len() ==> spec_field(fds[k]) == Ok::<FieldSpecView, GenErrorView>(
                #[trigger] c[k],
            ),
    ensures
        spec_fields(fds, s) == Ok::<Seq<FieldSpecView>, GenErrorView>(c.skip(s)),
    decreases fds.len() - s,
{
    if s >= fds.len() {
        assert(c.skip(s) =~= Seq::<FieldSpecView>::empty());
    } else {
        lemma_spec_fields_ok(fds, c, s + 1);
        assert(seq![c[s]] + c.skip(s + 1) =~= c.skip(s));
    }
}

} // verus!
