//! Type-level directive extraction.
//!
//! A type's metadata groups are parsed and distilled into a
//! [`TableDirectives`] record: the explicit table name, the literal SET
//! fragment for updates, the return-shape overrides, and the custom method
//! specs of each operation family.
//!
//! Within one metadata group a repeated key is honored only at its first
//! occurrence; across groups, scalar keys take the first group that carries
//! them, while method-spec keys contribute one entry per group.

use vstd::prelude::*;

use crate::errors::GenError;
use crate::errors::GenErrorView;
use crate::parser::parse_group_list;
use crate::parser::parse_groups;
use crate::parser::Directive;
use crate::parser::DirectiveView;
use crate::parser::MethodSpec;
use crate::parser::MethodSpecView;
use crate::parser::ScalarValueView;
use crate::strutil::clone_strings;
use crate::strutil::str_eq;
use crate::tokens::Tok;
use crate::tokens::TokView;

verus! {

/// The text a scalar value stands for, quoted or not.
pub open spec fn scalar_text(v: ScalarValueView) -> Seq<char> {
    match v {
        ScalarValueView::Word(w) => w,
        ScalarValueView::Text(t) => t,
    }
}

/// The keys that demand a method-spec value.
pub open spec fn is_method_key(k: Seq<char>) -> bool {
    k == "select"@ || k == "select_many"@ || k == "delete"@
}

/// The keys that demand a scalar value.
pub open spec fn is_scalar_key(k: Seq<char>) -> bool {
    k == "name"@ || k == "spec_columns"@ || k == "return_type"@ || k == "return_fields"@ || k
        == "as_type"@
}

/// A type-level directive is well shaped when no method-spec key carries a
/// scalar and no scalar key carries a method spec. Unrecognized keys and
/// bare markers are tolerated and ignored.
pub open spec fn type_dir_ok(d: DirectiveView) -> bool {
    match d {
        DirectiveView::Marker(m) => true,
        DirectiveView::Scalar(k, v) => !is_method_key(k),
        DirectiveView::Method(k, m) => !is_scalar_key(k),
    }
}

/// Every directive of every group is well shaped for the type level.
pub open spec fn type_dirs_ok(ds: Seq<Seq<DirectiveView>>) -> bool {
    forall|i: int, j: int|
        0 <= i < ds.len() && 0 <= j < ds[i].len() ==> type_dir_ok(#[trigger] ds[i][j])
}

/// The first scalar with key `key` in one group, from entry `i` on.
pub open spec fn first_scalar_in(g: Seq<DirectiveView>, key: Seq<char>, i: int) -> Option<
    Seq<char>,
>
    decreases g.len() - i,
{
    if i < g.len() {
        match g[i] {
            DirectiveView::Scalar(k, v) => if k == key {
                Some(scalar_text(v))
            } else {
                first_scalar_in(g, key, i + 1)
            },
            _ => first_scalar_in(g, key, i + 1),
        }
    } else {
        None
    }
}

/// The first scalar with key `key` over all groups, from group `i` on.
pub open spec fn first_scalar(gs: Seq<Seq<DirectiveView>>, key: Seq<char>, i: int) -> Option<
    Seq<char>,
>
    decreases gs.len() - i,
{
    if i < gs.len() {
        match first_scalar_in(gs[i], key, 0) {
            Some(v) => Some(v),
            None => first_scalar(gs, key, i + 1),
        }
    } else {
        None
    }
}

/// The first method spec with key `key` in one group, from entry `i` on.
pub open spec fn first_method_in(g: Seq<DirectiveView>, key: Seq<char>, i: int) -> Option<
    MethodSpecView,
>
    decreases g.len() - i,
{
    if i < g.len() {
        match g[i] {
            DirectiveView::Method(k, m) => if k == key {
                Some(m)
            } else {
                first_method_in(g, key, i + 1)
            },
            _ => first_method_in(g, key, i + 1),
        }
    } else {
        None
    }
}

/// One method spec per group that carries key `key`: the group's first.
pub open spec fn methods_of(gs: Seq<Seq<DirectiveView>>, key: Seq<char>, i: int) -> Seq<
    MethodSpecView,
>
    decreases gs.len() - i,
{
    if i < gs.len() {
        match first_method_in(gs[i], key, 0) {
            Some(m) => seq![m] + methods_of(gs, key, i + 1),
            None => methods_of(gs, key, i + 1),
        }
    } else {
        seq![]
    }
}

/// The distilled type-level directives.
pub struct TableDirectives {
    /// Explicit table name, `name = ...`.
    pub name: Option<String>,
    /// Literal fragment appended to an UPDATE's SET list, `spec_columns = "..."`.
    pub spec_columns: Option<String>,
    /// Decode target overriding the result shape of insert and update.
    pub return_type: Option<String>,
    /// RETURNING column list used when `return_type` is set; defaults to `*`.
    pub return_fields: Option<String>,
    /// Custom single-row select specs.
    pub selects: Vec<MethodSpec>,
    /// Custom multi-row select specs.
    pub select_manys: Vec<MethodSpec>,
    /// Custom delete specs.
    pub deletes: Vec<MethodSpec>,
}

/// The mathematical shape of [`TableDirectives`].
pub struct TableDirectivesView {
    pub name: Option<Seq<char>>,
    pub spec_columns: Option<Seq<char>>,
    pub return_type: Option<Seq<char>>,
    pub return_fields: Option<Seq<char>>,
    pub selects: Seq<MethodSpecView>,
    pub select_manys: Seq<MethodSpecView>,
    pub deletes: Seq<MethodSpecView>,
}

impl DeepView for TableDirectives {
    type V = TableDirectivesView;

    open spec fn deep_view(&self) -> TableDirectivesView {
        TableDirectivesView {
            name: self.name.deep_view(),
            spec_columns: self.spec_columns.deep_view(),
            return_type: self.return_type.deep_view(),
            return_fields: self.return_fields.deep_view(),
            selects: self.selects.deep_view(),
            select_manys: self.select_manys.deep_view(),
            deletes: self.deletes.deep_view(),
        }
    }
}

/// The directives distilled from well-shaped parsed groups.
pub open spec fn dirs_of(ds: Seq<Seq<DirectiveView>>) -> TableDirectivesView {
    TableDirectivesView {
        name: first_scalar(ds, "name"@, 0),
        spec_columns: first_scalar(ds, "spec_columns"@, 0),
        return_type: first_scalar(ds, "return_type"@, 0),
        return_fields: first_scalar(ds, "return_fields"@, 0),
        selects: methods_of(ds, "select"@, 0),
        select_manys: methods_of(ds, "select_many"@, 0),
        deletes: methods_of(ds, "delete"@, 0),
    }
}

/// What extracting the type-level directives from raw metadata groups
/// yields: the distilled record, or the grammar error that aborts the pass.
pub open spec fn spec_table_dirs(gs: Seq<Seq<TokView>>) -> Result<
    TableDirectivesView,
    GenErrorView,
> {
    match parse_groups(gs, 0) {
        None => Err(GenErrorView::BadDirective),
        Some(ds) => if type_dirs_ok(ds) {
            Ok(dirs_of(ds))
        } else {
            Err(GenErrorView::BadDirective)
        },
    }
}

/// Copies a method spec.
pub fn dup_method(m: &MethodSpec) -> (r: MethodSpec)
    ensures
        r.deep_view() == m.deep_view(),
{
    MethodSpec { name: m.name.clone(), fields: clone_strings(&m.fields) }
}

fn type_dir_ok_x(d: &Directive) -> (r: bool)
    ensures
        r == type_dir_ok(d.deep_view()),
{
    match d {
        Directive::Marker(m) => true,
        Directive::Scalar(k, v) => !(str_eq(k.as_str(), "select") || str_eq(
            k.as_str(),
            "select_many",
        ) || str_eq(k.as_str(), "delete")),
        Directive::Method(k, m) => !(str_eq(k.as_str(), "name") || str_eq(
            k.as_str(),
            "spec_columns",
        ) || str_eq(k.as_str(), "return_type") || str_eq(k.as_str(), "return_fields") || str_eq(
            k.as_str(),
            "as_type",
        )),
    }
}

/// Looks a scalar key up over all parsed groups, first occurrence first.
pub(crate) fn first_scalar_x(groups: &Vec<Vec<Directive>>, key: &str) -> (r: Option<String>)
    ensures
        match r {
            Some(s) => first_scalar(groups.deep_view(), key@, 0) == Some(s@),
            None => first_scalar(groups.deep_view(), key@, 0) is None,
        },
{
    let n = groups.len();
    let mut i: usize = 0;
    while i < n
        invariant
            i <= n,
            n == groups@.len(),
            first_scalar(groups.deep_view(), key@, 0) == first_scalar(
                groups.deep_view(),
                key@,
                i as int,
            ),
        decreases n - i,
    {
        let g = &groups[i];
        let m = g.len();
        let mut j: usize = 0;
        while j < m
            invariant
                j <= m,
                m == g@.len(),
                g.deep_view() == groups.deep_view()[i as int],
                i < n,
                n == groups@.len(),
                first_scalar_in(g.deep_view(), key@, 0) == first_scalar_in(
                    g.deep_view(),
                    key@,
                    j as int,
                ),
                first_scalar(groups.deep_view(), key@, 0) == first_scalar(
                    groups.deep_view(),
                    key@,
                    i as int,
                ),
            decreases m - j,
        {
            match &g[j] {
                Directive::Scalar(k, v) => {
                    if str_eq(k.as_str(), key) {
                        let text = match v {
                            crate::parser::ScalarValue::Word(w) => w.clone(),
                            crate::parser::ScalarValue::Text(t) => t.clone(),
                        };
                        return Some(text);
                    }
                },
                _ => {},
            }
            j += 1;
        }
        i += 1;
    }
    None
}

/// The group's first method spec under `key`, copied out.
fn first_method_in_x(g: &Vec<Directive>, key: &str) -> (r: Option<MethodSpec>)
    ensures
        match r {
            Some(m) => first_method_in(g.deep_view(), key@, 0) == Some(m.deep_view()),
            None => first_method_in(g.deep_view(), key@, 0) is None,
        },
{
    let n = g.len();
    let mut j: usize = 0;
    while j < n
        invariant
            j <= n,
            n == g@.len(),
            first_method_in(g.deep_view(), key@, 0) == first_method_in(
                g.deep_view(),
                key@,
                j as int,
            ),
        decreases n - j,
    {
        match &g[j] {
            Directive::Method(k, m) => {
                if str_eq(k.as_str(), key) {
                    return Some(dup_method(m));
                }
            },
            _ => {},
        }
        j += 1;
    }
    None
}

/// All method specs under `key`: one per group that carries it.
pub(crate) fn methods_of_x(groups: &Vec<Vec<Directive>>, key: &str) -> (r: Vec<MethodSpec>)
    ensures
        r.deep_view() == methods_of(groups.deep_view(), key@, 0),
{
    let n = groups.len();
    let mut out: Vec<MethodSpec> = Vec::new();
    let mut i: usize = 0;
    while i < n
        invariant
            i <= n,
            n == groups@.len(),
            methods_of(groups.deep_view(), key@, 0) == out.deep_view() + methods_of(
                groups.deep_view(),
                key@,
                i as int,
            ),
        decreases n - i,
    {
        let ghost prior = out.deep_view();
        match first_method_in_x(&groups[i], key) {
            Some(m) => {
                let ghost mv = m.deep_view();
                out.push(m);
                proof {
                    assert(out.deep_view() =~= prior + seq![mv]);
                    assert(prior + seq![mv] + methods_of(groups.deep_view(), key@, i + 1) =~= prior
                        + (seq![mv] + methods_of(groups.deep_view(), key@, i + 1)));
                }
            },
            None => {},
        }
        i += 1;
    }
    proof {
        assert(methods_of(groups.deep_view(), key@, n as int) =~= Seq::<MethodSpecView>::empty());
        assert(out.deep_view() + Seq::<MethodSpecView>::empty() =~= out.deep_view());
    }
    out
}

/// Parses and distills a type's metadata groups.
///
/// Returns `Ok` exactly when every group follows the grammar and every
/// recognized key carries a value of the right shape; the distilled record
/// is precisely what [`spec_table_dirs`] describes.
#[verifier::loop_isolation(false)]
pub fn parse_table_directives(groups: &Vec<Vec<Tok>>) -> (r: Result<TableDirectives, GenError>)
    ensures
        match r {
            Ok(d) => spec_table_dirs(groups.deep_view()) == Ok::<TableDirectivesView, GenErrorView>(
                d.deep_view(),
            ),
            Err(e) => spec_table_dirs(groups.deep_view()) == Err::<
                TableDirectivesView,
                GenErrorView,
            >(e.deep_view()),
        },
{
    let parsed = match parse_group_list(groups) {
        Ok(p) => p,
        Err(e) => {
            return Err(e);
        },
    };
    let n = parsed.len();
    let mut i: usize = 0;
    while i < n
        invariant
            i <= n,
            n == parsed@.len(),
            forall|a: int, b: int|
                0 <= a < i && 0 <= b < parsed.deep_view()[a].len() ==> type_dir_ok(
                    #[trigger] parsed.deep_view()[a][b],
                ),
        decreases n - i,
    {
        let g = &parsed[i];
        let m = g.len();
        let mut j: usize = 0;
        while j < m
            invariant
                j <= m,
                m == g@.len(),
                g.deep_view() == parsed.deep_view()[i as int],
                i < n,
                n == parsed@.len(),
                forall|b: int|
                    0 <= b < j ==> type_dir_ok(#[trigger] parsed.deep_view()[i as int][b]),
            decreases m - j,
        {
            if !type_dir_ok_x(&g[j]) {
                proof {
                    assert(!type_dir_ok(parsed.deep_view()[i as int][j as int]));
                    assert(!type_dirs_ok(parsed.deep_view()));
                }
                return Err(GenError::BadDirective);
            }
            j += 1;
        }
        i += 1;
    }
    Ok(
        TableDirectives {
            name: first_scalar_x(&parsed, "name"),
            spec_columns: first_scalar_x(&parsed, "spec_columns"),
            return_type: first_scalar_x(&parsed, "return_type"),
            return_fields: first_scalar_x(&parsed, "return_fields"),
            selects: methods_of_x(&parsed, "select"),
            select_manys: methods_of_x(&parsed, "select_many"),
            deletes: methods_of_x(&parsed, "delete"),
        },
    )
}

} // verus!
