//! Laws of the synthesizer, stated and proved over the same spec
//! functions that the generation contracts use.

use vstd::prelude::*;

use crate::catalog::FieldSpecView;
use crate::catalog::TypeDefView;
use crate::errors::GenErrorView;
use crate::queries::auto_accessors;
use crate::queries::custom_accessors;
use crate::queries::fields_with;
use crate::queries::fields_without;
use crate::queries::find_field;
use crate::queries::has_role;
use crate::queries::names_of;
use crate::queries::params_of;
use crate::queries::resolve_fields;
use crate::queries::spec_descriptor;
use crate::queries::spec_filter_family;
use crate::queries::spec_insert;
use crate::queries::spec_insert_many;
use crate::queries::spec_select_all;
use crate::queries::spec_update;
use crate::queries::AccessorView;
use crate::queries::OpKind;
use crate::queries::ParamView;
use crate::queries::Role;
use crate::parser::MethodSpecView;
use crate::render::eq_param;
use crate::render::numbered_parts;

verus! {

/// In every numbered list a synthesized query weaves into its text — the
/// WHERE filters of the select and delete families and the SET list of an
/// update start at 1 or at a stated offset — the piece at position `i`
/// binds the placeholder numbered `start + i`: the positions are
/// consecutive, without gaps and without repeats.
pub proof fn lemma_params_consecutive(names: Seq<Seq<char>>, start: int)
    ensures
        forall|i: int|
            0 <= i < names.len() ==> numbered_parts(names, start)[i] == eq_param(
                names[i],
                (start + i) as nat,
            ),
{
}

/// Positional parameters of a query numbered from 1 are exactly
/// `1, 2, ..., n`: contiguous from 1, no gaps, no repeats.
pub proof fn lemma_params_contiguous_from_one(names: Seq<Seq<char>>)
    ensures
        forall|i: int|
            0 <= i < names.len() ==> numbered_parts(names, 1)[i] == eq_param(
                names[i],
                (i + 1) as nat,
            ),
{
    lemma_params_consecutive(names, 1);
}

/// The update split: the SET list holds every field without the update
/// role and the WHERE list every field with it, so with `k` SET fields and
/// `m` WHERE fields, `k + m` is the whole catalog; SET parameters occupy
/// `1..k` and WHERE parameters `k+1..k+m`.
pub proof fn lemma_update_split(c: Seq<FieldSpecView>)
    ensures
        fields_without(c, Role::Update, 0).len() + fields_with(c, Role::Update, 0).len()
            == c.len(),
        forall|i: int|
            0 <= i < fields_without(c, Role::Update, 0).len()
                ==> numbered_parts(names_of(fields_without(c, Role::Update, 0)), 1)[i] == eq_param(
                names_of(fields_without(c, Role::Update, 0))[i],
                (i + 1) as nat,
            ),
        forall|i: int|
            0 <= i < fields_with(c, Role::Update, 0).len() ==> numbered_parts(
                names_of(fields_with(c, Role::Update, 0)),
                fields_without(c, Role::Update, 0).len() as int + 1,
            )[i] == eq_param(
                names_of(fields_with(c, Role::Update, 0))[i],
                (fields_without(c, Role::Update, 0).len() + i + 1) as nat,
            ),
{
    lemma_partition_len(c, Role::Update, 0);
}

proof fn lemma_partition_len(c: Seq<FieldSpecView>, r: Role, j: int)
    requires
        0 <= j <= c.len(),
    ensures
        fields_without(c, r, j).len() + fields_with(c, r, j).len() == c.len() - j,
    decreases c.len() - j,
{
    if j < c.len() {
        lemma_partition_len(c, r, j + 1);
    }
}

/// Two catalog entries that differ at most in their column alias.
pub open spec fn same_but_alias(a: FieldSpecView, b: FieldSpecView) -> bool {
    a.name == b.name && a.ty == b.ty && a.roles == b.roles
}

/// Two whole catalogs that differ at most in column aliases.
pub open spec fn catalogs_same_but_alias(c1: Seq<FieldSpecView>, c2: Seq<FieldSpecView>) -> bool {
    c1.len() == c2.len() && forall|i: int|
        0 <= i < c1.len() ==> same_but_alias(#[trigger] c1[i], #[trigger] c2[i])
}

proof fn lemma_proj_cons(
    a1: FieldSpecView,
    a2: FieldSpecView,
    s1: Seq<FieldSpecView>,
    s2: Seq<FieldSpecView>,
)
    requires
        same_but_alias(a1, a2),
        names_of(s1) == names_of(s2),
        params_of(s1) == params_of(s2),
        s1.len() == s2.len(),
    ensures
        names_of(seq![a1] + s1) == names_of(seq![a2] + s2),
        params_of(seq![a1] + s1) == params_of(seq![a2] + s2),
{
    assert forall|k: int|
        0 <= k < (seq![a1] + s1).len() implies names_of(seq![a1] + s1)[k] == names_of(
        seq![a2] + s2,
    )[k] && params_of(seq![a1] + s1)[k] == params_of(seq![a2] + s2)[k] by {
        if k == 0 {
            assert((seq![a1] + s1)[0] == a1);
            assert((seq![a2] + s2)[0] == a2);
            assert(names_of(seq![a1] + s1)[k] == a1.name);
            assert(names_of(seq![a2] + s2)[k] == a2.name);
            assert(params_of(seq![a1] + s1)[k] == (ParamView { name: a1.name, ty: a1.ty }));
            assert(params_of(seq![a2] + s2)[k] == (ParamView { name: a2.name, ty: a2.ty }));
        } else {
            assert((seq![a1] + s1)[k] == s1[k - 1]);
            assert((seq![a2] + s2)[k] == s2[k - 1]);
            assert(names_of(seq![a1] + s1)[k] == s1[k - 1].name);
            assert(names_of(seq![a2] + s2)[k] == s2[k - 1].name);
            assert(names_of(s1)[k - 1] == s1[k - 1].name);
            assert(names_of(s2)[k - 1] == s2[k - 1].name);
            assert(params_of(seq![a1] + s1)[k] == (ParamView {
                name: s1[k - 1].name,
                ty: s1[k - 1].ty,
            }));
            assert(params_of(seq![a2] + s2)[k] == (ParamView {
                name: s2[k - 1].name,
                ty: s2[k - 1].ty,
            }));
            assert(params_of(s1)[k - 1] == (ParamView { name: s1[k - 1].name, ty: s1[k - 1].ty }));
            assert(params_of(s2)[k - 1] == (ParamView { name: s2[k - 1].name, ty: s2[k - 1].ty }));
            assert(params_of(s1)[k - 1] == params_of(s2)[k - 1]);
        }
    }
    assert(names_of(seq![a1] + s1) =~= names_of(seq![a2] + s2));
    assert(params_of(seq![a1] + s1) =~= params_of(seq![a2] + s2));
}

proof fn lemma_alias_role_fields(c1: Seq<FieldSpecView>, c2: Seq<FieldSpecView>, r: Role, j: int)
    requires
        catalogs_same_but_alias(c1, c2),
        0 <= j <= c1.len(),
    ensures
        names_of(fields_with(c1, r, j)) == names_of(fields_with(c2, r, j)),
        params_of(fields_with(c1, r, j)) == params_of(fields_with(c2, r, j)),
        names_of(fields_without(c1, r, j)) == names_of(fields_without(c2, r, j)),
        params_of(fields_without(c1, r, j)) == params_of(fields_without(c2, r, j)),
        fields_with(c1, r, j).len() == fields_with(c2, r, j).len(),
        fields_without(c1, r, j).len() == fields_without(c2, r, j).len(),
    decreases c1.len() - j,
{
    if j < c1.len() {
        lemma_alias_role_fields(c1, c2, r, j + 1);
        assert(has_role(c1[j], r) == has_role(c2[j], r));
        if has_role(c1[j], r) {
            lemma_proj_cons(c1[j], c2[j], fields_with(c1, r, j + 1), fields_with(c2, r, j + 1));
        } else {
            lemma_proj_cons(
                c1[j],
                c2[j],
                fields_without(c1, r, j + 1),
                fields_without(c2, r, j + 1),
            );
        }
    } else {
        assert(names_of(fields_with(c1, r, j)) =~= names_of(fields_with(c2, r, j)));
        assert(params_of(fields_with(c1, r, j)) =~= params_of(fields_with(c2, r, j)));
        assert(names_of(fields_without(c1, r, j)) =~= names_of(fields_without(c2, r, j)));
        assert(params_of(fields_without(c1, r, j)) =~= params_of(fields_without(c2, r, j)));
    }
}

proof fn lemma_alias_find_field(
    c1: Seq<FieldSpecView>,
    c2: Seq<FieldSpecView>,
    n: Seq<char>,
    i: int,
)
    requires
        catalogs_same_but_alias(c1, c2),
        0 <= i <= c1.len(),
    ensures
        find_field(c1, n, i) is Some <==> find_field(c2, n, i) is Some,
        find_field(c1, n, i) is Some ==> same_but_alias(
            find_field(c1, n, i)->Some_0,
            find_field(c2, n, i)->Some_0,
        ),
    decreases c1.len() - i,
{
    if i < c1.len() {
        lemma_alias_find_field(c1, c2, n, i + 1);
    }
}

proof fn lemma_alias_resolve(
    c1: Seq<FieldSpecView>,
    c2: Seq<FieldSpecView>,
    names: Seq<Seq<char>>,
    i: int,
)
    requires
        catalogs_same_but_alias(c1, c2),
        0 <= i <= names.len(),
    ensures
        names_of(resolve_fields(c1, names, i)) == names_of(resolve_fields(c2, names, i)),
        params_of(resolve_fields(c1, names, i)) == params_of(resolve_fields(c2, names, i)),
        resolve_fields(c1, names, i).len() == resolve_fields(c2, names, i).len(),
    decreases names.len() - i,
{
    if i < names.len() {
        lemma_alias_resolve(c1, c2, names, i + 1);
        lemma_alias_find_field(c1, c2, names[i], 0);
        if find_field(c1, names[i], 0) is Some {
            let f1 = find_field(c1, names[i], 0)->Some_0;
            let f2 = find_field(c2, names[i], 0)->Some_0;
            lemma_proj_cons(f1, f2, resolve_fields(c1, names, i + 1), resolve_fields(c2, names, i + 1));
        }
    } else {
        assert(names_of(resolve_fields(c1, names, i)) =~= names_of(resolve_fields(c2, names, i)));
        assert(params_of(resolve_fields(c1, names, i)) =~= params_of(
            resolve_fields(c2, names, i),
        ));
    }
}

/// Column aliasing touches only the rendered SELECT/INSERT column text.
/// For two catalogs that differ at most in aliases, every filter list,
/// every parameter name and position, and every parameter type of every
/// operation family is identical: the filter-field names of each role in
/// each order, the update split, and each custom spec's resolution.
pub proof fn lemma_alias_changes_only_columns(
    c1: Seq<FieldSpecView>,
    c2: Seq<FieldSpecView>,
    r: Role,
    spec_names: Seq<Seq<char>>,
)
    requires
        catalogs_same_but_alias(c1, c2),
    ensures
        names_of(c1) == names_of(c2),
        params_of(c1) == params_of(c2),
        names_of(fields_with(c1, r, 0)) == names_of(fields_with(c2, r, 0)),
        params_of(fields_with(c1, r, 0)) == params_of(fields_with(c2, r, 0)),
        names_of(fields_without(c1, r, 0)) == names_of(fields_without(c2, r, 0)),
        params_of(fields_without(c1, r, 0)) == params_of(fields_without(c2, r, 0)),
        names_of(resolve_fields(c1, spec_names, 0)) == names_of(resolve_fields(c2, spec_names, 0)),
        params_of(resolve_fields(c1, spec_names, 0)) == params_of(
            resolve_fields(c2, spec_names, 0),
        ),
{
    assert(names_of(c1) =~= names_of(c2));
    assert(params_of(c1) =~= params_of(c2));
    lemma_alias_role_fields(c1, c2, r, 0);
    lemma_alias_resolve(c1, c2, spec_names, 0);
}

/// The VALUES list of an insert over `n` fields binds placeholder `i+1`
/// at position `i`: the numbers `1..n` in order, no gaps, no repeats.
pub proof fn lemma_placeholders_contiguous(n: int)
    ensures
        forall|i: int|
            0 <= i < n ==> crate::render::placeholder_parts(n)[i] == crate::render::dollar(
                (i + 1) as nat,
            ),
{
}

proof fn lemma_alias_delete_autos(
    c1: Seq<FieldSpecView>,
    c2: Seq<FieldSpecView>,
    cols1: Seq<char>,
    cols2: Seq<char>,
    table: Seq<char>,
    j: int,
)
    requires
        catalogs_same_but_alias(c1, c2),
        0 <= j <= c1.len(),
    ensures
        auto_accessors(OpKind::Delete, cols1, table, c1, j) == auto_accessors(
            OpKind::Delete,
            cols2,
            table,
            c2,
            j,
        ),
    decreases c1.len() - j,
{
    if j < c1.len() {
        lemma_alias_delete_autos(c1, c2, cols1, cols2, table, j + 1);
        if has_role(c1[j], Role::Delete) {
            assert(names_of(seq![c1[j]]) =~= names_of(seq![c2[j]]));
            assert(params_of(seq![c1[j]]) =~= params_of(seq![c2[j]]));
        }
    }
}

proof fn lemma_alias_delete_customs(
    c1: Seq<FieldSpecView>,
    c2: Seq<FieldSpecView>,
    cols1: Seq<char>,
    cols2: Seq<char>,
    table: Seq<char>,
    ms: Seq<MethodSpecView>,
    i: int,
)
    requires
        catalogs_same_but_alias(c1, c2),
        0 <= i <= ms.len(),
    ensures
        custom_accessors(OpKind::Delete, cols1, table, c1, ms, i) == custom_accessors(
            OpKind::Delete,
            cols2,
            table,
            c2,
            ms,
            i,
        ),
    decreases ms.len() - i,
{
    if i < ms.len() {
        lemma_alias_delete_customs(c1, c2, cols1, cols2, table, ms, i + 1);
        lemma_alias_resolve(c1, c2, ms[i].fields, 0);
    }
}

/// The capstone of alias independence: in the delete family, whose
/// statement carries no column list, two catalogs that differ only in
/// aliases yield accessors identical to the last byte — same names, same
/// SQL text, same parameter names, positions and types — whatever column
/// texts the two catalogs would render.
pub proof fn lemma_alias_delete_family_identical(
    c1: Seq<FieldSpecView>,
    c2: Seq<FieldSpecView>,
    cols1: Seq<char>,
    cols2: Seq<char>,
    table: Seq<char>,
    ms: Seq<MethodSpecView>,
)
    requires
        catalogs_same_but_alias(c1, c2),
    ensures
        auto_accessors(OpKind::Delete, cols1, table, c1, 0) == auto_accessors(
            OpKind::Delete,
            cols2,
            table,
            c2,
            0,
        ),
        custom_accessors(OpKind::Delete, cols1, table, c1, ms, 0) == custom_accessors(
            OpKind::Delete,
            cols2,
            table,
            c2,
            ms,
            0,
        ),
{
    lemma_alias_delete_autos(c1, c2, cols1, cols2, table, 0);
    lemma_alias_delete_customs(c1, c2, cols1, cols2, table, ms, 0);
}

/// Generation is a pure function of the metadata: on equal inputs, every
/// family synthesizes byte-identical SQL text and identical accessor
/// signatures.
pub proof fn lemma_generation_deterministic(a: TypeDefView, b: TypeDefView, kind: OpKind)
    requires
        a == b,
    ensures
        spec_filter_family(a, kind) == spec_filter_family(b, kind),
        spec_select_all(a) == spec_select_all(b),
        spec_insert(a) == spec_insert(b),
        spec_insert_many(a) == spec_insert_many(b),
        spec_update(a) == spec_update(b),
        spec_descriptor(a) == spec_descriptor(b),
{
}

/// A custom method spec whose fields all miss the catalog aborts the
/// whole family, naming the method and its field list; the specs before
/// it, which do resolve, yield nothing of the output.
pub proof fn lemma_unresolved_spec_aborts(
    kind: OpKind,
    cols: Seq<char>,
    table: Seq<char>,
    c: Seq<FieldSpecView>,
    ms: Seq<MethodSpecView>,
    i: int,
)
    requires
        0 <= i < ms.len(),
        resolve_fields(c, ms[i].fields, 0).len() == 0,
        forall|j: int| 0 <= j < i ==> resolve_fields(c, (#[trigger] ms[j]).fields, 0).len() > 0,
    ensures
        custom_accessors(kind, cols, table, c, ms, 0) == Err::<Seq<AccessorView>, GenErrorView>(
            GenErrorView::UnresolvedMethod(ms[i].name, ms[i].fields),
        ),
{
    lemma_unresolved_spec_aborts_from(kind, cols, table, c, ms, 0, i);
}

proof fn lemma_unresolved_spec_aborts_from(
    kind: OpKind,
    cols: Seq<char>,
    table: Seq<char>,
    c: Seq<FieldSpecView>,
    ms: Seq<MethodSpecView>,
    s: int,
    i: int,
)
    requires
        0 <= s <= i < ms.len(),
        resolve_fields(c, ms[i].fields, 0).len() == 0,
        forall|j: int| 0 <= j < i ==> resolve_fields(c, (#[trigger] ms[j]).fields, 0).len() > 0,
    ensures
        custom_accessors(kind, cols, table, c, ms, s) == Err::<Seq<AccessorView>, GenErrorView>(
            GenErrorView::UnresolvedMethod(ms[i].name, ms[i].fields),
        ),
    decreases i - s,
{
    if s < i {
        lemma_unresolved_spec_aborts_from(kind, cols, table, c, ms, s + 1, i);
    }
}

/// When the custom specs of a family all resolve, each of the accessors
/// they yield filters on at least one field: a resolving spec never
/// degrades to an unfiltered or no-op query.
pub proof fn lemma_custom_accessors_filtered(
    kind: OpKind,
    cols: Seq<char>,
    table: Seq<char>,
    c: Seq<FieldSpecView>,
    ms: Seq<MethodSpecView>,
    i: int,
)
    requires
        0 <= i <= ms.len(),
    ensures
        custom_accessors(kind, cols, table, c, ms, i) matches Ok(v) ==> forall|k: int|
            0 <= k < v.len() ==> (#[trigger] v[k]).query.params.len() > 0,
    decreases ms.len() - i,
{
    if i < ms.len() {
        lemma_custom_accessors_filtered(kind, cols, table, c, ms, i + 1);
        if custom_accessors(kind, cols, table, c, ms, i) is Ok {
            let v = custom_accessors(kind, cols, table, c, ms, i)->Ok_0;
            let rest = custom_accessors(kind, cols, table, c, ms, i + 1)->Ok_0;
            assert forall|k: int| 0 <= k < v.len() implies (#[trigger] v[k]).query.params.len()
                > 0 by {
                if k == 0 {
                    assert(v[0].query.params.len() == resolve_fields(c, ms[i].fields, 0).len());
                } else {
                    assert(v[k] == rest[k - 1]);
                }
            }
        }
    }
}

} // verus!
