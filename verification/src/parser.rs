//! The directive parser: a recursive-descent grammar over token lists.
//!
//! One metadata group is a comma-separated list of entries:
//!
//! ```text
//! group  :=  [ entry { "," entry } [ "," ] ]
//! entry  :=  ident                          -- a bare marker
//!          | ident "=" ident                -- key = scalar word
//!          | ident "=" literal              -- key = quoted scalar
//!          | ident "=" ident "(" args ")"   -- key = method spec
//! args   :=  [ ident { "," ident } ]
//! ```
//!
//! The spec functions below are the authoritative definition of the grammar;
//! the executable parser is proved to return exactly what they describe.

use vstd::prelude::*;

use crate::errors::GenError;
use crate::tokens::Tok;
use crate::tokens::TokView;

verus! {

/// A custom method spec: a method name and the ordered field names of its
/// filter list.
pub struct MethodSpec {
    pub name: String,
    pub fields: Vec<String>,
}

/// The mathematical shape of a [`MethodSpec`].
pub struct MethodSpecView {
    pub name: Seq<char>,
    pub fields: Seq<Seq<char>>,
}

impl DeepView for MethodSpec {
    type V = MethodSpecView;

    open spec fn deep_view(&self) -> MethodSpecView {
        MethodSpecView { name: self.name@, fields: self.fields.deep_view() }
    }
}

/// The scalar value of a `key = value` entry: a bare word or a quoted
/// literal.
pub enum ScalarValue {
    Word(String),
    Text(String),
}

/// The mathematical shape of a [`ScalarValue`].
pub enum ScalarValueView {
    Word(Seq<char>),
    Text(Seq<char>),
}

impl DeepView for ScalarValue {
    type V = ScalarValueView;

    open spec fn deep_view(&self) -> ScalarValueView {
        match self {
            ScalarValue::Word(w) => ScalarValueView::Word(w@),
            ScalarValue::Text(t) => ScalarValueView::Text(t@),
        }
    }
}

/// One parsed entry of a metadata group.
pub enum Directive {
    /// A bare marker, such as a field's role tag.
    Marker(String),
    /// `key = scalar`
    Scalar(String, ScalarValue),
    /// `key = method_name(field, ...)`
    Method(String, MethodSpec),
}

/// The mathematical shape of a [`Directive`].
pub enum DirectiveView {
    Marker(Seq<char>),
    Scalar(Seq<char>, ScalarValueView),
    Method(Seq<char>, MethodSpecView),
}

impl DeepView for Directive {
    type V = DirectiveView;

    open spec fn deep_view(&self) -> DirectiveView {
        match self {
            Directive::Marker(m) => DirectiveView::Marker(m@),
            Directive::Scalar(k, v) => DirectiveView::Scalar(k@, v.deep_view()),
            Directive::Method(k, m) => DirectiveView::Method(k@, m.deep_view()),
        }
    }
}

/// Parses the argument names that follow the first one inside a group,
/// each introduced by a comma, up to the closing parenthesis. Returns the
/// names and the position one past the closing parenthesis.
pub open spec fn parse_args_tail(ts: Seq<TokView>, i: int) -> Option<(Seq<Seq<char>>, int)>
    decreases ts.len() - i,
{
    if i < ts.len() {
        match ts[i] {
            TokView::CloseParen => Some((seq![], i + 1)),
            TokView::Comma => {
                if i + 1 < ts.len() {
                    match ts[i + 1] {
                        TokView::Ident(x) => match parse_args_tail(ts, i + 2) {
                            Some(p) => Some((seq![x] + p.0, p.1)),
                            None => None,
                        },
                        _ => None,
                    }
                } else {
                    None
                }
            },
            _ => None,
        }
    } else {
        None
    }
}

/// Parses a method spec's argument list, starting right after the opening
/// parenthesis.
pub open spec fn parse_args(ts: Seq<TokView>, i: int) -> Option<(Seq<Seq<char>>, int)> {
    if i < ts.len() {
        match ts[i] {
            TokView::CloseParen => Some((seq![], i + 1)),
            TokView::Ident(x) => match parse_args_tail(ts, i + 1) {
                Some(p) => Some((seq![x] + p.0, p.1)),
                None => None,
            },
            _ => None,
        }
    } else {
        None
    }
}

/// Parses one entry starting at `i`. Returns the entry and the position of
/// the token that follows it.
pub open spec fn parse_entry(ts: Seq<TokView>, i: int) -> Option<(DirectiveView, int)> {
    if i < ts.len() {
        match ts[i] {
            TokView::Ident(k) => {
                if i + 1 >= ts.len() {
                    Some((DirectiveView::Marker(k), i + 1))
                } else {
                    match ts[i + 1] {
                        TokView::Comma => Some((DirectiveView::Marker(k), i + 1)),
                        TokView::Equals => {
                            if i + 2 < ts.len() {
                                match ts[i + 2] {
                                    TokView::Text(t) => Some(
                                        (
                                            DirectiveView::Scalar(k, ScalarValueView::Text(t)),
                                            i + 3,
                                        ),
                                    ),
                                    TokView::Ident(w) => {
                                        if i + 3 < ts.len() && ts[i + 3] is OpenParen {
                                            match parse_args(ts, i + 4) {
                                                Some(p) => Some(
                                                    (
                                                        DirectiveView::Method(
                                                            k,
                                                            MethodSpecView { name: w, fields: p.0 },
                                                        ),
                                                        p.1,
                                                    ),
                                                ),
                                                None => None,
                                            }
                                        } else {
                                            Some(
                                                (
                                                    DirectiveView::Scalar(
                                                        k,
                                                        ScalarValueView::Word(w),
                                                    ),
                                                    i + 3,
                                                ),
                                            )
                                        }
                                    },
                                    _ => None,
                                }
                            } else {
                                None
                            }
                        },
                        _ => None,
                    }
                }
            },
            _ => None,
        }
    } else {
        None
    }
}

/// Parses the entries of a whole group from position `i` to the end. A
/// trailing comma is tolerated.
pub open spec fn parse_entries(ts: Seq<TokView>, i: int) -> Option<Seq<DirectiveView>>
    decreases ts.len() - i,
{
    if i >= ts.len() {
        Some(seq![])
    } else {
        match parse_entry(ts, i) {
            Some(p) => {
                if p.1 >= ts.len() {
                    Some(seq![p.0])
                } else if i < p.1 && ts[p.1] is Comma {
                    match parse_entries(ts, p.1 + 1) {
                        Some(rest) => Some(seq![p.0] + rest),
                        None => None,
                    }
                } else {
                    None
                }
            },
            None => None,
        }
    }
}

/// Parses every group of a metadata list, from group `i` on.
pub open spec fn parse_groups(gs: Seq<Seq<TokView>>, i: int) -> Option<Seq<Seq<DirectiveView>>>
    decreases gs.len() - i,
{
    if i >= gs.len() {
        Some(seq![])
    } else {
        match parse_entries(gs[i], 0) {
            Some(g) => match parse_groups(gs, i + 1) {
                Some(rest) => Some(seq![g] + rest),
                None => None,
            },
            None => None,
        }
    }
}

fn parse_args_tail_x(toks: &Vec<Tok>, i: usize, out: &mut Vec<String>) -> (r: Option<usize>)
    requires
        i <= toks@.len(),
    ensures
        match r {
            Some(j) => parse_args_tail(toks.deep_view(), i as int) matches Some(p)
                && final(out).deep_view() == old(out).deep_view() + p.0 && j as int == p.1 && i < j
                <= toks@.len(),
            None => parse_args_tail(toks.deep_view(), i as int) is None,
        },
    decreases toks@.len() - i,
{
    if i < toks.len() {
        match &toks[i] {
            Tok::CloseParen => {
                proof {
                    assert(final(out).deep_view() =~= old(out).deep_view() + Seq::<
                        Seq<char>,
                    >::empty());
                }
                Some(i + 1)
            },
            Tok::Comma => {
                if i + 1 < toks.len() {
                    match &toks[i + 1] {
                        Tok::Ident(x) => {
                            let ghost prior = out.deep_view();
                            out.push(x.clone());
                            proof {
                                assert(out.deep_view() =~= prior + seq![x@]);
                            }
                            let r = parse_args_tail_x(toks, i + 2, out);
                            proof {
                                if r is Some {
                                    let p = parse_args_tail(toks.deep_view(), i + 2).unwrap();
                                    assert(prior + seq![x@] + p.0 =~= prior + (seq![x@] + p.0));
                                }
                            }
                            r
                        },
                        _ => None,
                    }
                } else {
                    None
                }
            },
            _ => None,
        }
    } else {
        None
    }
}

fn parse_args_x(toks: &Vec<Tok>, i: usize, out: &mut Vec<String>) -> (r: Option<usize>)
    requires
        i <= toks@.len(),
    ensures
        match r {
            Some(j) => parse_args(toks.deep_view(), i as int) matches Some(p)
                && final(out).deep_view() == old(out).deep_view() + p.0 && j as int == p.1 && i < j
                <= toks@.len(),
            None => parse_args(toks.deep_view(), i as int) is None,
        },
{
    if i < toks.len() {
        match &toks[i] {
            Tok::CloseParen => {
                proof {
                    assert(final(out).deep_view() =~= old(out).deep_view() + Seq::<
                        Seq<char>,
                    >::empty());
                }
                Some(i + 1)
            },
            Tok::Ident(x) => {
                let ghost prior = out.deep_view();
                out.push(x.clone());
                proof {
                    assert(out.deep_view() =~= prior + seq![x@]);
                }
                let r = parse_args_tail_x(toks, i + 1, out);
                proof {
                    if r is Some {
                        let p = parse_args_tail(toks.deep_view(), i + 1 as int).unwrap();
                        assert(prior + seq![x@] + p.0 =~= prior + (seq![x@] + p.0));
                    }
                }
                r
            },
            _ => None,
        }
    } else {
        None
    }
}

fn parse_entry_x(toks: &Vec<Tok>, i: usize) -> (r: Option<(Directive, usize)>)
    requires
        i <= toks@.len(),
    ensures
        match r {
            Some(p) => parse_entry(toks.deep_view(), i as int) matches Some(q) && q.0
                == p.0.deep_view() && q.1 == p.1 as int && i < p.1 <= toks@.len(),
            None => parse_entry(toks.deep_view(), i as int) is None,
        },
{
    if i < toks.len() {
        match &toks[i] {
            Tok::Ident(k) => {
                if i + 1 >= toks.len() {
                    Some((Directive::Marker(k.clone()), i + 1))
                } else {
                    match &toks[i + 1] {
                        Tok::Comma => Some((Directive::Marker(k.clone()), i + 1)),
                        Tok::Equals => {
                            if i + 2 < toks.len() {
                                match &toks[i + 2] {
                                    Tok::Text(t) => Some(
                                        (
                                            Directive::Scalar(
                                                k.clone(),
                                                ScalarValue::Text(t.clone()),
                                            ),
                                            i + 3,
                                        ),
                                    ),
                                    Tok::Ident(w) => {
                                        let open = i + 3 < toks.len() && matches!(
                                            &toks[i + 3],
                                            Tok::OpenParen,
                                        );
                                        if open {
                                            let mut args: Vec<String> = Vec::new();
                                            match parse_args_x(toks, i + 4, &mut args) {
                                                Some(j) => Some(
                                                    (
                                                        Directive::Method(
                                                            k.clone(),
                                                            MethodSpec {
                                                                name: w.clone(),
                                                                fields: args,
                                                            },
                                                        ),
                                                        j,
                                                    ),
                                                ),
                                                None => None,
                                            }
                                        } else {
                                            Some(
                                                (
                                                    Directive::Scalar(
                                                        k.clone(),
                                                        ScalarValue::Word(w.clone()),
                                                    ),
                                                    i + 3,
                                                ),
                                            )
                                        }
                                    },
                                    _ => None,
                                }
                            } else {
                                None
                            }
                        },
                        _ => None,
                    }
                }
            },
            _ => None,
        }
    } else {
        None
    }
}

fn parse_entries_x(toks: &Vec<Tok>, i: usize, out: &mut Vec<Directive>) -> (r: Result<
    (),
    GenError,
>)
    requires
        i <= toks@.len(),
    ensures
        match r {
            Ok(u) => parse_entries(toks.deep_view(), i as int) matches Some(es)
                && final(out).deep_view() == old(out).deep_view() + es,
            Err(e) => parse_entries(toks.deep_view(), i as int) is None && e
                == (GenError::BadDirective),
        },
    decreases toks@.len() - i,
{
    if i >= toks.len() {
        proof {
            assert(final(out).deep_view() =~= old(out).deep_view() + Seq::<
                DirectiveView,
            >::empty());
        }
        Ok(())
    } else {
        match parse_entry_x(toks, i) {
            Some(p) => {
                let (d, j) = p;
                let ghost prior = out.deep_view();
                let ghost dv = d.deep_view();
                if j >= toks.len() {
                    out.push(d);
                    proof {
                        assert(out.deep_view() =~= prior + seq![dv]);
                    }
                    Ok(())
                } else {
                    let is_comma = matches!(&toks[j], Tok::Comma);
                    if is_comma {
                        out.push(d);
                        proof {
                            assert(out.deep_view() =~= prior + seq![dv]);
                        }
                        let r = parse_entries_x(toks, j + 1, out);
                        proof {
                            if r is Ok {
                                let rest = parse_entries(toks.deep_view(), j + 1).unwrap();
                                assert(prior + seq![dv] + rest =~= prior + (seq![dv] + rest));
                            }
                        }
                        r
                    } else {
                        Err(GenError::BadDirective)
                    }
                }
            },
            None => Err(GenError::BadDirective),
        }
    }
}

/// Parses one metadata group into its directive list.
///
/// Returns `Ok` exactly when the group follows the directive grammar, and
/// then returns precisely the entries that [`parse_entries`] describes.
pub fn parse_group(toks: &Vec<Tok>) -> (r: Result<Vec<Directive>, GenError>)
    ensures
        match r {
            Ok(ds) => parse_entries(toks.deep_view(), 0) == Some(ds.deep_view()),
            Err(e) => parse_entries(toks.deep_view(), 0) is None && e == (GenError::BadDirective),
        },
{
    let mut out: Vec<Directive> = Vec::new();
    match parse_entries_x(toks, 0, &mut out) {
        Ok(u) => {
            proof {
                let es = parse_entries(toks.deep_view(), 0).unwrap();
                assert(out.deep_view() =~= es);
            }
            Ok(out)
        },
        Err(e) => Err(e),
    }
}

/// Parses every metadata group of a list.
pub fn parse_group_list(groups: &Vec<Vec<Tok>>) -> (r: Result<Vec<Vec<Directive>>, GenError>)
    ensures
        match r {
            Ok(ds) => parse_groups(groups.deep_view(), 0) == Some(ds.deep_view()),
            Err(e) => parse_groups(groups.deep_view(), 0) is None && e
                == (GenError::BadDirective),
        },
{
    let mut out: Vec<Vec<Directive>> = Vec::new();
    let n = groups.len();
    let mut i: usize = 0;
    while i < n
        invariant
            i <= n,
            n == groups@.len(),
            forall|k: int|
                0 <= k < i ==> #[trigger] parse_entries(groups.deep_view()[k], 0) == Some(
                    out.deep_view()[k],
                ),
            out@.len() == i,
        decreases n - i,
    {
        let ghost prior = out.deep_view();
        match parse_group(&groups[i]) {
            Ok(g) => {
                out.push(g);
            },
            Err(e) => {
                proof {
                    lemma_parse_groups_bad(groups.deep_view(), i as int);
                }
                return Err(e);
            },
        }
        i += 1;
    }
    proof {
        lemma_parse_groups_all(groups.deep_view(), out.deep_view());
    }
    Ok(out)
}

proof fn lemma_parse_groups_bad(gs: Seq<Seq<TokView>>, k: int)
    requires
        0 <= k < gs.len(),
        parse_entries(gs[k], 0) is None,
    ensures
        forall|i: int| 0 <= i <= k ==> parse_groups(gs, i) is None,
    decreases gs.len(),
{
    assert forall|i: int| 0 <= i <= k implies parse_groups(gs, i) is None by {
        lemma_parse_groups_bad_from(gs, i, k);
    }
}

proof fn lemma_parse_groups_bad_from(gs: Seq<Seq<TokView>>, i: int, k: int)
    requires
        0 <= i <= k < gs.len(),
        parse_entries(gs[k], 0) is None,
    ensures
        parse_groups(gs, i) is None,
    decreases k - i,
{
    if i < k {
        lemma_parse_groups_bad_from(gs, i + 1, k);
    }
}

proof fn lemma_parse_groups_all(gs: Seq<Seq<TokView>>, ds: Seq<Seq<DirectiveView>>)
    requires
        ds.len() == gs.len(),
        forall|k: int| 0 <= k < gs.len() ==> #[trigger] parse_entries(gs[k], 0) == Some(ds[k]),
    ensures
        parse_groups(gs, 0) == Some(ds),
{
    lemma_parse_groups_all_from(gs, ds, 0);
}

proof fn lemma_parse_groups_all_from(gs: Seq<Seq<TokView>>, ds: Seq<Seq<DirectiveView>>, i: int)
    requires
        0 <= i <= gs.len(),
        ds.len() == gs.len(),
        forall|k: int| 0 <= k < gs.len() ==> #[trigger] parse_entries(gs[k], 0) == Some(ds[k]),
    ensures
        parse_groups(gs, i) == Some(ds.skip(i)),
    decreases gs.len() - i,
{
    if i >= gs.len() {
        assert(ds.skip(i) =~= Seq::<Seq<DirectiveView>>::empty());
    } else {
        lemma_parse_groups_all_from(gs, ds, i + 1);
        assert(seq![ds[i]] + ds.skip(i + 1) =~= ds.skip(i));
    }
}

} // verus!
