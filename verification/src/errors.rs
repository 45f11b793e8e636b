//! Generation-time failures. Every failure is fatal for the whole pass of
//! the type at hand: no partial accessor set is ever produced.

use vstd::prelude::*;

verus! {

/// Why a generation pass was aborted.
#[derive(Debug)]
pub enum GenError {
    /// A metadata group does not follow the directive grammar, or a
    /// recognized key carries a value of the wrong shape (a method-spec key
    /// with a scalar value, or a scalar key with a method value).
    BadDirective,
    /// A field carries a bare marker that is not a known role tag.
    UnknownRole(String),
    /// Two fields of the record share this name.
    DuplicateField(String),
    /// An insert-family request was made for a record without fields.
    EmptyFields,
    /// A custom method spec (its name is carried first) listed only fields
    /// (carried second) that are absent from the catalog.
    UnresolvedMethod(String, Vec<String>),
}

/// The mathematical shape of a [`GenError`].
pub enum GenErrorView {
    BadDirective,
    UnknownRole(Seq<char>),
    DuplicateField(Seq<char>),
    EmptyFields,
    UnresolvedMethod(Seq<char>, Seq<Seq<char>>),
}

impl View for GenError {
    type V = GenErrorView;

    open spec fn view(&self) -> GenErrorView {
        match self {
            GenError::BadDirective => GenErrorView::BadDirective,
            GenError::UnknownRole(m) => GenErrorView::UnknownRole(m@),
            GenError::DuplicateField(n) => GenErrorView::DuplicateField(n@),
            GenError::EmptyFields => GenErrorView::EmptyFields,
            GenError::UnresolvedMethod(m, fs) => GenErrorView::UnresolvedMethod(
                m@,
                fs.deep_view(),
            ),
        }
    }
}

impl DeepView for GenError {
    type V = GenErrorView;

    open spec fn deep_view(&self) -> GenErrorView {
        self.view()
    }
}

} // verus!
