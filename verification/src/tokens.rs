//! Tokens of the directive mini-language.
//!
//! A metadata group such as `name = users, select = active(id, flag)` is
//! handed to the parser as a flat token list; groups in parentheses are
//! delimited by `OpenParen` / `CloseParen` tokens.

use vstd::prelude::*;

verus! {

/// One token of a metadata group.
pub enum Tok {
    /// A bare identifier.
    Ident(String),
    /// A quoted literal, stored without its surrounding quotes.
    Text(String),
    /// `=`
    Equals,
    /// `,`
    Comma,
    /// `(`
    OpenParen,
    /// `)`
    CloseParen,
}

/// The mathematical shape of a token: its text as a character sequence.
pub enum TokView {
    Ident(Seq<char>),
    Text(Seq<char>),
    Equals,
    Comma,
    OpenParen,
    CloseParen,
}

impl View for Tok {
    type V = TokView;

    open spec fn view(&self) -> TokView {
        match self {
            Tok::Ident(s) => TokView::Ident(s@),
            Tok::Text(s) => TokView::Text(s@),
            Tok::Equals => TokView::Equals,
            Tok::Comma => TokView::Comma,
            Tok::OpenParen => TokView::OpenParen,
            Tok::CloseParen => TokView::CloseParen,
        }
    }
}

impl DeepView for Tok {
    type V = TokView;

    open spec fn deep_view(&self) -> TokView {
        self.view()
    }
}

} // verus!
