//! Build-time synthesis of relational data-access queries.
//!
//! Given a record type's field list and its metadata directives (a small
//! `key = value` / `key = method(field, ...)` mini-language), this crate
//! derives deterministic, positionally parameterized SQL statements and the
//! accessor signatures bound to them: single-row and multi-row selects,
//! full-table selects, inserts (single and batch), updates and deletes.

use vstd::prelude::*;

pub mod catalog;
pub mod directives;
pub mod errors;
pub mod laws;
pub mod parser;
pub mod queries;
pub mod render;
pub mod strutil;
pub mod tokens;

verus! {

/// Reflective descriptor that generated code implements for an annotated
/// record type: its canonical table name, its field names in declaration
/// order, and the aliased SQL column list used by SELECT and INSERT.
pub trait SqlTable {
    fn name() -> &'static str;

    fn fields() -> Vec<&'static str>;

    fn sql_columns() -> Vec<&'static str>;
}

} // verus!
