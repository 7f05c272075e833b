//! Parameterized statements handed to the backing store.
//!
//! Caller-supplied fields (username, node public identifier) are untrusted:
//! they are bound as data parameters and never interpolated into the SQL
//! text, which each builder fixes to a constant.

use vstd::prelude::*;

verus! {

/// A statement for the relational store: constant SQL text with `$n`
/// placeholders, and the values to bind to them, in placeholder order.
pub struct SqlQuery {
    /// The SQL text; a constant, free of caller-supplied content.
    pub sql: String,
    /// The values bound as data to `$1`, `$2`, ... in order.
    pub params: Vec<String>,
}

} // verus!
