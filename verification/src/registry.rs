//! Node Registry accessor: resolving a node's public identifier to its
//! internal identity.

use vstd::prelude::*;
use crate::model::{NodeFailure, NodeIdentity};
use crate::statement::SqlQuery;

verus! {

/// The SQL text of the node lookup; the public identifier is bound as `$1`.
pub open spec fn node_select_text() -> Seq<char> {
    "SELECT id FROM nodes WHERE uuid = $1"@
}

/// Builds the node lookup statement for a caller-supplied public identifier.
/// The identifier travels as a bound parameter, never in the SQL text.
pub fn node_query(public_id: &str) -> (q: SqlQuery)
    ensures
        q.sql@ == node_select_text(),
        q.params@.len() == 1,
        q.params@[0]@ == public_id@,
{
    let mut params: Vec<String> = Vec::new();
    params.push(String::from_str(public_id));
    SqlQuery { sql: String::from_str("SELECT id FROM nodes WHERE uuid = $1"), params }
}

/// What node resolution returns for a given sequence of matching rows:
/// zero rows signal `NotFound` (not an error); otherwise the first row in
/// store-defined order is the resolved identity.
pub open spec fn spec_resolve(rows: Seq<NodeIdentity>) -> Result<NodeIdentity, NodeFailure> {
    if rows.len() == 0 {
        Result::Err(NodeFailure::NotFound)
    } else {
        Result::Ok(rows[0])
    }
}

/// Resolves the rows returned by the node lookup: an empty result is a
/// `NotFound` signal, never an error; otherwise the first row is taken.
pub fn resolve_node(rows: &Vec<NodeIdentity>) -> (r: Result<NodeIdentity, NodeFailure>)
    ensures
        r == spec_resolve(rows@),
{
    if rows.len() < 1 {
        Result::Err(NodeFailure::NotFound)
    } else {
        Result::Ok(rows[0])
    }
}

} // verus!
