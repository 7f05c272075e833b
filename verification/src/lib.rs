//! Session-issuance core for point-of-sale terminals.
//!
//! A staff member authenticates at a physical node (a terminal identified by
//! a stable public identifier); when both the node and the staff credentials
//! are valid, an opaque session token binding the staff member to that node
//! is issued. This crate holds the decision logic: resolving lookup rows,
//! verifying credentials, merging the two concurrent lookup outcomes, and
//! formatting and deduplicating tokens. The surrounding process performs the
//! actual store queries and hands their decoded rows to these functions.

pub mod credential;
pub mod issuer;
pub mod login;
pub mod model;
pub mod numeral;
pub mod registry;
pub mod statement;
pub mod store;

use vstd::prelude::*;

verus! {

} // verus!
