//! Data model: identities, session tokens, and the failure taxonomy.

use vstd::prelude::*;

verus! {

/// A node (point-of-sale terminal) identity resolved from the registry.
#[derive(Clone, Copy, PartialEq, Eq, Structural, Debug)]
pub struct NodeIdentity {
    /// Opaque numeric identifier, unique within the registry.
    pub id: u64,
}

/// A staff identity as stored: numeric identifier and credential digest.
#[derive(Clone, Debug)]
pub struct StaffIdentity {
    /// Opaque numeric identifier, unique within the credential store.
    pub id: u64,
    /// Opaque credential digest; compared against a supplied digest,
    /// never interpreted or logged.
    pub digest: String,
}

/// A session token binding a staff member to a node for a bounded period.
#[derive(Clone, Debug)]
pub struct SessionToken {
    /// Opaque token value.
    pub token: String,
    /// Owning staff identifier.
    pub staff_id: u64,
    /// Owning node identifier.
    pub node_id: u64,
    /// Creation time, milliseconds since the epoch.
    pub created_ms: u64,
    /// Expiry time, milliseconds since the epoch.
    pub expires_ms: u64,
}

/// A storage-level failure surfaced verbatim from the store.
#[derive(Clone, Debug, PartialEq, Eq)]
pub struct StoreError {
    /// The store's own failure code.
    pub code: String,
    /// The store's own diagnostic message.
    pub message: String,
}

/// Failure of the node-resolution lookup.
#[derive(Debug, PartialEq, Eq)]
pub enum NodeFailure {
    /// No node row matches the public identifier.
    NotFound,
    /// The lookup itself failed in the store.
    Storage(StoreError),
}

/// Failure of staff-credential verification.
#[derive(Debug, PartialEq, Eq)]
pub enum StaffFailure {
    /// No staff row matches the username.
    NotFound,
    /// The staff row exists but the supplied digest does not match.
    InvalidCredential,
    /// The lookup itself failed in the store.
    Storage(StoreError),
}

/// The failure taxonomy reported by the login orchestration.
#[derive(Debug, PartialEq, Eq)]
pub enum LoginFailure {
    /// The node's public identifier resolved to no node.
    NodeNotFound,
    /// The username resolved to no staff row.
    StaffNotFound,
    /// The staff row exists but the supplied digest does not match.
    InvalidCredential,
    /// The token write failed; wraps the underlying storage error.
    Issue(StoreError),
    /// A lookup failed in the store; surfaced verbatim.
    Storage(StoreError),
}

impl LoginFailure {
    /// The taxonomy label reported at the caller boundary: `"notfound"` for a
    /// missing node or staff row, `"invalid"` for a digest mismatch, and the
    /// store's own code passed through for storage-level failures.
    pub open spec fn spec_code(&self) -> Seq<char> {
        match self {
            LoginFailure::NodeNotFound => "notfound"@,
            LoginFailure::StaffNotFound => "notfound"@,
            LoginFailure::InvalidCredential => "invalid"@,
            LoginFailure::Issue(e) => e.code@,
            LoginFailure::Storage(e) => e.code@,
        }
    }

    /// Renders the boundary label for this failure.
    pub fn code(&self) -> (r: String)
        ensures
            r@ == self.spec_code(),
    {
        match self {
            LoginFailure::NodeNotFound => String::from_str("notfound"),
            LoginFailure::StaffNotFound => String::from_str("notfound"),
            LoginFailure::InvalidCredential => String::from_str("invalid"),
            LoginFailure::Issue(e) => e.code.clone(),
            LoginFailure::Storage(e) => e.code.clone(),
        }
    }
}

} // verus!
