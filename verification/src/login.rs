//! Login Orchestrator: merging the outcomes of the two concurrent lookups
//! (node resolution, staff-credential verification) into a single decision.
//!
//! The two lookups are independent reads run concurrently by the caller and
//! joined before any decision: both outcomes are required here, so a failure
//! in one never short-circuits the other. Issuance happens strictly after the
//! join, and only on the success of both.

use vstd::prelude::*;
use crate::credential::{spec_verify, verify_staff};
use crate::issuer::{make_session_token, token_rep};
use crate::model::{LoginFailure, NodeFailure, NodeIdentity, StaffFailure, StaffIdentity};
use crate::registry::{resolve_node, spec_resolve};
use crate::store::TokenStore;

verus! {

/// What the orchestrator decides after the join: issue a token for the
/// resolved numeric identifiers, or fail the call.
#[derive(Debug, PartialEq, Eq)]
pub enum Decision {
    /// Both lookups succeeded: issue exactly one token for this pair.
    Issue { node_id: u64, staff_id: u64 },
    /// At least one lookup failed: fail the call, issue nothing.
    Fail(LoginFailure),
}

/// The login failure reported for a node-resolution failure.
pub open spec fn node_failure_report(f: NodeFailure) -> LoginFailure {
    match f {
        NodeFailure::NotFound => LoginFailure::NodeNotFound,
        NodeFailure::Storage(e) => LoginFailure::Storage(e),
    }
}

/// The login failure reported for a staff-verification failure.
pub open spec fn staff_failure_report(f: StaffFailure) -> LoginFailure {
    match f {
        StaffFailure::NotFound => LoginFailure::StaffNotFound,
        StaffFailure::InvalidCredential => LoginFailure::InvalidCredential,
        StaffFailure::Storage(e) => LoginFailure::Storage(e),
    }
}

/// The decision table over the two joined outcomes. A node failure decides
/// the call regardless of the staff outcome (the tie-break when both fail);
/// otherwise a staff failure decides it; only with both successes is a token
/// issued, for the resolved numeric identifiers.
pub open spec fn spec_decision(
    node: Result<NodeIdentity, NodeFailure>,
    staff: Result<u64, StaffFailure>,
) -> Decision {
    match node {
        Result::Err(nf) => Decision::Fail(node_failure_report(nf)),
        Result::Ok(n) => match staff {
            Result::Err(sf) => Decision::Fail(staff_failure_report(sf)),
            Result::Ok(staff_id) => Decision::Issue { node_id: n.id, staff_id },
        },
    }
}

/// Decides the call from the two joined lookup outcomes. Taking both
/// outcomes, it can only run after both lookups have completed; the
/// discarded branch's result is never acted on.
pub fn login_decision(
    node: Result<NodeIdentity, NodeFailure>,
    staff: Result<u64, StaffFailure>,
) -> (d: Decision)
    ensures
        d == spec_decision(node, staff),
{
    match node {
        Result::Err(nf) => match nf {
            NodeFailure::NotFound => Decision::Fail(LoginFailure::NodeNotFound),
            NodeFailure::Storage(e) => Decision::Fail(LoginFailure::Storage(e)),
        },
        Result::Ok(n) => match staff {
            Result::Err(sf) => match sf {
                StaffFailure::NotFound => Decision::Fail(LoginFailure::StaffNotFound),
                StaffFailure::InvalidCredential => Decision::Fail(LoginFailure::InvalidCredential),
                StaffFailure::Storage(e) => Decision::Fail(LoginFailure::Storage(e)),
            },
            Result::Ok(staff_id) => Decision::Issue { node_id: n.id, staff_id },
        },
    }
}

/// Decides the call from the decoded rows of both lookups and the supplied
/// digest: node resolution and staff verification applied to their rows,
/// merged by the decision table.
pub fn login_outcome(
    node_rows: &Vec<NodeIdentity>,
    staff_rows: &Vec<StaffIdentity>,
    digest: &str,
) -> (d: Decision)
    ensures
        d == spec_decision(spec_resolve(node_rows@), spec_verify(staff_rows@, digest@)),
{
    let node = resolve_node(node_rows);
    let staff = verify_staff(staff_rows, digest);
    login_decision(node, staff)
}

/// The whole login transaction against the store model: decide from the
/// joined lookup outcomes; on the success of both, issue exactly one token
/// for the resolved (node, staff) pair, replacing any live token of that pair
/// and touching no other; on any failure, report it and leave the store
/// untouched.
pub fn staff_login(
    store: &mut TokenStore,
    node_rows: &Vec<NodeIdentity>,
    staff_rows: &Vec<StaffIdentity>,
    digest: &str,
    epoch_ms: u64,
    validity_ms: u64,
) -> (r: Result<String, LoginFailure>)
    requires
        old(store).wf(),
        epoch_ms + validity_ms <= u64::MAX,
    ensures
        final(store).wf(),
        ({
            let d = spec_decision(spec_resolve(node_rows@), spec_verify(staff_rows@, digest@));
            match d {
                Decision::Issue { node_id, staff_id } => {
                    let pair = (node_id, staff_id);
                    let issued = final(store).live()[pair];
                    &&& r is Ok
                    &&& r->Ok_0@ == token_rep(node_id as nat, epoch_ms as nat)
                    &&& final(store).live().dom() == old(store).live().dom().insert(pair)
                    &&& issued.token@ == token_rep(node_id as nat, epoch_ms as nat)
                    &&& issued.node_id == node_id
                    &&& issued.staff_id == staff_id
                    &&& issued.created_ms == epoch_ms
                    &&& issued.expires_ms == epoch_ms + validity_ms
                    &&& final(store).live().remove(pair) == old(store).live().remove(pair)
                },
                Decision::Fail(f) => {
                    &&& r == Result::<String, LoginFailure>::Err(f)
                    &&& *final(store) == *old(store)
                },
            }
        }),
{
    let d = login_outcome(node_rows, staff_rows, digest);
    match d {
        Decision::Issue { node_id, staff_id } => {
            let t = make_session_token(node_id, staff_id, epoch_ms, validity_ms);
            let token = t.token.clone();
            store.upsert(t);
            proof {
                let pair = (node_id, staff_id);
                assert(store.live().dom() =~= old(store).live().dom().insert(pair));
                assert(store.live().remove(pair) =~= old(store).live().remove(pair));
            }
            Result::Ok(token)
        },
        Decision::Fail(f) => Result::Err(f),
    }
}

/// Law: no token on any failure. Whenever either lookup fails, the decision
/// is a failure, and no issuance is decided.
pub proof fn lemma_no_issuance_on_failure(
    node: Result<NodeIdentity, NodeFailure>,
    staff: Result<u64, StaffFailure>,
)
    requires
        node is Err || staff is Err,
    ensures
        spec_decision(node, staff) is Fail,
{
}

/// Law: exactly one issuance on success. When both lookups succeed, the
/// decision is issuance, and it carries the resolved numeric node and staff
/// identifiers, not the raw caller-supplied strings.
pub proof fn lemma_issuance_uses_resolved_ids(
    node: Result<NodeIdentity, NodeFailure>,
    staff: Result<u64, StaffFailure>,
)
    requires
        node is Ok,
        staff is Ok,
    ensures
        spec_decision(node, staff) == (Decision::Issue {
            node_id: node->Ok_0.id,
            staff_id: staff->Ok_0,
        }),
{
}

/// Law: tie-break. A node-resolution failure decides the call whatever the
/// staff outcome; in particular, when both lookups fail the reported kind is
/// the node failure's, so two missing rows report `NodeNotFound`.
pub proof fn lemma_node_failure_priority(
    node: Result<NodeIdentity, NodeFailure>,
    staff: Result<u64, StaffFailure>,
)
    requires
        node is Err,
    ensures
        spec_decision(node, staff) == Decision::Fail(node_failure_report(node->Err_0)),
        node->Err_0 == NodeFailure::NotFound ==> spec_decision(node, staff) == Decision::Fail(
            LoginFailure::NodeNotFound,
        ),
{
}

} // verus!
