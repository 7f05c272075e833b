//! Token Issuer: building the token value, the statement that durably
//! associates it with a (node, staff) pair, and the issuance outcome.

use vstd::prelude::*;
use crate::model::{LoginFailure, SessionToken, StoreError};
use crate::numeral::{dec_rep, u64_to_dec};
use crate::statement::SqlQuery;

verus! {

/// The token value for a node and an issuance instant:
/// `"<nodeId>-<epochMillis>"`, both numbers in decimal. Collisions are
/// possible only for two issuances on the same node within one millisecond.
pub open spec fn token_rep(node_id: nat, epoch_ms: nat) -> Seq<char> {
    dec_rep(node_id) + seq!['-'] + dec_rep(epoch_ms)
}

/// Renders the token value for a node and an issuance instant.
pub fn token_value(node_id: u64, epoch_ms: u64) -> (t: String)
    ensures
        t@ == token_rep(node_id as nat, epoch_ms as nat),
{
    let mut t = u64_to_dec(node_id);
    let ms = u64_to_dec(epoch_ms);
    t.append("-");
    t.append(ms.as_str());
    proof {
        reveal_strlit("-");
        assert(t@ =~= token_rep(node_id as nat, epoch_ms as nat));
    }
    t
}

/// The SQL text of the token write; an upsert keyed by the token value, so a
/// conflicting live record is replaced rather than reported as a duplicate.
/// The expiry column is set by the store at insertion time.
pub open spec fn issue_text() -> Seq<char> {
    "REPLACE INTO auths (token, node_id, staff_id) VALUES ($1, $2, $3)"@
}

/// Builds the token-write statement for a token and the resolved numeric
/// node and staff identifiers, all bound as data parameters.
pub fn issue_statement(token: &str, node_id: u64, staff_id: u64) -> (q: SqlQuery)
    ensures
        q.sql@ == issue_text(),
        q.params@.len() == 3,
        q.params@[0]@ == token@,
        q.params@[1]@ == dec_rep(node_id as nat),
        q.params@[2]@ == dec_rep(staff_id as nat),
{
    let mut params: Vec<String> = Vec::new();
    params.push(String::from_str(token));
    params.push(u64_to_dec(node_id));
    params.push(u64_to_dec(staff_id));
    SqlQuery {
        sql: String::from_str("REPLACE INTO auths (token, node_id, staff_id) VALUES ($1, $2, $3)"),
        params,
    }
}

/// Builds the session-token record for a resolved (node, staff) pair, issued
/// at `epoch_ms` and expiring after the deployment's validity window.
pub fn make_session_token(node_id: u64, staff_id: u64, epoch_ms: u64, validity_ms: u64) -> (t:
    SessionToken)
    requires
        epoch_ms + validity_ms <= u64::MAX,
    ensures
        t.token@ == token_rep(node_id as nat, epoch_ms as nat),
        t.node_id == node_id,
        t.staff_id == staff_id,
        t.created_ms == epoch_ms,
        t.expires_ms == epoch_ms + validity_ms,
{
    SessionToken {
        token: token_value(node_id, epoch_ms),
        staff_id,
        node_id,
        created_ms: epoch_ms,
        expires_ms: epoch_ms + validity_ms,
    }
}

/// Maps the store's answer to the token write to the issuance outcome: on
/// success the token value is returned to the caller; any persistence failure
/// surfaces as `IssueFailure` wrapping the storage error, and no retry is
/// attempted.
pub fn issue_outcome(token: String, store_result: Result<u64, StoreError>) -> (r: Result<
    String,
    LoginFailure,
>)
    ensures
        store_result is Ok ==> r == Result::<String, LoginFailure>::Ok(token),
        store_result is Err ==> r == Result::<String, LoginFailure>::Err(
            LoginFailure::Issue(store_result->Err_0),
        ),
{
    match store_result {
        Result::Ok(_) => Result::Ok(token),
        Result::Err(e) => Result::Err(LoginFailure::Issue(e)),
    }
}

} // verus!
