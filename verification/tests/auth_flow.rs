use pos_auth::credential::{digest_matches, staff_query, verify_staff};
use pos_auth::issuer::{issue_outcome, issue_statement, make_session_token, token_value};
use pos_auth::login::{login_decision, login_outcome, staff_login, Decision};
use pos_auth::model::{
    LoginFailure, NodeFailure, NodeIdentity, SessionToken, StaffFailure, StaffIdentity, StoreError,
};
use pos_auth::numeral::u64_to_dec;
use pos_auth::registry::{node_query, resolve_node};
use pos_auth::store::TokenStore;

fn seeded_staff() -> Vec<StaffIdentity> {
    vec![StaffIdentity { id: 1, digest: "captaincosmo".to_string() }]
}

fn seeded_node() -> Vec<NodeIdentity> {
    // what the node lookup returns for "com.posnode.ocean.fs01"
    vec![NodeIdentity { id: 1 }]
}

#[test]
fn dec_zero() {
    assert_eq!(u64_to_dec(0), "0");
}

#[test]
fn dec_round_number() {
    assert_eq!(u64_to_dec(10), "10");
    assert_eq!(u64_to_dec(1000), "1000");
}

#[test]
fn dec_largest() {
    assert_eq!(u64_to_dec(u64::MAX), "18446744073709551615");
}

#[test]
fn token_value_is_node_dash_millis() {
    assert_eq!(token_value(1, 1699999999999), "1-1699999999999");
    assert_eq!(token_value(42, 0), "42-0");
}

#[test]
fn node_query_binds_public_id_as_data() {
    let q = node_query("com.posnode.ocean.fs01");
    assert_eq!(q.sql, "SELECT id FROM nodes WHERE uuid = $1");
    assert_eq!(q.params, vec!["com.posnode.ocean.fs01".to_string()]);
}

#[test]
fn node_query_keeps_hostile_input_out_of_sql() {
    let q = node_query("x' OR '1'='1");
    assert_eq!(q.sql, "SELECT id FROM nodes WHERE uuid = $1");
    assert_eq!(q.params, vec!["x' OR '1'='1".to_string()]);
}

#[test]
fn staff_query_binds_username_as_data() {
    let q = staff_query("admin");
    assert_eq!(q.sql, "SELECT id, passhash FROM staffs WHERE username = $1");
    assert_eq!(q.params, vec!["admin".to_string()]);
}

#[test]
fn issue_statement_binds_token_and_ids() {
    let q = issue_statement("3-500", 3, 7);
    assert_eq!(q.sql, "REPLACE INTO auths (token, node_id, staff_id) VALUES ($1, $2, $3)");
    assert_eq!(q.params, vec!["3-500".to_string(), "3".to_string(), "7".to_string()]);
}

#[test]
fn digest_comparison_is_exact() {
    assert!(digest_matches("captaincosmo", "captaincosmo"));
    assert!(!digest_matches("captaincosmo", "captaincosmO"));
    assert!(!digest_matches("captaincosmo", "captaincosm"));
    assert!(!digest_matches("", "captaincosmo"));
    assert!(digest_matches("", ""));
}

#[test]
fn resolve_node_takes_first_row() {
    let rows = vec![NodeIdentity { id: 5 }, NodeIdentity { id: 9 }];
    assert_eq!(resolve_node(&rows), Ok(NodeIdentity { id: 5 }));
}

// Scenario: the store returns zero rows for a lookup; the accessor reports a
// NotFound signal, never a storage error.
#[test]
fn zero_rows_is_not_found_not_an_error() {
    assert_eq!(resolve_node(&Vec::new()), Err(NodeFailure::NotFound));
    assert_eq!(verify_staff(&Vec::new(), "captaincosmo"), Err(StaffFailure::NotFound));
}

#[test]
fn verify_staff_matching_digest_yields_id() {
    assert_eq!(verify_staff(&seeded_staff(), "captaincosmo"), Ok(1));
}

#[test]
fn verify_staff_mismatch_is_invalid_credential() {
    assert_eq!(verify_staff(&seeded_staff(), "wrongdigest"), Err(StaffFailure::InvalidCredential));
}

// Scenario: valid staff digest for id 1 and a node public id that resolves to
// id 1 issue a token prefixed "1-".
#[test]
fn login_valid_pair_issues_prefixed_token() {
    let mut store = TokenStore::new();
    let r = staff_login(&mut store, &seeded_node(), &seeded_staff(), "captaincosmo", 1699999999999, 3_600_000);
    let token = r.expect("both lookups succeed");
    assert!(token.starts_with("1-"));
    assert_eq!(token, "1-1699999999999");
}

// Scenario: the username resolves but the digest mismatches.
#[test]
fn login_digest_mismatch_fails_invalid_credential() {
    let d = login_outcome(&seeded_node(), &seeded_staff(), "nicecosmo");
    assert_eq!(d, Decision::Fail(LoginFailure::InvalidCredential));
}

// Scenario: the node public id matches no row; valid staff credentials do not
// rescue the call.
#[test]
fn login_unknown_node_fails_node_not_found() {
    let d = login_outcome(&Vec::new(), &seeded_staff(), "captaincosmo");
    assert_eq!(d, Decision::Fail(LoginFailure::NodeNotFound));
}

// Scenario: the username matches no row while the node is valid.
#[test]
fn login_unknown_staff_fails_staff_not_found() {
    let d = login_outcome(&seeded_node(), &Vec::new(), "captaincosmo");
    assert_eq!(d, Decision::Fail(LoginFailure::StaffNotFound));
}

// Tie-break: when both lookups fail, the node failure is the one reported.
#[test]
fn login_both_missing_reports_node_not_found() {
    let d = login_outcome(&Vec::new(), &Vec::new(), "captaincosmo");
    assert_eq!(d, Decision::Fail(LoginFailure::NodeNotFound));
}

#[test]
fn node_failure_takes_priority_over_credential_failure() {
    let d = login_decision(
        Err(NodeFailure::NotFound),
        Err(StaffFailure::InvalidCredential),
    );
    assert_eq!(d, Decision::Fail(LoginFailure::NodeNotFound));
}

// No token on any failure: a failing lookup leaves the store untouched.
#[test]
fn no_token_written_on_any_failure() {
    let mut store = TokenStore::new();
    let r = staff_login(&mut store, &Vec::new(), &seeded_staff(), "captaincosmo", 1000, 1000);
    assert_eq!(r, Err(LoginFailure::NodeNotFound));
    assert_eq!(store.len(), 0);

    let r = staff_login(&mut store, &seeded_node(), &seeded_staff(), "wrongdigest", 1000, 1000);
    assert_eq!(r, Err(LoginFailure::InvalidCredential));
    assert_eq!(store.len(), 0);

    let r = staff_login(&mut store, &seeded_node(), &Vec::new(), "captaincosmo", 1000, 1000);
    assert_eq!(r, Err(LoginFailure::StaffNotFound));
    assert_eq!(store.len(), 0);
}

// Exactly one issuance on success, carrying the resolved numeric identifiers.
#[test]
fn success_writes_exactly_one_token_with_resolved_ids() {
    let mut store = TokenStore::new();
    let node_rows = vec![NodeIdentity { id: 3 }];
    let staff_rows = vec![StaffIdentity { id: 7, digest: "nicecosmo".to_string() }];
    let r = staff_login(&mut store, &node_rows, &staff_rows, "nicecosmo", 500, 1000);
    assert_eq!(r, Ok("3-500".to_string()));
    assert_eq!(store.len(), 1);
    let t = store.lookup(3, 7).expect("the pair holds a live token");
    assert_eq!(t.token, "3-500");
    assert_eq!(t.node_id, 3);
    assert_eq!(t.staff_id, 7);
    assert_eq!(t.created_ms, 500);
    assert_eq!(t.expires_ms, 1500);
}

// Idempotent replace: a second issuance for the same pair replaces the live
// token instead of adding a second one.
#[test]
fn second_issuance_replaces_live_token() {
    let mut store = TokenStore::new();
    let node_rows = vec![NodeIdentity { id: 3 }];
    let staff_rows = vec![StaffIdentity { id: 7, digest: "nicecosmo".to_string() }];
    let first = staff_login(&mut store, &node_rows, &staff_rows, "nicecosmo", 500, 1000);
    assert_eq!(first, Ok("3-500".to_string()));
    let second = staff_login(&mut store, &node_rows, &staff_rows, "nicecosmo", 900, 1000);
    assert_eq!(second, Ok("3-900".to_string()));
    assert_eq!(store.len(), 1);
    let t = store.lookup(3, 7).expect("the pair holds a live token");
    assert_eq!(t.token, "3-900");
    assert_eq!(t.created_ms, 900);
}

#[test]
fn replacement_leaves_other_pairs_untouched() {
    let mut store = TokenStore::new();
    store.upsert(make_session_token(1, 1, 100, 50));
    store.upsert(make_session_token(2, 1, 200, 50));
    store.upsert(make_session_token(1, 1, 300, 50));
    assert_eq!(store.len(), 2);
    assert_eq!(store.lookup(1, 1).unwrap().created_ms, 300);
    assert_eq!(store.lookup(2, 1).unwrap().created_ms, 200);
    assert!(store.lookup(2, 2).is_none());
}

#[test]
fn issue_outcome_returns_token_on_success() {
    let r = issue_outcome("1-500".to_string(), Ok(1));
    assert_eq!(r, Ok("1-500".to_string()));
}

// A persistence failure surfaces as an issue failure wrapping the storage
// error; the boundary code passes the store's code through.
#[test]
fn issue_outcome_wraps_storage_error() {
    let e = StoreError { code: "db_unavailable".to_string(), message: "connection lost".to_string() };
    let r = issue_outcome("1-500".to_string(), Err(e.clone()));
    assert_eq!(r, Err(LoginFailure::Issue(e)));
    match r {
        Err(f) => assert_eq!(f.code(), "db_unavailable"),
        Ok(_) => unreachable!(),
    }
}

#[test]
fn storage_failure_in_a_lookup_passes_through() {
    let e = StoreError { code: "timeout".to_string(), message: "query timed out".to_string() };
    let d = login_decision(Err(NodeFailure::Storage(e.clone())), Ok(7));
    assert_eq!(d, Decision::Fail(LoginFailure::Storage(e.clone())));
    match d {
        Decision::Fail(f) => assert_eq!(f.code(), "timeout"),
        Decision::Issue { .. } => unreachable!(),
    }
}

#[test]
fn boundary_codes_follow_the_taxonomy() {
    assert_eq!(LoginFailure::NodeNotFound.code(), "notfound");
    assert_eq!(LoginFailure::StaffNotFound.code(), "notfound");
    assert_eq!(LoginFailure::InvalidCredential.code(), "invalid");
}

#[test]
fn session_token_carries_expiry_window() {
    let t: SessionToken = make_session_token(1, 2, 100, 50);
    assert_eq!(t.token, "1-100");
    assert_eq!(t.node_id, 1);
    assert_eq!(t.staff_id, 2);
    assert_eq!(t.created_ms, 100);
    assert_eq!(t.expires_ms, 150);
}
