//! Credential Store accessor: resolving a username to a staff identity and
//! verifying a supplied credential digest against the stored one.

use vstd::prelude::*;
use crate::model::{StaffFailure, StaffIdentity};
use crate::statement::SqlQuery;

verus! {

/// The SQL text of the staff lookup; the username is bound as `$1`.
pub open spec fn staff_select_text() -> Seq<char> {
    "SELECT id, passhash FROM staffs WHERE username = $1"@
}

/// Builds the staff lookup statement for a caller-supplied username.
/// The username travels as a bound parameter, never in the SQL text.
pub fn staff_query(username: &str) -> (q: SqlQuery)
    ensures
        q.sql@ == staff_select_text(),
        q.params@.len() == 1,
        q.params@[0]@ == username@,
{
    let mut params: Vec<String> = Vec::new();
    params.push(String::from_str(username));
    SqlQuery { sql: String::from_str("SELECT id, passhash FROM staffs WHERE username = $1"), params }
}

/// Opaque digest comparison. Both digests are scanned to the end rather than
/// stopping at the first mismatch; the comparison is a pluggable placeholder
/// for a real credential-verification scheme.
pub fn digest_matches(stored: &str, supplied: &str) -> (r: bool)
    ensures
        r <==> stored@ == supplied@,
{
    let n = stored.unicode_len();
    let m = supplied.unicode_len();
    if n != m {
        return false;
    }
    let mut same = true;
    let mut i: usize = 0;
    while i < n
        invariant
            n == stored@.len(),
            n == supplied@.len(),
            i <= n,
            same <==> (forall|k: int| 0 <= k < i ==> stored@[k] == supplied@[k]),
        decreases n - i,
    {
        let a = stored.get_char(i);
        let b = supplied.get_char(i);
        same = same && a == b;
        i = i + 1;
    }
    proof {
        if same {
            assert(stored@ =~= supplied@);
        }
    }
    same
}

/// What staff verification returns for a given sequence of matching rows and
/// a supplied digest: zero rows signal `NotFound`; with a row present, a
/// digest mismatch signals `InvalidCredential` and a match yields the staff's
/// numeric identifier. The first row in store-defined order is used.
pub open spec fn spec_verify(rows: Seq<StaffIdentity>, digest: Seq<char>) -> Result<
    u64,
    StaffFailure,
> {
    if rows.len() == 0 {
        Result::Err(StaffFailure::NotFound)
    } else if rows[0].digest@ == digest {
        Result::Ok(rows[0].id)
    } else {
        Result::Err(StaffFailure::InvalidCredential)
    }
}

/// Verifies a supplied digest against the rows returned by the staff lookup:
/// an empty result is a `NotFound` signal, never an error; a mismatch against
/// the stored digest is `InvalidCredential`; a match yields the staff
/// identifier.
pub fn verify_staff(rows: &Vec<StaffIdentity>, digest: &str) -> (r: Result<u64, StaffFailure>)
    ensures
        r == spec_verify(rows@, digest@),
{
    if rows.len() < 1 {
        return Result::Err(StaffFailure::NotFound);
    }
    let first = &rows[0];
    if digest_matches(first.digest.as_str(), digest) {
        Result::Ok(first.id)
    } else {
        Result::Err(StaffFailure::InvalidCredential)
    }
}

} // verus!
