//! The token store's issuance policy, modeled: at most one live token exists
//! per (node, staff) pair at a time, enforced by replacing on conflict rather
//! than rejecting duplicates.

use vstd::prelude::*;
use crate::model::SessionToken;

verus! {

/// The (node, staff) pair a session token belongs to.
pub open spec fn pair_of(t: SessionToken) -> (u64, u64) {
    (t.node_id, t.staff_id)
}

/// Well-formedness of the record sequence: no two records share a
/// (node, staff) pair.
pub open spec fn distinct_pairs(s: Seq<SessionToken>) -> bool {
    forall|i: int, j: int|
        0 <= i < j < s.len() ==> pair_of(s[i]) != pair_of(s[j])
}

/// The records as a map from (node, staff) pair to the retained token;
/// a later record for a pair supersedes an earlier one.
pub open spec fn seq_as_map(s: Seq<SessionToken>) -> Map<(u64, u64), SessionToken>
    decreases s.len(),
{
    if s.len() == 0 {
        Map::empty()
    } else {
        seq_as_map(s.drop_last()).insert(pair_of(s.last()), s.last())
    }
}

proof fn lemma_as_map_contains(s: Seq<SessionToken>, p: (u64, u64))
    ensures
        seq_as_map(s).contains_key(p) <==> exists|i: int| 0 <= i < s.len() && pair_of(s[i]) == p,
    decreases s.len(),
{
    if s.len() > 0 {
        lemma_as_map_contains(s.drop_last(), p);
        if pair_of(s.last()) == p {
            assert(pair_of(s[s.len() - 1]) == p);
        } else if seq_as_map(s).contains_key(p) {
            let i = choose|i: int| 0 <= i < s.drop_last().len() && pair_of(s.drop_last()[i]) == p;
            assert(pair_of(s[i]) == p);
        } else if exists|i: int| 0 <= i < s.len() && pair_of(s[i]) == p {
            let i = choose|i: int| 0 <= i < s.len() && pair_of(s[i]) == p;
            assert(pair_of(s.drop_last()[i]) == p);
        }
    }
}

proof fn lemma_as_map_at(s: Seq<SessionToken>, i: int)
    requires
        distinct_pairs(s),
        0 <= i < s.len(),
    ensures
        seq_as_map(s).contains_key(pair_of(s[i])),
        seq_as_map(s)[pair_of(s[i])] == s[i],
    decreases s.len(),
{
    if i == s.len() - 1 {
    } else {
        assert(distinct_pairs(s.drop_last()));
        assert(s.drop_last()[i] == s[i]);
        lemma_as_map_at(s.drop_last(), i);
        assert(pair_of(s[s.len() - 1]) != pair_of(s[i]));
    }
}

proof fn lemma_as_map_update(s: Seq<SessionToken>, i: int, t: SessionToken)
    requires
        distinct_pairs(s),
        0 <= i < s.len(),
        pair_of(s[i]) == pair_of(t),
    ensures
        seq_as_map(s.update(i, t)) =~= seq_as_map(s).insert(pair_of(t), t),
    decreases s.len(),
{
    if i == s.len() - 1 {
        assert(s.update(i, t).drop_last() =~= s.drop_last());
        assert(s.update(i, t).last() == t);
    } else {
        assert(distinct_pairs(s.drop_last()));
        assert(s.drop_last()[i] == s[i]);
        lemma_as_map_update(s.drop_last(), i, t);
        assert(s.update(i, t).drop_last() =~= s.drop_last().update(i, t));
        assert(s.update(i, t).last() == s.last());
        assert(pair_of(s.last()) != pair_of(t));
    }
}

/// The store's record of live tokens, keyed by (node, staff) pair.
pub struct TokenStore {
    /// The live token records, at most one per (node, staff) pair.
    pub records: Vec<SessionToken>,
}

impl TokenStore {
    /// Invariant: at most one live token per (node, staff) pair.
    pub open spec fn wf(&self) -> bool {
        distinct_pairs(self.records@)
    }

    /// The live tokens, as a map from (node, staff) pair to the retained
    /// token.
    pub open spec fn live(&self) -> Map<(u64, u64), SessionToken> {
        seq_as_map(self.records@)
    }

    /// An empty store.
    pub fn new() -> (s: TokenStore)
        ensures
            s.wf(),
            s.live() == Map::<(u64, u64), SessionToken>::empty(),
    {
        let s = TokenStore { records: Vec::new() };
        proof {
            assert(s.live() =~= Map::<(u64, u64), SessionToken>::empty());
        }
        s
    }

    /// How many records the store holds; with the invariant, also the number
    /// of (node, staff) pairs that hold a live token.
    pub fn len(&self) -> (n: usize)
        ensures
            n == self.records@.len(),
    {
        self.records.len()
    }

    /// Issues `t` under the replace-on-conflict policy: a live record for the
    /// same (node, staff) pair is replaced, never reported as a duplicate;
    /// records of all other pairs are untouched.
    pub fn upsert(&mut self, t: SessionToken)
        requires
            old(self).wf(),
        ensures
            final(self).wf(),
            final(self).live() == old(self).live().insert(pair_of(t), t),
            old(self).live().contains_key(pair_of(t)) ==> final(self).records@.len() == old(
                self,
            ).records@.len(),
            !old(self).live().contains_key(pair_of(t)) ==> final(self).records@.len() == old(
                self,
            ).records@.len() + 1,
    {
        let ghost p = pair_of(t);
        let n = self.records.len();
        let mut i: usize = 0;
        while i < n
            invariant
                n == self.records@.len(),
                i <= n,
                *self == *old(self),
                old(self).wf(),
                p == pair_of(t),
                forall|k: int| 0 <= k < i ==> pair_of(self.records@[k]) != pair_of(t),
            decreases n - i,
        {
            let same_pair = self.records[i].node_id == t.node_id && self.records[i].staff_id
                == t.staff_id;
            if same_pair {
                proof {
                    lemma_as_map_contains(self.records@, p);
                    lemma_as_map_update(self.records@, i as int, t);
                }
                self.records[i] = t;
                proof {
                    assert(self.live() =~= old(self).live().insert(p, t));
                }
                return;
            }
            i = i + 1;
        }
        proof {
            lemma_as_map_contains(self.records@, p);
        }
        self.records.push(t);
        proof {
            assert(self.records@.drop_last() =~= old(self).records@);
            assert(self.live() =~= old(self).live().insert(p, t));
        }
    }

    /// The live token for a (node, staff) pair, if one exists.
    pub fn lookup(&self, node_id: u64, staff_id: u64) -> (r: Option<&SessionToken>)
        requires
            self.wf(),
        ensures
            match r {
                Some(t) => self.live().contains_key((node_id, staff_id)) && *t == self.live()[
                    (node_id, staff_id)
                ],
                None => !self.live().contains_key((node_id, staff_id)),
            },
    {
        let n = self.records.len();
        let mut i: usize = 0;
        while i < n
            invariant
                n == self.records@.len(),
                i <= n,
                self.wf(),
                forall|k: int| 0 <= k < i ==> pair_of(self.records@[k]) != (node_id, staff_id),
            decreases n - i,
        {
            if self.records[i].node_id == node_id && self.records[i].staff_id == staff_id {
                proof {
                    lemma_as_map_at(self.records@, i as int);
                }
                return Some(&self.records[i]);
            }
            i = i + 1;
        }
        proof {
            lemma_as_map_contains(self.records@, (node_id, staff_id));
        }
        None
    }
}

/// Law: the store invariant. In a well-formed record sequence, two records
/// for the same (node, staff) pair are the same record: at most one live
/// token exists per pair.
pub proof fn lemma_at_most_one_live(s: Seq<SessionToken>, i: int, j: int)
    requires
        distinct_pairs(s),
        0 <= i < s.len(),
        0 <= j < s.len(),
        pair_of(s[i]) == pair_of(s[j]),
    ensures
        i == j,
{
}

/// Law: idempotent replace. Issuing twice for the same (node, staff) pair
/// leaves the pair exactly one live token, the latest one; every other pair
/// is untouched.
pub proof fn lemma_idempotent_replace(
    m: Map<(u64, u64), SessionToken>,
    t1: SessionToken,
    t2: SessionToken,
)
    requires
        pair_of(t1) == pair_of(t2),
    ensures
        m.insert(pair_of(t1), t1).insert(pair_of(t2), t2) == m.insert(pair_of(t2), t2),
{
    assert(m.insert(pair_of(t1), t1).insert(pair_of(t2), t2) =~= m.insert(pair_of(t2), t2));
}

} // verus!
