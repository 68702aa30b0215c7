use vstd::prelude::*;
use crate::block::Block;
use crate::bytes::{bytes32_eq, bytes32_lt, lex_lt, push_bytes, push_u64_le, u64_le};
use crate::consensus::ValidatorSet;
use crate::crypto::{sha256, sha256_digest};
use crate::ledger::{Balances, SupplyTracker};
use crate::primitives::hash;
use crate::primitives::ClaimKey;

verus! {

/// The bytes of each claimed key.
pub open spec fn key_views(s: Seq<[u8; 32]>) -> Seq<Seq<u8>> {
    s.map_values(|k: [u8; 32]| k@)
}

/// Strictly increasing in lexicographic order, hence without repeats.
pub open spec fn keys_sorted(s: Seq<[u8; 32]>) -> bool {
    forall|i: int, j: int| 0 <= i < j < s.len() ==> lex_lt(#[trigger] s[i]@, #[trigger] s[j]@)
}

/// The claimed keys one after another.
pub open spec fn concat_keys(s: Seq<[u8; 32]>) -> Seq<u8>
    decreases s.len(),
{
    if s.len() == 0 {
        Seq::empty()
    } else {
        concat_keys(s.drop_last()) + s.last()@
    }
}

/// The full state of the chain.
#[derive(Debug, Clone)]
pub struct ChainState {
    pub height: u64,
    pub blocks: Vec<Block>,
    pub balances: Balances,
    pub supply: SupplyTracker,
    /// The claim keys of every claimed floor, kept in increasing byte order.
    pub claimed_floors: Vec<[u8; 32]>,
    pub validators: ValidatorSet,
}

impl ChainState {
    /// The claimed floors, as a set of key bytes.
    pub open spec fn claimed_set(&self) -> Set<Seq<u8>> {
        key_views(self.claimed_floors@).to_set()
    }

    /// The invariants every operation keeps: claim keys sorted, at most one
    /// balance per account, at most one entry per validator.
    pub open spec fn wf(&self) -> bool {
        &&& keys_sorted(self.claimed_floors@)
        &&& self.balances.wf()
        &&& self.validators.wf()
    }

    /// The genesis state: nothing claimed or minted, no validators, threshold 1.
    pub fn new() -> (res: Self)
        ensures
            res.wf(),
            res.height == 0,
            res.blocks@.len() == 0,
            res.balances@.len() == 0,
            res.supply.circulating.0 == 0,
            res.supply.burned.0 == 0,
            res.claimed_floors@.len() == 0,
            res.validators.active@.len() == 0,
            res.validators.threshold == 1,
    {
        ChainState {
            height: 0,
            blocks: Vec::new(),
            balances: Balances::new(),
            supply: SupplyTracker::new(),
            claimed_floors: Vec::new(),
            validators: ValidatorSet::new(1),
        }
    }

    /// Records `claim_key` as claimed; returns whether it was new.
    pub fn mark_floor_claimed(&mut self, claim_key: ClaimKey) -> (res: bool)
        requires
            keys_sorted(old(self).claimed_floors@),
        ensures
            res == !old(self).claimed_set().contains(claim_key.0@),
            final(self).claimed_set() == old(self).claimed_set().insert(claim_key.0@),
            keys_sorted(final(self).claimed_floors@),
            final(self).height == old(self).height,
            final(self).blocks == old(self).blocks,
            final(self).balances == old(self).balances,
            final(self).supply == old(self).supply,
            final(self).validators == old(self).validators,
    {
        let key = claim_key.0;
        let ghost s = self.claimed_floors@;
        let n = self.claimed_floors.len();
        let mut p: usize = 0;
        while p < n && bytes32_lt(&self.claimed_floors[p], &key)
            invariant
                n == s.len(),
                s == self.claimed_floors@,
                p <= n,
                forall|i: int| 0 <= i < p ==> lex_lt(#[trigger] s[i]@, key@),
            decreases n - p,
        {
            p = p + 1;
        }
        proof {
            assert forall|i: int| 0 <= i < p implies #[trigger] s[i]@ != key@ by {
                crate::bytes::lemma_lex_irreflexive(key@);
            }
        }
        if p < n && bytes32_eq(&self.claimed_floors[p], &key) {
            assert(key_views(s)[p as int] == key@);
            assert(self.claimed_set() =~= self.claimed_set().insert(key@));
            return false;
        }
        proof {
            if p < n {
                crate::bytes::lemma_lex_total(s[p as int]@, key@);
                assert(lex_lt(key@, s[p as int]@));
                assert forall|j: int| p <= j < n implies lex_lt(key@, #[trigger] s[j]@) by {
                    if j > p {
                        crate::bytes::lemma_lex_transitive(key@, s[p as int]@, s[j]@);
                    }
                }
            }
            assert forall|j: int| p <= j < n implies #[trigger] s[j]@ != key@ by {
                crate::bytes::lemma_lex_irreflexive(key@);
            }
            assert(!key_views(s).contains(key@));
        }
        self.claimed_floors.insert(p, key);
        proof {
            let t = self.claimed_floors@;
            assert(t == s.insert(p as int, key));
            assert forall|i: int, j: int| 0 <= i < j < t.len() implies lex_lt(
                #[trigger] t[i]@,
                #[trigger] t[j]@,
            ) by {
                if j < p {
                } else if j == p {
                } else if i < p {
                    crate::bytes::lemma_lex_transitive(s[i]@, key@, s[j - 1]@);
                } else if i == p {
                } else {
                }
            }
            assert(key_views(t).to_set() =~= key_views(s).to_set().insert(key@)) by {
                assert forall|x: Seq<u8>| key_views(t).to_set().contains(x) implies key_views(
                    s,
                ).to_set().insert(key@).contains(x) by {
                    let k = choose|k: int| 0 <= k < key_views(t).len() && key_views(t)[k] == x;
                    if k < p {
                        assert(key_views(s)[k] == x);
                    } else if k > p {
                        assert(key_views(s)[k - 1] == x);
                    }
                }
                assert forall|x: Seq<u8>| key_views(s).to_set().insert(key@).contains(x) implies key_views(
                    t,
                ).to_set().contains(x) by {
                    if x == key@ {
                        assert(key_views(t)[p as int] == x);
                    } else {
                        let k = choose|k: int| 0 <= k < key_views(s).len() && key_views(s)[k] == x;
                        if k < p {
                            assert(key_views(t)[k] == x);
                        } else {
                            assert(key_views(t)[k + 1] == x);
                        }
                    }
                }
            }
        }
        true
    }

    /// Whether `claim_key` has been claimed.
    pub fn is_floor_claimed(&self, claim_key: &ClaimKey) -> (res: bool)
        ensures
            res == self.claimed_set().contains(claim_key.0@),
    {
        let n = self.claimed_floors.len();
        let mut i: usize = 0;
        while i < n
            invariant
                n == self.claimed_floors@.len(),
                i <= n,
                forall|j: int| 0 <= j < i ==> #[trigger] self.claimed_floors@[j]@ != claim_key.0@,
            decreases n - i,
        {
            if bytes32_eq(&self.claimed_floors[i], &claim_key.0) {
                assert(key_views(self.claimed_floors@)[i as int] == claim_key.0@);
                return true;
            }
            i = i + 1;
        }
        assert(!key_views(self.claimed_floors@).contains(claim_key.0@)) by {
            if key_views(self.claimed_floors@).contains(claim_key.0@) {
                let k = choose|k: int|
                    0 <= k < key_views(self.claimed_floors@).len() && key_views(self.claimed_floors@)[k]
                        == claim_key.0@;
                assert(self.claimed_floors@[k]@ == claim_key.0@);
            }
        }
        false
    }

    /// The bytes the state root is hashed from: height, circulating and
    /// burned supply in little-endian, then every claimed key in increasing
    /// order.
    pub open spec fn state_root_preimage(&self) -> Seq<u8> {
        u64_le(self.height) + u64_le(self.supply.circulating.0) + u64_le(self.supply.burned.0)
            + concat_keys(self.claimed_floors@)
    }

    /// The state root: SHA-256 of the height, the supply and the claimed
    /// floors in sorted order. The claimed keys must be kept in increasing
    /// order, as `mark_floor_claimed` keeps them.
    pub fn compute_state_root(&self) -> (res: hash::Hash)
        requires
            keys_sorted(self.claimed_floors@),
        ensures
            res.0@ == sha256(self.state_root_preimage()),
    {
        let mut buf: Vec<u8> = Vec::new();
        push_u64_le(&mut buf, self.height);
        push_u64_le(&mut buf, self.supply.circulating.0);
        push_u64_le(&mut buf, self.supply.burned.0);
        let ghost head = buf@;
        let n = self.claimed_floors.len();
        let mut i: usize = 0;
        while i < n
            invariant
                n == self.claimed_floors@.len(),
                i <= n,
                buf@ == head + concat_keys(self.claimed_floors@.take(i as int)),
            decreases n - i,
        {
            push_bytes(&mut buf, self.claimed_floors[i].as_slice());
            assert(self.claimed_floors@.take(i + 1).drop_last() =~= self.claimed_floors@.take(i as int));
            assert(buf@ =~= head + concat_keys(self.claimed_floors@.take(i + 1)));
            i = i + 1;
        }
        assert(self.claimed_floors@.take(n as int) =~= self.claimed_floors@);
        assert(buf@ =~= self.state_root_preimage());
        hash::Hash::new(sha256_digest(buf.as_slice()))
    }
}

proof fn lemma_sorted_last_is_max(a: Seq<[u8; 32]>, j: int)
    requires
        keys_sorted(a),
        0 <= j < a.len() - 1,
    ensures
        lex_lt(a[j]@, a.last()@),
{
}

proof fn lemma_concat_keys_by_views(a: Seq<[u8; 32]>, b: Seq<[u8; 32]>)
    requires
        key_views(a) == key_views(b),
    ensures
        concat_keys(a) == concat_keys(b),
    decreases a.len(),
{
    assert(a.len() == key_views(a).len());
    assert(b.len() == key_views(b).len());
    if a.len() > 0 {
        assert(key_views(a.drop_last()) =~= key_views(a).drop_last());
        assert(key_views(b.drop_last()) =~= key_views(b).drop_last());
        assert(a.last()@ == key_views(a)[a.len() - 1]);
        assert(b.last()@ == key_views(b)[b.len() - 1]);
        lemma_concat_keys_by_views(a.drop_last(), b.drop_last());
    }
}

/// Two sorted key lists holding the same set of keys are the same list.
proof fn lemma_sorted_keys_determined_by_set(a: Seq<[u8; 32]>, b: Seq<[u8; 32]>)
    requires
        keys_sorted(a),
        keys_sorted(b),
        key_views(a).to_set() == key_views(b).to_set(),
    ensures
        key_views(a) == key_views(b),
    decreases a.len() + b.len(),
{
    if a.len() == 0 || b.len() == 0 {
        if a.len() > 0 {
            assert(key_views(a).to_set().contains(key_views(a)[0]));
        }
        if b.len() > 0 {
            assert(key_views(b).to_set().contains(key_views(b)[0]));
        }
        assert(key_views(a) =~= key_views(b));
    } else {
        let x = a.last()@;
        let y = b.last()@;
        assert(key_views(a)[a.len() - 1] == x);
        assert(key_views(b)[b.len() - 1] == y);
        assert(key_views(b).to_set().contains(x));
        assert(key_views(a).to_set().contains(y));
        let jb = choose|j: int| 0 <= j < key_views(b).len() && key_views(b)[j] == x;
        let ja = choose|j: int| 0 <= j < key_views(a).len() && key_views(a)[j] == y;
        if x != y {
            if jb < b.len() - 1 {
                lemma_sorted_last_is_max(b, jb);
            }
            if ja < a.len() - 1 {
                lemma_sorted_last_is_max(a, ja);
            }
            if jb < b.len() - 1 && ja < a.len() - 1 {
                crate::bytes::lemma_lex_asymmetric(x, y);
            }
        }
        assert(x == y);
        let a1 = a.drop_last();
        let b1 = b.drop_last();
        assert(keys_sorted(a1));
        assert(keys_sorted(b1));
        assert(key_views(a1).to_set() =~= key_views(a).to_set().remove(x)) by {
            assert forall|z: Seq<u8>| key_views(a1).to_set().contains(z) implies key_views(
                a,
            ).to_set().remove(x).contains(z) by {
                let k = choose|k: int| 0 <= k < key_views(a1).len() && key_views(a1)[k] == z;
                assert(key_views(a)[k] == z);
                lemma_sorted_last_is_max(a, k);
                crate::bytes::lemma_lex_irreflexive(x);
            }
            assert forall|z: Seq<u8>| key_views(a).to_set().remove(x).contains(z) implies key_views(
                a1,
            ).to_set().contains(z) by {
                let k = choose|k: int| 0 <= k < key_views(a).len() && key_views(a)[k] == z;
                assert(k != a.len() - 1);
                assert(key_views(a1)[k] == z);
            }
        }
        assert(key_views(b1).to_set() =~= key_views(b).to_set().remove(y)) by {
            assert forall|z: Seq<u8>| key_views(b1).to_set().contains(z) implies key_views(
                b,
            ).to_set().remove(y).contains(z) by {
                let k = choose|k: int| 0 <= k < key_views(b1).len() && key_views(b1)[k] == z;
                assert(key_views(b)[k] == z);
                lemma_sorted_last_is_max(b, k);
                crate::bytes::lemma_lex_irreflexive(y);
            }
            assert forall|z: Seq<u8>| key_views(b).to_set().remove(y).contains(z) implies key_views(
                b1,
            ).to_set().contains(z) by {
                let k = choose|k: int| 0 <= k < key_views(b).len() && key_views(b)[k] == z;
                assert(k != b.len() - 1);
                assert(key_views(b1)[k] == z);
            }
        }
        lemma_sorted_keys_determined_by_set(a1, b1);
        assert(key_views(a) =~= key_views(a1).push(x));
        assert(key_views(b) =~= key_views(b1).push(y));
    }
}

/// The state root depends only on the height, the supply and the set of
/// claimed floors, not on the order in which floors were claimed.
pub proof fn lemma_state_root_ignores_claim_order(s: ChainState, t: ChainState)
    requires
        keys_sorted(s.claimed_floors@),
        keys_sorted(t.claimed_floors@),
        s.claimed_set() == t.claimed_set(),
        s.height == t.height,
        s.supply == t.supply,
    ensures
        s.state_root_preimage() == t.state_root_preimage(),
{
    lemma_sorted_keys_determined_by_set(s.claimed_floors@, t.claimed_floors@);
    lemma_concat_keys_by_views(s.claimed_floors@, t.claimed_floors@);
}

proof fn lemma_concat_keys_len(a: Seq<[u8; 32]>)
    ensures
        concat_keys(a).len() == 32 * a.len(),
    decreases a.len(),
{
    if a.len() > 0 {
        lemma_concat_keys_len(a.drop_last());
    }
}

proof fn lemma_concat_keys_injective(a: Seq<[u8; 32]>, b: Seq<[u8; 32]>)
    requires
        concat_keys(a) == concat_keys(b),
    ensures
        key_views(a) == key_views(b),
    decreases a.len(),
{
    lemma_concat_keys_len(a);
    lemma_concat_keys_len(b);
    assert(a.len() == b.len());
    if a.len() == 0 {
        assert(key_views(a) =~= key_views(b));
    } else {
        lemma_concat_keys_len(a.drop_last());
        lemma_concat_keys_len(b.drop_last());
        crate::bytes::lemma_concat_split(concat_keys(a.drop_last()), a.last()@, concat_keys(b.drop_last()), b.last()@);
        lemma_concat_keys_injective(a.drop_last(), b.drop_last());
        assert(key_views(a.drop_last()) =~= key_views(a).drop_last());
        assert(key_views(b.drop_last()) =~= key_views(b).drop_last());
        assert(key_views(a) =~= key_views(a.drop_last()).push(a.last()@));
        assert(key_views(b) =~= key_views(b.drop_last()).push(b.last()@));
    }
}

/// The state root commits to the height, the circulating supply, the
/// burned supply and the list of claimed keys: two states hashed from the
/// same bytes agree on all four, so states differing in any of them get
/// different roots unless SHA-256 collides.
pub proof fn lemma_state_root_preimage_injective(s: ChainState, t: ChainState)
    requires
        s.state_root_preimage() == t.state_root_preimage(),
    ensures
        s.height == t.height,
        s.supply.circulating == t.supply.circulating,
        s.supply.burned == t.supply.burned,
        key_views(s.claimed_floors@) == key_views(t.claimed_floors@),
{
    crate::bytes::lemma_le_lengths(0, s.height);
    crate::bytes::lemma_le_lengths(0, t.height);
    crate::bytes::lemma_le_lengths(0, s.supply.circulating.0);
    crate::bytes::lemma_le_lengths(0, t.supply.circulating.0);
    crate::bytes::lemma_le_lengths(0, s.supply.burned.0);
    crate::bytes::lemma_le_lengths(0, t.supply.burned.0);
    let a3 = u64_le(s.height) + u64_le(s.supply.circulating.0) + u64_le(s.supply.burned.0);
    let b3 = u64_le(t.height) + u64_le(t.supply.circulating.0) + u64_le(t.supply.burned.0);
    crate::bytes::lemma_concat_split(a3, concat_keys(s.claimed_floors@), b3, concat_keys(t.claimed_floors@));
    let a2 = u64_le(s.height) + u64_le(s.supply.circulating.0);
    let b2 = u64_le(t.height) + u64_le(t.supply.circulating.0);
    crate::bytes::lemma_concat_split(a2, u64_le(s.supply.burned.0), b2, u64_le(t.supply.burned.0));
    crate::bytes::lemma_concat_split(u64_le(s.height), u64_le(s.supply.circulating.0), u64_le(t.height), u64_le(t.supply.circulating.0));
    crate::bytes::lemma_u64_le_injective(s.height, t.height);
    crate::bytes::lemma_u64_le_injective(s.supply.circulating.0, t.supply.circulating.0);
    crate::bytes::lemma_u64_le_injective(s.supply.burned.0, t.supply.burned.0);
    lemma_concat_keys_injective(s.claimed_floors@, t.claimed_floors@);
}

} // verus!
