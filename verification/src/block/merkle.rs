use vstd::prelude::*;
use crate::bytes::push_bytes;
use crate::crypto::{sha256, sha256_digest};
use crate::primitives::hash;

verus! {

/// The bytes of "merkle_empty", hashed for the root of no transactions.
pub open spec fn merkle_empty_tag() -> Seq<u8> {
    seq![109u8, 101, 114, 107, 108, 101, 95, 101, 109, 112, 116, 121]
}

/// A parent node: the hash of its two children side by side.
pub open spec fn merkle_parent(left: Seq<u8>, right: Seq<u8>) -> Seq<u8> {
    sha256(left + right)
}

/// The level above `h`: nodes are paired left to right, and a last node
/// without a partner is paired with itself.
pub open spec fn merkle_next_level(h: Seq<Seq<u8>>) -> Seq<Seq<u8>> {
    Seq::new(
        ((h.len() + 1) / 2) as nat,
        |i: int|
            merkle_parent(h[2 * i], if 2 * i + 1 < h.len() { h[2 * i + 1] } else { h[2 * i] }),
    )
}

/// Folds levels until one node is left.
pub open spec fn merkle_reduce(h: Seq<Seq<u8>>) -> Seq<u8>
    decreases h.len(),
{
    if h.len() <= 1 {
        h[0]
    } else {
        merkle_reduce(merkle_next_level(h))
    }
}

/// The leaf level: the hash of each transaction.
pub open spec fn merkle_leaves(txs: Seq<Seq<u8>>) -> Seq<Seq<u8>> {
    txs.map_values(|t: Seq<u8>| sha256(t))
}

/// The merkle root of a transaction list.
pub open spec fn spec_merkle_root(txs: Seq<Seq<u8>>) -> Seq<u8> {
    if txs.len() == 0 {
        sha256(merkle_empty_tag())
    } else {
        merkle_reduce(merkle_leaves(txs))
    }
}

pub open spec fn vec_views(v: Seq<Vec<u8>>) -> Seq<Seq<u8>> {
    v.map_values(|x: Vec<u8>| x@)
}

pub open spec fn array_views(v: Seq<[u8; 32]>) -> Seq<Seq<u8>> {
    v.map_values(|x: [u8; 32]| x@)
}

fn parent_of(left: &[u8; 32], right: &[u8; 32]) -> (res: [u8; 32])
    ensures
        res@ == merkle_parent(left@, right@),
{
    let mut buf: Vec<u8> = Vec::new();
    push_bytes(&mut buf, left.as_slice());
    push_bytes(&mut buf, right.as_slice());
    sha256_digest(buf.as_slice())
}

fn next_level(hashes: &Vec<[u8; 32]>) -> (res: Vec<[u8; 32]>)
    requires
        hashes.len() >= 1,
    ensures
        array_views(res@) == merkle_next_level(array_views(hashes@)),
{
    let ghost h = array_views(hashes@);
    let n = hashes.len();
    let m = n / 2 + n % 2;
    assert(m == (h.len() + 1) / 2);
    let mut next: Vec<[u8; 32]> = Vec::new();
    let mut j: usize = 0;
    while j < m
        invariant
            n == hashes.len(),
            h == array_views(hashes@),
            m == (h.len() + 1) / 2,
            j <= m,
            next.len() == j,
            forall|k: int| 0 <= k < j ==> next@[k]@ == #[trigger] merkle_next_level(h)[k],
        decreases m - j,
    {
        let left = hashes[2 * j];
        let right = if 2 * j + 1 < n { hashes[2 * j + 1] } else { hashes[2 * j] };
        let p = parent_of(&left, &right);
        next.push(p);
        j = j + 1;
    }
    assert(array_views(next@) =~= merkle_next_level(h));
    next
}

/// Computes the merkle root of the transactions. With none, it is the hash
/// of "merkle_empty".
pub fn compute_merkle_root(transactions: &[Vec<u8>]) -> (res: hash::Hash)
    ensures
        res.0@ == spec_merkle_root(vec_views(transactions@)),
{
    let ghost txs = vec_views(transactions@);
    if transactions.len() == 0 {
        let tag: [u8; 12] = [109u8, 101, 114, 107, 108, 101, 95, 101, 109, 112, 116, 121];
        assert(tag@ =~= merkle_empty_tag());
        return hash::Hash::new(sha256_digest(tag.as_slice()));
    }
    let mut hashes: Vec<[u8; 32]> = Vec::new();
    let n = transactions.len();
    let mut i: usize = 0;
    while i < n
        invariant
            n == transactions@.len(),
            txs == vec_views(transactions@),
            i <= n,
            hashes.len() == i,
            forall|k: int| 0 <= k < i ==> hashes@[k]@ == #[trigger] merkle_leaves(txs)[k],
        decreases n - i,
    {
        let d = sha256_digest(transactions[i].as_slice());
        hashes.push(d);
        i = i + 1;
    }
    assert(array_views(hashes@) =~= merkle_leaves(txs));
    while hashes.len() > 1
        invariant
            hashes.len() >= 1,
            merkle_reduce(array_views(hashes@)) == merkle_reduce(merkle_leaves(txs)),
        decreases hashes.len(),
    {
        let next = next_level(&hashes);
        assert(array_views(next@).len() == next@.len());
        assert(merkle_reduce(array_views(hashes@)) == merkle_reduce(array_views(next@)));
        hashes = next;
    }
    hash::Hash::new(hashes[0])
}

/// The root of a single transaction is that transaction's hash; the root of
/// none is the hash of "merkle_empty".
pub proof fn lemma_merkle_root_small_cases(tx: Seq<u8>)
    ensures
        spec_merkle_root(seq![tx]) == sha256(tx),
        spec_merkle_root(Seq::<Seq<u8>>::empty()) == sha256(merkle_empty_tag()),
{
    assert(merkle_leaves(seq![tx]) =~= seq![sha256(tx)]);
}

/// Pairing a last, unpartnered node with itself: a list of an odd number of
/// transactions has the root of the same list with its last transaction
/// repeated.
pub proof fn lemma_merkle_odd_level_repeats_last(h: Seq<Seq<u8>>)
    requires
        h.len() % 2 == 1,
    ensures
        merkle_next_level(h) == merkle_next_level(h.push(h.last())),
{
    assert(merkle_next_level(h) =~= merkle_next_level(h.push(h.last())));
}

/// Two transactions: the root is the hash of their two hashes side by side,
/// the first on the left.
pub proof fn lemma_merkle_root_two(a: Seq<u8>, b: Seq<u8>)
    ensures
        spec_merkle_root(seq![a, b]) == sha256(sha256(a) + sha256(b)),
{
    let leaves = merkle_leaves(seq![a, b]);
    assert(leaves =~= seq![sha256(a), sha256(b)]);
    let up = merkle_next_level(leaves);
    assert(up =~= seq![sha256(sha256(a) + sha256(b))]);
    assert(merkle_reduce(leaves) == merkle_reduce(up));
}

/// Three transactions: the first two are paired, and the third, left without
/// a partner, is paired with itself.
pub proof fn lemma_merkle_root_three(a: Seq<u8>, b: Seq<u8>, c: Seq<u8>)
    ensures
        spec_merkle_root(seq![a, b, c]) == sha256(
            sha256(sha256(a) + sha256(b)) + sha256(sha256(c) + sha256(c)),
        ),
{
    let leaves = merkle_leaves(seq![a, b, c]);
    assert(leaves =~= seq![sha256(a), sha256(b), sha256(c)]);
    let l1 = merkle_next_level(leaves);
    let p = sha256(sha256(a) + sha256(b));
    let q = sha256(sha256(c) + sha256(c));
    assert(l1 =~= seq![p, q]);
    let l2 = merkle_next_level(l1);
    assert(l2 =~= seq![sha256(p + q)]);
    assert(merkle_reduce(leaves) == merkle_reduce(l1));
    assert(merkle_reduce(l1) == merkle_reduce(l2));
}

/// Four transactions: a balanced tree of pairs.
pub proof fn lemma_merkle_root_four(a: Seq<u8>, b: Seq<u8>, c: Seq<u8>, d: Seq<u8>)
    ensures
        spec_merkle_root(seq![a, b, c, d]) == sha256(
            sha256(sha256(a) + sha256(b)) + sha256(sha256(c) + sha256(d)),
        ),
{
    let leaves = merkle_leaves(seq![a, b, c, d]);
    assert(leaves =~= seq![sha256(a), sha256(b), sha256(c), sha256(d)]);
    let l1 = merkle_next_level(leaves);
    let p = sha256(sha256(a) + sha256(b));
    let q = sha256(sha256(c) + sha256(d));
    assert(l1 =~= seq![p, q]);
    let l2 = merkle_next_level(l1);
    assert(l2 =~= seq![sha256(p + q)]);
    assert(merkle_reduce(leaves) == merkle_reduce(l1));
    assert(merkle_reduce(l1) == merkle_reduce(l2));
}

/// A list of an odd number (at least three) of transactions has the same
/// root as the list with its last transaction repeated.
pub proof fn lemma_merkle_root_odd_repeat_last(txs: Seq<Seq<u8>>)
    requires
        txs.len() >= 3,
        txs.len() % 2 == 1,
    ensures
        spec_merkle_root(txs) == spec_merkle_root(txs.push(txs.last())),
{
    let h = merkle_leaves(txs);
    let h2 = merkle_leaves(txs.push(txs.last()));
    assert(h2 =~= h.push(h.last()));
    lemma_merkle_odd_level_repeats_last(h);
    assert(merkle_reduce(h) == merkle_reduce(merkle_next_level(h)));
    assert(merkle_reduce(h2) == merkle_reduce(merkle_next_level(h2)));
}

} // verus!
