use vstd::prelude::*;
use crate::bytes::{push_bytes, push_u64_le, u64_le};
use crate::crypto::{sha256, sha256_digest};
use crate::primitives::hash;

verus! {

/// The header of a block.
#[derive(Debug, Clone, Copy)]
pub struct BlockHeader {
    pub height: u64,
    pub timestamp_ms: u64,
    pub previous_block_hash: hash::Hash,
    pub tx_root: hash::Hash,
    pub state_root: hash::Hash,
    pub proposer: [u8; 32],
}

/// The bytes a header is hashed from: height and timestamp in little-endian,
/// then the previous block hash, transaction root, state root and proposer.
pub open spec fn header_preimage(h: BlockHeader) -> Seq<u8> {
    u64_le(h.height) + u64_le(h.timestamp_ms) + h.previous_block_hash.0@ + h.tx_root.0@
        + h.state_root.0@ + h.proposer@
}

impl BlockHeader {
    /// The block hash: SHA-256 of every field of the header.
    pub fn hash(&self) -> (res: hash::Hash)
        ensures
            res.0@ == sha256(header_preimage(*self)),
    {
        let mut buf: Vec<u8> = Vec::new();
        push_u64_le(&mut buf, self.height);
        push_u64_le(&mut buf, self.timestamp_ms);
        push_bytes(&mut buf, self.previous_block_hash.0.as_slice());
        push_bytes(&mut buf, self.tx_root.0.as_slice());
        push_bytes(&mut buf, self.state_root.0.as_slice());
        push_bytes(&mut buf, self.proposer.as_slice());
        assert(buf@ =~= header_preimage(*self));
        hash::Hash::new(sha256_digest(buf.as_slice()))
    }
}

/// Two headers are hashed from the same bytes only if all their fields agree;
/// so headers that differ in any field get different block hashes unless
/// SHA-256 collides.
pub proof fn lemma_header_preimage_injective(a: BlockHeader, b: BlockHeader)
    requires
        header_preimage(a) == header_preimage(b),
    ensures
        a.height == b.height,
        a.timestamp_ms == b.timestamp_ms,
        a.previous_block_hash.0@ == b.previous_block_hash.0@,
        a.tx_root.0@ == b.tx_root.0@,
        a.state_root.0@ == b.state_root.0@,
        a.proposer@ == b.proposer@,
{
    crate::bytes::lemma_le_lengths(0, a.height);
    crate::bytes::lemma_le_lengths(0, a.timestamp_ms);
    crate::bytes::lemma_le_lengths(0, b.height);
    crate::bytes::lemma_le_lengths(0, b.timestamp_ms);
    let a1 = u64_le(a.height) + u64_le(a.timestamp_ms) + a.previous_block_hash.0@ + a.tx_root.0@;
    let b1 = u64_le(b.height) + u64_le(b.timestamp_ms) + b.previous_block_hash.0@ + b.tx_root.0@;
    crate::bytes::lemma_concat_split(a1 + a.state_root.0@, a.proposer@, b1 + b.state_root.0@, b.proposer@);
    crate::bytes::lemma_concat_split(a1, a.state_root.0@, b1, b.state_root.0@);
    let a2 = u64_le(a.height) + u64_le(a.timestamp_ms) + a.previous_block_hash.0@;
    let b2 = u64_le(b.height) + u64_le(b.timestamp_ms) + b.previous_block_hash.0@;
    crate::bytes::lemma_concat_split(a2, a.tx_root.0@, b2, b.tx_root.0@);
    let a3 = u64_le(a.height) + u64_le(a.timestamp_ms);
    let b3 = u64_le(b.height) + u64_le(b.timestamp_ms);
    crate::bytes::lemma_concat_split(a3, a.previous_block_hash.0@, b3, b.previous_block_hash.0@);
    crate::bytes::lemma_concat_split(u64_le(a.height), u64_le(a.timestamp_ms), u64_le(b.height), u64_le(b.timestamp_ms));
    crate::bytes::lemma_u64_le_injective(a.height, b.height);
    crate::bytes::lemma_u64_le_injective(a.timestamp_ms, b.timestamp_ms);
}

} // verus!
