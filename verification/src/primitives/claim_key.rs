use vstd::prelude::*;
use crate::bytes::{bytes32_eq, push_bytes, push_u32_le, push_u64_le, u32_le, u64_le};
use crate::crypto::{sha256, sha256_digest};
use crate::primitives::account::AccountId;
use crate::primitives::ids::{FloorNumber, GameId, RunId};
use crate::primitives::hash;

verus! {

/// The key under which a floor reward is recorded as claimed: the SHA-256 of
/// the player, game, run and floor.
#[derive(Debug, Clone, Copy, Hash)]
pub struct ClaimKey(pub [u8; 32]);

/// The bytes hashed into a claim key: the player's 32 bytes, then the game id,
/// run id and floor number in little-endian.
pub open spec fn claim_key_preimage(
    player: AccountId,
    game_id: GameId,
    run_id: RunId,
    floor_number: FloorNumber,
) -> Seq<u8> {
    player.0@ + u32_le(game_id.0) + u64_le(run_id.0) + u32_le(floor_number.0)
}

/// The claim key of a player's floor.
pub open spec fn spec_claim_key(
    player: AccountId,
    game_id: GameId,
    run_id: RunId,
    floor_number: FloorNumber,
) -> Seq<u8> {
    sha256(claim_key_preimage(player, game_id, run_id, floor_number))
}

impl ClaimKey {
    pub fn new(player: AccountId, game_id: GameId, run_id: RunId, floor_number: FloorNumber) -> (res: Self)
        ensures
            res.0@ == spec_claim_key(player, game_id, run_id, floor_number),
    {
        let mut buf: Vec<u8> = Vec::new();
        push_bytes(&mut buf, player.0.as_slice());
        push_u32_le(&mut buf, game_id.0);
        push_u64_le(&mut buf, run_id.0);
        push_u32_le(&mut buf, floor_number.0);
        assert(buf@ =~= claim_key_preimage(player, game_id, run_id, floor_number));
        ClaimKey(sha256_digest(buf.as_slice()))
    }

    pub fn to_hash(&self) -> (res: hash::Hash)
        ensures
            res.0 == self.0,
    {
        hash::Hash::new(self.0)
    }
}

impl PartialEq for ClaimKey {
    fn eq(&self, other: &Self) -> (res: bool) {
        bytes32_eq(&self.0, &other.0)
    }
}

impl Eq for ClaimKey {}

impl vstd::std_specs::cmp::PartialEqSpecImpl for ClaimKey {
    open spec fn obeys_eq_spec() -> bool {
        true
    }

    open spec fn eq_spec(&self, other: &Self) -> bool {
        self.0@ == other.0@
    }
}

/// Distinct (player, game, run, floor) tuples are hashed from distinct byte
/// strings, so two floors share a claim key only through a SHA-256 collision.
pub proof fn lemma_claim_key_preimage_injective(
    p1: AccountId, g1: GameId, r1: RunId, f1: FloorNumber,
    p2: AccountId, g2: GameId, r2: RunId, f2: FloorNumber,
)
    requires
        claim_key_preimage(p1, g1, r1, f1) == claim_key_preimage(p2, g2, r2, f2),
    ensures
        p1.0@ == p2.0@,
        g1 == g2,
        r1 == r2,
        f1 == f2,
{
    crate::bytes::lemma_le_lengths(g1.0, r1.0);
    crate::bytes::lemma_le_lengths(f1.0, r2.0);
    crate::bytes::lemma_le_lengths(g2.0, r2.0);
    crate::bytes::lemma_le_lengths(f2.0, r1.0);
    assert(p1.0@.len() == 32 && p2.0@.len() == 32);
    crate::bytes::lemma_concat_split(p1.0@ + u32_le(g1.0) + u64_le(r1.0), u32_le(f1.0),
        p2.0@ + u32_le(g2.0) + u64_le(r2.0), u32_le(f2.0));
    crate::bytes::lemma_concat_split(p1.0@ + u32_le(g1.0), u64_le(r1.0), p2.0@ + u32_le(g2.0), u64_le(r2.0));
    crate::bytes::lemma_concat_split(p1.0@, u32_le(g1.0), p2.0@, u32_le(g2.0));
    crate::bytes::lemma_u32_le_injective(g1.0, g2.0);
    crate::bytes::lemma_u64_le_injective(r1.0, r2.0);
    crate::bytes::lemma_u32_le_injective(f1.0, f2.0);
}

} // verus!
