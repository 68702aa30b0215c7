use vstd::prelude::*;
use crate::bytes::push_bytes;
use crate::primitives::hash;
use crate::primitives::{
    AccountId, ChainId, CoinAmount, FloorNumber, GameId, GameRulesVersion, ProtocolVersion, RunId,
    Signature, ValidatorId,
};

verus! {

/// The canonical validation result a validator signs. Binding the chain,
/// protocol, game version, player and floor prevents reusing a signature
/// for another claim.
#[derive(Debug, Clone, Copy)]
pub struct ValidatorAttestation {
    pub chain_id: ChainId,
    pub protocol_version: ProtocolVersion,
    pub validator_id: ValidatorId,
    pub player: AccountId,
    pub game_id: GameId,
    pub game_rules_version: GameRulesVersion,
    pub run_id: RunId,
    pub floor_number: FloorNumber,
    pub floor_proof_hash: hash::Hash,
    pub calculated_reward: CoinAmount,
    pub reward_epoch: u32,
    pub validated_at_ms: u64,
    pub expires_at_ms: u64,
}

/// The bytes of "AGEE_VALIDATOR_ATTESTATION_V1".
pub open spec fn attestation_domain() -> Seq<u8> {
    seq![
        65u8, 71, 69, 69, 95, 86, 65, 76, 73, 68, 65, 84, 79, 82, 95, 65, 84, 84, 69, 83, 84, 65, 84,
        73, 79, 78, 95, 86, 49,
    ]
}

/// "AGEE_VALIDATOR_ATTESTATION_V1".
pub const ATTESTATION_DOMAIN: [u8; 29] = [
    65u8, 71, 69, 69, 95, 86, 65, 76, 73, 68, 65, 84, 79, 82, 95, 65, 84, 84, 69, 83, 84, 65, 84, 73,
    79, 78, 95, 86, 49,
];

impl ValidatorAttestation {
    /// The domain-separation tag put in front of every signed attestation.
    pub fn domain_separation(&self) -> (res: &'static [u8])
        ensures
            res@ == attestation_domain(),
    {
        let tag: &'static [u8; 29] = &ATTESTATION_DOMAIN;
        assert(tag@ =~= attestation_domain());
        tag.as_slice()
    }

    /// The message a validator signs: the domain tag followed by
    /// `canonical`, the canonical encoding of this attestation.
    pub fn signed_message(&self, canonical: &[u8]) -> (res: Vec<u8>)
        ensures
            res@ == attestation_domain() + canonical@,
    {
        let mut msg: Vec<u8> = Vec::new();
        push_bytes(&mut msg, self.domain_separation());
        push_bytes(&mut msg, canonical);
        msg
    }
}

/// A signed message always begins with the domain tag.
pub proof fn lemma_signed_message_has_domain(canonical: Seq<u8>)
    ensures
        (attestation_domain() + canonical).subrange(0, attestation_domain().len() as int)
            == attestation_domain(),
{
    assert((attestation_domain() + canonical).subrange(0, attestation_domain().len() as int)
        =~= attestation_domain());
}

/// Attestations with different canonical encodings give different signed
/// messages.
pub proof fn lemma_signed_message_injective(c1: Seq<u8>, c2: Seq<u8>)
    requires
        attestation_domain() + c1 == attestation_domain() + c2,
    ensures
        c1 == c2,
{
    crate::bytes::lemma_concat_split(attestation_domain(), c1, attestation_domain(), c2);
}

/// A validator's signature together with the attestation it signed.
#[derive(Debug, Clone)]
pub struct ValidatorSignature {
    pub validator_id: ValidatorId,
    pub attestation: ValidatorAttestation,
    pub signature: Signature,
}

impl ValidatorSignature {
    /// Whether the signed attestation agrees with `other` on every field
    /// that decides the claim.
    pub fn matches_attestation(&self, other: &ValidatorAttestation) -> (res: bool)
        ensures
            res == {
                let a = self.attestation;
                &&& a.floor_proof_hash.0@ == other.floor_proof_hash.0@
                &&& a.calculated_reward == other.calculated_reward
                &&& a.player.0@ == other.player.0@
                &&& a.game_id == other.game_id
                &&& a.run_id == other.run_id
                &&& a.floor_number == other.floor_number
                &&& a.game_rules_version == other.game_rules_version
                &&& a.reward_epoch == other.reward_epoch
            },
    {
        self.attestation.floor_proof_hash == other.floor_proof_hash
            && self.attestation.calculated_reward == other.calculated_reward
            && self.attestation.player == other.player
            && self.attestation.game_id == other.game_id
            && self.attestation.run_id == other.run_id
            && self.attestation.floor_number == other.floor_number
            && self.attestation.game_rules_version == other.game_rules_version
            && self.attestation.reward_epoch == other.reward_epoch
    }
}

} // verus!
