use vstd::prelude::*;
use crate::primitives::hash;
use crate::primitives::{AccountId, CoinAmount, GameId, GameRulesVersion, RunId};

verus! {

/// One validator's signed statement about a floor claim.
#[derive(Debug, Clone)]
pub struct SignedValidatorAttestation {
    pub validator_id: [u8; 32],
    pub attestation_hash: hash::Hash,
    pub signature: Vec<u8>,
}

/// A player's claim of the reward for a completed floor.
#[derive(Debug, Clone)]
pub struct ClaimFloorReward {
    pub player: AccountId,
    pub game_id: GameId,
    pub game_rules_version: GameRulesVersion,
    pub run_id: RunId,
    pub floor_number: u32,
    pub floor_proof_hash: hash::Hash,
    pub claimed_reward: CoinAmount,
    pub attestations: Vec<SignedValidatorAttestation>,
}

} // verus!
