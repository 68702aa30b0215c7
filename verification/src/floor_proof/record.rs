use vstd::prelude::*;
use crate::primitives::hash;
use crate::primitives::{AccountId, GameRulesVersion};

verus! {

/// What a player submits to show a floor was completed.
#[derive(Debug, Clone)]
pub struct FloorProof {
    pub run_id: u64,
    pub game_id: u32,
    pub game_rules_version: GameRulesVersion,
    pub player_id: AccountId,
    pub wallet_address: AccountId,
    pub floor_number: u32,
    pub floor_seed: hash::Hash,
    pub start_time: u64,
    pub end_time: u64,
    pub claimed_coin_amount: u64,
    pub completion_state: String,
    pub proof_hash: hash::Hash,
}

} // verus!
