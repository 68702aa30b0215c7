use vstd::prelude::*;
use crate::primitives::{ClaimKey, CoinAmount};

verus! {

/// What verifying a claim's attestations establishes.
#[derive(Debug, Clone, Copy)]
pub struct VerifiedClaim {
    pub claim_key: ClaimKey,
    pub reward: CoinAmount,
    pub reward_epoch: u32,
}

impl VerifiedClaim {
    pub fn new(claim_key: ClaimKey, reward: CoinAmount, reward_epoch: u32) -> (res: Self)
        ensures
            res.claim_key == claim_key,
            res.reward == reward,
            res.reward_epoch == reward_epoch,
    {
        VerifiedClaim { claim_key, reward, reward_epoch }
    }
}

} // verus!
