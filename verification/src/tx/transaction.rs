use vstd::prelude::*;
use crate::tx::burn::Burn;
use crate::tx::claim_floor::ClaimFloorReward;
use crate::tx::transfer::Transfer;

verus! {

/// A transaction of the chain.
#[derive(Debug, Clone)]
pub enum Transaction {
    ClaimFloorReward(ClaimFloorReward),
    Transfer(Transfer),
    Burn(Burn),
}

/// A transaction with its nonce and optional signature.
#[derive(Debug, Clone)]
pub struct TransactionEnvelope {
    pub tx: Transaction,
    pub nonce: u64,
    pub signature: Option<Vec<u8>>,
}

} // verus!
