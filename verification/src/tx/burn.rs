use vstd::prelude::*;
use crate::primitives::{AccountId, CoinAmount};

verus! {

/// Removes coins from an account.
#[derive(Debug, Clone)]
pub struct Burn {
    pub account: AccountId,
    pub amount: CoinAmount,
    pub burn_type: String,
}

} // verus!
