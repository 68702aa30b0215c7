use vstd::prelude::*;
use crate::primitives::{AccountId, CoinAmount};

verus! {

/// Moves coins between accounts.
#[derive(Debug, Clone, Copy)]
pub struct Transfer {
    pub from: AccountId,
    pub to: AccountId,
    pub amount: CoinAmount,
}

} // verus!
