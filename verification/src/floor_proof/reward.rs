use vstd::prelude::*;
use crate::primitives::CoinAmount;

verus! {

/// The emission epoch, which scales floor rewards down over time.
#[derive(Debug, Clone, Copy, PartialEq, Eq, Structural)]
pub enum EmissionEpoch {
    Epoch1,
    Epoch2,
    Epoch3,
    Epoch4,
    Epoch5,
}

/// A floor's base reward and the epoch it is paid in.
#[derive(Debug, Clone, Copy)]
pub struct FloorReward {
    pub base_amount: CoinAmount,
    pub epoch: EmissionEpoch,
}

} // verus!
