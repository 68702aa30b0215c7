use vstd::prelude::*;

verus! {

/// An amount of AGEE coins.
#[derive(Debug, Clone, Copy, PartialEq, Eq, PartialOrd, Ord, Structural)]
pub struct CoinAmount(pub u64);

/// `a + b`, capped at `u64::MAX`.
pub open spec fn sat_add(a: u64, b: u64) -> u64 {
    if a + b > u64::MAX { u64::MAX } else { (a + b) as u64 }
}

/// `a - b`, floored at zero.
pub open spec fn sat_sub(a: u64, b: u64) -> u64 {
    if a < b { 0 } else { (a - b) as u64 }
}

impl CoinAmount {
    pub fn new(amount: u64) -> (res: Self)
        ensures
            res.0 == amount,
    {
        CoinAmount(amount)
    }

    pub fn saturating_add(self, other: CoinAmount) -> (res: CoinAmount)
        ensures
            res.0 == sat_add(self.0, other.0),
    {
        CoinAmount(self.0.saturating_add(other.0))
    }

    pub fn saturating_sub(self, other: CoinAmount) -> (res: CoinAmount)
        ensures
            res.0 == sat_sub(self.0, other.0),
    {
        CoinAmount(self.0.saturating_sub(other.0))
    }
}

} // verus!
