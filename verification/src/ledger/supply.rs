use vstd::prelude::*;
use crate::primitives::CoinAmount;
use crate::primitives::coin::{sat_add, sat_sub};

verus! {

/// The cap on circulating AGEE: 100 million.
pub const MAX_SUPPLY: u64 = 100_000_000;

/// Circulating and burned totals.
#[derive(Debug, Clone, Copy)]
pub struct SupplyTracker {
    pub circulating: CoinAmount,
    pub burned: CoinAmount,
}

impl SupplyTracker {
    pub fn new() -> (res: Self)
        ensures
            res.circulating.0 == 0,
            res.burned.0 == 0,
    {
        SupplyTracker { circulating: CoinAmount::new(0), burned: CoinAmount::new(0) }
    }

    pub fn max_supply() -> (res: CoinAmount)
        ensures
            res.0 == MAX_SUPPLY,
    {
        CoinAmount::new(MAX_SUPPLY)
    }

    /// Whether minting `amount` keeps circulation within the cap. The sum is
    /// taken in `u64`, so it must not overflow.
    pub open spec fn spec_can_mint(&self, amount: CoinAmount) -> bool {
        self.circulating.0 + amount.0 <= MAX_SUPPLY
    }

    pub fn can_mint(&self, amount: CoinAmount) -> (res: bool)
        requires
            self.circulating.0 + amount.0 <= u64::MAX,
        ensures
            res == self.spec_can_mint(amount),
    {
        self.circulating.0 + amount.0 <= MAX_SUPPLY
    }

    /// Mints `amount` when the cap allows it; otherwise changes nothing.
    pub fn mint(&mut self, amount: CoinAmount) -> (res: bool)
        requires
            old(self).circulating.0 + amount.0 <= u64::MAX,
        ensures
            res == old(self).spec_can_mint(amount),
            res ==> final(self).circulating.0 == old(self).circulating.0 + amount.0,
            !res ==> *final(self) == *old(self),
            final(self).burned == old(self).burned,
            old(self).circulating.0 <= MAX_SUPPLY ==> final(self).circulating.0 <= MAX_SUPPLY,
    {
        if self.can_mint(amount) {
            self.circulating = self.circulating.saturating_add(amount);
            true
        } else {
            false
        }
    }

    /// Takes `amount` out of circulation (floored at zero) and adds it to the
    /// burned total (capped at `u64::MAX`).
    pub fn burn(&mut self, amount: CoinAmount)
        ensures
            final(self).circulating.0 == sat_sub(old(self).circulating.0, amount.0),
            final(self).burned.0 == sat_add(old(self).burned.0, amount.0),
    {
        self.circulating = self.circulating.saturating_sub(amount);
        self.burned = self.burned.saturating_add(amount);
    }
}

} // verus!
