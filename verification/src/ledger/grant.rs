use vstd::prelude::*;
use crate::primitives::{AccountId, CoinAmount, GameRulesVersion};

verus! {

/// Where a coin grant came from.
#[derive(Debug, Clone, Copy, PartialEq, Eq, Structural)]
pub enum GrantSource {
    MazePickup,
    FloorComplete,
    FloorMilestone,
    BossClear,
    SeasonReward,
    BurnRefund,
    AdminAdjustment,
}

/// Where a coin grant stands.
#[derive(Debug, Clone, Copy, PartialEq, Eq, Structural)]
pub enum GrantStatus {
    LocalUnverified,
    FloorVerified,
    MintEligible,
    MintClaimed,
    Burned,
    Rejected,
}

/// A record of coins granted to an account.
#[derive(Debug, Clone, Copy)]
pub struct CoinGrant {
    pub id: u64,
    pub account_id: AccountId,
    pub amount: CoinAmount,
    pub source: GrantSource,
    pub game_id: Option<u32>,
    pub game_rules_version: Option<GameRulesVersion>,
    pub run_id: Option<u64>,
    pub floor_number: Option<u32>,
    pub mint_eligible: bool,
    pub status: GrantStatus,
    pub created_at: u64,
}

impl CoinGrant {
    /// A fresh, unverified grant with no game context.
    pub fn new(id: u64, account_id: AccountId, amount: CoinAmount, source: GrantSource) -> (res: Self)
        ensures
            res.id == id,
            res.account_id == account_id,
            res.amount == amount,
            res.source == source,
            res.game_id is None,
            res.game_rules_version is None,
            res.run_id is None,
            res.floor_number is None,
            !res.mint_eligible,
            res.status == GrantStatus::LocalUnverified,
            res.created_at == 0,
    {
        CoinGrant {
            id,
            account_id,
            amount,
            source,
            game_id: None,
            game_rules_version: None,
            run_id: None,
            floor_number: None,
            mint_eligible: false,
            status: GrantStatus::LocalUnverified,
            created_at: 0,
        }
    }
}

} // verus!
