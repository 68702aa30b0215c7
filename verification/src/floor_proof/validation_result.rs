use vstd::prelude::*;
use crate::primitives::hash;
use crate::primitives::CoinAmount;

verus! {

/// Why a floor proof was rejected.
#[derive(Debug, Clone, Copy, PartialEq, Eq, Structural)]
pub enum FloorInvalidReason {
    InvalidGameId,
    InvalidRulesVersion,
    InvalidSeed,
    InvalidStartPosition,
    InvalidExitPosition,
    CheckpointsOutOfOrder,
    ImpossibleSpeed,
    WallClip,
    InvalidCoinId,
    CoinTooFarFromPath,
    TrapMismatch,
    ImpossibleCompletionTime,
    RewardMismatch,
    UnexpectedError,
}

/// The human-readable text of each reason.
pub open spec fn floor_invalid_text(r: FloorInvalidReason) -> Seq<char> {
    match r {
        FloorInvalidReason::InvalidGameId => "Invalid game ID"@,
        FloorInvalidReason::InvalidRulesVersion => "Invalid rules version"@,
        FloorInvalidReason::InvalidSeed => "Invalid seed"@,
        FloorInvalidReason::InvalidStartPosition => "Invalid start position"@,
        FloorInvalidReason::InvalidExitPosition => "Invalid exit position"@,
        FloorInvalidReason::CheckpointsOutOfOrder => "Checkpoints out of order"@,
        FloorInvalidReason::ImpossibleSpeed => "Movement speed is impossible"@,
        FloorInvalidReason::WallClip => "Path clips through walls"@,
        FloorInvalidReason::InvalidCoinId => "Invalid coin ID"@,
        FloorInvalidReason::CoinTooFarFromPath => "Coin too far from path"@,
        FloorInvalidReason::TrapMismatch => "Trap collision mismatch"@,
        FloorInvalidReason::ImpossibleCompletionTime => "Completion time is impossible"@,
        FloorInvalidReason::RewardMismatch => "Reward mismatch"@,
        FloorInvalidReason::UnexpectedError => "Unexpected validation error"@,
    }
}

impl FloorInvalidReason {
    /// The text shown for this reason.
    pub fn message(&self) -> (res: &'static str)
        ensures
            res@ == floor_invalid_text(*self),
    {
        match self {
            FloorInvalidReason::InvalidGameId => "Invalid game ID",
            FloorInvalidReason::InvalidRulesVersion => "Invalid rules version",
            FloorInvalidReason::InvalidSeed => "Invalid seed",
            FloorInvalidReason::InvalidStartPosition => "Invalid start position",
            FloorInvalidReason::InvalidExitPosition => "Invalid exit position",
            FloorInvalidReason::CheckpointsOutOfOrder => "Checkpoints out of order",
            FloorInvalidReason::ImpossibleSpeed => "Movement speed is impossible",
            FloorInvalidReason::WallClip => "Path clips through walls",
            FloorInvalidReason::InvalidCoinId => "Invalid coin ID",
            FloorInvalidReason::CoinTooFarFromPath => "Coin too far from path",
            FloorInvalidReason::TrapMismatch => "Trap collision mismatch",
            FloorInvalidReason::ImpossibleCompletionTime => "Completion time is impossible",
            FloorInvalidReason::RewardMismatch => "Reward mismatch",
            FloorInvalidReason::UnexpectedError => "Unexpected validation error",
        }
    }
}

/// The outcome of validating a floor proof.
#[derive(Debug, Clone, Copy)]
pub struct FloorValidationResult {
    pub valid: bool,
    pub floor_proof_hash: hash::Hash,
    pub calculated_reward: CoinAmount,
    pub reason: Option<FloorInvalidReason>,
}

impl FloorValidationResult {
    pub fn valid(floor_proof_hash: hash::Hash, calculated_reward: CoinAmount) -> (res: Self)
        ensures
            res.valid,
            res.floor_proof_hash == floor_proof_hash,
            res.calculated_reward == calculated_reward,
            res.reason is None,
    {
        FloorValidationResult { valid: true, floor_proof_hash, calculated_reward, reason: None }
    }

    /// A rejection; its proof hash is all zeros.
    pub fn invalid(reason: FloorInvalidReason, calculated_reward: CoinAmount) -> (res: Self)
        ensures
            !res.valid,
            res.floor_proof_hash.0@ == Seq::new(32, |i: int| 0u8),
            res.calculated_reward == calculated_reward,
            res.reason == Some(reason),
    {
        let zero = [0u8; 32];
        assert(zero@ =~= Seq::new(32, |i: int| 0u8));
        FloorValidationResult {
            valid: false,
            floor_proof_hash: hash::Hash::new(zero),
            calculated_reward,
            reason: Some(reason),
        }
    }
}

} // verus!
