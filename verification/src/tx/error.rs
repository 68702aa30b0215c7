use vstd::prelude::*;

verus! {

/// Why a transaction was rejected.
#[derive(Debug, Clone, Copy, PartialEq, Eq, Structural)]
pub enum TxError {
    DuplicateFloorClaim,
    InvalidValidatorSignature,
    RewardMismatch,
    MaxSupplyExceeded,
    EmissionEpochMismatch,
    InsufficientBalance,
    InvalidTransaction,
    InvalidGameRulesVersion,
    InsufficientValidatorSignatures,
    UnknownValidator,
    DuplicateValidatorSignature,
    InsufficientMatchingSignatures,
    InvalidGameId,
    InvalidFloorNumber,
    InvalidRewardAmount,
    ClaimKeyMismatch,
}

/// The human-readable text of each error.
pub open spec fn tx_error_text(e: TxError) -> Seq<char> {
    match e {
        TxError::DuplicateFloorClaim => "Floor already claimed"@,
        TxError::InvalidValidatorSignature => "Invalid validator signature"@,
        TxError::RewardMismatch => "Claimed reward does not match validated reward"@,
        TxError::MaxSupplyExceeded => "Max supply exceeded"@,
        TxError::EmissionEpochMismatch => "Emission epoch mismatch"@,
        TxError::InsufficientBalance => "Insufficient balance"@,
        TxError::InvalidTransaction => "Invalid transaction"@,
        TxError::InvalidGameRulesVersion => "Invalid game rules version"@,
        TxError::InsufficientValidatorSignatures => "Insufficient validator signatures"@,
        TxError::UnknownValidator => "Unknown or inactive validator"@,
        TxError::DuplicateValidatorSignature => "Duplicate validator signature"@,
        TxError::InsufficientMatchingSignatures => "Insufficient matching validator signatures"@,
        TxError::InvalidGameId => "Invalid game ID"@,
        TxError::InvalidFloorNumber => "Invalid floor number"@,
        TxError::InvalidRewardAmount => "Invalid reward amount"@,
        TxError::ClaimKeyMismatch => "Claim key mismatch"@,
    }
}

impl TxError {
    /// The text shown for this error.
    pub fn message(&self) -> (res: &'static str)
        ensures
            res@ == tx_error_text(*self),
    {
        match self {
            TxError::DuplicateFloorClaim => "Floor already claimed",
            TxError::InvalidValidatorSignature => "Invalid validator signature",
            TxError::RewardMismatch => "Claimed reward does not match validated reward",
            TxError::MaxSupplyExceeded => "Max supply exceeded",
            TxError::EmissionEpochMismatch => "Emission epoch mismatch",
            TxError::InsufficientBalance => "Insufficient balance",
            TxError::InvalidTransaction => "Invalid transaction",
            TxError::InvalidGameRulesVersion => "Invalid game rules version",
            TxError::InsufficientValidatorSignatures => "Insufficient validator signatures",
            TxError::UnknownValidator => "Unknown or inactive validator",
            TxError::DuplicateValidatorSignature => "Duplicate validator signature",
            TxError::InsufficientMatchingSignatures => "Insufficient matching validator signatures",
            TxError::InvalidGameId => "Invalid game ID",
            TxError::InvalidFloorNumber => "Invalid floor number",
            TxError::InvalidRewardAmount => "Invalid reward amount",
            TxError::ClaimKeyMismatch => "Claim key mismatch",
        }
    }
}

} // verus!
