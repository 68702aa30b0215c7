pub mod account;
pub mod claim_key;
pub mod coin;
pub mod hash;
pub mod ids;
pub mod signature;

pub use account::AccountId;
pub use claim_key::ClaimKey;
pub use coin::CoinAmount;
pub use ids::{ChainId, FloorNumber, GameId, GameRulesVersion, ProtocolVersion, RunId, ValidatorId};
pub use signature::Signature;
