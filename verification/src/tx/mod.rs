pub mod burn;
pub mod claim_floor;
pub mod error;
pub mod transaction;
pub mod transfer;

pub use claim_floor::{ClaimFloorReward, SignedValidatorAttestation};
pub use error::TxError;
pub use transaction::Transaction;
