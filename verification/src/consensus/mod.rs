pub mod attestation;
pub mod validator_set;

pub use attestation::{ValidatorAttestation, ValidatorSignature};
pub use validator_set::{ValidatorInfo, ValidatorSet};
