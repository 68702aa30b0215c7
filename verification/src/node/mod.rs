pub mod api;
pub mod attestation_verifier;
pub mod executor;
pub mod mempool;
pub mod persistence;
pub mod runtime;
pub mod state;
pub mod verified_claim;

pub use attestation_verifier::verify_claim_attestations;
pub use executor::execute_claim_floor_reward;
pub use state::ChainState;
pub use verified_claim::VerifiedClaim;
