//! Agee chain core: primitives, ledger, blocks, consensus, floor proofs and
//! the claim executor, with their behaviour stated as Verus contracts.

pub mod block;
pub mod bytes;
pub mod consensus;
pub mod crypto;
pub mod floor_proof;
pub mod ledger;
pub mod node;
pub mod primitives;
pub mod tx;
