use vstd::prelude::*;
use crate::bytes::bytes32_eq;

verus! {

/// Identifies a game.
#[derive(Debug, Clone, Copy, PartialEq, Eq, Structural, PartialOrd, Ord, Hash)]
pub struct GameId(pub u32);

/// Identifies one run of a game.
#[derive(Debug, Clone, Copy, PartialEq, Eq, Structural, PartialOrd, Ord, Hash)]
pub struct RunId(pub u64);

/// A floor of a run.
#[derive(Debug, Clone, Copy, PartialEq, Eq, Structural, PartialOrd, Ord, Hash)]
pub struct FloorNumber(pub u32);

/// Version of the rules a game was played under.
#[derive(Debug, Clone, Copy, PartialEq, Eq, Structural, PartialOrd, Ord, Hash)]
pub struct GameRulesVersion(pub u32);

/// Version of the chain protocol.
#[derive(Debug, Clone, Copy, PartialEq, Eq, Structural, PartialOrd, Ord, Hash)]
pub struct ProtocolVersion(pub u32);

/// A validator, named by 32 bytes.
#[derive(Debug, Clone, Copy, Hash)]
pub struct ValidatorId(pub [u8; 32]);

/// A chain, named by 32 bytes.
#[derive(Debug, Clone, Copy, Hash)]
pub struct ChainId(pub [u8; 32]);

impl PartialEq for ValidatorId {
    fn eq(&self, other: &Self) -> (res: bool) {
        bytes32_eq(&self.0, &other.0)
    }
}

impl Eq for ValidatorId {}

impl vstd::std_specs::cmp::PartialEqSpecImpl for ValidatorId {
    open spec fn obeys_eq_spec() -> bool {
        true
    }

    open spec fn eq_spec(&self, other: &Self) -> bool {
        self.0@ == other.0@
    }
}

impl PartialEq for ChainId {
    fn eq(&self, other: &Self) -> (res: bool) {
        bytes32_eq(&self.0, &other.0)
    }
}

impl Eq for ChainId {}

impl vstd::std_specs::cmp::PartialEqSpecImpl for ChainId {
    open spec fn obeys_eq_spec() -> bool {
        true
    }

    open spec fn eq_spec(&self, other: &Self) -> bool {
        self.0@ == other.0@
    }
}

} // verus!
