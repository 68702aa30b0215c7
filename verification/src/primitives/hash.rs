use vstd::prelude::*;
use crate::bytes::bytes32_eq;

verus! {

/// A 32-byte digest.
#[derive(Debug, Clone, Copy, Hash)]
pub struct Hash(pub [u8; 32]);

impl Hash {
    pub fn new(bytes: [u8; 32]) -> (res: Self)
        ensures
            res.0 == bytes,
    {
        Hash(bytes)
    }
}

impl PartialEq for Hash {
    fn eq(&self, other: &Self) -> (res: bool) {
        bytes32_eq(&self.0, &other.0)
    }
}

impl Eq for Hash {}

impl vstd::std_specs::cmp::PartialEqSpecImpl for Hash {
    open spec fn obeys_eq_spec() -> bool {
        true
    }

    open spec fn eq_spec(&self, other: &Self) -> bool {
        self.0@ == other.0@
    }
}

} // verus!
