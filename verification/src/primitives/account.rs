use vstd::prelude::*;
use crate::bytes::bytes32_eq;

verus! {

/// An account, named by 32 bytes.
#[derive(Debug, Clone, Copy, Hash)]
pub struct AccountId(pub [u8; 32]);

impl AccountId {
    pub fn new(bytes: [u8; 32]) -> (res: Self)
        ensures
            res.0 == bytes,
    {
        AccountId(bytes)
    }
}

impl PartialEq for AccountId {
    fn eq(&self, other: &Self) -> (res: bool) {
        bytes32_eq(&self.0, &other.0)
    }
}

impl Eq for AccountId {}

impl vstd::std_specs::cmp::PartialEqSpecImpl for AccountId {
    open spec fn obeys_eq_spec() -> bool {
        true
    }

    open spec fn eq_spec(&self, other: &Self) -> bool {
        self.0@ == other.0@
    }
}

} // verus!
