use vstd::prelude::*;

verus! {

/// Signature bytes.
#[derive(Debug, Clone)]
pub struct Signature(pub Vec<u8>);

impl Signature {
    pub fn new(bytes: Vec<u8>) -> (res: Self)
        ensures
            res.0@ == bytes@,
    {
        Signature(bytes)
    }
}

} // verus!
