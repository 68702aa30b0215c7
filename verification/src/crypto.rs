//! The hash functions of the outside crates, with what this library assumes
//! of them.
use vstd::prelude::*;
use sha2::{Digest, Sha256};

verus! {

/// SHA-256 of a byte string, as computed by the `sha2` crate.
pub uninterp spec fn sha256(data: Seq<u8>) -> Seq<u8>;

/// BLAKE3 (default, unkeyed mode) of a byte string, as computed by the
/// `blake3` crate.
pub uninterp spec fn blake3(data: Seq<u8>) -> Seq<u8>;

/// Calls `<sha2::Sha256 as Digest>::digest` on `data`. Trusted: the 32-byte
/// result is `sha256(data)`, a function of the bytes alone. Feeding the same
/// bytes to one hasher in several `update` calls gives the same digest, so
/// callers build the whole input first and hash it once.
#[verifier::external_body]
pub(crate) fn sha256_digest(data: &[u8]) -> (res: [u8; 32])
    ensures
        res@ == sha256(data@),
{
    let out = Sha256::digest(data);
    out.into()
}

/// Calls `blake3::hash` on `data` and takes its 32 bytes. Trusted: the
/// result is `blake3(data)`, a function of the bytes alone.
#[verifier::external_body]
pub(crate) fn blake3_digest(data: &[u8]) -> (res: [u8; 32])
    ensures
        res@ == blake3(data@),
{
    *blake3::hash(data).as_bytes()
}

} // verus!
