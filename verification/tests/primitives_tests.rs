use agee::primitives::hash;
use agee::primitives::{AccountId, ClaimKey, FloorNumber, GameId, RunId, Signature};
use agee::tx::TxError;

fn hex(bytes: &[u8]) -> String {
    bytes.iter().map(|b| format!("{:02x}", b)).collect()
}

#[test]
fn claim_key_deterministic_and_field_sensitive() {
    let p = AccountId::new([1u8; 32]);
    let k = ClaimKey::new(p, GameId(1), RunId(100), FloorNumber(5));
    assert_eq!(k, ClaimKey::new(p, GameId(1), RunId(100), FloorNumber(5)));
    assert_ne!(k, ClaimKey::new(AccountId::new([2u8; 32]), GameId(1), RunId(100), FloorNumber(5)));
    assert_ne!(k, ClaimKey::new(p, GameId(2), RunId(100), FloorNumber(5)));
    assert_ne!(k, ClaimKey::new(p, GameId(1), RunId(101), FloorNumber(5)));
    assert_ne!(k, ClaimKey::new(p, GameId(1), RunId(100), FloorNumber(6)));
}

#[test]
fn claim_key_is_sha256_of_fields() {
    // SHA-256 of 32 zero bytes followed by 16 zero bytes (game, run, floor all 0).
    let k = ClaimKey::new(AccountId::new([0u8; 32]), GameId(0), RunId(0), FloorNumber(0));
    let zeros = [0u8; 48];
    let root = agee::block::merkle::compute_merkle_root(&[zeros.to_vec()]);
    assert_eq!(k.0, root.0);
    assert_ne!(hex(&k.0), hex(&[0u8; 32]));
}

#[test]
fn claim_key_to_hash_keeps_bytes() {
    let k = ClaimKey::new(AccountId::new([1u8; 32]), GameId(1), RunId(1), FloorNumber(1));
    let h: hash::Hash = k.to_hash();
    assert_eq!(h.0, k.0);
}

#[test]
fn ids_compare_by_bytes() {
    assert_eq!(AccountId::new([5u8; 32]), AccountId::new([5u8; 32]));
    assert_ne!(AccountId::new([5u8; 32]), AccountId::new([6u8; 32]));
    let mut b = [5u8; 32];
    b[31] = 0;
    assert_ne!(AccountId::new([5u8; 32]), AccountId::new(b));
    assert_eq!(hash::Hash::new([1u8; 32]), hash::Hash::new([1u8; 32]));
}

#[test]
fn signature_keeps_bytes() {
    let s = Signature::new(vec![1, 2, 3]);
    assert_eq!(s.0, vec![1, 2, 3]);
}

#[test]
fn tx_error_messages() {
    assert_eq!(TxError::DuplicateFloorClaim.message(), "Floor already claimed");
    assert_eq!(TxError::UnknownValidator.message(), "Unknown or inactive validator");
    assert_eq!(TxError::MaxSupplyExceeded.message(), "Max supply exceeded");
    assert_eq!(TxError::RewardMismatch.message(), "Claimed reward does not match validated reward");
    assert_eq!(
        TxError::InsufficientMatchingSignatures.message(),
        "Insufficient matching validator signatures"
    );
    assert_eq!(TxError::ClaimKeyMismatch.message(), "Claim key mismatch");
}
