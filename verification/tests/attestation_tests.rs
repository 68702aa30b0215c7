use agee::consensus::attestation::ATTESTATION_DOMAIN;
use agee::consensus::{ValidatorAttestation, ValidatorSignature};
use agee::primitives::hash;
use agee::primitives::{
    AccountId, ChainId, CoinAmount, FloorNumber, GameId, GameRulesVersion, ProtocolVersion, RunId,
    Signature, ValidatorId,
};

fn sample_attestation() -> ValidatorAttestation {
    ValidatorAttestation {
        chain_id: ChainId([1u8; 32]),
        protocol_version: ProtocolVersion(1),
        validator_id: ValidatorId([2u8; 32]),
        player: AccountId::new([3u8; 32]),
        game_id: GameId(1),
        game_rules_version: GameRulesVersion(1),
        run_id: RunId(100),
        floor_number: FloorNumber(5),
        floor_proof_hash: hash::Hash::new([4u8; 32]),
        calculated_reward: CoinAmount::new(10),
        reward_epoch: 1,
        validated_at_ms: 1000,
        expires_at_ms: 2000,
    }
}

fn json_bytes(b: &[u8; 32]) -> String {
    serde_json::to_string(&b.to_vec()).unwrap()
}

/// The JSON encoding of an attestation, field by field in declaration order.
fn canonical_bytes(a: &ValidatorAttestation) -> Vec<u8> {
    format!(
        "{{\"chain_id\":{},\"protocol_version\":{},\"validator_id\":{},\"player\":{},\"game_id\":{},\"game_rules_version\":{},\"run_id\":{},\"floor_number\":{},\"floor_proof_hash\":{},\"calculated_reward\":{},\"reward_epoch\":{},\"validated_at_ms\":{},\"expires_at_ms\":{}}}",
        json_bytes(&a.chain_id.0),
        a.protocol_version.0,
        json_bytes(&a.validator_id.0),
        json_bytes(&a.player.0),
        a.game_id.0,
        a.game_rules_version.0,
        a.run_id.0,
        a.floor_number.0,
        json_bytes(&a.floor_proof_hash.0),
        a.calculated_reward.0,
        a.reward_epoch,
        a.validated_at_ms,
        a.expires_at_ms,
    )
    .into_bytes()
}

fn signed_message(a: &ValidatorAttestation) -> Vec<u8> {
    a.signed_message(&canonical_bytes(a))
}

#[test]
fn attestation_domain_separation_is_set() {
    let attestation = sample_attestation();
    let msg = signed_message(&attestation);
    assert!(msg.starts_with(b"AGEE_VALIDATOR_ATTESTATION_V1"));
}

#[test]
fn different_reward_changes_signature() {
    let attestation_a = sample_attestation();
    let mut attestation_b = sample_attestation();

    attestation_b.calculated_reward = CoinAmount::new(20);

    let msg_a = signed_message(&attestation_a);
    let msg_b = signed_message(&attestation_b);

    assert_ne!(msg_a, msg_b);
}

#[test]
fn different_player_changes_signature() {
    let attestation_a = sample_attestation();
    let mut attestation_b = sample_attestation();

    attestation_b.player = AccountId::new([99u8; 32]);

    let msg_a = signed_message(&attestation_a);
    let msg_b = signed_message(&attestation_b);

    assert_ne!(msg_a, msg_b);
}

#[test]
fn different_chain_id_changes_signature() {
    let attestation_a = sample_attestation();
    let mut attestation_b = sample_attestation();

    attestation_b.chain_id = ChainId([99u8; 32]);

    let msg_a = signed_message(&attestation_a);
    let msg_b = signed_message(&attestation_b);

    assert_ne!(msg_a, msg_b);
}

#[test]
fn different_rules_version_changes_signature() {
    let attestation_a = sample_attestation();
    let mut attestation_b = sample_attestation();

    attestation_b.game_rules_version = GameRulesVersion(2);

    let msg_a = signed_message(&attestation_a);
    let msg_b = signed_message(&attestation_b);

    assert_ne!(msg_a, msg_b);
}

#[test]
fn expired_attestation_is_invalid() {
    let attestation = ValidatorAttestation { expires_at_ms: 100, ..sample_attestation() };

    assert!(attestation.expires_at_ms < 1000);
}

#[test]
fn signed_message_is_domain_then_encoding() {
    let a = sample_attestation();
    let msg = a.signed_message(b"xyz");
    assert_eq!(msg, b"AGEE_VALIDATOR_ATTESTATION_V1xyz".to_vec());
    assert_eq!(a.domain_separation(), &ATTESTATION_DOMAIN[..]);
    assert_eq!(a.domain_separation(), b"AGEE_VALIDATOR_ATTESTATION_V1");
}

#[test]
fn matches_attestation_compares_claim_fields() {
    let a = sample_attestation();
    let sig = ValidatorSignature {
        validator_id: ValidatorId([2u8; 32]),
        attestation: a,
        signature: Signature::new(vec![1, 2, 3]),
    };
    assert!(sig.matches_attestation(&sample_attestation()));
    // Fields outside the claim do not matter.
    let other_chain = ValidatorAttestation { chain_id: ChainId([9u8; 32]), expires_at_ms: 5, ..a };
    assert!(sig.matches_attestation(&other_chain));
    let other_floor = ValidatorAttestation { floor_number: FloorNumber(6), ..a };
    assert!(!sig.matches_attestation(&other_floor));
    let other_hash = ValidatorAttestation { floor_proof_hash: hash::Hash::new([5u8; 32]), ..a };
    assert!(!sig.matches_attestation(&other_hash));
    let other_epoch = ValidatorAttestation { reward_epoch: 2, ..a };
    assert!(!sig.matches_attestation(&other_epoch));
}
