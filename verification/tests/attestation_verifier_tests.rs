use agee::consensus::{ValidatorInfo, ValidatorSet};
use agee::node::attestation_verifier::verify_claim_attestations;
use agee::node::ChainState;
use agee::primitives::hash;
use agee::primitives::{AccountId, ClaimKey, CoinAmount, FloorNumber, GameId, GameRulesVersion, RunId, ValidatorId};
use agee::tx::{ClaimFloorReward, SignedValidatorAttestation, TxError};

fn sample_claim_tx() -> ClaimFloorReward {
    ClaimFloorReward {
        player: AccountId::new([1u8; 32]),
        game_id: GameId(1),
        game_rules_version: GameRulesVersion(1),
        run_id: RunId(100),
        floor_number: 5,
        floor_proof_hash: hash::Hash::new([2u8; 32]),
        claimed_reward: CoinAmount::new(10),
        attestations: vec![SignedValidatorAttestation {
            validator_id: [3u8; 32],
            attestation_hash: hash::Hash::new([4u8; 32]),
            signature: vec![1, 2, 3],
        }],
    }
}

fn state_with(threshold: u32, ids: &[[u8; 32]]) -> ChainState {
    let mut validators = ValidatorSet::new(threshold);
    for id in ids {
        validators.add_validator(ValidatorInfo {
            validator_id: ValidatorId(*id),
            public_key: [0u8; 32],
            active: true,
        });
    }
    let mut state = ChainState::new();
    state.validators = validators;
    state
}

#[test]
fn insufficient_signatures_fails() {
    let state = state_with(3, &[[3u8; 32]]);
    let tx = sample_claim_tx();
    let result = verify_claim_attestations(&state, &tx);
    assert!(result.is_err());
    assert_eq!(result.unwrap_err(), TxError::InsufficientValidatorSignatures);
}

#[test]
fn attestation_verifier_unknown_validator_fails() {
    let state = state_with(1, &[[99u8; 32]]);
    let tx = sample_claim_tx();
    let result = verify_claim_attestations(&state, &tx);
    assert!(result.is_err());
    assert_eq!(result.unwrap_err(), TxError::UnknownValidator);
}

#[test]
fn valid_claim_verifies() {
    let state = state_with(1, &[[3u8; 32]]);
    let tx = sample_claim_tx();
    let result = verify_claim_attestations(&state, &tx);
    assert!(result.is_ok());

    let verified = result.unwrap();
    assert_eq!(verified.reward, CoinAmount::new(10));
    assert_eq!(verified.reward_epoch, 1);
    let key = ClaimKey::new(tx.player, tx.game_id, tx.run_id, FloorNumber(5));
    assert_eq!(verified.claim_key, key);
}

#[test]
fn duplicate_validator_fails() {
    let state = state_with(2, &[[3u8; 32]]);
    let mut tx = sample_claim_tx();
    tx.attestations = vec![
        SignedValidatorAttestation {
            validator_id: [3u8; 32],
            attestation_hash: hash::Hash::new([4u8; 32]),
            signature: vec![1, 2, 3],
        },
        SignedValidatorAttestation {
            validator_id: [3u8; 32],
            attestation_hash: hash::Hash::new([4u8; 32]),
            signature: vec![1, 2, 3],
        },
    ];
    let result = verify_claim_attestations(&state, &tx);
    assert!(result.is_err());
    assert_eq!(result.unwrap_err(), TxError::DuplicateValidatorSignature);
}

#[test]
fn attestation_verifier_invalid_game_id_fails() {
    let state = state_with(1, &[[3u8; 32]]);
    let mut tx = sample_claim_tx();
    tx.game_id = GameId(99);
    let result = verify_claim_attestations(&state, &tx);
    assert!(result.is_err());
    assert_eq!(result.unwrap_err(), TxError::InvalidGameId);
}

#[test]
fn invalid_rules_version_fails() {
    let state = state_with(1, &[[3u8; 32]]);
    let mut tx = sample_claim_tx();
    tx.game_rules_version = GameRulesVersion(99);
    let result = verify_claim_attestations(&state, &tx);
    assert!(result.is_err());
    assert_eq!(result.unwrap_err(), TxError::InvalidGameRulesVersion);
}

#[test]
fn floor_number_out_of_range_fails() {
    let state = state_with(1, &[[3u8; 32]]);
    for floor in [0u32, 101, u32::MAX] {
        let mut tx = sample_claim_tx();
        tx.floor_number = floor;
        assert_eq!(verify_claim_attestations(&state, &tx).unwrap_err(), TxError::InvalidFloorNumber);
    }
    for floor in [1u32, 100] {
        let mut tx = sample_claim_tx();
        tx.floor_number = floor;
        assert!(verify_claim_attestations(&state, &tx).is_ok());
    }
}

#[test]
fn zero_reward_fails() {
    let state = state_with(1, &[[3u8; 32]]);
    let mut tx = sample_claim_tx();
    tx.claimed_reward = CoinAmount::new(0);
    assert_eq!(verify_claim_attestations(&state, &tx).unwrap_err(), TxError::InvalidRewardAmount);
}

#[test]
fn inactive_validator_fails() {
    let mut state = state_with(1, &[]);
    state.validators.add_validator(ValidatorInfo {
        validator_id: ValidatorId([3u8; 32]),
        public_key: [0u8; 32],
        active: false,
    });
    let tx = sample_claim_tx();
    assert_eq!(verify_claim_attestations(&state, &tx).unwrap_err(), TxError::UnknownValidator);
}

#[test]
fn attestation_errors_come_before_field_errors() {
    let state = state_with(1, &[[9u8; 32]]);
    let mut tx = sample_claim_tx();
    tx.game_id = GameId(99);
    assert_eq!(verify_claim_attestations(&state, &tx).unwrap_err(), TxError::UnknownValidator);
}

#[test]
fn two_distinct_validators_meet_threshold_two() {
    let state = state_with(2, &[[3u8; 32], [5u8; 32]]);
    let mut tx = sample_claim_tx();
    tx.attestations.push(SignedValidatorAttestation {
        validator_id: [5u8; 32],
        attestation_hash: hash::Hash::new([4u8; 32]),
        signature: vec![],
    });
    assert!(verify_claim_attestations(&state, &tx).is_ok());
}
