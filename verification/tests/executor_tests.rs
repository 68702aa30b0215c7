use agee::consensus::{ValidatorInfo, ValidatorSet};
use agee::ledger::SupplyTracker;
use agee::node::execute_claim_floor_reward;
use agee::node::ChainState;
use agee::primitives::hash;
use agee::primitives::{AccountId, ClaimKey, CoinAmount, FloorNumber, GameId, GameRulesVersion, RunId, ValidatorId};
use agee::tx::{ClaimFloorReward, SignedValidatorAttestation, TxError};

fn sample_claim_tx() -> ClaimFloorReward {
    ClaimFloorReward {
        player: AccountId::new([1u8; 32]),
        game_id: GameId(1),
        game_rules_version: GameRulesVersion(1),
        run_id: RunId(100),
        floor_number: 5,
        floor_proof_hash: hash::Hash::new([2u8; 32]),
        claimed_reward: CoinAmount::new(10),
        attestations: vec![SignedValidatorAttestation {
            validator_id: [3u8; 32],
            attestation_hash: hash::Hash::new([4u8; 32]),
            signature: vec![1, 2, 3],
        }],
    }
}

fn setup_state_with_validator() -> ChainState {
    let mut state = ChainState::new();
    state.validators = ValidatorSet::new(1);
    state.validators.add_validator(ValidatorInfo {
        validator_id: ValidatorId([3u8; 32]),
        public_key: [0u8; 32],
        active: true,
    });
    state
}

#[test]
fn executor_tests_valid_claim_mints_coins() {
    let mut state = setup_state_with_validator();
    let tx = sample_claim_tx();

    let result = execute_claim_floor_reward(&mut state, &tx);
    assert!(result.is_ok());

    let balance = state.balances.get(tx.player).unwrap();
    assert_eq!(balance.mintable_coins(), CoinAmount::new(10));
    assert_eq!(state.supply.circulating, CoinAmount::new(10));
}

#[test]
fn duplicate_claim_fails() {
    let mut state = setup_state_with_validator();
    let tx = sample_claim_tx();

    assert!(execute_claim_floor_reward(&mut state, &tx).is_ok());

    let result = execute_claim_floor_reward(&mut state, &tx);
    assert!(result.is_err());
    assert_eq!(result.unwrap_err(), TxError::DuplicateFloorClaim);
    assert_eq!(state.supply.circulating, CoinAmount::new(10));
}

#[test]
fn claim_over_max_supply_fails() {
    let mut state = setup_state_with_validator();
    let max_supply = SupplyTracker::max_supply();
    let mut tx = sample_claim_tx();
    tx.claimed_reward = CoinAmount::new(max_supply.0 + 1);

    let result = execute_claim_floor_reward(&mut state, &tx);
    assert!(result.is_err());
    assert_eq!(state.supply.circulating, CoinAmount::new(0));
    assert_eq!(result.unwrap_err(), TxError::MaxSupplyExceeded);
    assert_eq!(state.claimed_floors.len(), 0);
}

#[test]
fn no_attestations_fails() {
    let mut state = setup_state_with_validator();
    let mut tx = sample_claim_tx();
    tx.attestations = vec![];

    let result = execute_claim_floor_reward(&mut state, &tx);
    assert!(result.is_err());
}

#[test]
fn executor_tests_unknown_validator_fails() {
    let mut state = setup_state_with_validator();
    let mut tx = sample_claim_tx();
    tx.attestations[0].validator_id = [99u8; 32];

    let result = execute_claim_floor_reward(&mut state, &tx);
    assert!(result.is_err());
}

#[test]
fn executor_tests_invalid_game_id_fails() {
    let mut state = setup_state_with_validator();
    let mut tx = sample_claim_tx();
    tx.game_id = GameId(99);

    let result = execute_claim_floor_reward(&mut state, &tx);
    assert!(result.is_err());
}

#[test]
fn claim_exactly_at_max_supply_succeeds() {
    let mut state = setup_state_with_validator();
    let mut tx = sample_claim_tx();
    tx.claimed_reward = SupplyTracker::max_supply();
    assert!(execute_claim_floor_reward(&mut state, &tx).is_ok());
    assert_eq!(state.supply.circulating, SupplyTracker::max_supply());
    let mut tx2 = sample_claim_tx();
    tx2.floor_number = 6;
    tx2.claimed_reward = CoinAmount::new(1);
    assert_eq!(execute_claim_floor_reward(&mut state, &tx2).unwrap_err(), TxError::MaxSupplyExceeded);
}

#[test]
fn failed_claim_changes_nothing() {
    let mut state = setup_state_with_validator();
    let tx = sample_claim_tx();
    assert!(execute_claim_floor_reward(&mut state, &tx).is_ok());
    let root_before = state.compute_state_root();
    let mut bad = sample_claim_tx();
    bad.floor_number = 7;
    bad.game_rules_version = GameRulesVersion(2);
    assert_eq!(execute_claim_floor_reward(&mut state, &bad).unwrap_err(), TxError::InvalidGameRulesVersion);
    assert_eq!(state.compute_state_root(), root_before);
    assert_eq!(state.claimed_floors.len(), 1);
    assert_eq!(state.balances.get(tx.player).unwrap().mintable_coins(), CoinAmount::new(10));
}

#[test]
fn claims_accumulate_per_player() {
    let mut state = setup_state_with_validator();
    let tx1 = sample_claim_tx();
    let mut tx2 = sample_claim_tx();
    tx2.floor_number = 6;
    tx2.claimed_reward = CoinAmount::new(7);
    let mut tx3 = sample_claim_tx();
    tx3.player = AccountId::new([8u8; 32]);
    tx3.claimed_reward = CoinAmount::new(3);
    assert!(execute_claim_floor_reward(&mut state, &tx1).is_ok());
    assert!(execute_claim_floor_reward(&mut state, &tx2).is_ok());
    assert!(execute_claim_floor_reward(&mut state, &tx3).is_ok());
    assert_eq!(state.balances.get(tx1.player).unwrap().mintable_coins(), CoinAmount::new(17));
    assert_eq!(state.balances.get(tx3.player).unwrap().mintable_coins(), CoinAmount::new(3));
    assert_eq!(state.supply.circulating, CoinAmount::new(20));
    assert_eq!(state.claimed_floors.len(), 3);
    // Claimed keys are kept in increasing byte order.
    assert!(state.claimed_floors[0] < state.claimed_floors[1]);
    assert!(state.claimed_floors[1] < state.claimed_floors[2]);
    let key = ClaimKey::new(tx3.player, GameId(1), RunId(100), FloorNumber(5));
    assert!(state.is_floor_claimed(&key));
}
