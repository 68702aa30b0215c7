use agee::floor_proof::maze_floor::{Cell, CoinRarity, CoinSpawn, Trap, Wall};
use agee::floor_proof::maze_rules::{MazeConfig, MazeRules};
use agee::floor_proof::{FloorInvalidReason, FloorProof, FloorValidationResult, FloorValidator, GeneratedMazeFloor};
use agee::primitives::hash;
use agee::primitives::{AccountId, CoinAmount, GameId, GameRulesVersion};

fn floor() -> GeneratedMazeFloor {
    GeneratedMazeFloor {
        game_id: GameId(1),
        game_rules_version: 1,
        floor_number: 3,
        width: 20,
        height: 20,
        start_cell: Cell::new(2, 0),
        exit_cell: Cell::new(19, 19),
        walls: vec![Wall { from: Cell::new(0, 0), to: Cell::new(0, 1) }],
        traps: vec![Trap { cell: Cell::new(4, 4), damage: 3 }],
        coins: vec![
            CoinSpawn { id: 1, cell: Cell::new(1, 1), rarity: CoinRarity::Rare },
            CoinSpawn { id: 0, cell: Cell::new(2, 2), rarity: CoinRarity::Uncommon },
            CoinSpawn { id: 1, cell: Cell::new(3, 3), rarity: CoinRarity::Common },
        ],
        floor_hash: hash::Hash::new([7u8; 32]),
    }
}

fn floor_proof(claimed: u64) -> FloorProof {
    FloorProof {
        run_id: 1,
        game_id: 1,
        game_rules_version: GameRulesVersion(1),
        player_id: AccountId::new([1u8; 32]),
        wallet_address: AccountId::new([1u8; 32]),
        floor_number: 3,
        floor_seed: hash::Hash::new([9u8; 32]),
        start_time: 100,
        end_time: 200,
        claimed_coin_amount: claimed,
        completion_state: "done".to_string(),
        proof_hash: hash::Hash::new([0u8; 32]),
    }
}

#[test]
fn chebyshev_distance() {
    let a = Cell::new(1, 5);
    let b = Cell::new(4, 3);
    assert_eq!(a.distance_to(b), 3);
    assert_eq!(b.distance_to(a), 3);
    assert_eq!(a.distance_to(a), 0);
    assert_eq!(Cell::new(0, 0).distance_to(Cell::new(2, 7)), 7);
}

#[test]
fn coin_values() {
    assert_eq!(CoinRarity::Common.value(), 1);
    assert_eq!(CoinRarity::Uncommon.value(), 3);
    assert_eq!(CoinRarity::Rare.value(), 5);
}

#[test]
fn floor_hash_covers_every_part() {
    let f = floor();
    let h = f.compute_hash();
    assert_eq!(h, floor().compute_hash());
    let mut g = floor();
    g.traps[0].damage = 4;
    assert_ne!(h, g.compute_hash());
    let mut g = floor();
    g.coins[0].rarity = CoinRarity::Common;
    assert_ne!(h, g.compute_hash());
    let mut g = floor();
    g.walls.clear();
    assert_ne!(h, g.compute_hash());
    // The stored floor hash is not part of the hashed properties.
    let mut g = floor();
    g.floor_hash = hash::Hash::new([0u8; 32]);
    assert_eq!(h, g.compute_hash());
}

#[test]
fn maze_rules_are_placeholders() {
    let config = MazeConfig { width: 10, height: 10, trap_density: 5, coin_density: 3 };
    let maze_a = MazeRules::regenerate_maze(&[0u8; 32], &config);
    let maze_b = MazeRules::regenerate_maze(&[0u8; 32], &config);
    assert!(maze_a.is_empty());
    assert_eq!(MazeRules::maze_hash(&maze_a), MazeRules::maze_hash(&maze_b));
    assert_eq!(MazeRules::maze_hash(&maze_a), [0u8; 32]);
}

#[test]
fn valid_proof_sums_claimed_coins() {
    // Two coins claimed: ids 0 and 1; id 1 counts its first spawn (Rare).
    let r = FloorValidator::validate_maze_runner(&floor_proof(2), &floor());
    assert!(r.valid);
    assert_eq!(r.reason, None);
    assert_eq!(r.calculated_reward, CoinAmount::new(3 + 5));
    assert_eq!(r.floor_proof_hash, hash::Hash::new([7u8; 32]));
}

#[test]
fn invalid_game_and_rules() {
    let mut p = floor_proof(2);
    p.game_id = 2;
    let r = FloorValidator::validate_maze_runner(&p, &floor());
    assert!(!r.valid);
    assert_eq!(r.reason, Some(FloorInvalidReason::InvalidGameId));
    assert_eq!(r.calculated_reward, CoinAmount::new(0));
    assert_eq!(r.floor_proof_hash, hash::Hash::new([0u8; 32]));
    let mut p = floor_proof(2);
    p.game_rules_version = GameRulesVersion(2);
    let r = FloorValidator::validate_maze_runner(&p, &floor());
    assert_eq!(r.reason, Some(FloorInvalidReason::InvalidRulesVersion));
}

#[test]
fn invalid_start_time_and_coins() {
    let r = FloorValidator::validate_maze_runner(&floor_proof(3), &floor());
    assert_eq!(r.reason, Some(FloorInvalidReason::InvalidStartPosition));
    let mut p = floor_proof(2);
    p.end_time = 50;
    let r = FloorValidator::validate_maze_runner(&p, &floor());
    assert_eq!(r.reason, Some(FloorInvalidReason::ImpossibleCompletionTime));
    let mut f = floor();
    f.start_cell = Cell::new(3, 0);
    let r = FloorValidator::validate_maze_runner(&floor_proof(3), &f);
    assert_eq!(r.reason, Some(FloorInvalidReason::InvalidCoinId));
    assert!(!r.valid);
}

#[test]
fn validation_result_constructors() {
    let v = FloorValidationResult::valid(hash::Hash::new([1u8; 32]), CoinAmount::new(4));
    assert!(v.valid);
    assert_eq!(v.reason, None);
    let i = FloorValidationResult::invalid(FloorInvalidReason::WallClip, CoinAmount::new(2));
    assert!(!i.valid);
    assert_eq!(i.reason, Some(FloorInvalidReason::WallClip));
    assert_eq!(i.floor_proof_hash, hash::Hash::new([0u8; 32]));
    assert_eq!(i.calculated_reward, CoinAmount::new(2));
}

#[test]
fn floor_invalid_messages() {
    assert_eq!(FloorInvalidReason::ImpossibleSpeed.message(), "Movement speed is impossible");
    assert_eq!(FloorInvalidReason::WallClip.message(), "Path clips through walls");
    assert_eq!(FloorInvalidReason::UnexpectedError.message(), "Unexpected validation error");
}

#[test]
fn maze_generation_is_deterministic() {
    let seed = [0u8; 32];
    let config = MazeConfig { width: 10, height: 10, trap_density: 5, coin_density: 3 };

    let maze_a = MazeRules::regenerate_maze(&seed, &config);
    let maze_b = MazeRules::regenerate_maze(&seed, &config);
    let maze_c = MazeRules::regenerate_maze(&seed, &config);

    let hash_a = MazeRules::maze_hash(&maze_a);
    let hash_b = MazeRules::maze_hash(&maze_b);
    let hash_c = MazeRules::maze_hash(&maze_c);

    assert_eq!(hash_a, hash_b);
    assert_eq!(hash_b, hash_c);
}
