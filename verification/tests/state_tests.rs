use agee::block::header::BlockHeader;
use agee::block::Block;
use agee::consensus::{ValidatorInfo, ValidatorSet};
use agee::node::mempool::Mempool;
use agee::node::persistence::{BlockStore, Genesis};
use agee::node::runtime::{GenesisValidator, NodeConfig, ValidatorSetConfig};
use agee::node::ChainState;
use agee::primitives::hash;
use agee::primitives::{AccountId, ClaimKey, FloorNumber, GameId, RunId, ValidatorId};
use agee::tx::transfer::Transfer;
use agee::tx::Transaction;
use agee::primitives::CoinAmount;

fn key(n: u8) -> ClaimKey {
    ClaimKey::new(AccountId::new([n; 32]), GameId(1), RunId(1), FloorNumber(1))
}

fn hex(bytes: &[u8]) -> String {
    bytes.iter().map(|b| format!("{:02x}", b)).collect()
}

#[test]
fn mark_floor_claimed_reports_novelty() {
    let mut s = ChainState::new();
    assert!(!s.is_floor_claimed(&key(1)));
    assert!(s.mark_floor_claimed(key(1)));
    assert!(s.is_floor_claimed(&key(1)));
    assert!(!s.mark_floor_claimed(key(1)));
    assert_eq!(s.claimed_floors.len(), 1);
}

#[test]
fn state_root_does_not_depend_on_claim_order() {
    let mut a = ChainState::new();
    let mut b = ChainState::new();
    for n in [1u8, 2, 3, 4] {
        a.mark_floor_claimed(key(n));
    }
    for n in [4u8, 2, 1, 3, 2] {
        b.mark_floor_claimed(key(n));
    }
    assert_eq!(a.claimed_floors, b.claimed_floors);
    assert_eq!(a.compute_state_root(), b.compute_state_root());
    let mut c = ChainState::new();
    c.mark_floor_claimed(key(1));
    assert_ne!(a.compute_state_root(), c.compute_state_root());
}

#[test]
fn state_root_covers_height_and_supply() {
    let a = ChainState::new();
    let mut b = ChainState::new();
    b.height = 1;
    let mut c = ChainState::new();
    c.supply.burned = CoinAmount::new(1);
    assert_ne!(a.compute_state_root(), b.compute_state_root());
    assert_ne!(a.compute_state_root(), c.compute_state_root());
}

#[test]
fn replay_sets_height_to_last_block() {
    let header = |h: u64| BlockHeader {
        height: h,
        timestamp_ms: 0,
        previous_block_hash: hash::Hash::new([0u8; 32]),
        tx_root: hash::Hash::new([0u8; 32]),
        state_root: hash::Hash::new([0u8; 32]),
        proposer: [0u8; 32],
    };
    let mut s = ChainState::new();
    s.replay_blocks(&vec![]);
    assert_eq!(s.height, 0);
    let blocks = vec![
        Block { header: header(1), transactions: vec![] },
        Block { header: header(2), transactions: vec![] },
    ];
    s.replay_blocks(&blocks);
    assert_eq!(s.height, 2);
}

#[test]
fn genesis_and_block_store_paths() {
    let g = Genesis::default();
    assert_eq!(g.chain_id, [0u8; 32]);
    assert_eq!(g.created_at_ms, 0);
    let store = BlockStore::at("/tmp/agee");
    assert_eq!(store.data_dir(), "/tmp/agee");
    assert_eq!(store.block_log_path(), "/tmp/agee/blocks.log");
    assert_eq!(store.genesis_path(), "/tmp/agee/genesis.json");
}

#[test]
fn mempool_keeps_arrivals() {
    let mut m = Mempool::new();
    assert_eq!(m.len(), 0);
    m.add_transaction(Transaction::Transfer(Transfer {
        from: AccountId::new([1u8; 32]),
        to: AccountId::new([2u8; 32]),
        amount: CoinAmount::new(1),
    }));
    assert_eq!(m.len(), 1);
}

#[test]
fn default_config() {
    let c = NodeConfig::default();
    assert_eq!(c.listen_addr, "127.0.0.1");
    assert_eq!(c.listen_port, 8080);
    assert_eq!(c.data_dir, "./data");
    assert!(c.validators.is_none());
    let vs = c.build_validator_set();
    assert_eq!(vs.threshold, 1);
    assert_eq!(vs.size(), 0);
}

#[test]
fn build_validator_set_hashes_ids_with_blake3() {
    let mut c = NodeConfig::default();
    c.validators = Some(ValidatorSetConfig {
        threshold: 2,
        validators: vec![
            GenesisValidator { validator_id: "".to_string(), public_key: "".to_string() },
            GenesisValidator { validator_id: "v2".to_string(), public_key: "k2".to_string() },
            GenesisValidator { validator_id: "".to_string(), public_key: "k3".to_string() },
        ],
    });
    let vs = c.build_validator_set();
    assert_eq!(vs.threshold, 2);
    // The repeated id replaces the first entry in place.
    assert_eq!(vs.size(), 2);
    assert_eq!(vs.active_count(), 2);
    // BLAKE3 of the empty string.
    let empty = "af1349b9f5f9a1a6a0404dea36dcc9499bcb25c9adc112b7cc9a93cae41f3262";
    assert_eq!(hex(&vs.active[0].validator_id.0), empty);
    assert_ne!(hex(&vs.active[0].public_key), empty);
    assert!(vs.is_active(vs.active[1].validator_id));
}

#[test]
fn validator_set_add_replaces_same_id() {
    let mut vs = ValidatorSet::new(1);
    let id = ValidatorId([3u8; 32]);
    vs.add_validator(ValidatorInfo { validator_id: id, public_key: [0u8; 32], active: true });
    assert!(vs.is_active(id));
    vs.add_validator(ValidatorInfo { validator_id: id, public_key: [1u8; 32], active: false });
    assert!(!vs.is_active(id));
    assert_eq!(vs.size(), 1);
    assert_eq!(vs.active_count(), 0);
    assert_eq!(vs.get_info(id).unwrap().public_key, [1u8; 32]);
    assert!(vs.get_info(ValidatorId([4u8; 32])).is_none());
    assert!(!vs.is_active(ValidatorId([4u8; 32])));
}
