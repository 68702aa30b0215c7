use agee::block::merkle::compute_merkle_root;
use agee::primitives::hash;

fn hex(bytes: &[u8]) -> String {
    bytes.iter().map(|b| format!("{:02x}", b)).collect()
}

#[test]
fn empty_merkle_root_deterministic() {
    let root1 = compute_merkle_root(&[]);
    let root2 = compute_merkle_root(&[]);
    assert_eq!(root1, root2);
}

#[test]
fn single_tx_hash_deterministic() {
    let tx = b"test_transaction".to_vec();
    let root1 = compute_merkle_root(&[tx.clone()]);
    let root2 = compute_merkle_root(&[tx.clone()]);
    assert_eq!(root1, root2);
}

#[test]
fn different_txs_produce_different_roots() {
    let tx1 = b"transaction_1".to_vec();
    let tx2 = b"transaction_2".to_vec();
    let root1 = compute_merkle_root(&[tx1.clone()]);
    let root2 = compute_merkle_root(&[tx2.clone()]);
    assert_ne!(root1, root2);
}

#[test]
fn order_matters_in_merkle() {
    let tx1 = b"tx_a".to_vec();
    let tx2 = b"tx_b".to_vec();
    let root1 = compute_merkle_root(&[tx1.clone(), tx2.clone()]);
    let root2 = compute_merkle_root(&[tx2.clone(), tx1.clone()]);
    assert_ne!(root1, root2);
}

#[test]
fn single_tx_root_is_sha256_of_tx() {
    // SHA-256("abc"), the standard test vector.
    let root = compute_merkle_root(&[b"abc".to_vec()]);
    assert_eq!(
        hex(&root.0),
        "ba7816bf8f01cfea414140de5dae2223b00361a396177a9cb410ff61f20015ad"
    );
}

#[test]
fn empty_root_is_hash_of_tag() {
    let root = compute_merkle_root(&[]);
    let tagged = compute_merkle_root(&[b"merkle_empty".to_vec()]);
    // The empty root is the hash of the tag itself, which is also the leaf
    // hash of a single transaction holding the tag.
    assert_eq!(root, tagged);
}

#[test]
fn odd_level_pairs_last_node_with_itself() {
    let a = b"a".to_vec();
    let b = b"b".to_vec();
    let c = b"c".to_vec();
    let three = compute_merkle_root(&[a.clone(), b.clone(), c.clone()]);
    let four = compute_merkle_root(&[a.clone(), b.clone(), c.clone(), c.clone()]);
    assert_eq!(three, four);
    let two = compute_merkle_root(&[a.clone(), b.clone()]);
    assert_ne!(two, three);
    let _: hash::Hash = two;
}
