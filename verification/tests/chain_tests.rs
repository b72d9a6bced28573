use beecorridor::chain::Block;

#[test]
fn block_seals_its_own_fields() {
    let block = Block::new(0, "Temp:34.0,Stress:0.08".to_string(), 0);
    assert_eq!(block.index, 0);
    assert_eq!(block.prev_hash, 0);
    assert_eq!(block.hash, block.calculate_hash());
}

#[test]
fn different_payloads_give_different_digests() {
    let a = Block::new(1, "Temp:34.0,Stress:0.08".to_string(), 7);
    let b = Block::new(1, "Temp:36.0,Stress:0.12".to_string(), 7);
    assert_ne!(a.calculate_hash(), b.calculate_hash());
    assert_ne!(a.hash, a.prev_hash);
}

#[test]
fn tampering_is_visible_against_the_digest() {
    let mut block = Block::new(2, "Temp:34.0".to_string(), 9);
    block.data = "Temp:39.9".to_string();
    assert_ne!(block.hash, block.calculate_hash());
}
