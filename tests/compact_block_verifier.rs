use ckb_sync::compact_block::{CompactBlock, IndexTransaction, Transaction};
use ckb_sync::compact_block_verifier::{
    CompactBlockVerifier, Misbehavior, PrefilledVerifier, ShortIdsVerifier,
};

fn tx(i: u8) -> Transaction {
    let mut hash = [0u8; 32];
    hash[0] = i;
    Transaction { hash, body: vec![i] }
}

fn prefilled(indices: &[usize]) -> Vec<IndexTransaction> {
    indices
        .iter()
        .map(|&i| IndexTransaction { index: i, transaction: tx(100 + i as u8) })
        .collect()
}

fn block(indices: &[usize], short: &[u8]) -> CompactBlock {
    let mut b = CompactBlock::default();
    b.prefilled_transactions = prefilled(indices);
    b.short_ids = short.iter().map(|&i| tx(i).proposal_short_id()).collect();
    b
}

#[test]
fn default_block_is_empty() {
    let b = CompactBlock::default();
    assert!(b.header.raw.is_empty());
    assert!(b.uncles.is_empty() && b.short_ids.is_empty());
    assert!(b.prefilled_transactions.is_empty() && b.proposals.is_empty());
}

#[test]
fn cellbase_not_prefilled() {
    let v = PrefilledVerifier::new();
    assert_eq!(v.verify(&block(&[], &[1])), Err(Misbehavior::CellbaseNotPrefilled));
    assert_eq!(v.verify(&block(&[1], &[1])), Err(Misbehavior::CellbaseNotPrefilled));
}

#[test]
fn unordered_prefilled_transactions() {
    let v = PrefilledVerifier::new();
    assert_eq!(v.verify(&block(&[0, 2, 1], &[1, 2])), Err(Misbehavior::UnorderedPrefilledTransactions));
    assert_eq!(v.verify(&block(&[0, 1, 1], &[1, 2])), Err(Misbehavior::UnorderedPrefilledTransactions));
}

#[test]
fn overflow_prefilled_transactions() {
    let v = PrefilledVerifier::new();
    // two prefilled plus one short id: indices must stay below 3
    assert_eq!(v.verify(&block(&[0, 3], &[1])), Err(Misbehavior::OverflowPrefilledTransactions));
    assert_eq!(v.verify(&block(&[0, 2], &[1])), Ok(()));
    assert_eq!(v.verify(&block(&[0, usize::MAX], &[1])), Err(Misbehavior::OverflowPrefilledTransactions));
}

#[test]
fn prefilled_accepts_well_formed() {
    let v = PrefilledVerifier::new();
    assert_eq!(v.verify(&block(&[0], &[])), Ok(()));
    assert_eq!(v.verify(&block(&[0, 1, 4], &[1, 2])), Ok(()));
}

#[test]
fn duplicated_short_ids() {
    let v = ShortIdsVerifier::new();
    assert_eq!(v.verify(&block(&[0], &[1, 2, 1])), Err(Misbehavior::DuplicatedShortIds));
    assert_eq!(v.verify(&block(&[0], &[1, 2, 3])), Ok(()));
}

#[test]
fn intersected_prefilled_transactions() {
    let v = ShortIdsVerifier::new();
    let mut b = block(&[0, 1], &[1, 2]);
    b.short_ids.push(tx(101).proposal_short_id());
    assert_eq!(v.verify(&b), Err(Misbehavior::IntersectedPrefilledTransactions));
}

#[test]
fn duplicate_reported_before_intersection() {
    let v = ShortIdsVerifier::new();
    let mut b = block(&[0], &[1, 1]);
    b.short_ids.push(tx(100).proposal_short_id());
    assert_eq!(v.verify(&b), Err(Misbehavior::DuplicatedShortIds));
}

#[test]
fn compact_block_verifier_runs_prefilled_first() {
    let v = CompactBlockVerifier::new();
    assert_eq!(v.verify(&block(&[1], &[1, 1])), Err(Misbehavior::CellbaseNotPrefilled));
    assert_eq!(v.verify(&block(&[0], &[1, 1])), Err(Misbehavior::DuplicatedShortIds));
    assert_eq!(v.verify(&block(&[0, 2], &[1, 2])), Ok(()));
}
