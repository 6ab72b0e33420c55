use ckb_sync::compact_block::{BlockProposal, CompactBlock, IndexTransaction, ProposalShortId, Transaction};
use ckb_sync::compact_block_verifier::CompactBlockVerifier;
use ckb_sync::reconstruct::{missing_short_ids, reconstruct_block, reconstruct_with_proposal};

fn new_transaction(i: u8) -> Transaction {
    let mut hash = [0u8; 32];
    hash[0] = i;
    hash[31] = 0xff;
    Transaction { hash, body: vec![i, i, i] }
}

fn prepare() -> Vec<Transaction> {
    (0..20).map(new_transaction).collect()
}

/// T0 prefilled at index 0, T1..T19 by short id.
fn compact_of(prepare: &[Transaction]) -> CompactBlock {
    let mut compact = CompactBlock::default();
    compact.prefilled_transactions = vec![IndexTransaction {
        index: 0,
        transaction: prepare[0].clone(),
    }];
    compact.short_ids = prepare.iter().skip(1).map(|tx| tx.proposal_short_id()).collect();
    compact
}

#[test]
fn test_reconstruct_block() {
    let prepare = prepare();

    // Case: miss tx.1
    {
        let compact = compact_of(&prepare);
        assert_eq!(CompactBlockVerifier::new().verify(&compact), Ok(()));
        let transactions: Vec<Transaction> = prepare.iter().skip(2).cloned().collect();
        assert_eq!(reconstruct_block(&compact, transactions), Err(vec![1]));
    }

    // Case: miss multiple txs
    {
        let compact = compact_of(&prepare);
        let transactions: Vec<Transaction> = prepare
            .iter()
            .enumerate()
            .skip(1)
            .filter(|(i, _)| i % 2 == 1)
            .map(|(_, tx)| tx.clone())
            .collect();
        let missing: Vec<usize> = (1..20).filter(|i| i % 2 == 0).collect();
        assert_eq!(missing, vec![2, 4, 6, 8, 10, 12, 14, 16, 18]);
        assert_eq!(reconstruct_block(&compact, transactions), Err(missing));
    }
}

#[test]
fn reconstruct_full_block() {
    let prepare = prepare();
    let compact = compact_of(&prepare);
    let transactions: Vec<Transaction> = prepare.iter().skip(1).rev().cloned().collect();
    assert_eq!(reconstruct_block(&compact, transactions), Ok(prepare.clone()));
}

#[test]
fn reconstruct_only_prefilled() {
    let prepare = prepare();
    let mut compact = CompactBlock::default();
    compact.prefilled_transactions = vec![
        IndexTransaction { index: 0, transaction: prepare[0].clone() },
        IndexTransaction { index: 1, transaction: prepare[1].clone() },
    ];
    assert_eq!(CompactBlockVerifier::new().verify(&compact), Ok(()));
    assert_eq!(
        reconstruct_block(&compact, vec![]),
        Ok(vec![prepare[0].clone(), prepare[1].clone()])
    );
}

#[test]
fn reconstruct_interleaved_prefilled() {
    let prepare = prepare();
    let mut compact = CompactBlock::default();
    // prefilled at 0, 2, 5; short ids fill 1, 3, 4, 6
    compact.prefilled_transactions = [0usize, 2, 5]
        .iter()
        .map(|&i| IndexTransaction { index: i, transaction: prepare[i].clone() })
        .collect();
    compact.short_ids = [1usize, 3, 4, 6].iter().map(|&i| prepare[i].proposal_short_id()).collect();
    assert_eq!(CompactBlockVerifier::new().verify(&compact), Ok(()));
    let all: Vec<Transaction> = prepare.iter().take(7).cloned().collect();
    assert_eq!(reconstruct_block(&compact, all.clone()), Ok(all));
    let some = vec![prepare[3].clone(), prepare[6].clone()];
    let missing = reconstruct_block(&compact, some).unwrap_err();
    assert_eq!(missing, vec![1, 4]);
    assert_eq!(
        missing_short_ids(&compact, &missing),
        vec![prepare[1].proposal_short_id(), prepare[4].proposal_short_id()]
    );
}

#[test]
fn reconstruct_ignores_pool_only_transactions() {
    // Only the eligible candidates are handed over; a transaction that merely
    // sits in the pool is left out by the caller and its slot stays missing.
    let prepare = prepare();
    let compact = compact_of(&prepare);
    let pool: Vec<Transaction> = prepare.iter().skip(1).cloned().collect();
    let eligible: Vec<Transaction> = pool.iter().filter(|tx| tx.hash[0] != 7).cloned().collect();
    assert_eq!(reconstruct_block(&compact, eligible), Err(vec![7]));
}

#[test]
fn reconstruct_is_idempotent() {
    let prepare = prepare();
    let compact = compact_of(&prepare);
    let candidates: Vec<Transaction> = prepare.iter().skip(3).cloned().collect();
    let first = reconstruct_block(&compact, candidates.clone());
    let second = reconstruct_block(&compact, candidates);
    assert_eq!(first, second);
    assert_eq!(first, Err(vec![1, 2]));
}

#[test]
fn more_candidates_leave_fewer_missing() {
    let prepare = prepare();
    let compact = compact_of(&prepare);
    let c1: Vec<Transaction> = prepare.iter().skip(5).cloned().collect();
    let mut c2 = c1.clone();
    c2.push(prepare[2].clone());
    c2.push(prepare[4].clone());
    let m1 = reconstruct_block(&compact, c1.clone()).unwrap_err();
    let m2 = reconstruct_block(&compact, c2.clone()).unwrap_err();
    assert_eq!(m1, vec![1, 2, 3, 4]);
    assert_eq!(m2, vec![1, 3]);
    assert!(m2.iter().all(|i| m1.contains(i)));
    // the supplemental round trip supplies the rest
    let mut c3 = c2;
    c3.push(prepare[1].clone());
    c3.push(prepare[3].clone());
    let full = reconstruct_block(&compact, c3).unwrap();
    assert_eq!(full.len(), 20);
    assert_eq!(full[0], prepare[0]);
    assert_eq!(full, prepare);
}

#[test]
fn colliding_short_id_takes_last_candidate() {
    let prepare = prepare();
    let mut compact = CompactBlock::default();
    compact.prefilled_transactions = vec![IndexTransaction { index: 0, transaction: prepare[0].clone() }];
    compact.short_ids = vec![prepare[1].proposal_short_id()];
    let mut twin = prepare[1].clone();
    twin.hash[20] = 0x42;
    twin.body = vec![9];
    assert_eq!(twin.proposal_short_id(), prepare[1].proposal_short_id());
    let r = reconstruct_block(&compact, vec![prepare[1].clone(), twin.clone()]);
    assert_eq!(r, Ok(vec![prepare[0].clone(), twin.clone()]));
    let r = reconstruct_block(&compact, vec![twin, prepare[1].clone()]);
    assert_eq!(r, Ok(vec![prepare[0].clone(), prepare[1].clone()]));
}

#[test]
fn short_id_is_leading_hash_bytes() {
    let mut hash = [0u8; 32];
    for (i, b) in hash.iter_mut().enumerate() {
        *b = i as u8 + 1;
    }
    let tx = Transaction { hash, body: vec![] };
    let id = tx.proposal_short_id();
    assert_eq!(id.bytes, [1, 2, 3, 4, 5, 6, 7, 8, 9, 10]);
    assert_eq!(ProposalShortId::from_slice(&hash[..10]), Some(id));
    assert!(id != ProposalShortId { bytes: [1, 2, 3, 4, 5, 6, 7, 8, 9, 11] });
}

#[test]
fn retry_with_block_proposal() {
    let prepare = prepare();
    let compact = compact_of(&prepare);
    let candidates: Vec<Transaction> = prepare.iter().skip(1).filter(|tx| tx.hash[0] % 3 != 0).cloned().collect();
    let missing = reconstruct_block(&compact, candidates.clone()).unwrap_err();
    assert_eq!(missing, vec![3, 6, 9, 12, 15, 18]);
    let asked = missing_short_ids(&compact, &missing);
    let answer = BlockProposal {
        transactions: prepare.iter().filter(|tx| asked.contains(&tx.proposal_short_id())).cloned().collect(),
    };
    assert_eq!(answer.transactions.len(), 6);
    assert_eq!(reconstruct_with_proposal(&compact, candidates.clone(), answer), Ok(prepare.clone()));
    let partial = BlockProposal { transactions: vec![prepare[9].clone()] };
    assert_eq!(reconstruct_with_proposal(&compact, candidates, partial), Err(vec![3, 6, 12, 15, 18]));
}
