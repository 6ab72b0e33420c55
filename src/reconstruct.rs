use crate::compact_block::{BlockProposal, CompactBlock, IndexTransaction, ProposalShortId, Transaction};
use crate::compact_block_verifier::{indices_increasing, prefilled_outcome};
use vstd::prelude::*;

verus! {

/// How many prefilled transactions sit before absolute position `i`.
pub open spec fn count_below(p: Seq<IndexTransaction>, i: int) -> int
    decreases p.len(),
{
    if p.len() == 0 {
        0
    } else {
        count_below(p.drop_last(), i) + if (p.last().index as int) < i {
            1int
        } else {
            0int
        }
    }
}

/// The position of the last candidate announced under short id `id`, if any.
pub open spec fn last_match(c: Seq<Transaction>, id: Seq<u8>) -> Option<int>
    decreases c.len(),
{
    if c.len() == 0 {
        None
    } else if c.last().short_id() == id {
        Some(c.len() - 1)
    } else {
        last_match(c.drop_last(), id)
    }
}

/// The transaction that fills position `i` of the block: the prefilled one
/// declared there, or else the candidate matching the short id that the
/// ascending walk over the remaining positions pairs with `i`.
pub open spec fn slot(block: CompactBlock, c: Seq<Transaction>, i: int) -> Option<Transaction> {
    let p = block.prefilled_transactions@;
    let r = count_below(p, i);
    if r < p.len() && p[r].index == i {
        Some(p[r].transaction)
    } else {
        match last_match(c, block.short_ids@[i - r]@) {
            Some(j) => Some(c[j]),
            None => None,
        }
    }
}

/// The unfilled positions below `n`, ascending.
pub open spec fn missing_upto(block: CompactBlock, c: Seq<Transaction>, n: int) -> Seq<usize>
    decreases n,
{
    if n <= 0 {
        seq![]
    } else {
        missing_upto(block, c, n - 1) + if slot(block, c, n - 1) is None {
            seq![(n - 1) as usize]
        } else {
            seq![]
        }
    }
}

/// Every unfilled position of the block, ascending.
pub open spec fn missing(block: CompactBlock, c: Seq<Transaction>) -> Seq<usize> {
    missing_upto(block, c, block.total_len())
}

/// `r` is what reconstructing `block` from candidates `c` gives: the full,
/// ordered transaction list when no position is unfilled, and otherwise the
/// unfilled positions.
pub open spec fn reconstructs(
    block: CompactBlock,
    c: Seq<Transaction>,
    r: Result<Vec<Transaction>, Vec<usize>>,
) -> bool {
    match r {
        Ok(txs) => {
            &&& missing(block, c).len() == 0
            &&& txs@.len() == block.total_len()
            &&& forall|i: int| #![trigger slot(block, c, i)]
                0 <= i < txs@.len() ==> slot(block, c, i) is Some && txs@[i]@ == slot(
                    block,
                    c,
                    i,
                )->0@
        },
        Err(m) => missing(block, c).len() > 0 && m@ == missing(block, c),
    }
}

/// In a strictly increasing sequence, indices grow at least as fast as positions.
proof fn lemma_index_gap(p: Seq<IndexTransaction>, a: int, b: int)
    requires
        indices_increasing(p),
        0 <= a <= b < p.len(),
    ensures
        p[b].index >= p[a].index + (b - a),
    decreases b - a,
{
    if a < b {
        lemma_index_gap(p, a, b - 1);
    }
}

/// A position `q` that separates the indices below `i` from the rest counts them.
proof fn lemma_count_below(p: Seq<IndexTransaction>, q: int, i: int)
    requires
        indices_increasing(p),
        0 <= q <= p.len(),
        q == 0 || (p[q - 1].index as int) < i,
        q == p.len() || (p[q].index as int) >= i,
    ensures
        count_below(p, i) == q,
    decreases p.len(),
{
    if p.len() > 0 {
        let p2 = p.drop_last();
        if q == p.len() {
            lemma_count_below(p2, q - 1, i);
        } else {
            lemma_index_gap(p, q, p.len() - 1);
            lemma_count_below(p2, q, i);
        }
    }
}

/// What `last_match` finds bears the short id, and when it finds nothing no
/// candidate does.
pub proof fn lemma_last_match(c: Seq<Transaction>, id: Seq<u8>)
    ensures
        match last_match(c, id) {
            Some(j) => 0 <= j < c.len() && c[j].short_id() == id,
            None => forall|x: int| 0 <= x < c.len() ==> #[trigger] c[x].short_id() != id,
        },
    decreases c.len(),
{
    if c.len() > 0 {
        let d = c.drop_last();
        lemma_last_match(d, id);
        assert forall|x: int| 0 <= x < d.len() implies #[trigger] c[x].short_id() == d[x].short_id() by {}
    }
}

/// The unfilled positions below `n` are exactly the positions below `n` whose slot is empty.
pub proof fn lemma_missing_upto(block: CompactBlock, c: Seq<Transaction>, n: int, x: usize)
    requires
        n <= usize::MAX + 1,
    ensures
        missing_upto(block, c, n).contains(x) <==> (x < n && slot(block, c, x as int) is None),
    decreases n,
{
    if n > 0 {
        lemma_missing_upto(block, c, n - 1, x);
        let prev = missing_upto(block, c, n - 1);
        if slot(block, c, n - 1) is None {
            let last = seq![(n - 1) as usize];
            assert((prev + last)[prev.len() as int] == (n - 1) as usize);
            if prev.contains(x) {
                let w = choose|w: int| 0 <= w < prev.len() && prev[w] == x;
                assert((prev + last)[w] == x);
            }
        } else {
            assert(prev + seq![] =~= prev);
        }
    }
}

/// Reconstruction is a function of the block and the candidates: two results
/// that both meet its contract for the same inputs agree.
pub proof fn lemma_reconstruct_deterministic(
    block: CompactBlock,
    c: Seq<Transaction>,
    r1: Result<Vec<Transaction>, Vec<usize>>,
    r2: Result<Vec<Transaction>, Vec<usize>>,
)
    requires
        reconstructs(block, c, r1),
        reconstructs(block, c, r2),
    ensures
        r1 is Ok <==> r2 is Ok,
        r1 matches Err(m1) ==> r2 matches Err(m2) && m1@ == m2@,
        r1 matches Ok(t1) ==> r2 matches Ok(t2) && t1@.len() == t2@.len() && forall|i: int|
            0 <= i < t1@.len() ==> #[trigger] t1@[i]@ == t2@[i]@,
{
    if r1 is Ok {
        let t1 = r1->Ok_0;
        let t2 = r2->Ok_0;
        assert forall|i: int| 0 <= i < t1@.len() implies #[trigger] t1@[i]@ == t2@[i]@ by {
            assert(slot(block, c, i) is Some);
        }
    }
}

/// More candidates never leave more positions unfilled: with `c1` contained in
/// `c2`, every position unfilled under `c2` is unfilled under `c1`; and a full
/// list built from `c2` has the declared length and each prefilled transaction
/// at its declared index.
pub proof fn lemma_more_candidates_fill_more(
    block: CompactBlock,
    c1: Seq<Transaction>,
    c2: Seq<Transaction>,
    r1: Result<Vec<Transaction>, Vec<usize>>,
    r2: Result<Vec<Transaction>, Vec<usize>>,
)
    requires
        prefilled_outcome(block) is Ok,
        block.total_len() <= usize::MAX,
        forall|t: Transaction| c1.contains(t) ==> c2.contains(t),
        reconstructs(block, c1, r1),
        reconstructs(block, c2, r2),
    ensures
        forall|x: usize| missing(block, c2).contains(x) ==> missing(block, c1).contains(x),
        r2 matches Err(m2) ==> r1 matches Err(m1) && forall|x: usize|
            m2@.contains(x) ==> m1@.contains(x),
        r2 matches Ok(t) ==> t@.len() == block.total_len() && forall|j: int|
            0 <= j < block.prefilled_transactions@.len() ==> t@[#[trigger] block.prefilled_transactions@[j].index as int]@
                == block.prefilled_transactions@[j].transaction@,
{
    let n = block.total_len();
    let p = block.prefilled_transactions@;
    assert forall|x: usize| missing(block, c2).contains(x) implies missing(block, c1).contains(x) by {
        lemma_missing_upto(block, c2, n, x);
        lemma_missing_upto(block, c1, n, x);
        let r = count_below(p, x as int);
        if !(r < p.len() && p[r].index == x) {
            let id = block.short_ids@[x - r]@;
            lemma_last_match(c2, id);
            lemma_last_match(c1, id);
            if last_match(c1, id) is Some {
                let j = last_match(c1, id)->0;
                assert(c1.contains(c1[j]));
                let w = choose|w: int| 0 <= w < c2.len() && c2[w] == c1[j];
                assert(c2[w].short_id() == id);
            }
        }
    }
    if r2 is Err {
        let m2 = r2->Err_0;
        assert(m2@.contains(m2@[0]));
        assert(missing(block, c1).contains(m2@[0]));
    }
    if r2 is Ok {
        let t = r2->Ok_0;
        assert forall|j: int| 0 <= j < p.len() implies t@[#[trigger] p[j].index as int]@
            == p[j].transaction@ by {
            lemma_count_below(p, j, p[j].index as int);
            lemma_index_gap(p, j, p.len() - 1);
            if j > 0 {
                lemma_index_gap(p, j - 1, j);
            }
            assert(slot(block, c2, p[j].index as int) == Some(p[j].transaction));
        }
    }
}

/// Finds the last candidate announced under `id`.
fn find_last(c: &Vec<Transaction>, id: &ProposalShortId) -> (r: Option<usize>)
    ensures
        match r {
            Some(j) => last_match(c@, id@) == Some(j as int),
            None => last_match(c@, id@) is None,
        },
{
    let mut j: usize = c.len();
    assert(c@.subrange(0, j as int) =~= c@);
    while j > 0
        invariant
            j <= c@.len(),
            last_match(c@, id@) == last_match(c@.subrange(0, j as int), id@),
        decreases j,
    {
        let t = c[j - 1].proposal_short_id();
        if t == *id {
            return Some(j - 1);
        }
        assert(c@.subrange(0, j as int).drop_last() =~= c@.subrange(0, j - 1));
        j = j - 1;
    }
    None
}

/// Rebuilds the block's transaction list from its prefilled transactions and
/// the candidates matched by short id, or reports the positions left unfilled.
/// The candidates are those the caller may use; none is filtered out here.
pub fn reconstruct_block(block: &CompactBlock, transactions: Vec<Transaction>) -> (r: Result<
    Vec<Transaction>,
    Vec<usize>,
>)
    requires
        prefilled_outcome(*block) is Ok,
        block.total_len() <= usize::MAX,
    ensures
        reconstructs(*block, transactions@, r),
{
    let ghost pre = block.prefilled_transactions@;
    let ghost c = transactions@;
    let np = block.prefilled_transactions.len();
    let ns = block.short_ids.len();
    let total = np + ns;
    let mut out: Vec<Transaction> = Vec::new();
    let mut missing: Vec<usize> = Vec::new();
    let mut p: usize = 0;
    let mut k: usize = 0;
    while p + k < total
        invariant
            pre == block.prefilled_transactions@,
            c == transactions@,
            prefilled_outcome(*block) is Ok,
            np == pre.len(),
            ns == block.short_ids@.len(),
            total == block.total_len(),
            p <= np,
            k <= ns,
            p + k <= total,
            p == 0 || (pre[p - 1].index as int) < p + k,
            p == np || (pre[p as int].index as int) >= p + k,
            missing@ == missing_upto(*block, c, p + k),
            missing@.len() == 0 ==> out@.len() == p + k,
            missing@.len() == 0 ==> forall|j: int| #![trigger slot(*block, c, j)]
                0 <= j < p + k ==> slot(*block, c, j) is Some && out@[j]@ == slot(
                    *block,
                    c,
                    j,
                )->0@,
        decreases total - (p + k),
    {
        let i = p + k;
        proof {
            lemma_count_below(pre, p as int, i as int);
        }
        let ghost old_missing = missing@;
        let ghost old_out = out@;
        if p < np && block.prefilled_transactions[p].index == i {
            let tx = block.prefilled_transactions[p].transaction.duplicate();
            out.push(tx);
            assert(slot(*block, c, i as int) == Some(pre[p as int].transaction));
            assert(missing@.len() == 0 ==> out@[i as int]@ == slot(*block, c, i as int)->0@);
            proof {
                if p + 1 < np {
                    lemma_index_gap(pre, p as int, p + 1);
                }
            }
            p = p + 1;
        } else {
            proof {
                if p < np {
                    lemma_index_gap(pre, p as int, np - 1);
                }
            }
            let id = block.short_ids[k];
            proof {
                lemma_last_match(c, id@);
            }
            match find_last(&transactions, &id) {
                Some(j) => {
                    let tx = transactions[j].duplicate();
                    out.push(tx);
                    assert(slot(*block, c, i as int) == Some(c[j as int]));
                    assert(missing@.len() == 0 ==> out@[i as int]@ == slot(*block, c, i as int)->0@);
                },
                None => {
                    missing.push(i);
                },
            }
            k = k + 1;
        }
        assert(missing@ =~= missing_upto(*block, c, p + k));
        proof {
            if missing@.len() == 0 {
                assert(old_missing.len() == 0);
                assert forall|j: int| #![trigger slot(*block, c, j)] 0 <= j < p + k implies slot(*block, c, j) is Some
                    && out@[j]@ == slot(*block, c, j)->0@ by {
                    if j < i {
                        assert(old_out[j] == out@[j]);
                    }
                }
            }
        }
    }
    if missing.len() > 0 {
        Err(missing)
    } else {
        Ok(out)
    }
}

/// Retries reconstruction once a peer has answered a request: the peer's
/// transactions join the candidates, after them, so that on a shared short id
/// the peer's transaction is the one taken.
pub fn reconstruct_with_proposal(
    block: &CompactBlock,
    transactions: Vec<Transaction>,
    proposal: BlockProposal,
) -> (r: Result<Vec<Transaction>, Vec<usize>>)
    requires
        prefilled_outcome(*block) is Ok,
        block.total_len() <= usize::MAX,
    ensures
        reconstructs(*block, transactions@ + proposal.transactions@, r),
{
    let mut all = transactions;
    let mut extra = proposal.transactions;
    all.append(&mut extra);
    reconstruct_block(block, all)
}

/// The short ids behind the given positions, none of them prefilled, in the
/// same order: what a request for the missing transactions lists.
pub fn missing_short_ids(block: &CompactBlock, missing: &Vec<usize>) -> (r: Vec<ProposalShortId>)
    requires
        prefilled_outcome(*block) is Ok,
        forall|q: int| 0 <= q < missing@.len() ==> (#[trigger] missing@[q] as int) < block.total_len(),
        forall|q: int, j: int|
            0 <= q < missing@.len() && 0 <= j < block.prefilled_transactions@.len()
                ==> #[trigger] missing@[q] != #[trigger] block.prefilled_transactions@[j].index,
    ensures
        r@.len() == missing@.len(),
        forall|q: int|
            0 <= q < missing@.len() ==> #[trigger] r@[q] == block.short_ids@[missing@[q] - count_below(
                block.prefilled_transactions@,
                missing@[q] as int,
            )],
{
    let ghost pre = block.prefilled_transactions@;
    let np = block.prefilled_transactions.len();
    let mut out: Vec<ProposalShortId> = Vec::new();
    let mut a: usize = 0;
    while a < missing.len()
        invariant
            pre == block.prefilled_transactions@,
            np == pre.len(),
            prefilled_outcome(*block) is Ok,
            a <= missing@.len(),
            out@.len() == a,
            forall|q: int| 0 <= q < missing@.len() ==> (#[trigger] missing@[q] as int) < block.total_len(),
            forall|q: int, j: int|
                0 <= q < missing@.len() && 0 <= j < pre.len() ==> #[trigger] missing@[q]
                    != #[trigger] pre[j].index,
            forall|q: int|
                0 <= q < a ==> #[trigger] out@[q] == block.short_ids@[missing@[q] - count_below(
                    pre,
                    missing@[q] as int,
                )],
        decreases missing@.len() - a,
    {
        let m = missing[a];
        let mut q: usize = 0;
        while q < np && block.prefilled_transactions[q].index < m
            invariant
                pre == block.prefilled_transactions@,
                np == pre.len(),
                q <= np,
                q == 0 || pre[q - 1].index < m,
            decreases np - q,
        {
            q = q + 1;
        }
        proof {
            assert(q == np || pre[q as int].index != m);
            lemma_count_below(pre, q as int, m as int);
            if q > 0 {
                lemma_index_gap(pre, 0, q - 1);
            }
            if q < np {
                lemma_index_gap(pre, q as int, np - 1);
            }
        }
        out.push(block.short_ids[m - q]);
        a = a + 1;
    }
    out
}

} // verus!
