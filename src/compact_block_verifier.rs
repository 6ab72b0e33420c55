use crate::compact_block::{CompactBlock, IndexTransaction, ProposalShortId};
use vstd::prelude::*;

verus! {

/// Why a well-formed compact block was rejected, for peer-scoring decisions.
#[derive(Clone, Copy, Debug, PartialEq, Eq, Structural)]
pub enum Misbehavior {
    CellbaseNotPrefilled,
    UnorderedPrefilledTransactions,
    OverflowPrefilledTransactions,
    DuplicatedShortIds,
    IntersectedPrefilledTransactions,
}

/// Prefilled indices strictly increase along the sequence.
pub open spec fn indices_increasing(p: Seq<IndexTransaction>) -> bool {
    forall|a: int, b: int| 0 <= a < b < p.len() ==> p[a].index < p[b].index
}

/// The cellbase, at index 0, leads the prefilled transactions.
pub open spec fn cellbase_prefilled(p: Seq<IndexTransaction>) -> bool {
    p.len() > 0 && p[0].index == 0
}

/// What `PrefilledVerifier` decides of a block.
pub open spec fn prefilled_outcome(block: CompactBlock) -> Result<(), Misbehavior> {
    let p = block.prefilled_transactions@;
    if !cellbase_prefilled(p) {
        Err(Misbehavior::CellbaseNotPrefilled)
    } else if !indices_increasing(p) {
        Err(Misbehavior::UnorderedPrefilledTransactions)
    } else if p.last().index >= block.total_len() {
        Err(Misbehavior::OverflowPrefilledTransactions)
    } else {
        Ok(())
    }
}

/// Some short id occurs twice.
pub open spec fn has_duplicate(s: Seq<ProposalShortId>) -> bool {
    exists|a: int, b: int| 0 <= a < b < s.len() && s[a]@ == s[b]@
}

/// Some prefilled transaction is also announced by its short id.
pub open spec fn prefilled_intersects(p: Seq<IndexTransaction>, s: Seq<ProposalShortId>) -> bool {
    exists|a: int, k: int|
        0 <= a < p.len() && 0 <= k < s.len() && p[a].transaction.short_id() == s[k]@
}

/// What `ShortIdsVerifier` decides of a block.
pub open spec fn short_ids_outcome(block: CompactBlock) -> Result<(), Misbehavior> {
    if has_duplicate(block.short_ids@) {
        Err(Misbehavior::DuplicatedShortIds)
    } else if prefilled_intersects(block.prefilled_transactions@, block.short_ids@) {
        Err(Misbehavior::IntersectedPrefilledTransactions)
    } else {
        Ok(())
    }
}

/// What `CompactBlockVerifier` decides: the prefilled checks first, then the short ids.
pub open spec fn verify_outcome(block: CompactBlock) -> Result<(), Misbehavior> {
    match prefilled_outcome(block) {
        Err(e) => Err(e),
        Ok(()) => short_ids_outcome(block),
    }
}

/// The block passes every structural check.
pub open spec fn well_formed(block: CompactBlock) -> bool {
    verify_outcome(block) is Ok
}

/// The prefilled checks accept exactly the blocks whose prefilled list is
/// non-empty, starts at index 0, strictly increases, and ends below the
/// declared transaction count.
pub proof fn lemma_prefilled_accepts(block: CompactBlock)
    ensures
        prefilled_outcome(block) is Ok <==> {
            let p = block.prefilled_transactions@;
            &&& p.len() > 0
            &&& p[0].index == 0
            &&& indices_increasing(p)
            &&& (p.last().index as int) < block.total_len()
        },
{
}

/// The short-id checks reject exactly the blocks with a repeated short id or a
/// prefilled transaction whose own short id is also listed.
pub proof fn lemma_short_ids_rejects(block: CompactBlock)
    ensures
        short_ids_outcome(block) is Err <==> (has_duplicate(block.short_ids@)
            || prefilled_intersects(block.prefilled_transactions@, block.short_ids@)),
{
}

/// Runs the prefilled checks and then the short-id checks, stopping at the first failure.
pub struct CompactBlockVerifier {
    prefilled: PrefilledVerifier,
    short_ids: ShortIdsVerifier,
}

impl CompactBlockVerifier {
    pub fn new() -> Self {
        Self { prefilled: PrefilledVerifier::new(), short_ids: ShortIdsVerifier::new() }
    }

    pub fn verify(&self, block: &CompactBlock) -> (r: Result<(), Misbehavior>)
        ensures
            r == verify_outcome(*block),
    {
        self.prefilled.verify(block)?;
        self.short_ids.verify(block)?;
        Ok(())
    }
}

/// Checks that the cellbase is prefilled and that prefilled indices are ordered and in range.
pub struct PrefilledVerifier {}

impl PrefilledVerifier {
    pub fn new() -> Self {
        Self {  }
    }

    pub fn verify(&self, block: &CompactBlock) -> (r: Result<(), Misbehavior>)
        ensures
            r == prefilled_outcome(*block),
    {
        let ghost p = block.prefilled_transactions@;

        if block.prefilled_transactions.len() == 0 || block.prefilled_transactions[0].index != 0 {
            return Err(Misbehavior::CellbaseNotPrefilled);
        }

        let n = block.prefilled_transactions.len();
        let mut i: usize = 1;
        while i < n
            invariant
                1 <= i <= n,
                n == p.len(),
                p == block.prefilled_transactions@,
                cellbase_prefilled(p),
                forall|a: int, b: int| 0 <= a < b < i ==> p[a].index < p[b].index,
            decreases n - i,
        {
            if block.prefilled_transactions[i - 1].index >= block.prefilled_transactions[i].index {
                assert(!indices_increasing(p));
                return Err(Misbehavior::UnorderedPrefilledTransactions);
            }
            i = i + 1;
        }

        let last = block.prefilled_transactions[n - 1].index;
        if last >= n && last - n >= block.short_ids.len() {
            return Err(Misbehavior::OverflowPrefilledTransactions);
        }

        Ok(())
    }
}

/// Checks that short ids are unique and disjoint from the prefilled transactions' own.
pub struct ShortIdsVerifier {}

impl ShortIdsVerifier {
    pub fn new() -> Self {
        Self {  }
    }

    pub fn verify(&self, block: &CompactBlock) -> (r: Result<(), Misbehavior>)
        ensures
            r == short_ids_outcome(*block),
    {
        let ghost s = block.short_ids@;
        let ghost p = block.prefilled_transactions@;

        let mut j: usize = 0;
        while j < block.short_ids.len()
            invariant
                j <= s.len(),
                s == block.short_ids@,
                forall|a: int, b: int| 0 <= a < b < j ==> s[a]@ != s[b]@,
            decreases s.len() - j,
        {
            let mut i: usize = 0;
            while i < j
                invariant
                    i <= j < s.len(),
                    s == block.short_ids@,
                    forall|a: int, b: int| 0 <= a < b < j ==> s[a]@ != s[b]@,
                    forall|a: int| 0 <= a < i ==> s[a]@ != s[j as int]@,
                decreases j - i,
            {
                if block.short_ids[i] == block.short_ids[j] {
                    assert(has_duplicate(s));
                    return Err(Misbehavior::DuplicatedShortIds);
                }
                i = i + 1;
            }
            j = j + 1;
        }

        let mut a: usize = 0;
        while a < block.prefilled_transactions.len()
            invariant
                a <= p.len(),
                p == block.prefilled_transactions@,
                s == block.short_ids@,
                !has_duplicate(s),
                forall|x: int, k: int|
                    0 <= x < a && 0 <= k < s.len() ==> p[x].transaction.short_id() != s[k]@,
            decreases p.len() - a,
        {
            let id = block.prefilled_transactions[a].transaction.proposal_short_id();
            let mut k: usize = 0;
            while k < block.short_ids.len()
                invariant
                    a < p.len(),
                    k <= s.len(),
                    p == block.prefilled_transactions@,
                    s == block.short_ids@,
                    !has_duplicate(s),
                    id@ == p[a as int].transaction.short_id(),
                    forall|y: int| 0 <= y < k ==> id@ != s[y]@,
                decreases s.len() - k,
            {
                if id == block.short_ids[k] {
                    assert(prefilled_intersects(p, s));
                    return Err(Misbehavior::IntersectedPrefilledTransactions);
                }
                k = k + 1;
            }
            a = a + 1;
        }
        Ok(())
    }
}

} // verus!
