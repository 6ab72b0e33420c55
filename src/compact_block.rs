use numext_fixed_hash::{FixedHashError, H256};
use vstd::prelude::*;

verus! {

/// Number of bytes in a proposal short id.
pub const SHORT_ID_LEN: usize = 10;

/// Number of bytes in a transaction hash.
pub const HASH_LEN: usize = 32;

/// A fixed-width fingerprint of a transaction, taken from the leading bytes of
/// its hash. Distinct transactions may share one.
#[derive(Clone, Copy, Debug, Hash)]
pub struct ProposalShortId {
    pub bytes: [u8; 10],
}

impl View for ProposalShortId {
    type V = Seq<u8>;

    open spec fn view(&self) -> Seq<u8> {
        self.bytes@
    }
}

impl PartialEq for ProposalShortId {
    fn eq(&self, other: &ProposalShortId) -> (r: bool) {
        let mut i: usize = 0;
        while i < SHORT_ID_LEN
            invariant
                i <= SHORT_ID_LEN,
                forall|j: int| 0 <= j < i ==> self@[j] == other@[j],
            decreases SHORT_ID_LEN - i,
        {
            if self.bytes[i] != other.bytes[i] {
                return false;
            }
            i = i + 1;
        }
        assert(self@ =~= other@);
        true
    }
}

impl vstd::std_specs::cmp::PartialEqSpecImpl for ProposalShortId {
    open spec fn obeys_eq_spec() -> bool {
        true
    }

    open spec fn eq_spec(&self, other: &ProposalShortId) -> bool {
        self@ == other@
    }
}

impl Eq for ProposalShortId {
}

/// A transaction as this layer sees it: its hash, which is its identity, and
/// its serialized body, which is carried through untouched.
#[derive(Clone, Debug, PartialEq, Eq)]
pub struct Transaction {
    pub hash: [u8; 32],
    pub body: Vec<u8>,
}

/// The short id of a transaction with the given hash: its first ten bytes.
pub open spec fn short_id_of_hash(hash: Seq<u8>) -> Seq<u8> {
    hash.subrange(0, SHORT_ID_LEN as int)
}

impl View for Transaction {
    type V = (Seq<u8>, Seq<u8>);

    open spec fn view(&self) -> (Seq<u8>, Seq<u8>) {
        (self.hash@, self.body@)
    }
}

impl Transaction {
    /// The short id under which this transaction is announced.
    pub open spec fn short_id(&self) -> Seq<u8> {
        short_id_of_hash(self.hash@)
    }

    pub fn proposal_short_id(&self) -> (r: ProposalShortId)
        ensures
            r@ == self.short_id(),
    {
        let h = &self.hash;
        let r = ProposalShortId {
            bytes: [h[0], h[1], h[2], h[3], h[4], h[5], h[6], h[7], h[8], h[9]],
        };
        assert(r@ =~= self.short_id());
        r
    }

    /// A copy of this transaction with the same hash and body.
    pub fn duplicate(&self) -> (r: Transaction)
        ensures
            r@ == self@,
    {
        let body = self.body.clone();
        assert(body@ =~= self.body@);
        Transaction { hash: self.hash, body }
    }
}

/// A transaction together with its absolute position in the block.
#[derive(Clone, Debug, PartialEq, Eq)]
pub struct IndexTransaction {
    pub index: usize,
    pub transaction: Transaction,
}

/// A block header, carried as its serialized bytes: this layer never reads it.
#[derive(Clone, Debug, PartialEq, Eq)]
pub struct Header {
    pub raw: Vec<u8>,
}

/// An uncle block: its header and the short ids it proposes.
#[derive(Clone, Debug, PartialEq, Eq)]
pub struct UncleBlock {
    pub header: Header,
    pub proposals: Vec<ProposalShortId>,
}

/// A block announced by its header, the short ids of most of its transactions,
/// and a few transactions sent in full at their absolute positions.
#[derive(Clone, Debug, PartialEq, Eq)]
pub struct CompactBlock {
    pub header: Header,
    pub uncles: Vec<UncleBlock>,
    pub short_ids: Vec<ProposalShortId>,
    pub prefilled_transactions: Vec<IndexTransaction>,
    pub proposals: Vec<ProposalShortId>,
}

impl CompactBlock {
    /// Number of transactions the block declares: prefilled ones plus short ids.
    pub open spec fn total_len(&self) -> int {
        (self.prefilled_transactions@.len() + self.short_ids@.len()) as int
    }
}

impl Default for CompactBlock {
    fn default() -> (r: CompactBlock)
        ensures
            r.header.raw@.len() == 0,
            r.uncles@.len() == 0,
            r.short_ids@.len() == 0,
            r.prefilled_transactions@.len() == 0,
            r.proposals@.len() == 0,
    {
        CompactBlock {
            header: Header { raw: Vec::new() },
            uncles: Vec::new(),
            short_ids: Vec::new(),
            prefilled_transactions: Vec::new(),
            proposals: Vec::new(),
        }
    }
}

/// The answer to a `GetBlockProposal`: transactions in full, matched by identity.
#[derive(Clone, Debug, PartialEq, Eq)]
pub struct BlockProposal {
    pub transactions: Vec<Transaction>,
}

/// A request for the full transactions behind some short ids of an announced block.
#[derive(Clone, Debug, PartialEq, Eq)]
pub struct GetBlockProposal {
    pub block_hash: H256,
    pub proposals: Vec<ProposalShortId>,
}

#[verifier::external_type_specification]
#[verifier::external_body]
pub struct ExH256(H256);

#[verifier::external_type_specification]
#[verifier::external_body]
pub struct ExFixedHashError(FixedHashError);

/// Relies on the derived `Clone` of `numext_fixed_hash::H256`, a tuple struct
/// over `[u8; 32]`: the copy holds the same bytes.
pub assume_specification[ <H256 as Clone>::clone ](h: &H256) -> (r: H256)
    ensures
        r == *h,
;

/// The 256-bit hash that `H256::from_slice` builds from exactly 32 bytes.
pub uninterp spec fn h256_from_bytes(b: Seq<u8>) -> H256;

/// Relies on `numext_fixed_hash::H256::from_slice`: it fails unless the slice
/// holds exactly 32 bytes, and otherwise builds the hash from those bytes.
#[verifier::external_body]
pub(crate) fn h256_from_slice(b: &[u8]) -> (r: Result<H256, FixedHashError>)
    ensures
        r is Ok <==> b@.len() == HASH_LEN,
        r matches Ok(h) ==> h == h256_from_bytes(b@),
{
    H256::from_slice(b)
}

} // verus!
