use crate::compact_block::{
    h256_from_slice, h256_from_bytes, BlockProposal, CompactBlock, GetBlockProposal, Header,
    IndexTransaction, ProposalShortId, Transaction, UncleBlock, HASH_LEN, SHORT_ID_LEN,
};
use vstd::prelude::*;

verus! {

/// A field of a wire record that could not be projected to its expected shape.
#[derive(Clone, Copy, Debug, PartialEq, Eq, Structural)]
pub enum Field {
    Header,
    ShortIds,
    PrefilledTransactions,
    Uncles,
    Proposals,
    Transactions,
    BlockHash,
}

/// Decoding failed at the named field; nothing of the record is kept.
#[derive(Clone, Copy, Debug, PartialEq, Eq, Structural)]
pub struct DecodeError {
    pub field: Field,
}

/// A transaction as the codec hands it over: hash bytes not yet length-checked.
#[derive(Clone, Debug, PartialEq, Eq)]
pub struct RawTransaction {
    pub hash: Vec<u8>,
    pub body: Vec<u8>,
}

/// A prefilled transaction as the codec hands it over.
#[derive(Clone, Debug, PartialEq, Eq)]
pub struct RawIndexTransaction {
    pub index: u32,
    pub transaction: Option<RawTransaction>,
}

/// An uncle block as the codec hands it over.
#[derive(Clone, Debug, PartialEq, Eq)]
pub struct RawUncleBlock {
    pub header: Option<Vec<u8>>,
    pub proposals: Option<Vec<Vec<u8>>>,
}

/// A compact block as the codec hands it over; an absent field is `None`.
#[derive(Clone, Debug, PartialEq, Eq)]
pub struct RawCompactBlock {
    pub header: Option<Vec<u8>>,
    pub short_ids: Option<Vec<Vec<u8>>>,
    pub prefilled_transactions: Option<Vec<RawIndexTransaction>>,
    pub uncles: Option<Vec<RawUncleBlock>>,
    pub proposals: Option<Vec<Vec<u8>>>,
}

/// A block proposal as the codec hands it over.
#[derive(Clone, Debug, PartialEq, Eq)]
pub struct RawBlockProposal {
    pub transactions: Option<Vec<RawTransaction>>,
}

/// A proposal request as the codec hands it over.
#[derive(Clone, Debug, PartialEq, Eq)]
pub struct RawGetBlockProposal {
    pub block_hash: Option<Vec<u8>>,
    pub proposals: Option<Vec<Vec<u8>>>,
}

/// Every element is a short id of exactly the right width.
pub open spec fn short_ids_ok(v: Seq<Vec<u8>>) -> bool {
    forall|i: int| 0 <= i < v.len() ==> #[trigger] v[i]@.len() == SHORT_ID_LEN
}

/// `r` holds the short ids spelled by `v`, in order.
pub open spec fn short_ids_match(r: Seq<ProposalShortId>, v: Seq<Vec<u8>>) -> bool {
    r.len() == v.len() && forall|i: int| 0 <= i < v.len() ==> #[trigger] r[i]@ == v[i]@
}

pub open spec fn transaction_ok(t: RawTransaction) -> bool {
    t.hash@.len() == HASH_LEN
}

pub open spec fn transaction_match(r: Transaction, t: RawTransaction) -> bool {
    r.hash@ == t.hash@ && r.body@ == t.body@
}

pub open spec fn transactions_ok(v: Seq<RawTransaction>) -> bool {
    forall|i: int| 0 <= i < v.len() ==> #[trigger] transaction_ok(v[i])
}

pub open spec fn transactions_match(r: Seq<Transaction>, v: Seq<RawTransaction>) -> bool {
    r.len() == v.len() && forall|i: int| 0 <= i < v.len() ==> #[trigger] transaction_match(r[i], v[i])
}

pub open spec fn prefilled_ok(v: Seq<RawIndexTransaction>) -> bool {
    forall|i: int|
        0 <= i < v.len() ==> #[trigger] v[i].transaction is Some && transaction_ok(
            v[i].transaction->0,
        )
}

pub open spec fn prefilled_match(r: Seq<IndexTransaction>, v: Seq<RawIndexTransaction>) -> bool {
    r.len() == v.len() && forall|i: int|
        0 <= i < v.len() ==> #[trigger] r[i].index == v[i].index as usize && transaction_match(
            r[i].transaction,
            v[i].transaction->0,
        )
}

pub open spec fn uncle_ok(u: RawUncleBlock) -> bool {
    u.header is Some && u.proposals is Some && short_ids_ok(u.proposals->0@)
}

pub open spec fn uncles_ok(v: Seq<RawUncleBlock>) -> bool {
    forall|i: int| 0 <= i < v.len() ==> #[trigger] uncle_ok(v[i])
}

pub open spec fn uncles_match(r: Seq<UncleBlock>, v: Seq<RawUncleBlock>) -> bool {
    r.len() == v.len() && forall|i: int| #![trigger r[i]]
        0 <= i < v.len() ==> r[i].header.raw@ == v[i].header->0@ && short_ids_match(
            r[i].proposals@,
            v[i].proposals->0@,
        )
}

/// The first field of a raw compact block that fails to decode, if any.
pub open spec fn compact_block_error(raw: RawCompactBlock) -> Option<Field> {
    if raw.header is None {
        Some(Field::Header)
    } else if !(raw.short_ids is Some && short_ids_ok(raw.short_ids->0@)) {
        Some(Field::ShortIds)
    } else if !(raw.prefilled_transactions is Some && prefilled_ok(
        raw.prefilled_transactions->0@,
    )) {
        Some(Field::PrefilledTransactions)
    } else if !(raw.uncles is Some && uncles_ok(raw.uncles->0@)) {
        Some(Field::Uncles)
    } else if !(raw.proposals is Some && short_ids_ok(raw.proposals->0@)) {
        Some(Field::Proposals)
    } else {
        None
    }
}

/// `b` carries exactly the values of a fully decodable `raw`.
pub open spec fn compact_block_match(b: CompactBlock, raw: RawCompactBlock) -> bool {
    &&& b.header.raw@ == raw.header->0@
    &&& short_ids_match(b.short_ids@, raw.short_ids->0@)
    &&& prefilled_match(b.prefilled_transactions@, raw.prefilled_transactions->0@)
    &&& uncles_match(b.uncles@, raw.uncles->0@)
    &&& short_ids_match(b.proposals@, raw.proposals->0@)
}

impl ProposalShortId {
    /// Reads a short id from exactly ten bytes.
    pub fn from_slice(b: &[u8]) -> (r: Option<ProposalShortId>)
        ensures
            r is Some <==> b@.len() == SHORT_ID_LEN,
            r matches Some(s) ==> s@ == b@,
    {
        if b.len() != SHORT_ID_LEN {
            return None;
        }
        let r = ProposalShortId { bytes: [b[0], b[1], b[2], b[3], b[4], b[5], b[6], b[7], b[8], b[9]] };
        assert(r@ =~= b@);
        Some(r)
    }
}

fn decode_transaction(t: &RawTransaction) -> (r: Option<Transaction>)
    ensures
        r is Some <==> transaction_ok(*t),
        r matches Some(x) ==> transaction_match(x, *t),
{
    let b = &t.hash;
    if b.len() != HASH_LEN {
        return None;
    }
    let hash = [b[0], b[1], b[2], b[3], b[4], b[5], b[6], b[7], b[8], b[9], b[10], b[11], b[12], b[13], b[14], b[15], b[16], b[17], b[18], b[19], b[20], b[21], b[22], b[23], b[24], b[25], b[26], b[27], b[28], b[29], b[30], b[31]];
    assert(hash@ =~= b@);
    let body = t.body.clone();
    assert(body@ =~= t.body@);
    Some(Transaction { hash, body })
}

fn decode_short_ids(v: &Vec<Vec<u8>>) -> (r: Option<Vec<ProposalShortId>>)
    ensures
        r is Some <==> short_ids_ok(v@),
        r matches Some(x) ==> short_ids_match(x@, v@),
{
    let mut out: Vec<ProposalShortId> = Vec::new();
    let mut i: usize = 0;
    while i < v.len()
        invariant
            i <= v@.len(),
            out@.len() == i,
            forall|j: int| 0 <= j < i ==> #[trigger] v@[j]@.len() == SHORT_ID_LEN,
            forall|j: int| 0 <= j < i ==> #[trigger] out@[j]@ == v@[j]@,
        decreases v@.len() - i,
    {
        match ProposalShortId::from_slice(v[i].as_slice()) {
            Some(s) => out.push(s),
            None => return None,
        }
        i = i + 1;
    }
    Some(out)
}

fn decode_transactions(v: &Vec<RawTransaction>) -> (r: Option<Vec<Transaction>>)
    ensures
        r is Some <==> transactions_ok(v@),
        r matches Some(x) ==> transactions_match(x@, v@),
{
    let mut out: Vec<Transaction> = Vec::new();
    let mut i: usize = 0;
    while i < v.len()
        invariant
            i <= v@.len(),
            out@.len() == i,
            forall|j: int| 0 <= j < i ==> #[trigger] transaction_ok(v@[j]),
            forall|j: int| 0 <= j < i ==> #[trigger] transaction_match(out@[j], v@[j]),
        decreases v@.len() - i,
    {
        match decode_transaction(&v[i]) {
            Some(t) => out.push(t),
            None => return None,
        }
        i = i + 1;
    }
    Some(out)
}

fn decode_prefilled(v: &Vec<RawIndexTransaction>) -> (r: Option<Vec<IndexTransaction>>)
    ensures
        r is Some <==> prefilled_ok(v@),
        r matches Some(x) ==> prefilled_match(x@, v@),
{
    let mut out: Vec<IndexTransaction> = Vec::new();
    let mut i: usize = 0;
    while i < v.len()
        invariant
            i <= v@.len(),
            out@.len() == i,
            forall|j: int|
                0 <= j < i ==> #[trigger] v@[j].transaction is Some && transaction_ok(
                    v@[j].transaction->0,
                ) && out@[j].index == v@[j].index as usize && transaction_match(
                    out@[j].transaction,
                    v@[j].transaction->0,
                ),
        decreases v@.len() - i,
    {
        let t = match &v[i].transaction {
            Some(t) => t,
            None => return None,
        };
        match decode_transaction(t) {
            Some(x) => out.push(IndexTransaction { index: v[i].index as usize, transaction: x }),
            None => return None,
        }
        i = i + 1;
    }
    Some(out)
}

fn decode_uncles(v: &Vec<RawUncleBlock>) -> (r: Option<Vec<UncleBlock>>)
    ensures
        r is Some <==> uncles_ok(v@),
        r matches Some(x) ==> uncles_match(x@, v@),
{
    let mut out: Vec<UncleBlock> = Vec::new();
    let mut i: usize = 0;
    while i < v.len()
        invariant
            i <= v@.len(),
            out@.len() == i,
            forall|j: int| 0 <= j < i ==> #[trigger] uncle_ok(v@[j]),
            forall|j: int| #![trigger out@[j]]
                0 <= j < i ==> out@[j].header.raw@ == v@[j].header->0@ && short_ids_match(
                    out@[j].proposals@,
                    v@[j].proposals->0@,
                ),
        decreases v@.len() - i,
    {
        let u = &v[i];
        let header = match &u.header {
            Some(h) => h.clone(),
            None => {
                assert(!uncle_ok(v@[i as int]));
                return None;
            },
        };
        let proposals = match &u.proposals {
            Some(p) => decode_short_ids(p),
            None => {
                assert(!uncle_ok(v@[i as int]));
                return None;
            },
        };
        match proposals {
            Some(p) => {
                assert(header@ =~= u.header->0@);
                out.push(UncleBlock { header: Header { raw: header }, proposals: p });
            },
            None => {
                assert(!uncle_ok(v@[i as int]));
                return None;
            },
        }
        i = i + 1;
    }
    Some(out)
}

impl CompactBlock {
    /// Decodes a compact block, failing at the first field, in declaration
    /// order, that is absent or holds an element of the wrong shape.
    pub fn try_from(raw: &RawCompactBlock) -> (r: Result<CompactBlock, DecodeError>)
        ensures
            match r {
                Ok(b) => compact_block_error(*raw) is None && compact_block_match(b, *raw),
                Err(e) => compact_block_error(*raw) == Some(e.field),
            },
    {
        let header = match &raw.header {
            Some(h) => h.clone(),
            None => return Err(DecodeError { field: Field::Header }),
        };
        assert(header@ =~= raw.header->0@);
        let short_ids = match &raw.short_ids {
            Some(v) => decode_short_ids(v),
            None => None,
        };
        let short_ids = match short_ids {
            Some(s) => s,
            None => return Err(DecodeError { field: Field::ShortIds }),
        };
        let prefilled = match &raw.prefilled_transactions {
            Some(v) => decode_prefilled(v),
            None => None,
        };
        let prefilled_transactions = match prefilled {
            Some(p) => p,
            None => return Err(DecodeError { field: Field::PrefilledTransactions }),
        };
        let uncles = match &raw.uncles {
            Some(v) => decode_uncles(v),
            None => None,
        };
        let uncles = match uncles {
            Some(u) => u,
            None => return Err(DecodeError { field: Field::Uncles }),
        };
        let proposals = match &raw.proposals {
            Some(v) => decode_short_ids(v),
            None => None,
        };
        let proposals = match proposals {
            Some(p) => p,
            None => return Err(DecodeError { field: Field::Proposals }),
        };
        Ok(
            CompactBlock {
                header: Header { raw: header },
                uncles,
                short_ids,
                prefilled_transactions,
                proposals,
            },
        )
    }
}

impl BlockProposal {
    /// Decodes a block proposal; fails if its transactions are absent or malformed.
    pub fn try_from(raw: &RawBlockProposal) -> (r: Result<BlockProposal, DecodeError>)
        ensures
            r is Ok <==> (raw.transactions is Some && transactions_ok(raw.transactions->0@)),
            r matches Ok(b) ==> transactions_match(b.transactions@, raw.transactions->0@),
            r matches Err(e) ==> e.field == Field::Transactions,
    {
        let transactions = match &raw.transactions {
            Some(v) => decode_transactions(v),
            None => None,
        };
        match transactions {
            Some(t) => Ok(BlockProposal { transactions: t }),
            None => Err(DecodeError { field: Field::Transactions }),
        }
    }
}

impl GetBlockProposal {
    /// Decodes a proposal request: a 32-byte block hash, then the short ids.
    pub fn try_from(raw: &RawGetBlockProposal) -> (r: Result<GetBlockProposal, DecodeError>)
        ensures
            match r {
                Ok(g) => {
                    &&& raw.block_hash is Some
                    &&& raw.block_hash->0@.len() == HASH_LEN
                    &&& g.block_hash == h256_from_bytes(raw.block_hash->0@)
                    &&& raw.proposals is Some
                    &&& short_ids_ok(raw.proposals->0@)
                    &&& short_ids_match(g.proposals@, raw.proposals->0@)
                },
                Err(e) => if !(raw.block_hash is Some && raw.block_hash->0@.len() == HASH_LEN) {
                    e.field == Field::BlockHash
                } else {
                    e.field == Field::Proposals && !(raw.proposals is Some && short_ids_ok(
                        raw.proposals->0@,
                    ))
                },
            },
    {
        let block_hash = match &raw.block_hash {
            Some(b) => h256_from_slice(b.as_slice()),
            None => return Err(DecodeError { field: Field::BlockHash }),
        };
        let block_hash = match block_hash {
            Ok(h) => h,
            Err(_) => return Err(DecodeError { field: Field::BlockHash }),
        };
        let proposals = match &raw.proposals {
            Some(v) => decode_short_ids(v),
            None => None,
        };
        match proposals {
            Some(p) => Ok(GetBlockProposal { block_hash, proposals: p }),
            None => Err(DecodeError { field: Field::Proposals }),
        }
    }
}

} // verus!
