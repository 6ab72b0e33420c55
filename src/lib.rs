//! Compact-block relay core: the wire records of a compact block announcement,
//! the structural verifier that screens them, and the reconstruction of a full
//! transaction list from prefilled transactions and short-id matches.
pub mod compact_block;
pub mod compact_block_verifier;
pub mod reconstruct;
pub mod decode;
