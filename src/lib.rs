//! Composition of recursive proofs of block execution: transaction proofs are
//! folded pairwise into aggregate proofs, and an aggregate covering a whole
//! block becomes a block proof chained to its parent.
pub mod proof_gen;
pub mod types;
