use vstd::prelude::*;

use crate::proof_gen::ProofGenError;

verus! {

/// A 256-bit digest, such as a trie root, handed out by the prover engine.
pub type Digest = [u8; 32];

/// A 2048-bit log bloom filter.
pub type Bloom = [u8; 256];

/// A half-open range `[start, end)` of transaction indices within one block.
#[derive(Clone, Copy, Debug, PartialEq, Eq, Structural)]
pub struct TxnRange {
    pub start: u64,
    pub end: u64,
}

/// Two ranges can be joined when the first ends exactly where the second starts.
pub open spec fn adjacent(a: TxnRange, b: TxnRange) -> bool {
    a.end == b.start
}

/// The range covered by two adjacent ranges taken together.
pub open spec fn combined(a: TxnRange, b: TxnRange) -> TxnRange {
    TxnRange { start: a.start, end: b.end }
}

impl TxnRange {
    pub open spec fn wf(self) -> bool {
        self.start <= self.end
    }

    /// The range that holds the single transaction `idx`.
    pub fn single(idx: u64) -> (r: TxnRange)
        requires
            idx < u64::MAX,
        ensures
            r == (TxnRange { start: idx, end: (idx + 1) as u64 }),
            r.wf(),
    {
        TxnRange { start: idx, end: idx + 1 }
    }

    /// Joins this range with the range that directly follows it.
    pub fn combine(&self, other: &TxnRange) -> (r: Result<TxnRange, ProofGenError>)
        ensures
            adjacent(*self, *other) <==> r is Ok,
            adjacent(*self, *other) ==> r == Ok::<TxnRange, ProofGenError>(combined(*self, *other)),
            !adjacent(*self, *other) ==> r == Err::<TxnRange, ProofGenError>(
                ProofGenError::RangeDiscontinuity { lhs: *self, rhs: *other },
            ),
    {
        if self.end == other.start {
            Ok(TxnRange { start: self.start, end: other.end })
        } else {
            Err(ProofGenError::RangeDiscontinuity { lhs: *self, rhs: *other })
        }
    }
}

/// The root digests of the state, transaction and receipt tries.
#[derive(Clone, Copy, Debug)]
pub struct TrieRoots {
    pub state_root: Digest,
    pub transactions_root: Digest,
    pub receipts_root: Digest,
}

/// The change in gas used and in the log bloom over the transactions a proof covers.
#[derive(Clone, Copy, Debug)]
pub struct Deltas {
    pub gas_used_before: u64,
    pub gas_used_after: u64,
    pub bloom_before: Bloom,
    pub bloom_after: Bloom,
}

/// The deltas of two adjacent spans taken together: the outer edges of each.
pub open spec fn merged(a: Deltas, b: Deltas) -> Deltas {
    Deltas {
        gas_used_before: a.gas_used_before,
        gas_used_after: b.gas_used_after,
        bloom_before: a.bloom_before,
        bloom_after: b.bloom_after,
    }
}

impl Deltas {
    /// Folds the deltas of a left span and of the span that follows it.
    pub fn merge(&self, other: &Deltas) -> (r: Deltas)
        ensures
            r == merged(*self, *other),
            r.gas_used_before == self.gas_used_before,
            r.gas_used_after == other.gas_used_after,
    {
        Deltas {
            gas_used_before: self.gas_used_before,
            gas_used_after: other.gas_used_after,
            bloom_before: self.bloom_before,
            bloom_after: other.bloom_after,
        }
    }
}

/// The header shared by proofs of every level.
#[derive(Clone, Copy, Debug)]
pub struct ProofCommon {
    pub b_height: u64,
    pub deltas: Deltas,
    pub roots_before: TrieRoots,
    pub roots_after: TrieRoots,
}

/// A proof of a single transaction: a leaf of the aggregation tree.
pub struct GeneratedTxnProof<P, V> {
    pub txn_idx: u64,
    pub common: ProofCommon,
    pub intern: P,
    pub public_values: V,
}

/// A proof of a contiguous range of transactions, folded from two child proofs.
pub struct GeneratedAggProof<P, V> {
    pub common: ProofCommon,
    pub underlying_txns: TxnRange,
    pub intern: P,
    pub public_values: V,
}

/// A proof of a whole block, optionally chained to the proof of its parent.
pub struct GeneratedBlockProof<P, V> {
    pub b_height: u64,
    pub intern: P,
    pub public_values: V,
}

impl<P, V> GeneratedTxnProof<P, V> {
    pub open spec fn wf(&self) -> bool {
        self.txn_idx < u64::MAX
    }
}

impl<P, V> GeneratedAggProof<P, V> {
    pub open spec fn wf(&self) -> bool {
        self.underlying_txns.wf()
    }
}

/// A read-only view of a proof that can be a child of an aggregation.
pub enum AggregatableProof<'a, P, V> {
    Txn(&'a GeneratedTxnProof<P, V>),
    Agg(&'a GeneratedAggProof<P, V>),
}

impl<'a, P, V> AggregatableProof<'a, P, V> {
    pub open spec fn wf(&self) -> bool {
        match *self {
            AggregatableProof::Txn(t) => t.wf(),
            AggregatableProof::Agg(a) => a.wf(),
        }
    }

    pub open spec fn common_spec(&self) -> ProofCommon {
        match *self {
            AggregatableProof::Txn(t) => t.common,
            AggregatableProof::Agg(a) => a.common,
        }
    }

    /// The transactions the viewed proof covers: one for a transaction proof.
    pub open spec fn range_spec(&self) -> TxnRange {
        match *self {
            AggregatableProof::Txn(t) => TxnRange { start: t.txn_idx, end: (t.txn_idx + 1) as u64 },
            AggregatableProof::Agg(a) => a.underlying_txns,
        }
    }

    pub open spec fn is_agg_spec(&self) -> bool {
        self is Agg
    }

    pub open spec fn intern_spec(&self) -> &'a P {
        match *self {
            AggregatableProof::Txn(t) => &t.intern,
            AggregatableProof::Agg(a) => &a.intern,
        }
    }

    pub open spec fn public_values_spec(&self) -> &'a V {
        match *self {
            AggregatableProof::Txn(t) => &t.public_values,
            AggregatableProof::Agg(a) => &a.public_values,
        }
    }

    pub fn common(&self) -> (r: ProofCommon)
        ensures
            r == self.common_spec(),
    {
        match self {
            AggregatableProof::Txn(t) => t.common,
            AggregatableProof::Agg(a) => a.common,
        }
    }

    pub fn b_height(&self) -> (r: u64)
        ensures
            r == self.common_spec().b_height,
    {
        self.common().b_height
    }

    pub fn underlying_txns(&self) -> (r: TxnRange)
        requires
            self.wf(),
        ensures
            r == self.range_spec(),
            r.wf(),
    {
        match self {
            AggregatableProof::Txn(t) => TxnRange::single(t.txn_idx),
            AggregatableProof::Agg(a) => a.underlying_txns,
        }
    }

    pub fn is_agg(&self) -> (r: bool)
        ensures
            r == self.is_agg_spec(),
    {
        match self {
            AggregatableProof::Txn(_) => false,
            AggregatableProof::Agg(_) => true,
        }
    }

    pub fn intern(&self) -> (r: &'a P)
        ensures
            r == self.intern_spec(),
    {
        match self {
            AggregatableProof::Txn(t) => &t.intern,
            AggregatableProof::Agg(a) => &a.intern,
        }
    }

    pub fn public_values(&self) -> (r: &'a V)
        ensures
            r == self.public_values_spec(),
    {
        match self {
            AggregatableProof::Txn(t) => &t.public_values,
            AggregatableProof::Agg(a) => &a.public_values,
        }
    }
}

} // verus!
