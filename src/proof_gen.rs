use vstd::prelude::*;

use crate::types::{
    adjacent, combined, merged, AggregatableProof, Deltas, GeneratedAggProof, GeneratedBlockProof,
    GeneratedTxnProof, ProofCommon, TrieRoots, TxnRange,
};

verus! {

/// Why a proof could not be generated.
#[derive(Clone, Debug)]
pub enum ProofGenError {
    /// The two children of an aggregation do not cover adjacent ranges.
    RangeDiscontinuity { lhs: TxnRange, rhs: TxnRange },
    /// The prover engine failed; its diagnostic text is kept verbatim.
    EngineFailure(String),
}

pub type ProofGenResult<T> = Result<T, ProofGenError>;

impl From<String> for ProofGenError {
    fn from(v: String) -> (r: Self) {
        ProofGenError::EngineFailure(v)
    }
}

impl vstd::std_specs::convert::FromSpecImpl<String> for ProofGenError {
    open spec fn obeys_from_spec() -> bool {
        true
    }

    open spec fn from_spec(v: String) -> Self {
        ProofGenError::EngineFailure(v)
    }
}

/// What the prover engine hands back for a proof it made: the proof itself,
/// its public values, and the trie roots those public values attest to.
pub struct EngineOutput<P, V> {
    pub intern: P,
    pub public_values: V,
    pub roots_before: TrieRoots,
    pub roots_after: TrieRoots,
}

/// The inputs for proving one transaction: the header values the proof
/// carries, and the engine's own generation inputs.
pub struct TxnProofGenIR<G> {
    pub b_height: u64,
    pub txn_idx: u64,
    pub deltas: Deltas,
    pub gen_inputs: G,
}

/// The proving system that makes and checks the proofs this library composes.
/// Each operation may fail, with a diagnostic text; nothing is assumed of
/// what a successful call returns.
pub trait ProverEngine<P, V, G> {
    /// Proves one transaction from its generation inputs.
    fn prove_root(&self, inputs: G) -> Result<EngineOutput<P, V>, String>;

    /// Proves the two given child proofs together, left before right.
    fn prove_aggregation(
        &self,
        lhs_is_agg: bool,
        lhs_proof: &P,
        lhs_public_values: &V,
        rhs_is_agg: bool,
        rhs_proof: &P,
        rhs_public_values: &V,
    ) -> Result<EngineOutput<P, V>, String>;

    /// Proves a block from the aggregate of all its transactions, chained to
    /// the proof of the parent block where there is one.
    fn prove_block(
        &self,
        parent_proof: Option<&P>,
        agg_proof: &P,
        agg_public_values: &V,
    ) -> Result<(P, V), String>;
}

/// The transaction proof made of the given header values and engine output.
pub open spec fn txn_proof_of<P, V>(
    b_height: u64,
    txn_idx: u64,
    deltas: Deltas,
    out: EngineOutput<P, V>,
) -> GeneratedTxnProof<P, V> {
    GeneratedTxnProof {
        txn_idx,
        common: ProofCommon {
            b_height,
            deltas,
            roots_before: out.roots_before,
            roots_after: out.roots_after,
        },
        intern: out.intern,
        public_values: out.public_values,
    }
}

/// The aggregate proof made of the given header values and engine output.
pub open spec fn agg_proof_of<P, V>(
    b_height: u64,
    range: TxnRange,
    deltas: Deltas,
    out: EngineOutput<P, V>,
) -> GeneratedAggProof<P, V> {
    GeneratedAggProof {
        common: ProofCommon {
            b_height,
            deltas,
            roots_before: out.roots_before,
            roots_after: out.roots_after,
        },
        underlying_txns: range,
        intern: out.intern,
        public_values: out.public_values,
    }
}

/// Builds a transaction proof from what the engine's root proving returned.
pub fn txn_proof_from_engine<P, V>(
    b_height: u64,
    txn_idx: u64,
    deltas: Deltas,
    out: Result<EngineOutput<P, V>, String>,
) -> (r: ProofGenResult<GeneratedTxnProof<P, V>>)
    ensures
        out is Ok ==> r == Ok::<GeneratedTxnProof<P, V>, ProofGenError>(
            txn_proof_of(b_height, txn_idx, deltas, out->Ok_0),
        ),
        out is Err ==> r == Err::<GeneratedTxnProof<P, V>, ProofGenError>(
            ProofGenError::EngineFailure(out->Err_0),
        ),
{
    match out {
        Ok(o) => {
            let common = ProofCommon {
                b_height,
                deltas,
                roots_before: o.roots_before,
                roots_after: o.roots_after,
            };
            Ok(GeneratedTxnProof { txn_idx, common, intern: o.intern, public_values: o.public_values })
        },
        Err(msg) => Err(ProofGenError::EngineFailure(msg)),
    }
}

/// Builds an aggregate proof from the folded header values and what the
/// engine's aggregation returned.
pub fn agg_proof_from_engine<P, V>(
    b_height: u64,
    range: TxnRange,
    deltas: Deltas,
    out: Result<EngineOutput<P, V>, String>,
) -> (r: ProofGenResult<GeneratedAggProof<P, V>>)
    ensures
        out is Ok ==> r == Ok::<GeneratedAggProof<P, V>, ProofGenError>(
            agg_proof_of(b_height, range, deltas, out->Ok_0),
        ),
        out is Err ==> r == Err::<GeneratedAggProof<P, V>, ProofGenError>(
            ProofGenError::EngineFailure(out->Err_0),
        ),
{
    match out {
        Ok(o) => {
            let common = ProofCommon {
                b_height,
                deltas,
                roots_before: o.roots_before,
                roots_after: o.roots_after,
            };
            Ok(
                GeneratedAggProof {
                    common,
                    underlying_txns: range,
                    intern: o.intern,
                    public_values: o.public_values,
                },
            )
        },
        Err(msg) => Err(ProofGenError::EngineFailure(msg)),
    }
}

/// Builds a block proof of the given height from what the engine's block
/// proving returned.
pub fn block_proof_from_engine<P, V>(b_height: u64, out: Result<(P, V), String>) -> (r:
    ProofGenResult<GeneratedBlockProof<P, V>>)
    ensures
        out is Ok ==> r == Ok::<GeneratedBlockProof<P, V>, ProofGenError>(
            (GeneratedBlockProof {
                b_height,
                intern: (out->Ok_0).0,
                public_values: (out->Ok_0).1,
            }),
        ),
        out is Err ==> r == Err::<GeneratedBlockProof<P, V>, ProofGenError>(
            ProofGenError::EngineFailure(out->Err_0),
        ),
{
    match out {
        Ok((intern, public_values)) => Ok(GeneratedBlockProof { b_height, intern, public_values }),
        Err(msg) => Err(ProofGenError::EngineFailure(msg)),
    }
}

/// Generates a proof of one transaction from its generation inputs.
pub fn generate_txn_proof<P, V, G, E: ProverEngine<P, V, G>>(
    p_state: &E,
    start_info: TxnProofGenIR<G>,
) -> (r: ProofGenResult<GeneratedTxnProof<P, V>>)
    ensures
        r matches Ok(p) ==> p.txn_idx == start_info.txn_idx && p.common.b_height
            == start_info.b_height && p.common.deltas == start_info.deltas,
        r matches Err(e) ==> e is EngineFailure,
{
    let b_height = start_info.b_height;
    let txn_idx = start_info.txn_idx;
    let deltas = start_info.deltas;
    let out = p_state.prove_root(start_info.gen_inputs);
    txn_proof_from_engine(b_height, txn_idx, deltas, out)
}

/// Generates an aggregate proof from two child proofs, each a transaction or
/// an aggregate proof, where the left one covers the transactions directly
/// before those of the right one.
pub fn generate_agg_proof<P, V, G, E: ProverEngine<P, V, G>>(
    p_state: &E,
    lhs_child: &AggregatableProof<P, V>,
    rhs_child: &AggregatableProof<P, V>,
) -> (r: ProofGenResult<GeneratedAggProof<P, V>>)
    requires
        lhs_child.wf(),
        rhs_child.wf(),
    ensures
        !adjacent(lhs_child.range_spec(), rhs_child.range_spec()) ==> r == Err::<
            GeneratedAggProof<P, V>,
            ProofGenError,
        >(
            ProofGenError::RangeDiscontinuity {
                lhs: lhs_child.range_spec(),
                rhs: rhs_child.range_spec(),
            },
        ),
        adjacent(lhs_child.range_spec(), rhs_child.range_spec()) ==> (r is Ok || r->Err_0
            is EngineFailure),
        r matches Ok(agg) ==> adjacent(lhs_child.range_spec(), rhs_child.range_spec())
            && agg.underlying_txns == combined(lhs_child.range_spec(), rhs_child.range_spec())
            && agg.common.deltas == merged(
            lhs_child.common_spec().deltas,
            rhs_child.common_spec().deltas,
        ) && agg.common.b_height == lhs_child.common_spec().b_height && agg.wf(),
{
    let range = match lhs_child.underlying_txns().combine(&rhs_child.underlying_txns()) {
        Ok(range) => range,
        Err(e) => {
            return Err(e);
        },
    };
    let deltas = lhs_child.common().deltas.merge(&rhs_child.common().deltas);
    let out = p_state.prove_aggregation(
        lhs_child.is_agg(),
        lhs_child.intern(),
        lhs_child.public_values(),
        rhs_child.is_agg(),
        rhs_child.intern(),
        rhs_child.public_values(),
    );
    agg_proof_from_engine(lhs_child.b_height(), range, deltas, out)
}

/// Generates the proof of a block from the aggregate proof of all its
/// transactions. `prev_opt_parent_b_proof` is `None` only at a checkpoint
/// height, where proving resumes without the parent's proof.
pub fn generate_block_proof<P, V, G, E: ProverEngine<P, V, G>>(
    p_state: &E,
    prev_opt_parent_b_proof: Option<&GeneratedBlockProof<P, V>>,
    curr_block_agg_proof: &GeneratedAggProof<P, V>,
) -> (r: ProofGenResult<GeneratedBlockProof<P, V>>)
    ensures
        r matches Ok(b) ==> b.b_height == curr_block_agg_proof.common.b_height,
        r matches Err(e) ==> e is EngineFailure,
{
    let b_height = curr_block_agg_proof.common.b_height;
    let parent_intern = match prev_opt_parent_b_proof {
        Some(p) => Some(&p.intern),
        None => None,
    };
    let out = p_state.prove_block(
        parent_intern,
        &curr_block_agg_proof.intern,
        &curr_block_agg_proof.public_values,
    );
    block_proof_from_engine(b_height, out)
}

/// Aggregation is associative in the range it covers: for children covering
/// `a`, `b` and `c`, folding `(a, b)` and then `c` passes the range check
/// exactly when folding `a` with `(b, c)` does, and both then cover the same
/// transactions.
pub proof fn lemma_aggregation_range_associative(a: TxnRange, b: TxnRange, c: TxnRange)
    ensures
        (adjacent(a, b) && adjacent(combined(a, b), c)) <==> (adjacent(b, c) && adjacent(
            a,
            combined(b, c),
        )),
        adjacent(a, b) && adjacent(b, c) ==> combined(combined(a, b), c) == combined(
            a,
            combined(b, c),
        ),
{
}

} // verus!
