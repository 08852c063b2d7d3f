//! The single error type of the composite proof system.

use vstd::prelude::*;

use crate::schnorr::SchnorrError;
use crate::vbaccum::VBAccumulatorError;

verus! {

/// Why a composite prove or verify call failed.
#[derive(Debug, PartialEq, Eq)]
pub enum ProofSystemError {
    /// The proof spec fails validation: a parameter reference does not
    /// resolve, or a meta-statement is malformed.
    InvalidProofSpec,
    /// A statement kind this driver cannot run.
    InvalidStatement,
    /// Fewer statement proofs than statements: `(expected, got)`.
    UnsatisfiedStatements(usize, usize),
    /// The statement proof at the index is of another kind than its
    /// statement.
    ProofIncompatibleWithStatement(usize),
    /// The witness at the index does not fit its statement.
    WitnessIncompatibleWithStatement(usize),
    /// As many witnesses as statements are needed: `(expected, got)`.
    UnsatisfiedWitnesses(usize, usize),
    /// This many equality classes ended with no assigned response.
    UnsatisfiedWitnessEqualities(usize),
    /// Two responses in one equality class disagree: `(statement,
    /// witness)`.
    WitnessResponseNotEqual(usize, usize),
    /// A dependent statement found no anchored response for this witness
    /// reference: `(statement, witness)`.
    NoResponseFoundForWitnessRef(usize, usize),
    /// A partial proof omitted nothing, so nothing ties it to an anchor.
    ResponseForWitnessNotFoundForStatement(usize),
    /// The Schnorr sub-proof at the statement failed.
    SchnorrProofContributionFailed(usize, SchnorrError),
    /// The accumulator sub-proof at the statement failed.
    VBAccumProofContributionFailed(usize, VBAccumulatorError),
    /// The final batched pairing check failed.
    RandomizedPairingCheckFailed,
    /// A bound-check statement needs `min < max`.
    BoundCheckMaxNotGreaterThanMin,
    /// A bound-check bound exceeds half the field order.
    BoundCheckBoundExceedsField,
}

} // verus!
