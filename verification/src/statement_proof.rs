//! The statement proofs mirroring the statement variants, and the
//! composite proof object.

use vstd::prelude::*;

use crate::algebra::{G1Elem, Scalar};
use crate::error::ProofSystemError;
use crate::vbaccum::{MembershipProof, NonMembershipProof};

verus! {

/// A full Schnorr proof for a Pedersen statement: the announcement and
/// one response per witness.
#[derive(Debug, PartialEq)]
pub struct PedersenCommitmentProof {
    pub t: G1Elem,
    pub response: Vec<Scalar>,
}

/// A partial Schnorr proof: responses owed by witness-equality anchors
/// elsewhere are omitted.
#[derive(Debug, PartialEq)]
pub struct PedersenCommitmentPartialProof {
    pub t: G1Elem,
    pub response: Vec<Option<Scalar>>,
}

/// The proof for one statement, of the statement's kind.
#[derive(Debug, PartialEq)]
pub enum StatementProof {
    PedersenCommitment(PedersenCommitmentProof),
    PedersenCommitmentPartial(PedersenCommitmentPartialProof),
    VBAccumulatorMembership(MembershipProof),
    VBAccumulatorNonMembership(NonMembershipProof),
}

/// The composite proof: one statement proof per statement, in order.
#[derive(Debug, PartialEq)]
pub struct Proof {
    pub statement_proofs: Vec<StatementProof>,
}

impl Proof {
    /// The statement proof at the index.
    pub fn statement_proof(&self, index: usize) -> (r: Result<&StatementProof, ProofSystemError>)
        ensures
            r is Ok <==> index < self.statement_proofs@.len(),
            r matches Ok(p) ==> *p == self.statement_proofs@[index as int],
    {
        if index < self.statement_proofs.len() {
            Ok(&self.statement_proofs[index])
        } else {
            Err(ProofSystemError::InvalidStatement)
        }
    }
}

} // verus!
