//! The composite prover: runs the commit phase of every sub-protocol
//! while feeding the single transcript, derives the one Fiat-Shamir
//! challenge, and runs the response phase, sharing one Schnorr blinding
//! per witness-equality class so that all responses of a class coincide.
//! A statement whose class was already answered by an earlier statement
//! emits a partial proof with that response omitted.
//!
//! The prover and the verifier build their transcripts through the same
//! contribution functions over the same announcement values, so the
//! challenge both sides derive is bit-identical for any emitted proof.

use vstd::prelude::*;

use crate::algebra::{random_scalar, FieldRng, Scalar};
use crate::error::ProofSystemError;
use crate::meta::{class_index_of, spec_class_of, EqualWitnesses};
use crate::proof_spec::{spec_valid, ProofSpec};
use crate::schnorr::SchnorrProtocol;
use crate::statement::{spec_resolved_ped_key, Statement};
use crate::statement_proof::{
    PedersenCommitmentPartialProof, PedersenCommitmentProof, Proof, StatementProof,
};
use crate::transcript::Transcript;
use crate::vbaccum::{MembershipProofProtocol, NonMembershipProofProtocol};
use crate::verification::stmt_supported;
use crate::witness::Witness;
use vstd::string::{StrSliceExecFns, StringSliceAdditionalSpecFns};

verus! {

/// Whether the witness fits its statement.
pub open spec fn spec_witness_compatible(
    pool: Seq<crate::statement::SetupParams>,
    s: Statement,
    w: Witness,
) -> bool {
    match (s, w) {
        (Statement::PedersenCommitment(st), Witness::PedersenCommitment(ws)) => ws@.len()
            == spec_resolved_ped_key(pool, st).len(),
        (
            Statement::VBAccumulatorMembership(_),
            Witness::VBAccumulatorMembership { element: _, witness: _ },
        ) => true,
        (
            Statement::VBAccumulatorNonMembership(_),
            Witness::VBAccumulatorNonMembership { element: _, witness: _ },
        ) => true,
        _ => false,
    }
}

/// Whether a prove call is owed success: a valid spec, one witness per
/// statement, every statement runnable and every witness of its
/// statement's shape.
pub open spec fn spec_prove_ok(spec: ProofSpec, wits: Seq<Witness>) -> bool {
    &&& spec_valid(spec)
    &&& wits.len() == spec.statements@.len()
    &&& forall|i: int|
        0 <= i < spec.statements@.len() ==> stmt_supported(#[trigger] spec.statements@[i])
            && spec_witness_compatible(spec.setup_params@, spec.statements@[i], wits[i])
}

/// One running sub-protocol of the commit phase.
pub enum ProtocolState {
    Ped(SchnorrProtocol),
    Mem(MembershipProofProtocol),
    NonMem(NonMembershipProofProtocol),
}

impl Proof {
    /// Proves the spec with the given witnesses: the two-pass protocol
    /// over one transcript, with blinding sharing across the
    /// witness-equality classes. Succeeds exactly on a valid spec with
    /// one well-shaped witness per statement.
    #[verifier::loop_isolation(false)]
    pub fn new(
        rng: &mut FieldRng,
        proof_spec: &ProofSpec,
        witnesses: Vec<Witness>,
        nonce: &Option<Vec<u8>>,
    ) -> (r: Result<Proof, ProofSystemError>)
        ensures
            r is Ok <==> spec_prove_ok(*proof_spec, witnesses@),
            r matches Ok(p) ==> p.statement_proofs@.len() == proof_spec.statements@.len(),
            !spec_valid(*proof_spec) ==> r == Result::<Proof, ProofSystemError>::Err(
                ProofSystemError::InvalidProofSpec,
            ),
    {
        match proof_spec.validate() {
            Ok(()) => {},
            Err(_) => {
                return Err(ProofSystemError::InvalidProofSpec);
            },
        }
        if witnesses.len() != proof_spec.statements.len() {
            return Err(
                ProofSystemError::UnsatisfiedWitnesses(
                    proof_spec.statements.len(),
                    witnesses.len(),
                ),
            );
        }
        let classes_vec = proof_spec.meta_statements.disjoint_witness_equalities();

        let mut blinding_slots: Vec<Option<Scalar>> = Vec::new();
        let mut c0: usize = 0;
        while c0 < classes_vec.len()
            invariant
                blinding_slots@.len() == c0,
                c0 <= classes_vec@.len(),
            decreases classes_vec@.len() - c0,
        {
            blinding_slots.push(None);
            c0 += 1;
        }

        let mut transcript = Transcript::new(&"COMPOSITE_PROOF".as_bytes_vec());
        match nonce {
            Some(n) => transcript.append_message(&"NONCE".as_bytes_vec(), n),
            None => {},
        }
        match &proof_spec.context {
            Some(c) => transcript.append_message(&"CONTEXT".as_bytes_vec(), c),
            None => {},
        }

        let ghost gw = witnesses@;
        let mut wits = witnesses;
        let mut states: Vec<ProtocolState> = Vec::new();
        let mut i: usize = 0;
        while i < proof_spec.statements.len()
            invariant
                i <= proof_spec.statements@.len(),
                wits@ =~= gw.skip(i as int),
                gw.len() == proof_spec.statements@.len(),
                spec_valid(*proof_spec),
                blinding_slots@.len() == classes_vec@.len(),
                states@.len() == i,
                forall|k: int|
                    0 <= k < i ==> stmt_supported(#[trigger] proof_spec.statements@[k])
                        && spec_witness_compatible(
                        proof_spec.setup_params@,
                        proof_spec.statements@[k],
                        gw[k],
                    ),
            decreases proof_spec.statements@.len() - i,
        {
            let wit = wits.remove(0);
            proof {
                assert(wit == gw[i as int]);
                assert(wits@ =~= gw.skip(i + 1));
            }
            let stmt = &proof_spec.statements[i];
            match stmt {
                Statement::PedersenCommitment(st) => {
                    let key = match st.get_commitment_key(&proof_spec.setup_params) {
                        Ok(k) => k,
                        Err(_) => {
                            proof {
                                assert(false);
                            }
                            return Err(ProofSystemError::InvalidProofSpec);
                        },
                    };
                    let ws = match wit {
                        Witness::PedersenCommitment(ws) => ws,
                        _ => {
                            return Err(ProofSystemError::WitnessIncompatibleWithStatement(i));
                        },
                    };
                    if ws.len() != key.len() {
                        return Err(ProofSystemError::WitnessIncompatibleWithStatement(i));
                    }
                    let mut blindings: Vec<Option<Scalar>> = Vec::new();
                    let mut w: usize = 0;
                    while w < ws.len()
                        invariant
                            w <= ws@.len(),
                            blindings@.len() == w,
                            blinding_slots@.len() == classes_vec@.len(),
                        decreases ws@.len() - w,
                    {
                        let wref: (usize, usize) = (i, w);
                        let next: Option<Scalar> = match class_index_of(&classes_vec, &wref) {
                            Some(c) => {
                                let existing = match &blinding_slots[c] {
                                    Some(b) => Some(b.dup()),
                                    None => None,
                                };
                                match existing {
                                    Some(b) => Some(b),
                                    None => {
                                        let b = random_scalar(rng);
                                        blinding_slots.set(c, Some(b.dup()));
                                        Some(b)
                                    },
                                }
                            },
                            None => None,
                        };
                        blindings.push(next);
                        w += 1;
                    }
                    let proto = SchnorrProtocol::init(rng, key, ws, blindings);
                    let mut contribution: Vec<u8> = Vec::new();
                    proto.challenge_contribution(key, &st.commitment, &mut contribution);
                    transcript.append_raw(&contribution);
                    states.push(ProtocolState::Ped(proto));
                },
                Statement::VBAccumulatorMembership(st) => {
                    let params = match st.get_params(&proof_spec.setup_params) {
                        Ok(x) => x,
                        Err(_) => {
                            proof {
                                assert(false);
                            }
                            return Err(ProofSystemError::InvalidProofSpec);
                        },
                    };
                    let pk = match st.get_public_key(&proof_spec.setup_params) {
                        Ok(x) => x,
                        Err(_) => {
                            proof {
                                assert(false);
                            }
                            return Err(ProofSystemError::InvalidProofSpec);
                        },
                    };
                    let prk = match st.get_proving_key(&proof_spec.setup_params) {
                        Ok(x) => x,
                        Err(_) => {
                            proof {
                                assert(false);
                            }
                            return Err(ProofSystemError::InvalidProofSpec);
                        },
                    };
                    let (element, mwit) = match wit {
                        Witness::VBAccumulatorMembership { element, witness } => (
                            element,
                            witness,
                        ),
                        _ => {
                            return Err(ProofSystemError::WitnessIncompatibleWithStatement(i));
                        },
                    };
                    let wref: (usize, usize) = (i, 0);
                    let eb: Option<Scalar> = match class_index_of(&classes_vec, &wref) {
                        Some(c) => {
                            let existing = match &blinding_slots[c] {
                                Some(b) => Some(b.dup()),
                                None => None,
                            };
                            match existing {
                                Some(b) => Some(b),
                                None => {
                                    let b = random_scalar(rng);
                                    blinding_slots.set(c, Some(b.dup()));
                                    Some(b)
                                },
                            }
                        },
                        None => None,
                    };
                    let proto = MembershipProofProtocol::init(
                        rng,
                        &element,
                        eb,
                        &mwit,
                        pk,
                        params,
                        prk,
                    );
                    let mut contribution: Vec<u8> = Vec::new();
                    proto.challenge_contribution(
                        &st.accumulator_value,
                        pk,
                        params,
                        prk,
                        &mut contribution,
                    );
                    transcript.append_message(&"VB_ACCUM_MEM".as_bytes_vec(), &contribution);
                    states.push(ProtocolState::Mem(proto));
                },
                Statement::VBAccumulatorNonMembership(st) => {
                    let params = match st.get_params(&proof_spec.setup_params) {
                        Ok(x) => x,
                        Err(_) => {
                            proof {
                                assert(false);
                            }
                            return Err(ProofSystemError::InvalidProofSpec);
                        },
                    };
                    let pk = match st.get_public_key(&proof_spec.setup_params) {
                        Ok(x) => x,
                        Err(_) => {
                            proof {
                                assert(false);
                            }
                            return Err(ProofSystemError::InvalidProofSpec);
                        },
                    };
                    let prk = match st.get_proving_key(&proof_spec.setup_params) {
                        Ok(x) => x,
                        Err(_) => {
                            proof {
                                assert(false);
                            }
                            return Err(ProofSystemError::InvalidProofSpec);
                        },
                    };
                    let (element, nwit) = match wit {
                        Witness::VBAccumulatorNonMembership { element, witness } => (
                            element,
                            witness,
                        ),
                        _ => {
                            return Err(ProofSystemError::WitnessIncompatibleWithStatement(i));
                        },
                    };
                    let wref: (usize, usize) = (i, 0);
                    let eb: Option<Scalar> = match class_index_of(&classes_vec, &wref) {
                        Some(c) => {
                            let existing = match &blinding_slots[c] {
                                Some(b) => Some(b.dup()),
                                None => None,
                            };
                            match existing {
                                Some(b) => Some(b),
                                None => {
                                    let b = random_scalar(rng);
                                    blinding_slots.set(c, Some(b.dup()));
                                    Some(b)
                                },
                            }
                        },
                        None => None,
                    };
                    let proto = NonMembershipProofProtocol::init(
                        rng,
                        &element,
                        eb,
                        &nwit,
                        pk,
                        params,
                        prk,
                    );
                    let mut contribution: Vec<u8> = Vec::new();
                    proto.challenge_contribution(
                        &st.accumulator_value,
                        pk,
                        params,
                        prk,
                        &mut contribution,
                    );
                    transcript.append_message(&"VB_ACCUM_NON_MEM".as_bytes_vec(), &contribution);
                    states.push(ProtocolState::NonMem(proto));
                },
                Statement::BoundCheckLegoGroth16Prover(_) => {
                    return Err(ProofSystemError::InvalidStatement);
                },
                Statement::BoundCheckLegoGroth16Verifier(_) => {
                    return Err(ProofSystemError::InvalidStatement);
                },
            }
            i += 1;
        }

        let challenge = transcript.challenge_scalar(&"COMPOSITE_PROOF_CHALLENGE".as_bytes_vec());

        let mut responded: Vec<bool> = Vec::new();
        let mut c1: usize = 0;
        while c1 < classes_vec.len()
            invariant
                responded@.len() == c1,
                c1 <= classes_vec@.len(),
            decreases classes_vec@.len() - c1,
        {
            responded.push(false);
            c1 += 1;
        }

        let n_stmts = proof_spec.statements.len();
        let mut statement_proofs: Vec<StatementProof> = Vec::new();
        let mut sts = states;
        let mut j: usize = 0;
        while sts.len() > 0
            invariant
                statement_proofs@.len() == j,
                j + sts@.len() == n_stmts,
                responded@.len() == classes_vec@.len(),
            decreases sts@.len(),
        {
            let state = sts.remove(0);
            match state {
                ProtocolState::Ped(proto) => {
                    let responses = proto.gen_responses(&challenge);
                    let mut any_omitted = false;
                    let mut keep: Vec<bool> = Vec::new();
                    let mut w: usize = 0;
                    while w < responses.len()
                        invariant
                            w <= responses@.len(),
                            keep@.len() == w,
                            responded@.len() == classes_vec@.len(),
                        decreases responses@.len() - w,
                    {
                        let wref: (usize, usize) = (j, w);
                        let keep_this = match class_index_of(&classes_vec, &wref) {
                            Some(c) => {
                                if responded[c] {
                                    false
                                } else {
                                    responded.set(c, true);
                                    true
                                }
                            },
                            None => true,
                        };
                        if !keep_this {
                            any_omitted = true;
                        }
                        keep.push(keep_this);
                        w += 1;
                    }
                    if any_omitted {
                        let mut partial: Vec<Option<Scalar>> = Vec::new();
                        let mut w2: usize = 0;
                        let mut rest = responses;
                        while rest.len() > 0
                            invariant
                                w2 + rest@.len() == keep@.len(),
                                partial@.len() == w2,
                            decreases rest@.len(),
                        {
                            let rsp = rest.remove(0);
                            if keep[w2] {
                                partial.push(Some(rsp));
                            } else {
                                partial.push(None);
                            }
                            w2 += 1;
                        }
                        statement_proofs.push(
                            StatementProof::PedersenCommitmentPartial(
                                PedersenCommitmentPartialProof { t: proto.t, response: partial },
                            ),
                        );
                    } else {
                        statement_proofs.push(
                            StatementProof::PedersenCommitment(
                                PedersenCommitmentProof { t: proto.t, response: responses },
                            ),
                        );
                    }
                },
                ProtocolState::Mem(proto) => {
                    let wref: (usize, usize) = (j, 0);
                    match class_index_of(&classes_vec, &wref) {
                        Some(c) => {
                            responded.set(c, true);
                        },
                        None => {},
                    }
                    let pr = proto.gen_proof(&challenge);
                    statement_proofs.push(StatementProof::VBAccumulatorMembership(pr));
                },
                ProtocolState::NonMem(proto) => {
                    let wref: (usize, usize) = (j, 0);
                    match class_index_of(&classes_vec, &wref) {
                        Some(c) => {
                            responded.set(c, true);
                        },
                        None => {},
                    }
                    let pr = proto.gen_proof(&challenge);
                    statement_proofs.push(StatementProof::VBAccumulatorNonMembership(pr));
                },
            }
            j += 1;
        }
        Ok(Proof { statement_proofs })
    }
}

} // verus!
