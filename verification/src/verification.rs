//! The composite verifier: replays every statement's challenge
//! contribution into one transcript, re-derives the single Fiat-Shamir
//! challenge, verifies every statement proof while enforcing the
//! witness-equality classes through a shared response map, and finalizes
//! the optional randomized pairing checker.

use vstd::prelude::*;

use crate::algebra::{scalar_views, FieldRng, Scalar};
use crate::bytes::{bytes_eq, spec_framed};
use crate::error::ProofSystemError;
use crate::meta::{
    any_has, ew_subset, pairwise_disjoint, spec_class_of, class_index_of, EqualWitnesses,
};
use crate::pairing_check::{
    model_add_target, model_passes, CheckerModel, RandomizedPairingChecker,
    lemma_add_target_model,
};
use crate::proof_spec::{spec_valid, ProofSpec};
use crate::schnorr::{
    schnorr_contribution_bytes, schnorr_responses_valid, verify_schnorr_responses,
    compute_schnorr_challenge_contribution, SchnorrError,
};
use crate::statement::{
    spec_resolved_ped_key, spec_resolved_vbmem, spec_resolved_vbnonmem, Statement,
};
use crate::statement_proof::{Proof, StatementProof};
use crate::transcript::{challenge_of, spec_appended, Transcript};
use crate::vbaccum::{
    common_contribution_bytes, nonmem_contribution_bytes, spec_verify_common,
    spec_verify_common_scalar_side, spec_verify_nonmem, spec_verify_nonmem_scalar_side,
    verify_pairing_g1, verify_pairing_g2,
};
use vstd::string::{StrSliceExecFns, StringSliceAdditionalSpecFns};

verus! {

/// Options handed to the verifier.
#[derive(Debug, PartialEq)]
pub struct VerifierConfig {
    /// When set, a randomized pairing checker batches the pairing
    /// equations; `true` defers all Miller loops to the end.
    pub use_lazy_randomized_pairing_checks: Option<bool>,
}

impl Default for VerifierConfig {
    /// No pairing checker: every pairing equation is decided in place.
    fn default() -> (r: Self)
        ensures
            r.use_lazy_randomized_pairing_checks is None,
    {
        VerifierConfig { use_lazy_randomized_pairing_checks: None }
    }
}

/// Whether this driver can run the statement.
pub open spec fn stmt_supported(s: Statement) -> bool {
    s is PedersenCommitment || s is VBAccumulatorMembership || s is VBAccumulatorNonMembership
}

/// Whether the statement proof is of the statement's kind.
pub open spec fn stmt_proof_compatible(s: Statement, p: StatementProof) -> bool {
    match s {
        Statement::PedersenCommitment(_) => p is PedersenCommitment
            || p is PedersenCommitmentPartial,
        Statement::VBAccumulatorMembership(_) => p is VBAccumulatorMembership,
        Statement::VBAccumulatorNonMembership(_) => p is VBAccumulatorNonMembership,
        _ => false,
    }
}

/// The challenge-contribution bytes of one statement and its proof,
/// assuming the two are compatible and the spec resolves.
pub open spec fn spec_stmt_contribution(
    pool: Seq<crate::statement::SetupParams>,
    s: Statement,
    p: StatementProof,
) -> Seq<u8> {
    match (s, p) {
        (Statement::PedersenCommitment(st), StatementProof::PedersenCommitment(pp)) =>
            schnorr_contribution_bytes(
            spec_resolved_ped_key(pool, st),
            st.commitment@,
            pp.t@,
        ),
        (Statement::PedersenCommitment(st), StatementProof::PedersenCommitmentPartial(pp)) =>
            schnorr_contribution_bytes(
            spec_resolved_ped_key(pool, st),
            st.commitment@,
            pp.t@,
        ),
        (Statement::VBAccumulatorMembership(st), StatementProof::VBAccumulatorMembership(pp)) => {
            let rs = spec_resolved_vbmem(pool, st);
            common_contribution_bytes(
                pp.randomized_witness.0,
                pp.schnorr_commit.0,
                st.accumulator_value@,
                rs.1,
                rs.0,
                rs.2.0,
            )
        },
        (
            Statement::VBAccumulatorNonMembership(st),
            StatementProof::VBAccumulatorNonMembership(pp),
        ) => {
            let rs = spec_resolved_vbnonmem(pool, st);
            nonmem_contribution_bytes(
                pp.randomized_witness,
                pp.schnorr_commit,
                st.accumulator_value@,
                rs.1,
                rs.0,
                rs.2,
            )
        },
        _ => Seq::empty(),
    }
}

/// How one statement's contribution extends the transcript: Pedersen
/// statements write raw bytes; accumulator statements write under their
/// protocol label.
pub open spec fn spec_stmt_append(
    pool: Seq<crate::statement::SetupParams>,
    state: Seq<u8>,
    s: Statement,
    p: StatementProof,
) -> Seq<u8> {
    match s {
        Statement::PedersenCommitment(_) => state + spec_stmt_contribution(pool, s, p),
        Statement::VBAccumulatorMembership(_) => spec_appended(
            state,
            "VB_ACCUM_MEM".spec_bytes(),
            spec_stmt_contribution(pool, s, p),
        ),
        Statement::VBAccumulatorNonMembership(_) => spec_appended(
            state,
            "VB_ACCUM_NON_MEM".spec_bytes(),
            spec_stmt_contribution(pool, s, p),
        ),
        _ => state,
    }
}

/// The transcript after the contributions of the statements from `i` on,
/// or the first driver error among them.
pub open spec fn spec_contrib_phase(
    pool: Seq<crate::statement::SetupParams>,
    stmts: Seq<Statement>,
    proofs: Seq<StatementProof>,
    i: int,
    state: Seq<u8>,
) -> Result<Seq<u8>, ProofSystemError>
    decreases stmts.len() - i,
{
    if i < 0 || i >= stmts.len() {
        Ok(state)
    } else if !stmt_supported(stmts[i]) {
        Err(ProofSystemError::InvalidStatement)
    } else if !stmt_proof_compatible(stmts[i], proofs[i]) {
        Err(ProofSystemError::ProofIncompatibleWithStatement(i as usize))
    } else {
        spec_contrib_phase(
            pool,
            stmts,
            proofs,
            i + 1,
            spec_stmt_append(pool, state, stmts[i], proofs[i]),
        )
    }
}

/// The transcript before any statement: the domain separator, then the
/// optional nonce and context under their labels.
pub open spec fn spec_initial_transcript(nonce: Option<Seq<u8>>, context: Option<Seq<u8>>) -> Seq<
    u8,
> {
    let t0 = spec_framed("COMPOSITE_PROOF".spec_bytes());
    let t1 = match nonce {
        Some(n) => spec_appended(t0, "NONCE".spec_bytes(), n),
        None => t0,
    };
    match context {
        Some(c) => spec_appended(t1, "CONTEXT".spec_bytes(), c),
        None => t1,
    }
}

/// The responses assigned so far to the equality classes, read off the
/// verifier's slot vector.
pub open spec fn slots_map(s: Seq<Option<Scalar>>) -> Map<int, Seq<u8>> {
    Map::new(
        |c: int| 0 <= c < s.len() && s[c] is Some,
        |c: int| s[c]->Some_0@,
    )
}

/// One anchor-capable response meets its class: an unassigned class
/// adopts it; an assigned class must agree, else the witness responses
/// are unequal.
pub open spec fn spec_anchor_update(
    classes: Seq<EqualWitnesses>,
    s_idx: usize,
    w_idx: usize,
    resp: Seq<u8>,
    m: Map<int, Seq<u8>>,
) -> Result<Map<int, Seq<u8>>, ProofSystemError> {
    match spec_class_of(classes, (s_idx, w_idx)) {
        Some(c) => if m.dom().contains(c) {
            if m[c] == resp {
                Ok(m)
            } else {
                Err(ProofSystemError::WitnessResponseNotEqual(s_idx, w_idx))
            }
        } else {
            Ok(m.insert(c, resp))
        },
        None => Ok(m),
    }
}

/// All responses of a full Schnorr proof meet their classes, from witness
/// `w` on.
pub open spec fn spec_update_full(
    classes: Seq<EqualWitnesses>,
    s_idx: usize,
    resp: Seq<Seq<u8>>,
    w: int,
    m: Map<int, Seq<u8>>,
) -> Result<Map<int, Seq<u8>>, ProofSystemError>
    decreases resp.len() - w,
{
    if w < 0 || w >= resp.len() {
        Ok(m)
    } else {
        match spec_anchor_update(classes, s_idx, w as usize, resp[w], m) {
            Ok(m2) => spec_update_full(classes, s_idx, resp, w + 1, m2),
            Err(e) => Err(e),
        }
    }
}

/// The views of an optional-response vector.
pub open spec fn opt_scalar_views(s: Seq<Option<Scalar>>) -> Seq<Option<Seq<u8>>> {
    s.map_values(
        |o: Option<Scalar>|
            match o {
                Some(x) => Some(x@),
                None => None,
            },
    )
}

/// Whether any response was omitted.
pub open spec fn spec_has_omission(resp: Seq<Option<Seq<u8>>>) -> bool {
    exists|i: int| 0 <= i < resp.len() && resp[i] is None
}

/// Fills a partial response vector: present responses meet their classes
/// as anchors; omitted ones are read from their class, which must already
/// be assigned.
pub open spec fn spec_fill_partial(
    classes: Seq<EqualWitnesses>,
    s_idx: usize,
    resp: Seq<Option<Seq<u8>>>,
    w: int,
    m: Map<int, Seq<u8>>,
    acc: Seq<Seq<u8>>,
) -> Result<(Map<int, Seq<u8>>, Seq<Seq<u8>>), ProofSystemError>
    decreases resp.len() - w,
{
    if w < 0 || w >= resp.len() {
        Ok((m, acc))
    } else {
        match resp[w] {
            Some(rv) => match spec_anchor_update(classes, s_idx, w as usize, rv, m) {
                Ok(m2) => spec_fill_partial(classes, s_idx, resp, w + 1, m2, acc.push(rv)),
                Err(e) => Err(e),
            },
            None => match spec_class_of(classes, (s_idx, w as usize)) {
                Some(c) => if m.dom().contains(c) {
                    spec_fill_partial(classes, s_idx, resp, w + 1, m, acc.push(m[c]))
                } else {
                    Err(ProofSystemError::NoResponseFoundForWitnessRef(s_idx, w as usize))
                },
                None => Err(ProofSystemError::NoResponseFoundForWitnessRef(s_idx, w as usize)),
            },
        }
    }
}

/// The outcome of verifying one statement proof: the updated class
/// responses and checker model, or the first error.
pub open spec fn spec_stmt_verify(
    pool: Seq<crate::statement::SetupParams>,
    classes: Seq<EqualWitnesses>,
    s: Statement,
    p: StatementProof,
    s_idx: usize,
    challenge: Seq<u8>,
    m: Map<int, Seq<u8>>,
    checker: Option<CheckerModel>,
) -> Result<(Map<int, Seq<u8>>, Option<CheckerModel>), ProofSystemError> {
    match (s, p) {
        (Statement::PedersenCommitment(st), StatementProof::PedersenCommitment(pp)) => {
            let key = spec_resolved_ped_key(pool, st);
            let rv = scalar_views(pp.response@);
            if rv.len() != key.len() {
                Err(
                    ProofSystemError::SchnorrProofContributionFailed(
                        s_idx,
                        SchnorrError::MissingResponse,
                    ),
                )
            } else {
                match spec_update_full(classes, s_idx, rv, 0, m) {
                    Ok(m2) => if schnorr_responses_valid(
                        key,
                        st.commitment@,
                        pp.t@,
                        challenge,
                        rv,
                    ) {
                        Ok((m2, checker))
                    } else {
                        Err(
                            ProofSystemError::SchnorrProofContributionFailed(
                                s_idx,
                                SchnorrError::InvalidResponse,
                            ),
                        )
                    },
                    Err(e) => Err(e),
                }
            }
        },
        (Statement::PedersenCommitment(st), StatementProof::PedersenCommitmentPartial(pp)) => {
            let key = spec_resolved_ped_key(pool, st);
            let rv = opt_scalar_views(pp.response@);
            if rv.len() != key.len() {
                Err(
                    ProofSystemError::SchnorrProofContributionFailed(
                        s_idx,
                        SchnorrError::MissingResponse,
                    ),
                )
            } else if !spec_has_omission(rv) {
                Err(ProofSystemError::ResponseForWitnessNotFoundForStatement(s_idx))
            } else {
                match spec_fill_partial(classes, s_idx, rv, 0, m, Seq::empty()) {
                    Ok(pair) => if schnorr_responses_valid(
                        key,
                        st.commitment@,
                        pp.t@,
                        challenge,
                        pair.1,
                    ) {
                        Ok((pair.0, checker))
                    } else {
                        Err(
                            ProofSystemError::SchnorrProofContributionFailed(
                                s_idx,
                                SchnorrError::InvalidResponse,
                            ),
                        )
                    },
                    Err(e) => Err(e),
                }
            }
        },
        (Statement::VBAccumulatorMembership(st), StatementProof::VBAccumulatorMembership(pp)) => {
            let rs = spec_resolved_vbmem(pool, st);
            match spec_anchor_update(classes, s_idx, 0, pp.schnorr_response.0.s_y@, m) {
                Ok(m2) => match checker {
                    None => match spec_verify_common(
                        pp.randomized_witness.0,
                        pp.schnorr_commit.0,
                        pp.schnorr_response.0,
                        None,
                        st.accumulator_value@,
                        challenge,
                        rs.1,
                        rs.0,
                        rs.2.0,
                    ) {
                        Ok(()) => Ok((m2, checker)),
                        Err(e) => Err(ProofSystemError::VBAccumProofContributionFailed(s_idx, e)),
                    },
                    Some(cm) => match spec_verify_common_scalar_side(
                        pp.randomized_witness.0,
                        pp.schnorr_commit.0,
                        pp.schnorr_response.0,
                        challenge,
                        rs.2.0,
                    ) {
                        Ok(()) => Ok(
                            (
                                m2,
                                Some(
                                    model_add_target(
                                        cm,
                                        verify_pairing_g1(
                                            pp.randomized_witness.0,
                                            pp.schnorr_response.0,
                                            st.accumulator_value@,
                                            challenge,
                                            rs.2.0,
                                            None,
                                        ),
                                        verify_pairing_g2(rs.1, rs.0, None),
                                        pp.schnorr_commit.0.R_E@,
                                        cm.lazy,
                                    ),
                                ),
                            ),
                        ),
                        Err(e) => Err(ProofSystemError::VBAccumProofContributionFailed(s_idx, e)),
                    },
                },
                Err(e) => Err(e),
            }
        },
        (
            Statement::VBAccumulatorNonMembership(st),
            StatementProof::VBAccumulatorNonMembership(pp),
        ) => {
            let rs = spec_resolved_vbnonmem(pool, st);
            match spec_anchor_update(classes, s_idx, 0, pp.schnorr_response.C.s_y@, m) {
                Ok(m2) => match checker {
                    None => match spec_verify_nonmem(
                        pp,
                        st.accumulator_value@,
                        challenge,
                        rs.1,
                        rs.0,
                        rs.2,
                    ) {
                        Ok(()) => Ok((m2, checker)),
                        Err(e) => Err(ProofSystemError::VBAccumProofContributionFailed(s_idx, e)),
                    },
                    Some(cm) => match spec_verify_nonmem_scalar_side(pp, challenge, rs.0, rs.2) {
                        Ok(()) => Ok(
                            (
                                m2,
                                Some(
                                    model_add_target(
                                        cm,
                                        verify_pairing_g1(
                                            pp.randomized_witness.C,
                                            pp.schnorr_response.C,
                                            st.accumulator_value@,
                                            challenge,
                                            rs.2.XYZ,
                                            Some(
                                                (
                                                    crate::algebra::g1_mul_of(
                                                        rs.2.K@,
                                                        crate::algebra::sc_neg_of(
                                                            pp.schnorr_response.s_v@,
                                                        ),
                                                    ),
                                                    crate::algebra::g1_mul_of(
                                                        pp.randomized_witness.E_d@,
                                                        challenge,
                                                    ),
                                                ),
                                            ),
                                        ),
                                        verify_pairing_g2(
                                            rs.1,
                                            rs.0,
                                            Some(
                                                (
                                                    crate::algebra::g1_mul_of(
                                                        rs.2.K@,
                                                        crate::algebra::sc_neg_of(
                                                            pp.schnorr_response.s_v@,
                                                        ),
                                                    ),
                                                    crate::algebra::g1_mul_of(
                                                        pp.randomized_witness.E_d@,
                                                        challenge,
                                                    ),
                                                ),
                                            ),
                                        ),
                                        pp.schnorr_commit.C.R_E@,
                                        cm.lazy,
                                    ),
                                ),
                            ),
                        ),
                        Err(e) => Err(ProofSystemError::VBAccumProofContributionFailed(s_idx, e)),
                    },
                },
                Err(e) => Err(e),
            }
        },
        _ => Err(ProofSystemError::InvalidStatement),
    }
}

/// The response-and-verification pass over the statements from `i` on.
pub open spec fn spec_response_phase(
    pool: Seq<crate::statement::SetupParams>,
    stmts: Seq<Statement>,
    proofs: Seq<StatementProof>,
    classes: Seq<EqualWitnesses>,
    challenge: Seq<u8>,
    i: int,
    m: Map<int, Seq<u8>>,
    checker: Option<CheckerModel>,
) -> Result<(Map<int, Seq<u8>>, Option<CheckerModel>), ProofSystemError>
    decreases stmts.len() - i,
{
    if i < 0 || i >= stmts.len() {
        Ok((m, checker))
    } else {
        match spec_stmt_verify(
            pool,
            classes,
            stmts[i],
            proofs[i],
            i as usize,
            challenge,
            m,
            checker,
        ) {
            Ok(pair) => spec_response_phase(
                pool,
                stmts,
                proofs,
                classes,
                challenge,
                i + 1,
                pair.0,
                pair.1,
            ),
            Err(e) => Err(e),
        }
    }
}

/// How many equality classes from `i` on still lack a response.
pub open spec fn spec_unsat_count(
    classes: Seq<EqualWitnesses>,
    m: Map<int, Seq<u8>>,
    i: int,
) -> int
    decreases classes.len() - i,
{
    if i < 0 || i >= classes.len() {
        0
    } else if m.dom().contains(i) {
        spec_unsat_count(classes, m, i + 1)
    } else {
        1 + spec_unsat_count(classes, m, i + 1)
    }
}

/// A fresh checker model around a random scalar.
pub open spec fn spec_fresh_model(rnd: Seq<u8>, lazy: bool) -> CheckerModel {
    CheckerModel {
        left: None,
        right: crate::algebra::gt_id_of(true),
        pending_a: Seq::empty(),
        pending_b: Seq::empty(),
        random: rnd,
        current: crate::algebra::sc_of_u64(1),
        lazy,
    }
}

/// Whether `classes` is the disjoint partition of the given equality
/// sets: pairwise disjoint, duplicate-free non-empty classes covering
/// exactly the referenced witnesses, with every non-empty input set
/// landing whole inside one class, and no class reaching beyond the
/// transitive closure of the input sets.
pub open spec fn spec_partition_of(
    classes: Seq<EqualWitnesses>,
    eqs: Seq<EqualWitnesses>,
) -> bool {
    &&& pairwise_disjoint(classes)
    &&& forall|x: (usize, usize)| any_has(classes, x) <==> any_has(eqs, x)
    &&& forall|c: int| 0 <= c < classes.len() ==> (#[trigger] classes[c]).refs@.len() > 0
    &&& forall|c: int| 0 <= c < classes.len() ==> (#[trigger] classes[c]).refs@.no_duplicates()
    &&& forall|k: int|
        0 <= k < eqs.len() && (#[trigger] eqs[k]).refs@.len() > 0 ==> exists|c: int|
            0 <= c < classes.len() && ew_subset(eqs[k], classes[c])
    &&& crate::meta::all_connected(classes, eqs)
}

/// The byte view of an optional byte vector.
pub open spec fn opt_bytes_view(o: Option<Vec<u8>>) -> Option<Seq<u8>> {
    match o {
        Some(v) => Some(v@),
        None => None,
    }
}

/// The model of the optional checker.
pub open spec fn model_opt(has_checker: bool, checker: RandomizedPairingChecker) -> Option<
    CheckerModel,
> {
    if has_checker {
        Some(checker.model())
    } else {
        None
    }
}

/// A contribution pass that went through leaves every statement
/// supported and compatible with its proof.
pub proof fn lemma_contrib_ok_shape(
    pool: Seq<crate::statement::SetupParams>,
    stmts: Seq<Statement>,
    proofs: Seq<StatementProof>,
    i: int,
    state: Seq<u8>,
)
    requires
        spec_contrib_phase(pool, stmts, proofs, i, state) is Ok,
        0 <= i,
    ensures
        forall|j: int|
            i <= j < stmts.len() ==> stmt_supported(#[trigger] stmts[j]) && stmt_proof_compatible(
                stmts[j],
                proofs[j],
            ),
    decreases stmts.len() - i,
{
    if i < stmts.len() {
        lemma_contrib_ok_shape(
            pool,
            stmts,
            proofs,
            i + 1,
            spec_stmt_append(pool, state, stmts[i], proofs[i]),
        );
    }
}

/// One anchor-capable response meets its class, over the verifier's slot
/// vector.
fn anchor_update(
    classes: &Vec<EqualWitnesses>,
    s_idx: usize,
    w_idx: usize,
    resp: &Scalar,
    slots: &mut Vec<Option<Scalar>>,
) -> (r: Result<(), ProofSystemError>)
    requires
        old(slots)@.len() == classes@.len(),
    ensures
        final(slots)@.len() == classes@.len(),
        (match spec_anchor_update(classes@, s_idx, w_idx, resp@, slots_map(old(slots)@)) {
            Ok(m2) => r is Ok && slots_map(final(slots)@) == m2,
            Err(e) => r == Result::<(), ProofSystemError>::Err(e) && final(slots)@ == old(
                slots,
            )@,
        }),
{
    let wref: (usize, usize) = (s_idx, w_idx);
    match class_index_of(classes, &wref) {
        Some(c) => {
            let assigned = match &slots[c] {
                Some(existing) => {
                    if bytes_eq(&existing.b, &resp.b) {
                        1
                    } else {
                        2
                    }
                },
                None => 0,
            };
            if assigned == 2 {
                proof {
                    assert(slots_map(slots@).dom().contains(c as int));
                }
                return Err(ProofSystemError::WitnessResponseNotEqual(s_idx, w_idx));
            }
            if assigned == 1 {
                proof {
                    assert(slots_map(slots@).dom().contains(c as int));
                    assert(slots_map(slots@)[c as int] == resp@);
                }
                return Ok(());
            }
            proof {
                assert(!slots_map(slots@).dom().contains(c as int));
            }
            slots.set(c, Some(resp.dup()));
            proof {
                assert(slots_map(slots@) =~= slots_map(old(slots)@).insert(c as int, resp@));
            }
            Ok(())
        },
        None => Ok(()),
    }
}

/// The outcome the verifier owes, given the computed partition and the
/// initial checker model.
pub open spec fn spec_verify_with_classes(
    spec: ProofSpec,
    proof: Proof,
    nonce: Option<Seq<u8>>,
    checker0: Option<CheckerModel>,
    classes: Seq<EqualWitnesses>,
) -> Result<(), ProofSystemError> {
    if !spec_valid(spec) {
        Err(ProofSystemError::InvalidProofSpec)
    } else if spec.statements@.len() > proof.statement_proofs@.len() {
        Err(
            ProofSystemError::UnsatisfiedStatements(
                spec.statements@.len() as usize,
                proof.statement_proofs@.len() as usize,
            ),
        )
    } else {
        let state0 = spec_initial_transcript(nonce, spec.spec_context_view());
        match spec_contrib_phase(
            spec.setup_params@,
            spec.statements@,
            proof.statement_proofs@,
            0,
            state0,
        ) {
            Err(e) => Err(e),
            Ok(state) => {
                let c = challenge_of(state, "COMPOSITE_PROOF_CHALLENGE".spec_bytes());
                match spec_response_phase(
                    spec.setup_params@,
                    spec.statements@,
                    proof.statement_proofs@,
                    classes,
                    c,
                    0,
                    Map::empty(),
                    checker0,
                ) {
                    Err(e) => Err(e),
                    Ok(pair) => {
                        let unsat = spec_unsat_count(classes, pair.0, 0);
                        if unsat > 0 {
                            Err(ProofSystemError::UnsatisfiedWitnessEqualities(unsat as usize))
                        } else {
                            match pair.1 {
                                None => Ok(()),
                                Some(cm) => if model_passes(cm) {
                                    Ok(())
                                } else {
                                    Err(ProofSystemError::RandomizedPairingCheckFailed)
                                },
                            }
                        }
                    },
                }
            },
        }
    }
}

impl Proof {
    /// Verifies the composite proof against the spec, the nonce and the
    /// configuration. With a pairing-checker configuration the
    /// accumulator pairing equations are batched behind one final check.
    pub fn verify(
        &self,
        rng: &mut FieldRng,
        proof_spec: &ProofSpec,
        nonce: &Option<Vec<u8>>,
        config: &VerifierConfig,
    ) -> (r: Result<(), ProofSystemError>)
        ensures
            config.use_lazy_randomized_pairing_checks is None ==> (exists|
                classes: Seq<EqualWitnesses>,
            |
                spec_partition_of(classes, proof_spec.meta_statements.eqs@) && r
                    == spec_verify_with_classes(
                    *proof_spec,
                    *self,
                    opt_bytes_view(*nonce),
                    None,
                    classes,
                )),
            config.use_lazy_randomized_pairing_checks matches Some(b) ==> (exists|
                classes: Seq<EqualWitnesses>,
                rnd: Seq<u8>,
            |
                spec_partition_of(classes, proof_spec.meta_statements.eqs@) && r
                    == spec_verify_with_classes(
                    *proof_spec,
                    *self,
                    opt_bytes_view(*nonce),
                    Some(spec_fresh_model(rnd, b)),
                    classes,
                )),
    {
        let classes_vec = proof_spec.meta_statements.disjoint_witness_equalities();
        let ghost gcl = classes_vec@;
        proof {
            assert(spec_partition_of(gcl, proof_spec.meta_statements.eqs@));
        }
        match config.use_lazy_randomized_pairing_checks {
            Some(b) => {
                let checker = RandomizedPairingChecker::new_using_rng(rng, b);
                let ghost rnd = checker.random@;
                proof {
                    assert(checker.model() =~= spec_fresh_model(rnd, b));
                }
                let r = self.run_verify(proof_spec, nonce, true, checker, classes_vec);
                r
            },
            None => {
                let checker = RandomizedPairingChecker::new(
                    crate::algebra::scalar_from_u64(0),
                    false,
                );
                let r = self.run_verify(proof_spec, nonce, false, checker, classes_vec);
                r
            },
        }
    }

    /// The verification pass itself, over an already-computed partition
    /// and an already-created checker.
    #[verifier::rlimit(60)]
    #[verifier::loop_isolation(false)]
    fn run_verify(
        &self,
        proof_spec: &ProofSpec,
        nonce: &Option<Vec<u8>>,
        has_checker: bool,
        checker: RandomizedPairingChecker,
        classes_vec: Vec<EqualWitnesses>,
    ) -> (r: Result<(), ProofSystemError>)
        requires
            checker.wf(),
        ensures
            r == spec_verify_with_classes(
                *proof_spec,
                *self,
                opt_bytes_view(*nonce),
                model_opt(has_checker, checker),
                classes_vec@,
            ),
    {
        let ghost gcl = classes_vec@;
        let ghost model0 = model_opt(has_checker, checker);
        let mut ck = checker;

        match proof_spec.validate() {
            Ok(()) => {},
            Err(_) => {
                return Err(ProofSystemError::InvalidProofSpec);
            },
        }
        if proof_spec.statements.len() > self.statement_proofs.len() {
            return Err(
                ProofSystemError::UnsatisfiedStatements(
                    proof_spec.statements.len(),
                    self.statement_proofs.len(),
                ),
            );
        }

        let mut transcript = Transcript::new(&"COMPOSITE_PROOF".as_bytes_vec());
        match nonce {
            Some(n) => transcript.append_message(&"NONCE".as_bytes_vec(), n),
            None => {},
        }
        match &proof_spec.context {
            Some(c) => transcript.append_message(&"CONTEXT".as_bytes_vec(), c),
            None => {},
        }
        let ghost state0 = transcript@;
        proof {
            assert(state0 == spec_initial_transcript(
                opt_bytes_view(*nonce),
                proof_spec.spec_context_view(),
            ));
        }

        let ghost pool = proof_spec.setup_params@;
        let ghost stmts = proof_spec.statements@;
        let ghost proofs = self.statement_proofs@;

        let mut i: usize = 0;
        while i < proof_spec.statements.len()
            invariant
                i <= stmts.len(),
                stmts.len() <= proofs.len(),
                stmts == proof_spec.statements@,
                proofs == self.statement_proofs@,
                pool == proof_spec.setup_params@,
                spec_valid(*proof_spec),
                spec_contrib_phase(pool, stmts, proofs, 0, state0) == spec_contrib_phase(
                    pool,
                    stmts,
                    proofs,
                    i as int,
                    transcript@,
                ),
            decreases stmts.len() - i,
        {
            let stmt = &proof_spec.statements[i];
            let p = &self.statement_proofs[i];
            match stmt {
                Statement::PedersenCommitment(st) => {
                    let key = match st.get_commitment_key(&proof_spec.setup_params) {
                        Ok(k) => k,
                        Err(_) => {
                            proof {
                                assert(false);
                            }
                            return Err(ProofSystemError::InvalidProofSpec);
                        },
                    };
                    match p {
                        StatementProof::PedersenCommitment(pp) => {
                            let mut contribution: Vec<u8> = Vec::new();
                            compute_schnorr_challenge_contribution(
                                key,
                                &st.commitment,
                                &pp.t,
                                &mut contribution,
                            );
                            transcript.append_raw(&contribution);
                        },
                        StatementProof::PedersenCommitmentPartial(pp) => {
                            let mut contribution: Vec<u8> = Vec::new();
                            compute_schnorr_challenge_contribution(
                                key,
                                &st.commitment,
                                &pp.t,
                                &mut contribution,
                            );
                            transcript.append_raw(&contribution);
                        },
                        _ => {
                            return Err(ProofSystemError::ProofIncompatibleWithStatement(i));
                        },
                    }
                },
                Statement::VBAccumulatorMembership(st) => {
                    let params = match st.get_params(&proof_spec.setup_params) {
                        Ok(x) => x,
                        Err(_) => {
                            proof {
                                assert(false);
                            }
                            return Err(ProofSystemError::InvalidProofSpec);
                        },
                    };
                    let pk = match st.get_public_key(&proof_spec.setup_params) {
                        Ok(x) => x,
                        Err(_) => {
                            proof {
                                assert(false);
                            }
                            return Err(ProofSystemError::InvalidProofSpec);
                        },
                    };
                    let prk = match st.get_proving_key(&proof_spec.setup_params) {
                        Ok(x) => x,
                        Err(_) => {
                            proof {
                                assert(false);
                            }
                            return Err(ProofSystemError::InvalidProofSpec);
                        },
                    };
                    match p {
                        StatementProof::VBAccumulatorMembership(pp) => {
                            let mut contribution: Vec<u8> = Vec::new();
                            pp.challenge_contribution(
                                &st.accumulator_value,
                                pk,
                                params,
                                prk,
                                &mut contribution,
                            );
                            transcript.append_message(
                                &"VB_ACCUM_MEM".as_bytes_vec(),
                                &contribution,
                            );
                        },
                        _ => {
                            return Err(ProofSystemError::ProofIncompatibleWithStatement(i));
                        },
                    }
                },
                Statement::VBAccumulatorNonMembership(st) => {
                    let params = match st.get_params(&proof_spec.setup_params) {
                        Ok(x) => x,
                        Err(_) => {
                            proof {
                                assert(false);
                            }
                            return Err(ProofSystemError::InvalidProofSpec);
                        },
                    };
                    let pk = match st.get_public_key(&proof_spec.setup_params) {
                        Ok(x) => x,
                        Err(_) => {
                            proof {
                                assert(false);
                            }
                            return Err(ProofSystemError::InvalidProofSpec);
                        },
                    };
                    let prk = match st.get_proving_key(&proof_spec.setup_params) {
                        Ok(x) => x,
                        Err(_) => {
                            proof {
                                assert(false);
                            }
                            return Err(ProofSystemError::InvalidProofSpec);
                        },
                    };
                    match p {
                        StatementProof::VBAccumulatorNonMembership(pp) => {
                            let mut contribution: Vec<u8> = Vec::new();
                            pp.challenge_contribution(
                                &st.accumulator_value,
                                pk,
                                params,
                                prk,
                                &mut contribution,
                            );
                            transcript.append_message(
                                &"VB_ACCUM_NON_MEM".as_bytes_vec(),
                                &contribution,
                            );
                        },
                        _ => {
                            return Err(ProofSystemError::ProofIncompatibleWithStatement(i));
                        },
                    }
                },
                Statement::BoundCheckLegoGroth16Prover(_) => {
                    return Err(ProofSystemError::InvalidStatement);
                },
                Statement::BoundCheckLegoGroth16Verifier(_) => {
                    return Err(ProofSystemError::InvalidStatement);
                },
            }
            i += 1;
        }

        let challenge = transcript.challenge_scalar(&"COMPOSITE_PROOF_CHALLENGE".as_bytes_vec());
        let ghost chal = challenge@;
        proof {
            lemma_contrib_ok_shape(pool, stmts, proofs, 0, state0);
        }

        let mut slots: Vec<Option<Scalar>> = Vec::new();
        let mut c0: usize = 0;
        while c0 < classes_vec.len()
            invariant
                c0 <= classes_vec@.len(),
                slots@.len() == c0,
                forall|j: int| 0 <= j < c0 ==> slots@[j] is None,
            decreases classes_vec@.len() - c0,
        {
            slots.push(None);
            c0 += 1;
        }
        proof {
            assert(slots_map(slots@) =~= Map::<int, Seq<u8>>::empty());
        }

        let mut j: usize = 0;
        while j < proof_spec.statements.len()
            invariant
                j <= stmts.len(),
                stmts.len() <= proofs.len(),
                stmts == proof_spec.statements@,
                proofs == self.statement_proofs@,
                pool == proof_spec.setup_params@,
                gcl == classes_vec@,
                spec_valid(*proof_spec),
                slots@.len() == classes_vec@.len(),
                ck.wf(),
                forall|k: int|
                    0 <= k < stmts.len() ==> stmt_supported(#[trigger] stmts[k])
                        && stmt_proof_compatible(stmts[k], proofs[k]),
                spec_response_phase(pool, stmts, proofs, gcl, chal, 0, Map::empty(), model0)
                    == spec_response_phase(
                    pool,
                    stmts,
                    proofs,
                    gcl,
                    chal,
                    j as int,
                    slots_map(slots@),
                    model_opt(has_checker, ck),
                ),
            decreases stmts.len() - j,
        {
            let ghost m_before = slots_map(slots@);
            let ghost ck_before = ck;
            let stmt = &proof_spec.statements[j];
            let p = &self.statement_proofs[j];
            match stmt {
                Statement::PedersenCommitment(st) => {
                    let key = match st.get_commitment_key(&proof_spec.setup_params) {
                        Ok(k) => k,
                        Err(_) => {
                            proof {
                                assert(false);
                            }
                            return Err(ProofSystemError::InvalidProofSpec);
                        },
                    };
                    match p {
                        StatementProof::PedersenCommitment(pp) => {
                            if pp.response.len() != key.len() {
                                return Err(
                                    ProofSystemError::SchnorrProofContributionFailed(
                                        j,
                                        SchnorrError::MissingResponse,
                                    ),
                                );
                            }
                            let ghost rv = scalar_views(pp.response@);
                            let mut w: usize = 0;
                            while w < pp.response.len()
                                invariant
                                    w <= pp.response@.len(),
                                    rv == scalar_views(pp.response@),
                                    gcl == classes_vec@,
                                    slots@.len() == classes_vec@.len(),
                                    j < stmts.len(),
                                    spec_update_full(gcl, j as usize, rv, 0, m_before)
                                        == spec_update_full(
                                        gcl,
                                        j as usize,
                                        rv,
                                        w as int,
                                        slots_map(slots@),
                                    ),
                                decreases pp.response@.len() - w,
                            {
                                match anchor_update(&classes_vec, j, w, &pp.response[w], &mut slots)
                                {
                                    Ok(()) => {},
                                    Err(e) => {
                                        return Err(e);
                                    },
                                }
                                w += 1;
                            }
                            match verify_schnorr_responses(
                                key,
                                &st.commitment,
                                &pp.t,
                                &challenge,
                                &pp.response,
                            ) {
                                Ok(()) => {},
                                Err(e) => {
                                    return Err(
                                        ProofSystemError::SchnorrProofContributionFailed(j, e),
                                    );
                                },
                            }
                        },
                        StatementProof::PedersenCommitmentPartial(pp) => {
                            if pp.response.len() != key.len() {
                                return Err(
                                    ProofSystemError::SchnorrProofContributionFailed(
                                        j,
                                        SchnorrError::MissingResponse,
                                    ),
                                );
                            }
                            let ghost rv = opt_scalar_views(pp.response@);
                            let mut any_none = false;
                            let mut w0: usize = 0;
                            while w0 < pp.response.len()
                                invariant
                                    w0 <= pp.response@.len(),
                                    any_none == exists|k: int|
                                        0 <= k < w0 && (#[trigger] rv[k]) is None,
                                decreases pp.response@.len() - w0,
                            {
                                match &pp.response[w0] {
                                    None => {
                                        any_none = true;
                                        proof {
                                            assert(rv[w0 as int] is None);
                                        }
                                    },
                                    Some(_) => {
                                        proof {
                                            assert(!(rv[w0 as int] is None));
                                        }
                                    },
                                }
                                w0 += 1;
                            }
                            if !any_none {
                                proof {
                                    assert(!spec_has_omission(rv));
                                }
                                return Err(
                                    ProofSystemError::ResponseForWitnessNotFoundForStatement(j),
                                );
                            }
                            proof {
                                assert(spec_has_omission(rv));
                            }
                            let mut full: Vec<Scalar> = Vec::new();
                            proof {
                                assert(scalar_views(full@) =~= Seq::<Seq<u8>>::empty());
                            }
                            let mut w: usize = 0;
                            while w < pp.response.len()
                                invariant
                                    w <= pp.response@.len(),
                                    rv == opt_scalar_views(pp.response@),
                                    full@.len() == w,
                                    gcl == classes_vec@,
                                    slots@.len() == classes_vec@.len(),
                                    j < stmts.len(),
                                    spec_fill_partial(
                                        gcl,
                                        j as usize,
                                        rv,
                                        0,
                                        m_before,
                                        Seq::empty(),
                                    ) == spec_fill_partial(
                                        gcl,
                                        j as usize,
                                        rv,
                                        w as int,
                                        slots_map(slots@),
                                        scalar_views(full@),
                                    ),
                                decreases pp.response@.len() - w,
                            {
                                let ghost m_cur = slots_map(slots@);
                                let ghost acc_cur = scalar_views(full@);
                                match &pp.response[w] {
                                    Some(rsp) => {
                                        let rsp2 = rsp.dup();
                                        match anchor_update(&classes_vec, j, w, &rsp2, &mut slots) {
                                            Ok(()) => {},
                                            Err(e) => {
                                                return Err(e);
                                            },
                                        }
                                        full.push(rsp2);
                                        proof {
                                            assert(rv[w as int] == Some(rsp2@));
                                            assert(scalar_views(full@) =~= acc_cur.push(rsp2@));
                                        }
                                    },
                                    None => {
                                        let wref: (usize, usize) = (j, w);
                                        match class_index_of(&classes_vec, &wref) {
                                            Some(c) => {
                                                let filled = match &slots[c] {
                                                    Some(stored) => Some(stored.dup()),
                                                    None => None,
                                                };
                                                match filled {
                                                    Some(stored) => {
                                                        proof {
                                                            assert(m_cur.dom().contains(
                                                                c as int,
                                                            ));
                                                            assert(stored@ == m_cur[c as int]);
                                                        }
                                                        full.push(stored);
                                                        proof {
                                                            assert(scalar_views(full@)
                                                                =~= acc_cur.push(
                                                                m_cur[c as int],
                                                            ));
                                                        }
                                                    },
                                                    None => {
                                                        proof {
                                                            assert(!m_cur.dom().contains(
                                                                c as int,
                                                            ));
                                                        }
                                                        return Err(
                                                            ProofSystemError::NoResponseFoundForWitnessRef(
                                                                j,
                                                                w,
                                                            ),
                                                        );
                                                    },
                                                }
                                            },
                                            None => {
                                                return Err(
                                                    ProofSystemError::NoResponseFoundForWitnessRef(
                                                        j,
                                                        w,
                                                    ),
                                                );
                                            },
                                        }
                                    },
                                }
                                w += 1;
                            }
                            match verify_schnorr_responses(
                                key,
                                &st.commitment,
                                &pp.t,
                                &challenge,
                                &full,
                            ) {
                                Ok(()) => {},
                                Err(e) => {
                                    return Err(
                                        ProofSystemError::SchnorrProofContributionFailed(j, e),
                                    );
                                },
                            }
                        },
                        _ => {
                            proof {
                                assert(false);
                            }
                            return Err(ProofSystemError::InvalidStatement);
                        },
                    }
                },
                Statement::VBAccumulatorMembership(st) => {
                    let params = match st.get_params(&proof_spec.setup_params) {
                        Ok(x) => x,
                        Err(_) => {
                            proof {
                                assert(false);
                            }
                            return Err(ProofSystemError::InvalidProofSpec);
                        },
                    };
                    let pk = match st.get_public_key(&proof_spec.setup_params) {
                        Ok(x) => x,
                        Err(_) => {
                            proof {
                                assert(false);
                            }
                            return Err(ProofSystemError::InvalidProofSpec);
                        },
                    };
                    let prk = match st.get_proving_key(&proof_spec.setup_params) {
                        Ok(x) => x,
                        Err(_) => {
                            proof {
                                assert(false);
                            }
                            return Err(ProofSystemError::InvalidProofSpec);
                        },
                    };
                    match p {
                        StatementProof::VBAccumulatorMembership(pp) => {
                            let resp = pp.get_schnorr_response_for_element().dup();
                            match anchor_update(&classes_vec, j, 0, &resp, &mut slots) {
                                Ok(()) => {},
                                Err(e) => {
                                    return Err(e);
                                },
                            }
                            if has_checker {
                                match pp.verify_with_checker(
                                    &st.accumulator_value,
                                    &challenge,
                                    pk,
                                    params,
                                    prk,
                                    &mut ck,
                                ) {
                                    Ok(()) => {
                                        proof {
                                            lemma_add_target_model(
                                                ck_before,
                                                ck,
                                                verify_pairing_g1(
                                                    pp.randomized_witness.0,
                                                    pp.schnorr_response.0,
                                                    st.accumulator_value@,
                                                    chal,
                                                    prk.0,
                                                    None,
                                                ),
                                                verify_pairing_g2(*pk, *params, None),
                                                pp.schnorr_commit.0.R_E@,
                                                ck_before.lazy,
                                            );
                                        }
                                    },
                                    Err(e) => {
                                        return Err(
                                            ProofSystemError::VBAccumProofContributionFailed(j, e),
                                        );
                                    },
                                }
                            } else {
                                match pp.verify(&st.accumulator_value, &challenge, pk, params, prk)
                                {
                                    Ok(()) => {},
                                    Err(e) => {
                                        return Err(
                                            ProofSystemError::VBAccumProofContributionFailed(j, e),
                                        );
                                    },
                                }
                            }
                        },
                        _ => {
                            proof {
                                assert(false);
                            }
                            return Err(ProofSystemError::InvalidStatement);
                        },
                    }
                },
                Statement::VBAccumulatorNonMembership(st) => {
                    let params = match st.get_params(&proof_spec.setup_params) {
                        Ok(x) => x,
                        Err(_) => {
                            proof {
                                assert(false);
                            }
                            return Err(ProofSystemError::InvalidProofSpec);
                        },
                    };
                    let pk = match st.get_public_key(&proof_spec.setup_params) {
                        Ok(x) => x,
                        Err(_) => {
                            proof {
                                assert(false);
                            }
                            return Err(ProofSystemError::InvalidProofSpec);
                        },
                    };
                    let prk = match st.get_proving_key(&proof_spec.setup_params) {
                        Ok(x) => x,
                        Err(_) => {
                            proof {
                                assert(false);
                            }
                            return Err(ProofSystemError::InvalidProofSpec);
                        },
                    };
                    match p {
                        StatementProof::VBAccumulatorNonMembership(pp) => {
                            let resp = pp.get_schnorr_response_for_element().dup();
                            match anchor_update(&classes_vec, j, 0, &resp, &mut slots) {
                                Ok(()) => {},
                                Err(e) => {
                                    return Err(e);
                                },
                            }
                            if has_checker {
                                match pp.verify_with_checker(
                                    &st.accumulator_value,
                                    &challenge,
                                    pk,
                                    params,
                                    prk,
                                    &mut ck,
                                ) {
                                    Ok(()) => {
                                        proof {
                                            lemma_add_target_model(
                                                ck_before,
                                                ck,
                                                verify_pairing_g1(
                                                    pp.randomized_witness.C,
                                                    pp.schnorr_response.C,
                                                    st.accumulator_value@,
                                                    chal,
                                                    prk.XYZ,
                                                    Some(
                                                        (
                                                            crate::algebra::g1_mul_of(
                                                                prk.K@,
                                                                crate::algebra::sc_neg_of(
                                                                    pp.schnorr_response.s_v@,
                                                                ),
                                                            ),
                                                            crate::algebra::g1_mul_of(
                                                                pp.randomized_witness.E_d@,
                                                                chal,
                                                            ),
                                                        ),
                                                    ),
                                                ),
                                                verify_pairing_g2(
                                                    *pk,
                                                    *params,
                                                    Some(
                                                        (
                                                            crate::algebra::g1_mul_of(
                                                                prk.K@,
                                                                crate::algebra::sc_neg_of(
                                                                    pp.schnorr_response.s_v@,
                                                                ),
                                                            ),
                                                            crate::algebra::g1_mul_of(
                                                                pp.randomized_witness.E_d@,
                                                                chal,
                                                            ),
                                                        ),
                                                    ),
                                                ),
                                                pp.schnorr_commit.C.R_E@,
                                                ck_before.lazy,
                                            );
                                        }
                                    },
                                    Err(e) => {
                                        return Err(
                                            ProofSystemError::VBAccumProofContributionFailed(j, e),
                                        );
                                    },
                                }
                            } else {
                                match pp.verify(&st.accumulator_value, &challenge, pk, params, prk)
                                {
                                    Ok(()) => {},
                                    Err(e) => {
                                        return Err(
                                            ProofSystemError::VBAccumProofContributionFailed(j, e),
                                        );
                                    },
                                }
                            }
                        },
                        _ => {
                            proof {
                                assert(false);
                            }
                            return Err(ProofSystemError::InvalidStatement);
                        },
                    }
                },
                Statement::BoundCheckLegoGroth16Prover(_) => {
                    proof {
                        assert(false);
                    }
                    return Err(ProofSystemError::InvalidStatement);
                },
                Statement::BoundCheckLegoGroth16Verifier(_) => {
                    proof {
                        assert(false);
                    }
                    return Err(ProofSystemError::InvalidStatement);
                },
            }
            j += 1;
        }

        let ghost m_final = slots_map(slots@);
        let mut unsat: usize = 0;
        let mut c1: usize = 0;
        while c1 < classes_vec.len()
            invariant
                c1 <= classes_vec@.len(),
                slots@.len() == classes_vec@.len(),
                m_final == slots_map(slots@),
                unsat <= c1,
                spec_unsat_count(classes_vec@, m_final, 0) == unsat + spec_unsat_count(
                    classes_vec@,
                    m_final,
                    c1 as int,
                ),
            decreases classes_vec@.len() - c1,
        {
            let missing = match &slots[c1] {
                Some(_) => false,
                None => true,
            };
            proof {
                assert(m_final.dom().contains(c1 as int) == !missing);
            }
            if missing {
                unsat += 1;
            }
            c1 += 1;
        }
        proof {
            lemma_unsat_count_nonneg(classes_vec@, m_final, c1 as int);
        }
        if unsat > 0 {
            return Err(ProofSystemError::UnsatisfiedWitnessEqualities(unsat));
        }
        if has_checker {
            if ck.verify() {
                Ok(())
            } else {
                Err(ProofSystemError::RandomizedPairingCheckFailed)
            }
        } else {
            Ok(())
        }
    }
}

/// The count of unassigned classes is never negative.
pub proof fn lemma_unsat_count_nonneg(
    classes: Seq<EqualWitnesses>,
    m: Map<int, Seq<u8>>,
    i: int,
)
    ensures
        spec_unsat_count(classes, m, i) >= 0,
    decreases classes.len() - i,
{
    if 0 <= i < classes.len() {
        lemma_unsat_count_nonneg(classes, m, i + 1);
    }
}

} // verus!
