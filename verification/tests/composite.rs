//! The composite driver end to end: an accumulator-membership statement
//! and a Pedersen commitment tied by a witness-equality class, proved
//! under one transcript and verified with and without the batched
//! pairing checker; determinism, tampering and binding checks.

use ark_bls12_381::{Fr, G1Affine, G1Projective, G2Projective};
use ark_ec::{CurveGroup, VariableBaseMSM};
use ark_ff::{Field, UniformRand};
use ark_serialize::CanonicalSerialize;
use rand::rngs::StdRng;
use rand::SeedableRng;

use composite_proof_system::algebra::{FieldRng, G1Elem, G2Elem, Scalar};
use composite_proof_system::error::ProofSystemError;
use composite_proof_system::meta::{EqualWitnesses, MetaStatements};
use composite_proof_system::proof_spec::ProofSpec;
use composite_proof_system::statement::{PedersenCommitmentStmt, Statement, VbAccumulatorMemStmt};
use composite_proof_system::statement_proof::{
    PedersenCommitmentProof, Proof, StatementProof,
};
use composite_proof_system::vbaccum::{
    MembershipProvingKey, MembershipWitness, ProvingKey, PublicKey, SetupParams,
};
use composite_proof_system::verification::VerifierConfig;
use composite_proof_system::witness::Witness;

fn sc(x: Fr) -> Scalar {
    let mut v = Vec::new();
    x.serialize_compressed(&mut v).unwrap();
    Scalar::from_bytes(v)
}

fn g1(p: G1Affine) -> G1Elem {
    let mut v = Vec::new();
    p.serialize_compressed(&mut v).unwrap();
    G1Elem::from_bytes(v)
}

struct World {
    accum_value: G1Affine,
    elem: Fr,
    witness_point: G1Affine,
    accum_params: (G1Affine, ark_bls12_381::G2Affine, Fr),
    ped_key: Vec<G1Affine>,
    ped_opening: Vec<Fr>,
    commitment: G1Affine,
    prk: (G1Affine, G1Affine, G1Affine, G1Affine),
}

fn build_world(seed: u64) -> World {
    let mut rng = StdRng::seed_from_u64(seed);
    let p = G1Projective::rand(&mut rng).into_affine();
    let p_tilde = G2Projective::rand(&mut rng).into_affine();
    let sk = Fr::rand(&mut rng);

    let elems: Vec<Fr> = (0..5).map(|_| Fr::rand(&mut rng)).collect();
    let mut accum_exp = Fr::from(1u64);
    for e in &elems {
        accum_exp *= *e + sk;
    }
    let accum_value = (p * accum_exp).into_affine();
    let elem = elems[2];
    let wit_exp = accum_exp * (elem + sk).inverse().unwrap();
    let witness_point = (p * wit_exp).into_affine();

    let ped_key: Vec<G1Affine> = (0..2).map(|_| G1Projective::rand(&mut rng).into_affine()).collect();
    let blind = Fr::rand(&mut rng);
    let ped_opening = vec![elem, blind];
    let commitment = G1Projective::msm_unchecked(&ped_key, &ped_opening).into_affine();

    let prk = (
        G1Projective::rand(&mut rng).into_affine(),
        G1Projective::rand(&mut rng).into_affine(),
        G1Projective::rand(&mut rng).into_affine(),
        G1Projective::rand(&mut rng).into_affine(),
    );

    World {
        accum_value,
        elem,
        witness_point,
        accum_params: (p, p_tilde, sk),
        ped_key,
        ped_opening,
        commitment,
        prk,
    }
}

fn proof_spec_of(world: &World, context: Option<Vec<u8>>) -> ProofSpec {
    let accum_stmt = Statement::VBAccumulatorMembership(VbAccumulatorMemStmt {
        accumulator_value: g1(world.accum_value),
        params: Some(SetupParams {
            P: g1(world.accum_params.0),
            P_tilde: {
                let mut v = Vec::new();
                world.accum_params.1.serialize_compressed(&mut v).unwrap();
                G2Elem::from_bytes(v)
            },
        }),
        params_ref: None,
        public_key: Some(PublicKey({
            let mut v = Vec::new();
            (world.accum_params.1 * world.accum_params.2)
                .into_affine()
                .serialize_compressed(&mut v)
                .unwrap();
            G2Elem::from_bytes(v)
        })),
        public_key_ref: None,
        proving_key: Some(MembershipProvingKey(ProvingKey {
            X: g1(world.prk.0),
            Y: g1(world.prk.1),
            Z: g1(world.prk.2),
        })),
        proving_key_ref: None,
    });
    let ped_stmt = Statement::PedersenCommitment(PedersenCommitmentStmt {
        commitment: g1(world.commitment),
        key: Some(world.ped_key.iter().map(|p| g1(*p)).collect()),
        key_ref: None,
    });
    let mut meta = MetaStatements::new();
    meta.add_witness_equality(EqualWitnesses::new(vec![(0usize, 0usize), (1usize, 0usize)]));
    ProofSpec::new(vec![accum_stmt, ped_stmt], meta, Vec::new(), context)
}

fn witnesses_of(world: &World) -> Vec<Witness> {
    vec![
        Witness::VBAccumulatorMembership {
            element: sc(world.elem),
            witness: MembershipWitness(g1(world.witness_point)),
        },
        Witness::PedersenCommitment(world.ped_opening.iter().map(|x| sc(*x)).collect()),
    ]
}

fn prove(world: &World, seed: u64, nonce: &Option<Vec<u8>>, context: Option<Vec<u8>>) -> Proof {
    let mut rng = FieldRng { inner: StdRng::seed_from_u64(seed) };
    let spec = proof_spec_of(world, context);
    Proof::new(&mut rng, &spec, witnesses_of(world), nonce).unwrap()
}

#[test]
fn composite_accepts_valid_witness() {
    let world = build_world(42);
    let nonce = Some(b"test-nonce".to_vec());
    let proof = prove(&world, 7, &nonce, None);
    let spec = proof_spec_of(&world, None);
    let mut vrng = FieldRng { inner: StdRng::seed_from_u64(13) };

    // without a pairing checker
    proof
        .verify(
            &mut vrng,
            &spec,
            &nonce,
            &VerifierConfig { use_lazy_randomized_pairing_checks: None },
        )
        .unwrap();

    // the second statement's proof is partial: its response for the
    // shared witness comes from the accumulator statement
    match &proof.statement_proofs[1] {
        StatementProof::PedersenCommitmentPartial(pp) => {
            assert!(pp.response[0].is_none());
            assert!(pp.response[1].is_some());
        },
        _ => panic!("expected a partial proof"),
    }

    // with the eager and the lazy pairing checker
    for lazy in [false, true] {
        proof
            .verify(
                &mut vrng,
                &spec,
                &nonce,
                &VerifierConfig { use_lazy_randomized_pairing_checks: Some(lazy) },
            )
            .unwrap();
    }
}

#[test]
fn composite_proofs_are_deterministic_for_one_seed() {
    let world = build_world(42);
    let nonce = Some(b"nonce".to_vec());
    let p1 = prove(&world, 9, &nonce, None);
    let p2 = prove(&world, 9, &nonce, None);
    assert_eq!(p1, p2);
    let p3 = prove(&world, 10, &nonce, None);
    assert!(p1 != p3);
}

#[test]
fn composite_rejects_nonce_or_context_change() {
    let world = build_world(42);
    let nonce = Some(b"nonce-a".to_vec());
    let proof = prove(&world, 7, &nonce, None);
    let spec = proof_spec_of(&world, None);
    let mut vrng = FieldRng { inner: StdRng::seed_from_u64(13) };
    let cfg = VerifierConfig { use_lazy_randomized_pairing_checks: None };

    assert!(proof.verify(&mut vrng, &spec, &Some(b"nonce-b".to_vec()), &cfg).is_err());
    assert!(proof.verify(&mut vrng, &spec, &None, &cfg).is_err());

    let spec_ctx = proof_spec_of(&world, Some(b"other-context".to_vec()));
    assert!(proof.verify(&mut vrng, &spec_ctx, &nonce, &cfg).is_err());
}

#[test]
fn composite_rejects_substituted_response() {
    let world = build_world(42);
    let nonce = None;
    let proof = prove(&world, 7, &nonce, None);
    let spec = proof_spec_of(&world, None);
    let mut vrng = FieldRng { inner: StdRng::seed_from_u64(13) };
    let cfg = VerifierConfig { use_lazy_randomized_pairing_checks: None };

    // substituting the anchored response in the accumulator proof
    let mut tampered_proofs = Vec::new();
    for (i, p) in proof.statement_proofs.iter().enumerate() {
        match p {
            StatementProof::VBAccumulatorMembership(mp) if i == 0 => {
                let mut resp_bytes = mp.get_schnorr_response_for_element().b.clone();
                resp_bytes[0] ^= 1;
                let mut mp2 = composite_proof_system::vbaccum::MembershipProof {
                    randomized_witness: composite_proof_system::vbaccum::MembershipRandomizedWitness(
                        composite_proof_system::vbaccum::RandomizedWitness {
                            E_C: mp.randomized_witness.0.E_C.dup(),
                            T_sigma: mp.randomized_witness.0.T_sigma.dup(),
                            T_rho: mp.randomized_witness.0.T_rho.dup(),
                        },
                    ),
                    schnorr_commit: composite_proof_system::vbaccum::MembershipSchnorrCommit(
                        composite_proof_system::vbaccum::SchnorrCommit {
                            R_E: mp.schnorr_commit.0.R_E.dup(),
                            R_sigma: mp.schnorr_commit.0.R_sigma.dup(),
                            R_rho: mp.schnorr_commit.0.R_rho.dup(),
                            R_delta_sigma: mp.schnorr_commit.0.R_delta_sigma.dup(),
                            R_delta_rho: mp.schnorr_commit.0.R_delta_rho.dup(),
                        },
                    ),
                    schnorr_response: composite_proof_system::vbaccum::MembershipSchnorrResponse(
                        composite_proof_system::vbaccum::SchnorrResponse {
                            s_y: Scalar::from_bytes(resp_bytes.clone()),
                            s_sigma: mp.schnorr_response.0.s_sigma.dup(),
                            s_rho: mp.schnorr_response.0.s_rho.dup(),
                            s_delta_sigma: mp.schnorr_response.0.s_delta_sigma.dup(),
                            s_delta_rho: mp.schnorr_response.0.s_delta_rho.dup(),
                        },
                    ),
                };
                let _ = &mut mp2;
                tampered_proofs.push(StatementProof::VBAccumulatorMembership(mp2));
            },
            StatementProof::PedersenCommitmentPartial(pp) => {
                tampered_proofs.push(StatementProof::PedersenCommitmentPartial(
                    composite_proof_system::statement_proof::PedersenCommitmentPartialProof {
                        t: pp.t.dup(),
                        response: pp.response.iter().map(|o| o.as_ref().map(|s| s.dup())).collect(),
                    },
                ));
            },
            _ => panic!("unexpected proof shape"),
        }
    }
    let tampered = Proof { statement_proofs: tampered_proofs };
    let outcome = tampered.verify(&mut vrng, &spec, &nonce, &cfg);
    assert!(matches!(
        outcome,
        Err(ProofSystemError::VBAccumProofContributionFailed(_, _))
    ));
}

#[test]
fn composite_reports_unsatisfied_equality_class() {
    let world = build_world(42);
    // a class over witness indices no statement ever answers
    let accum_spec = proof_spec_of(&world, None);
    let mut meta = MetaStatements::new();
    meta.add_witness_equality(EqualWitnesses::new(vec![(0usize, 5usize), (1usize, 7usize)]));
    let spec = ProofSpec::new(accum_spec.statements, meta, Vec::new(), None);

    let mut rng = FieldRng { inner: StdRng::seed_from_u64(3) };
    let nonce = None;
    let proof = Proof::new(&mut rng, &spec, witnesses_of(&world), &nonce).unwrap();
    let mut vrng = FieldRng { inner: StdRng::seed_from_u64(13) };
    let cfg = VerifierConfig { use_lazy_randomized_pairing_checks: None };
    assert_eq!(
        proof.verify(&mut vrng, &spec, &nonce, &cfg),
        Err(ProofSystemError::UnsatisfiedWitnessEqualities(1))
    );
}

#[test]
fn composite_rejects_missing_statement_proof() {
    let world = build_world(42);
    let nonce = None;
    let proof = prove(&world, 7, &nonce, None);
    let spec = proof_spec_of(&world, None);
    let mut shortened = Vec::new();
    shortened.push(match &proof.statement_proofs[0] {
        StatementProof::VBAccumulatorMembership(_) => proof.statement_proofs.into_iter().next().unwrap(),
        _ => panic!("unexpected proof shape"),
    });
    let short_proof = Proof { statement_proofs: shortened };
    let mut vrng = FieldRng { inner: StdRng::seed_from_u64(13) };
    let cfg = VerifierConfig { use_lazy_randomized_pairing_checks: None };
    assert_eq!(
        short_proof.verify(&mut vrng, &spec, &nonce, &cfg),
        Err(ProofSystemError::UnsatisfiedStatements(2, 1))
    );
}

#[test]
fn two_pedersen_commitments_share_a_scalar() {
    let mut rng = StdRng::seed_from_u64(21);
    let x = Fr::rand(&mut rng);
    let r1 = Fr::rand(&mut rng);
    let r2 = Fr::rand(&mut rng);
    let key1: Vec<G1Affine> = (0..2).map(|_| G1Projective::rand(&mut rng).into_affine()).collect();
    let key2: Vec<G1Affine> = (0..2).map(|_| G1Projective::rand(&mut rng).into_affine()).collect();
    let c1 = G1Projective::msm_unchecked(&key1, &[x, r1]).into_affine();
    let c2 = G1Projective::msm_unchecked(&key2, &[x, r2]).into_affine();

    let stmt1 = Statement::PedersenCommitment(PedersenCommitmentStmt {
        commitment: g1(c1),
        key: Some(key1.iter().map(|p| g1(*p)).collect()),
        key_ref: None,
    });
    let stmt2 = Statement::PedersenCommitment(PedersenCommitmentStmt {
        commitment: g1(c2),
        key: Some(key2.iter().map(|p| g1(*p)).collect()),
        key_ref: None,
    });
    let mut meta = MetaStatements::new();
    meta.add_witness_equality(EqualWitnesses::new(vec![(0usize, 0usize), (1usize, 0usize)]));
    let spec = ProofSpec::new(vec![stmt1, stmt2], meta, Vec::new(), None);

    let witnesses = vec![
        Witness::PedersenCommitment(vec![sc(x), sc(r1)]),
        Witness::PedersenCommitment(vec![sc(x), sc(r2)]),
    ];
    let mut prng = FieldRng { inner: StdRng::seed_from_u64(8) };
    let nonce = None;
    let proof = Proof::new(&mut prng, &spec, witnesses, &nonce).unwrap();

    // the first statement anchors the class with the full proof; the
    // second emits a partial one
    let anchor_resp = match &proof.statement_proofs[0] {
        StatementProof::PedersenCommitment(pp) => {
            assert_eq!(pp.response.len(), 2);
            pp.response[0].dup()
        },
        _ => panic!("expected a full proof"),
    };
    let (t2, resp2) = match &proof.statement_proofs[1] {
        StatementProof::PedersenCommitmentPartial(pp) => {
            assert!(pp.response[0].is_none());
            (pp.t.dup(), pp.response[1].as_ref().unwrap().dup())
        },
        _ => panic!("expected a partial proof"),
    };

    let mut vrng = FieldRng { inner: StdRng::seed_from_u64(13) };
    let cfg = VerifierConfig { use_lazy_randomized_pairing_checks: None };
    proof.verify(&mut vrng, &spec, &nonce, &cfg).unwrap();

    // a second statement carrying the anchored response in full also
    // verifies
    let full_second = Proof {
        statement_proofs: vec![
            match &proof.statement_proofs[0] {
                StatementProof::PedersenCommitment(pp) => StatementProof::PedersenCommitment(
                    PedersenCommitmentProof {
                        t: pp.t.dup(),
                        response: pp.response.iter().map(|s| s.dup()).collect(),
                    },
                ),
                _ => panic!("unexpected"),
            },
            StatementProof::PedersenCommitment(PedersenCommitmentProof {
                t: t2.dup(),
                response: vec![anchor_resp.dup(), resp2.dup()],
            }),
        ],
    };
    full_second.verify(&mut vrng, &spec, &nonce, &cfg).unwrap();

    // disagreeing responses inside the class are refused
    let mut wrong_bytes = anchor_resp.b.clone();
    wrong_bytes[0] ^= 1;
    let disagreeing = Proof {
        statement_proofs: vec![
            match &full_second.statement_proofs[0] {
                StatementProof::PedersenCommitment(pp) => StatementProof::PedersenCommitment(
                    PedersenCommitmentProof {
                        t: pp.t.dup(),
                        response: pp.response.iter().map(|s| s.dup()).collect(),
                    },
                ),
                _ => panic!("unexpected"),
            },
            StatementProof::PedersenCommitment(PedersenCommitmentProof {
                t: t2.dup(),
                response: vec![Scalar::from_bytes(wrong_bytes), resp2.dup()],
            }),
        ],
    };
    assert_eq!(
        disagreeing.verify(&mut vrng, &spec, &nonce, &cfg),
        Err(ProofSystemError::WitnessResponseNotEqual(1, 0))
    );
}
