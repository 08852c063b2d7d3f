//! Range-proof setup parameters and the transcript helpers: generator
//! counts, commitment formulas and challenge determinism.

use ark_bls12_381::{Fr, G1Affine, G1Projective};
use ark_ec::CurveGroup;
use ark_ff::UniformRand;
use ark_serialize::{CanonicalDeserialize, CanonicalSerialize};
use rand::rngs::StdRng;
use rand::SeedableRng;

use composite_proof_system::algebra::{FieldRng, G1Elem, Scalar};
use composite_proof_system::bpp::{base_bits, SetupParams};
use composite_proof_system::transcript::{hash_to_scalar, Transcript};

fn sc(x: Fr) -> Scalar {
    let mut v = Vec::new();
    x.serialize_compressed(&mut v).unwrap();
    Scalar::from_bytes(v)
}

fn g1(p: G1Affine) -> G1Elem {
    let mut v = Vec::new();
    p.serialize_compressed(&mut v).unwrap();
    G1Elem::from_bytes(v)
}

#[test]
fn generator_counts_follow_the_digit_formula() {
    assert_eq!(base_bits(2), 1);
    assert_eq!(base_bits(4), 2);
    assert_eq!(base_bits(16), 4);
    assert_eq!(SetupParams::get_no_of_G(2, 32, 1), 32);
    assert_eq!(SetupParams::get_no_of_G(16, 64, 1), 16);
    assert_eq!(SetupParams::get_no_of_G(16, 8, 1), 16);
    assert_eq!(SetupParams::get_no_of_G(2, 64, 2), 128);
}

#[test]
fn setup_generators_are_label_derived_and_distinct() {
    let params = SetupParams::new(&b"range-test".to_vec(), 4, 8);
    assert_eq!(params.G_vec.len(), 4);
    assert_eq!(params.H_vec.len(), 8);
    let again = SetupParams::new(&b"range-test".to_vec(), 4, 8);
    assert_eq!(params.G, again.G);
    assert_eq!(params.G_vec, again.G_vec);
    let other = SetupParams::new(&b"range-test-2".to_vec(), 4, 8);
    assert!(params.G != other.G);
    assert!(params.G_vec[0] != params.G_vec[1]);
}

#[test]
fn pedersen_commitment_matches_direct_computation() {
    let mut rng = StdRng::seed_from_u64(5);
    let params = SetupParams::new(&b"range-test".to_vec(), 3, 2);
    let gamma = Fr::rand(&mut rng);
    let c = params.compute_pedersen_commitment(42u64, &sc(gamma));

    let g_point = G1Affine::deserialize_compressed(&params.G.b[..]).unwrap();
    let h_point = G1Affine::deserialize_compressed(&params.H_vec[0].b[..]).unwrap();
    let expected = (g_point * Fr::from(42u64) + h_point * gamma).into_affine();
    assert_eq!(c, g1(expected));

    // the randomized form commits under the returned blinding
    let mut lrng = FieldRng { inner: StdRng::seed_from_u64(1) };
    let l: Vec<Scalar> = (0..2).map(|_| sc(Fr::rand(&mut rng))).collect();
    let n: Vec<Scalar> = (0..3).map(|_| sc(Fr::rand(&mut rng))).collect();
    let (v, c2) = params.gen_randomness_and_compute_commitment(&mut lrng, &l, &n);
    let c3 = params.compute_commitment(&v, &l, &n);
    assert_eq!(c2, c3);
}

#[test]
fn transcript_challenges_are_deterministic_and_order_sensitive() {
    let mut t1 = Transcript::new(&b"domain".to_vec());
    t1.append_message(&b"a".to_vec(), &b"xy".to_vec());
    t1.append_message(&b"b".to_vec(), &b"z".to_vec());
    let c1 = t1.challenge_scalar(&b"chal".to_vec());

    let mut t2 = Transcript::new(&b"domain".to_vec());
    t2.append_message(&b"a".to_vec(), &b"xy".to_vec());
    t2.append_message(&b"b".to_vec(), &b"z".to_vec());
    let c2 = t2.challenge_scalar(&b"chal".to_vec());
    assert_eq!(c1, c2);

    // swapped labels move the frame boundaries and change the challenge
    let mut t3 = Transcript::new(&b"domain".to_vec());
    t3.append_message(&b"a".to_vec(), &b"x".to_vec());
    t3.append_message(&b"yb".to_vec(), &b"z".to_vec());
    let c3 = t3.challenge_scalar(&b"chal".to_vec());
    assert!(c1 != c3);

    let h1 = hash_to_scalar(&b"bytes".to_vec());
    let h2 = hash_to_scalar(&b"bytes".to_vec());
    assert_eq!(h1, h2);
    assert!(h1 != hash_to_scalar(&b"bytes2".to_vec()));
}
