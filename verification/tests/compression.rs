//! The compressed sigma protocol for a linear form: honest proofs of all
//! the power-of-two-minus-one sizes pass both the recursive and the
//! batched verifier, and a flipped terminal scalar fails both.

use ark_bls12_381::{Fr, G1Affine, G1Projective};
use ark_ec::{CurveGroup, VariableBaseMSM};
use ark_ff::UniformRand;
use ark_serialize::CanonicalSerialize;
use rand::rngs::StdRng;
use rand::SeedableRng;

use composite_proof_system::algebra::{FieldRng, G1Elem, Scalar};
use composite_proof_system::compressed::{LinearForm, RandomCommitment};

fn sc(x: Fr) -> Scalar {
    let mut v = Vec::new();
    x.serialize_compressed(&mut v).unwrap();
    Scalar::from_bytes(v)
}

fn g1(p: G1Affine) -> G1Elem {
    let mut v = Vec::new();
    p.serialize_compressed(&mut v).unwrap();
    G1Elem::from_bytes(v)
}

fn check_compression(size: usize) {
    let mut rng = StdRng::seed_from_u64(0u64);
    let mut constants: Vec<Fr> = (0..size).map(|_| Fr::rand(&mut rng)).collect();
    let x: Vec<Fr> = (0..size).map(|_| Fr::rand(&mut rng)).collect();
    let gamma = Fr::rand(&mut rng);
    let g: Vec<G1Affine> = (0..size).map(|_| G1Projective::rand(&mut rng).into_affine()).collect();
    let h = G1Projective::rand(&mut rng).into_affine();
    let k = G1Projective::rand(&mut rng).into_affine();

    let p_point = (G1Projective::msm_unchecked(&g, &x) + h * gamma).into_affine();
    let y: Fr = constants.iter().zip(x.iter()).map(|(c, xi)| *c * xi).sum();
    constants.push(Fr::from(0u64));

    let linear_form = LinearForm::new(constants.iter().map(|c| sc(*c)).collect());
    let g_lib: Vec<G1Elem> = g.iter().map(|p| g1(*p)).collect();
    let h_lib = g1(h);
    let k_lib = g1(k);
    let p_lib = g1(p_point);
    let y_lib = sc(y);

    let mut lrng = FieldRng { inner: StdRng::seed_from_u64(1) };
    let rand_comm = RandomCommitment::new(&mut lrng, &g_lib, &h_lib, &linear_form, None).unwrap();

    let c_0 = sc(Fr::rand(&mut rng));
    let c_1 = sc(Fr::rand(&mut rng));

    let x_lib: Vec<Scalar> = x.iter().map(|v| sc(*v)).collect();
    let response = rand_comm
        .response(&g_lib, &h_lib, &k_lib, &linear_form, &x_lib, &sc(gamma), &c_0, &c_1)
        .unwrap();

    response
        .is_valid_recursive(
            &g_lib,
            &h_lib,
            &k_lib,
            &p_lib,
            &y_lib,
            &linear_form,
            &rand_comm.A_hat,
            &rand_comm.t,
            &c_0,
            &c_1,
        )
        .unwrap();

    response
        .is_valid(
            &g_lib,
            &h_lib,
            &k_lib,
            &p_lib,
            &y_lib,
            &linear_form,
            &rand_comm.A_hat,
            &rand_comm.t,
            &c_0,
            &c_1,
        )
        .unwrap();

    // flipping one bit of the second terminal scalar must fail both
    // verifiers
    let mut tampered_bytes = response.z_prime_1.b.clone();
    tampered_bytes[0] ^= 1;
    let tampered = composite_proof_system::compressed::Response {
        z_prime_0: response.z_prime_0.dup(),
        z_prime_1: Scalar::from_bytes(tampered_bytes),
        A: response.A.iter().map(|a| a.dup()).collect(),
        B: response.B.iter().map(|b| b.dup()).collect(),
    };
    assert!(
        tampered
            .is_valid_recursive(
                &g_lib,
                &h_lib,
                &k_lib,
                &p_lib,
                &y_lib,
                &linear_form,
                &rand_comm.A_hat,
                &rand_comm.t,
                &c_0,
                &c_1,
            )
            .is_err()
    );
    assert!(
        tampered
            .is_valid(
                &g_lib,
                &h_lib,
                &k_lib,
                &p_lib,
                &y_lib,
                &linear_form,
                &rand_comm.A_hat,
                &rand_comm.t,
                &c_0,
                &c_1,
            )
            .is_err()
    );
}

#[test]
fn compression() {
    check_compression(3);
    check_compression(7);
    check_compression(15);
    check_compression(31);
    check_compression(63);
}

#[test]
fn compression_rejects_wrong_dimension() {
    let mut rng = StdRng::seed_from_u64(2u64);
    let size = 4;  // size + 1 is not a power of two
    let constants: Vec<Fr> = (0..size + 1).map(|_| Fr::rand(&mut rng)).collect();
    let linear_form = LinearForm::new(constants.iter().map(|c| sc(*c)).collect());
    let g: Vec<G1Elem> = (0..size)
        .map(|_| g1(G1Projective::rand(&mut rng).into_affine()))
        .collect();
    let h = g1(G1Projective::rand(&mut rng).into_affine());
    let mut lrng = FieldRng { inner: StdRng::seed_from_u64(4) };
    assert!(RandomCommitment::new(&mut lrng, &g, &h, &linear_form, None).is_err());
}
