//! Pseudonym generation and its proof of correctness, with the issuer
//! and user keys built directly from the scheme's algebra.

use ark_bls12_381::{Fr, G1Projective, G2Projective};
use ark_ec::CurveGroup;
use ark_ff::{Field, UniformRand};
use ark_serialize::CanonicalSerialize;
use rand::rngs::StdRng;
use rand::SeedableRng;

use composite_proof_system::algebra::{FieldRng, G1Elem, G2Elem, Scalar};
use composite_proof_system::syra::{
    PreparedIssuerPublicKey, PseudonymGenProtocol, SetupParams, UserSecretKey,
};
use composite_proof_system::transcript::hash_to_scalar;

fn sc(x: Fr) -> Scalar {
    let mut v = Vec::new();
    x.serialize_compressed(&mut v).unwrap();
    Scalar::from_bytes(v)
}

fn g1p(p: G1Projective) -> G1Elem {
    let mut v = Vec::new();
    p.into_affine().serialize_compressed(&mut v).unwrap();
    G1Elem::from_bytes(v)
}

fn g2p(p: G2Projective) -> G2Elem {
    let mut v = Vec::new();
    p.into_affine().serialize_compressed(&mut v).unwrap();
    G2Elem::from_bytes(v)
}

#[test]
fn pseudonym() {
    let mut rng = StdRng::seed_from_u64(0u64);

    let g = G1Projective::rand(&mut rng);
    let g_hat = G2Projective::rand(&mut rng);
    let params = SetupParams::new(g1p(g), g2p(g_hat));

    // Signer's setup: an issuance key and an encryption key
    let isk = Fr::rand(&mut rng);
    let w_exp = Fr::rand(&mut rng);
    let ipk = PreparedIssuerPublicKey::new(
        g1p(g * w_exp),
        g2p(g_hat * w_exp),
        g2p(g_hat * isk),
        &params,
    );

    // Signer creates the user's secret key for a low-entropy user
    // identifier
    let user_id = hash_to_scalar(&b"low entropy user-id".to_vec());
    let mut uid_fr_bytes = user_id.b.clone();
    let user_id_fr =
        <Fr as ark_serialize::CanonicalDeserialize>::deserialize_compressed(&uid_fr_bytes[..])
            .unwrap();
    uid_fr_bytes.clear();
    let u = (isk + user_id_fr).inverse().unwrap();
    let usk = UserSecretKey { sk: g1p(g * u), sk_hat: g2p(g_hat * u) };

    // Verifier gives message and context to user
    let context = b"test-context".to_vec();
    let msg = b"test-message".to_vec();

    // Generate the context point from the context bytes
    let z_exp = {
        let digest = hash_to_scalar(&context);
        <Fr as ark_serialize::CanonicalDeserialize>::deserialize_compressed(&digest.b[..]).unwrap()
    };
    let z = g1p(g * z_exp);

    // User generates a pseudonym
    let mut lrng = FieldRng { inner: StdRng::seed_from_u64(11) };
    let protocol =
        PseudonymGenProtocol::init(&mut lrng, &z, &user_id, None, &usk, &ipk, &params);
    let mut chal_bytes: Vec<u8> = Vec::new();
    protocol.challenge_contribution(&z, &mut chal_bytes);
    // the message also contributes to the challenge
    chal_bytes.extend_from_slice(&msg);
    let challenge_prover = hash_to_scalar(&chal_bytes);
    let proof = protocol.gen_proof(&challenge_prover);

    // Verifier checks the correctness of the pseudonym
    let mut chal_bytes_verifier: Vec<u8> = Vec::new();
    proof.challenge_contribution(&z, &mut chal_bytes_verifier);
    chal_bytes_verifier.extend_from_slice(&msg);
    let challenge_verifier = hash_to_scalar(&chal_bytes_verifier);
    assert_eq!(challenge_prover, challenge_verifier);

    proof.verify(&challenge_verifier, &z, &ipk, &params).unwrap();

    // a wrong challenge must not verify
    let mut other_bytes = chal_bytes_verifier.clone();
    other_bytes.push(1);
    let wrong_challenge = hash_to_scalar(&other_bytes);
    assert!(proof.verify(&wrong_challenge, &z, &ipk, &params).is_err());
}
