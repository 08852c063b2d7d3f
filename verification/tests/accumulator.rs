//! Membership and non-membership proofs against accumulators built
//! directly from the accumulator algebra: a positive accumulator for
//! membership, a universal one for non-membership.

use ark_bls12_381::{Fr, G1Affine, G1Projective, G2Affine, G2Projective};
use ark_ec::CurveGroup;
use ark_ff::{Field, UniformRand};
use ark_serialize::CanonicalSerialize;
use rand::rngs::StdRng;
use rand::SeedableRng;

use composite_proof_system::algebra::{FieldRng, G1Elem, G2Elem, Scalar};
use composite_proof_system::transcript::hash_to_scalar;
use composite_proof_system::vbaccum::{
    MembershipProofProtocol, MembershipProvingKey, MembershipWitness,
    NonMembershipProofProtocol, NonMembershipProvingKey, NonMembershipWitness, ProvingKey,
    PublicKey, SetupParams,
};

fn sc(x: Fr) -> Scalar {
    let mut v = Vec::new();
    x.serialize_compressed(&mut v).unwrap();
    Scalar::from_bytes(v)
}

fn g1(p: G1Affine) -> G1Elem {
    let mut v = Vec::new();
    p.serialize_compressed(&mut v).unwrap();
    G1Elem::from_bytes(v)
}

fn g2(p: G2Affine) -> G2Elem {
    let mut v = Vec::new();
    p.serialize_compressed(&mut v).unwrap();
    G2Elem::from_bytes(v)
}

struct Setup {
    p: G1Affine,
    p_tilde: G2Affine,
    sk: Fr,
}

impl Setup {
    fn new(rng: &mut StdRng) -> Self {
        Setup {
            p: G1Projective::rand(rng).into_affine(),
            p_tilde: G2Projective::rand(rng).into_affine(),
            sk: Fr::rand(rng),
        }
    }

    fn params(&self) -> SetupParams {
        SetupParams { P: g1(self.p), P_tilde: g2(self.p_tilde) }
    }

    fn public_key(&self) -> PublicKey {
        PublicKey(g2((self.p_tilde * self.sk).into_affine()))
    }
}

fn rand_prk(rng: &mut StdRng) -> ProvingKey {
    ProvingKey {
        X: g1(G1Projective::rand(rng).into_affine()),
        Y: g1(G1Projective::rand(rng).into_affine()),
        Z: g1(G1Projective::rand(rng).into_affine()),
    }
}

#[test]
fn membership_proof_positive_accumulator() {
    let mut rng = StdRng::seed_from_u64(0u64);
    let setup = Setup::new(&mut rng);
    let prk = MembershipProvingKey(rand_prk(&mut rng));

    let count = 10;
    let elems: Vec<Fr> = (0..count).map(|_| Fr::rand(&mut rng)).collect();
    // the accumulated value is P times the product of (element + sk)
    let mut accum_exp = Fr::from(1u64);
    for e in &elems {
        accum_exp *= *e + setup.sk;
    }
    let accumulated = (setup.p * accum_exp).into_affine();

    let mut lrng = FieldRng { inner: StdRng::seed_from_u64(5) };
    for i in 0..count {
        // witness: accumulated value with this element's factor removed
        let wit_exp = accum_exp * (elems[i] + setup.sk).inverse().unwrap();
        let witness = MembershipWitness(g1((setup.p * wit_exp).into_affine()));

        let protocol = MembershipProofProtocol::init(
            &mut lrng,
            &sc(elems[i]),
            None,
            &witness,
            &setup.public_key(),
            &setup.params(),
            &prk,
        );

        let mut chal_bytes_prover: Vec<u8> = Vec::new();
        protocol.challenge_contribution(
            &g1(accumulated),
            &setup.public_key(),
            &setup.params(),
            &prk,
            &mut chal_bytes_prover,
        );
        let challenge_prover = hash_to_scalar(&chal_bytes_prover);

        let proof = protocol.gen_proof(&challenge_prover);

        let mut chal_bytes_verifier: Vec<u8> = Vec::new();
        proof.challenge_contribution(
            &g1(accumulated),
            &setup.public_key(),
            &setup.params(),
            &prk,
            &mut chal_bytes_verifier,
        );
        let challenge_verifier = hash_to_scalar(&chal_bytes_verifier);

        assert_eq!(challenge_prover, challenge_verifier);

        proof
            .verify(
                &g1(accumulated),
                &challenge_verifier,
                &setup.public_key(),
                &setup.params(),
                &prk,
            )
            .unwrap();

        // a wrong element must not verify
        let bad = MembershipProofProtocol::init(
            &mut lrng,
            &sc(Fr::rand(&mut rng)),
            None,
            &witness,
            &setup.public_key(),
            &setup.params(),
            &prk,
        );
        let mut bad_bytes: Vec<u8> = Vec::new();
        bad.challenge_contribution(
            &g1(accumulated),
            &setup.public_key(),
            &setup.params(),
            &prk,
            &mut bad_bytes,
        );
        let bad_challenge = hash_to_scalar(&bad_bytes);
        let bad_proof = bad.gen_proof(&bad_challenge);
        assert!(
            bad_proof
                .verify(
                    &g1(accumulated),
                    &bad_challenge,
                    &setup.public_key(),
                    &setup.params(),
                    &prk,
                )
                .is_err()
        );
    }
}

#[test]
fn non_membership_proof_universal_accumulator() {
    let mut rng = StdRng::seed_from_u64(0u64);
    let setup = Setup::new(&mut rng);
    let prk = NonMembershipProvingKey {
        XYZ: rand_prk(&mut rng),
        K: g1(G1Projective::rand(&mut rng).into_affine()),
    };

    let members: Vec<Fr> = (0..50).map(|_| Fr::rand(&mut rng)).collect();
    let mut accum_exp = Fr::from(1u64);
    for e in &members {
        accum_exp *= *e + setup.sk;
    }
    let accumulated = (setup.p * accum_exp).into_affine();

    let count = 10;
    let mut lrng = FieldRng { inner: StdRng::seed_from_u64(6) };
    for _ in 0..count {
        let elem = Fr::rand(&mut rng);
        // the offset is the accumulator polynomial evaluated at the
        // negated element; the witness point completes the relation
        // (elem + sk) * C + d * P = V
        let mut d = Fr::from(1u64);
        for e in &members {
            d *= *e - elem;
        }
        let c_exp = (accum_exp - d) * (elem + setup.sk).inverse().unwrap();
        let witness = NonMembershipWitness { d: sc(d), C: g1((setup.p * c_exp).into_affine()) };

        let protocol = NonMembershipProofProtocol::init(
            &mut lrng,
            &sc(elem),
            None,
            &witness,
            &setup.public_key(),
            &setup.params(),
            &prk,
        );

        let mut chal_bytes_prover: Vec<u8> = Vec::new();
        protocol.challenge_contribution(
            &g1(accumulated),
            &setup.public_key(),
            &setup.params(),
            &prk,
            &mut chal_bytes_prover,
        );
        let challenge_prover = hash_to_scalar(&chal_bytes_prover);

        let proof = protocol.gen_proof(&challenge_prover);

        let mut chal_bytes_verifier: Vec<u8> = Vec::new();
        proof.challenge_contribution(
            &g1(accumulated),
            &setup.public_key(),
            &setup.params(),
            &prk,
            &mut chal_bytes_verifier,
        );
        let challenge_verifier = hash_to_scalar(&chal_bytes_verifier);

        assert_eq!(challenge_prover, challenge_verifier);

        proof
            .verify(
                &g1(accumulated),
                &challenge_verifier,
                &setup.public_key(),
                &setup.params(),
                &prk,
            )
            .unwrap();
    }
}
