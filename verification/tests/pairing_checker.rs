//! The randomized pairing checker against independently computed pairing
//! products: batches of target-carrying claims, two-sided claims, and
//! single-pair claims, eagerly and lazily.

use ark_bls12_381::{Bls12_381, G1Affine, G1Projective, G2Affine, G2Projective};
use ark_ec::pairing::Pairing;
use ark_ec::CurveGroup;
use ark_ff::UniformRand;
use ark_serialize::CanonicalSerialize;
use rand::rngs::StdRng;
use rand::SeedableRng;

use composite_proof_system::algebra::{FieldRng, G1Elem, G2Elem, GtElem};
use composite_proof_system::pairing_check::RandomizedPairingChecker;

fn g1(p: G1Affine) -> G1Elem {
    let mut v = Vec::new();
    p.serialize_compressed(&mut v).unwrap();
    G1Elem::from_bytes(v)
}

fn g2(p: G2Affine) -> G2Elem {
    let mut v = Vec::new();
    p.serialize_compressed(&mut v).unwrap();
    G2Elem::from_bytes(v)
}

fn gt_of(ps: &[G1Affine], qs: &[G2Affine]) -> GtElem {
    let out = Bls12_381::multi_pairing(ps.iter().copied(), qs.iter().copied());
    let mut v = Vec::new();
    out.serialize_compressed(&mut v).unwrap();
    GtElem::from_bytes(v)
}

fn rand_g1s(rng: &mut StdRng, n: usize) -> Vec<G1Affine> {
    (0..n).map(|_| G1Projective::rand(rng).into_affine()).collect()
}

fn rand_g2s(rng: &mut StdRng, n: usize) -> Vec<G2Affine> {
    (0..n).map(|_| G2Projective::rand(rng).into_affine()).collect()
}

fn to_g1_vec(ps: &[G1Affine]) -> Vec<G1Elem> {
    ps.iter().map(|p| g1(*p)).collect()
}

fn to_g2_vec(qs: &[G2Affine]) -> Vec<G2Elem> {
    qs.iter().map(|q| g2(*q)).collect()
}

fn rev<T: Clone>(v: &[T]) -> Vec<T> {
    let mut x = v.to_vec();
    x.reverse();
    x
}

#[test]
fn test_pairing_randomize() {
    let mut rng = StdRng::seed_from_u64(0u64);
    let n = 10;

    let a1 = rand_g1s(&mut rng, n);
    let b1 = rand_g2s(&mut rng, n);
    let a2 = rand_g1s(&mut rng, n + 5);
    let b2 = rand_g2s(&mut rng, n + 5);
    let a3 = rand_g1s(&mut rng, n - 2);
    let b3 = rand_g2s(&mut rng, n - 2);

    let out1 = gt_of(&a1, &b1);
    let out2 = gt_of(&a2, &b2);
    let out3 = gt_of(&a3, &b3);

    let mut lrng = FieldRng { inner: StdRng::seed_from_u64(7) };
    for lazy in [true, false] {
        let mut checker = RandomizedPairingChecker::new_using_rng(&mut lrng, lazy);
        checker.add_multiple_sources_and_target(&to_g1_vec(&a1), &to_g2_vec(&b1), &out1);
        checker.add_multiple_sources_and_target(&to_g1_vec(&a2), &to_g2_vec(&b2), &out2);
        checker.add_multiple_sources_and_target(&to_g1_vec(&a3), &to_g2_vec(&b3), &out3);
        assert!(checker.verify());
    }

    let a1_rev = rev(&a1);
    let a2_rev = rev(&a2);
    let a3_rev = rev(&a3);
    let b1_rev = rev(&b1);
    let b2_rev = rev(&b2);
    let b3_rev = rev(&b3);

    for lazy in [true, false] {
        let mut checker = RandomizedPairingChecker::new_using_rng(&mut lrng, lazy);
        checker.add_multiple_sources(
            &to_g1_vec(&a1),
            &to_g2_vec(&b1),
            &to_g1_vec(&a1_rev),
            &to_g2_vec(&b1_rev),
        );
        assert!(checker.verify());
    }

    for lazy in [true, false] {
        let mut checker = RandomizedPairingChecker::new_using_rng(&mut lrng, lazy);
        checker.add_multiple_sources(
            &to_g1_vec(&a1),
            &to_g2_vec(&b1),
            &to_g1_vec(&a1_rev),
            &to_g2_vec(&b1_rev),
        );
        checker.add_multiple_sources(
            &to_g1_vec(&a2),
            &to_g2_vec(&b2),
            &to_g1_vec(&a2_rev),
            &to_g2_vec(&b2_rev),
        );
        checker.add_multiple_sources(
            &to_g1_vec(&a3),
            &to_g2_vec(&b3),
            &to_g1_vec(&a3_rev),
            &to_g2_vec(&b3_rev),
        );
        assert!(checker.verify());
    }

    for lazy in [true, false] {
        let mut checker = RandomizedPairingChecker::new_using_rng(&mut lrng, lazy);
        checker.add_multiple_sources_and_target(&to_g1_vec(&a1), &to_g2_vec(&b1), &out1);
        checker.add_multiple_sources_and_target(&to_g1_vec(&a2), &to_g2_vec(&b2), &out2);
        checker.add_multiple_sources_and_target(&to_g1_vec(&a3), &to_g2_vec(&b3), &out3);
        checker.add_multiple_sources(
            &to_g1_vec(&a1),
            &to_g2_vec(&b1),
            &to_g1_vec(&a1_rev),
            &to_g2_vec(&b1_rev),
        );
        checker.add_multiple_sources(
            &to_g1_vec(&a2),
            &to_g2_vec(&b2),
            &to_g1_vec(&a2_rev),
            &to_g2_vec(&b2_rev),
        );
        checker.add_multiple_sources(
            &to_g1_vec(&a3),
            &to_g2_vec(&b3),
            &to_g1_vec(&a3_rev),
            &to_g2_vec(&b3_rev),
        );
        assert!(checker.verify());
    }

    for lazy in [true, false] {
        let mut checker = RandomizedPairingChecker::new_using_rng(&mut lrng, lazy);
        checker.add_sources(&g1(a1[0]), &g2(b1[0]), &g1(a1[0]), &g2(b1[0]));
        assert!(checker.verify());

        let mut checker = RandomizedPairingChecker::new_using_rng(&mut lrng, lazy);
        checker.add_sources(&g1(a1[0]), &g2(b1[0]), &g1(a1[0]), &g2(b1[0]));
        checker.add_sources(&g1(a1[1]), &g2(b1[1]), &g1(a1[1]), &g2(b1[1]));
        checker.add_sources(&g1(a1[2]), &g2(b1[2]), &g1(a1[2]), &g2(b1[2]));
        assert!(checker.verify());
    }
}

#[test]
fn batch_check_rejects_one_false_claim() {
    let mut rng = StdRng::seed_from_u64(3u64);
    let a1 = rand_g1s(&mut rng, 4);
    let b1 = rand_g2s(&mut rng, 4);
    let a2 = rand_g1s(&mut rng, 5);
    let b2 = rand_g2s(&mut rng, 5);
    let out1 = gt_of(&a1, &b1);
    let wrong = gt_of(&a2, &b2);

    let mut lrng = FieldRng { inner: StdRng::seed_from_u64(9) };
    for lazy in [true, false] {
        // all claims hold
        let mut checker = RandomizedPairingChecker::new_using_rng(&mut lrng, lazy);
        checker.add_multiple_sources_and_target(&to_g1_vec(&a1), &to_g2_vec(&b1), &out1);
        checker.add_multiple_sources_and_target(&to_g1_vec(&a2), &to_g2_vec(&b2), &wrong);
        assert!(checker.verify());

        // one claim is false
        let mut checker = RandomizedPairingChecker::new_using_rng(&mut lrng, lazy);
        checker.add_multiple_sources_and_target(&to_g1_vec(&a1), &to_g2_vec(&b1), &wrong);
        checker.add_multiple_sources_and_target(&to_g1_vec(&a2), &to_g2_vec(&b2), &wrong);
        assert!(!checker.verify());
    }
}

#[test]
fn empty_checker_accepts() {
    let mut lrng = FieldRng { inner: StdRng::seed_from_u64(1) };
    for lazy in [true, false] {
        let checker = RandomizedPairingChecker::new_using_rng(&mut lrng, lazy);
        assert!(checker.verify());
    }
}
