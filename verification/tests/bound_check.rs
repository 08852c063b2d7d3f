//! Bound-check statement validation: the bounds must be ordered and fit
//! within half the field order.

use ark_bls12_381::Fr;
use ark_ff::{BigInteger, One, PrimeField};
use ark_serialize::CanonicalSerialize;

use composite_proof_system::algebra::Scalar;
use composite_proof_system::statement::{
    BoundCheckLegoGroth16Prover, BoundCheckLegoGroth16Verifier,
};

fn sc(x: Fr) -> Scalar {
    let mut v = Vec::new();
    x.serialize_compressed(&mut v).unwrap();
    Scalar::from_bytes(v)
}

fn dummy_key() -> Vec<u8> {
    vec![1u8, 2, 3, 4]
}

#[test]
fn bound_check_statement_validity() {
    assert!(
        BoundCheckLegoGroth16Prover::new_statement_from_params(
            sc(Fr::from(5u64)),
            sc(Fr::from(5u64)),
            dummy_key(),
        )
        .is_err()
    );
    assert!(
        BoundCheckLegoGroth16Verifier::new_statement_from_params(
            sc(Fr::from(5u64)),
            sc(Fr::from(5u64)),
            dummy_key(),
        )
        .is_err()
    );
    assert!(
        BoundCheckLegoGroth16Prover::new_statement_from_params(
            sc(Fr::from(5u64)),
            sc(Fr::from(4u64)),
            dummy_key(),
        )
        .is_err()
    );
    assert!(
        BoundCheckLegoGroth16Verifier::new_statement_from_params(
            sc(Fr::from(5u64)),
            sc(Fr::from(4u64)),
            dummy_key(),
        )
        .is_err()
    );
    assert!(
        BoundCheckLegoGroth16Prover::new_statement_from_params(
            sc(Fr::from(5u64)),
            sc(Fr::from(6u64)),
            dummy_key(),
        )
        .is_ok()
    );
    assert!(
        BoundCheckLegoGroth16Verifier::new_statement_from_params(
            sc(Fr::from(5u64)),
            sc(Fr::from(6u64)),
            dummy_key(),
        )
        .is_ok()
    );
    let max_allowed = Fr::MODULUS_MINUS_ONE_DIV_TWO;
    let mut max = max_allowed;
    max.add_with_carry(&Fr::one().into_bigint());
    assert!(
        BoundCheckLegoGroth16Prover::new_statement_from_params(
            sc(Fr::from(5u64)),
            sc(Fr::from_bigint(max).unwrap()),
            dummy_key(),
        )
        .is_err()
    );
    assert!(
        BoundCheckLegoGroth16Verifier::new_statement_from_params(
            sc(Fr::from(5u64)),
            sc(Fr::from_bigint(max).unwrap()),
            dummy_key(),
        )
        .is_err()
    );
    assert!(
        BoundCheckLegoGroth16Prover::new_statement_from_params(
            sc(Fr::from(5u64)),
            sc(Fr::from_bigint(max_allowed).unwrap()),
            dummy_key(),
        )
        .is_ok()
    );
    assert!(
        BoundCheckLegoGroth16Verifier::new_statement_from_params(
            sc(Fr::from(5u64)),
            sc(Fr::from_bigint(max_allowed).unwrap()),
            dummy_key(),
        )
        .is_ok()
    );
}
