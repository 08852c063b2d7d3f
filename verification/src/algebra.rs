//! Field and group elements of BLS12-381, carried in their canonical
//! compressed encodings, together with the trusted wrappers through which
//! every piece of curve arithmetic is delegated to the arkworks crates.
//!
//! Each wrapper's result is a function of the encodings of its arguments
//! alone (arkworks arithmetic is deterministic and canonical serialization
//! is injective), so the result of each operation is given a name: an
//! uninterpreted spec function that the wrapper's contract applies. A
//! wrapper that decodes an invalid encoding falls back to the zero element
//! of the respective structure, which keeps every wrapper total and still a
//! function of its input bytes.

use vstd::prelude::*;

use ark_bls12_381::{Bls12_381, Fr, G1Affine, G1Projective, G2Affine};
use ark_ec::hashing::curve_maps::wb::WBMap;
use ark_ec::hashing::map_to_curve_hasher::MapToCurveBasedHasher;
use ark_ec::hashing::HashToCurve;
use ark_ec::pairing::{MillerLoopOutput, Pairing, PairingOutput};
use ark_ec::{AffineRepr, CurveGroup, VariableBaseMSM};
use ark_ff::fields::field_hashers::DefaultFieldHasher;
use ark_ff::{Field, PrimeField, UniformRand};
use ark_serialize::{CanonicalDeserialize, CanonicalSerialize};
use sha3::{Digest, Sha3_256, Sha3_512};

use crate::bytes::dup_bytes;

verus! {

/// A scalar of the prime field, as its canonical 32-byte encoding.
#[derive(Debug)]
pub struct Scalar {
    pub b: Vec<u8>,
}

/// A point of the first pairing group, canonically compressed.
#[derive(Debug)]
pub struct G1Elem {
    pub b: Vec<u8>,
}

/// A point of the second pairing group, canonically compressed.
#[derive(Debug)]
pub struct G2Elem {
    pub b: Vec<u8>,
}

/// An element of the pairing target group, canonically encoded.
#[derive(Debug)]
pub struct GtElem {
    pub b: Vec<u8>,
}

/// An accumulated Miller-loop output, not yet taken through the final
/// exponentiation; canonically encoded.
#[derive(Debug)]
pub struct MillerAcc {
    pub b: Vec<u8>,
}

impl View for Scalar {
    type V = Seq<u8>;

    open spec fn view(&self) -> Seq<u8> {
        self.b@
    }
}

impl View for G1Elem {
    type V = Seq<u8>;

    open spec fn view(&self) -> Seq<u8> {
        self.b@
    }
}

impl View for G2Elem {
    type V = Seq<u8>;

    open spec fn view(&self) -> Seq<u8> {
        self.b@
    }
}

impl View for GtElem {
    type V = Seq<u8>;

    open spec fn view(&self) -> Seq<u8> {
        self.b@
    }
}

impl View for MillerAcc {
    type V = Seq<u8>;

    open spec fn view(&self) -> Seq<u8> {
        self.b@
    }
}

impl Scalar {
    /// Wraps the given encoding.
    pub fn from_bytes(b: Vec<u8>) -> (r: Scalar)
        ensures
            r@ == b@,
    {
        Scalar { b }
    }

    /// A fresh copy of this scalar.
    pub fn dup(&self) -> (r: Scalar)
        ensures
            r@ == self@,
    {
        Scalar { b: dup_bytes(&self.b) }
    }
}

impl G1Elem {
    /// Wraps the given encoding.
    pub fn from_bytes(b: Vec<u8>) -> (r: G1Elem)
        ensures
            r@ == b@,
    {
        G1Elem { b }
    }

    /// A fresh copy of this point.
    pub fn dup(&self) -> (r: G1Elem)
        ensures
            r@ == self@,
    {
        G1Elem { b: dup_bytes(&self.b) }
    }
}

impl G2Elem {
    /// Wraps the given encoding.
    pub fn from_bytes(b: Vec<u8>) -> (r: G2Elem)
        ensures
            r@ == b@,
    {
        G2Elem { b }
    }

    /// A fresh copy of this point.
    pub fn dup(&self) -> (r: G2Elem)
        ensures
            r@ == self@,
    {
        G2Elem { b: dup_bytes(&self.b) }
    }
}

impl GtElem {
    /// Wraps the given encoding.
    pub fn from_bytes(b: Vec<u8>) -> (r: GtElem)
        ensures
            r@ == b@,
    {
        GtElem { b }
    }

    /// A fresh copy of this element.
    pub fn dup(&self) -> (r: GtElem)
        ensures
            r@ == self@,
    {
        GtElem { b: dup_bytes(&self.b) }
    }
}

impl PartialEq for Scalar {
    fn eq(&self, other: &Scalar) -> (r: bool) {
        crate::bytes::bytes_eq(&self.b, &other.b)
    }
}

impl vstd::std_specs::cmp::PartialEqSpecImpl for Scalar {
    open spec fn obeys_eq_spec() -> bool {
        true
    }

    open spec fn eq_spec(&self, other: &Scalar) -> bool {
        self.b@ == other.b@
    }
}

impl PartialEq for G1Elem {
    fn eq(&self, other: &G1Elem) -> (r: bool) {
        crate::bytes::bytes_eq(&self.b, &other.b)
    }
}

impl vstd::std_specs::cmp::PartialEqSpecImpl for G1Elem {
    open spec fn obeys_eq_spec() -> bool {
        true
    }

    open spec fn eq_spec(&self, other: &G1Elem) -> bool {
        self.b@ == other.b@
    }
}

impl PartialEq for G2Elem {
    fn eq(&self, other: &G2Elem) -> (r: bool) {
        crate::bytes::bytes_eq(&self.b, &other.b)
    }
}

impl vstd::std_specs::cmp::PartialEqSpecImpl for G2Elem {
    open spec fn obeys_eq_spec() -> bool {
        true
    }

    open spec fn eq_spec(&self, other: &G2Elem) -> bool {
        self.b@ == other.b@
    }
}

impl PartialEq for GtElem {
    fn eq(&self, other: &GtElem) -> (r: bool) {
        crate::bytes::bytes_eq(&self.b, &other.b)
    }
}

impl vstd::std_specs::cmp::PartialEqSpecImpl for GtElem {
    open spec fn obeys_eq_spec() -> bool {
        true
    }

    open spec fn eq_spec(&self, other: &GtElem) -> bool {
        self.b@ == other.b@
    }
}

/// The encodings of a sequence of scalars.
pub open spec fn scalar_views(s: Seq<Scalar>) -> Seq<Seq<u8>> {
    s.map_values(|x: Scalar| x@)
}

/// The encodings of a sequence of points of the first group.
pub open spec fn g1_views(s: Seq<G1Elem>) -> Seq<Seq<u8>> {
    s.map_values(|x: G1Elem| x@)
}

/// The encodings of a sequence of points of the second group.
pub open spec fn g2_views(s: Seq<G2Elem>) -> Seq<Seq<u8>> {
    s.map_values(|x: G2Elem| x@)
}

// ------------------------------------------------------------------
// Names for the results of the outside arithmetic.
// ------------------------------------------------------------------

pub uninterp spec fn sc_of_u64(v: u64) -> Seq<u8>;

pub uninterp spec fn sc_add_of(a: Seq<u8>, b: Seq<u8>) -> Seq<u8>;

pub uninterp spec fn sc_sub_of(a: Seq<u8>, b: Seq<u8>) -> Seq<u8>;

pub uninterp spec fn sc_mul_of(a: Seq<u8>, b: Seq<u8>) -> Seq<u8>;

pub uninterp spec fn sc_neg_of(a: Seq<u8>) -> Seq<u8>;

pub uninterp spec fn sc_inv_of(a: Seq<u8>) -> Seq<u8>;

pub uninterp spec fn sc_lt_of(a: Seq<u8>, b: Seq<u8>) -> bool;

pub uninterp spec fn sc_le_half_of(a: Seq<u8>) -> bool;

pub uninterp spec fn sc_of_le_bytes(bytes: Seq<u8>) -> Seq<u8>;

pub uninterp spec fn sha3_512_of(bytes: Seq<u8>) -> Seq<u8>;

pub uninterp spec fn g1_add_of(a: Seq<u8>, b: Seq<u8>) -> Seq<u8>;

pub uninterp spec fn g1_mul_of(p: Seq<u8>, s: Seq<u8>) -> Seq<u8>;

pub uninterp spec fn g1_neg_of(p: Seq<u8>) -> Seq<u8>;

pub uninterp spec fn g1_msm_of(ps: Seq<Seq<u8>>, ss: Seq<Seq<u8>>) -> Seq<u8>;

pub uninterp spec fn g1_hash_of(msg: Seq<u8>) -> Seq<u8>;

pub uninterp spec fn g2_add_of(a: Seq<u8>, b: Seq<u8>) -> Seq<u8>;

pub uninterp spec fn g2_mul_of(p: Seq<u8>, s: Seq<u8>) -> Seq<u8>;

pub uninterp spec fn pairing_of(ps: Seq<Seq<u8>>, qs: Seq<Seq<u8>>) -> Seq<u8>;

pub uninterp spec fn gt_add_of(a: Seq<u8>, b: Seq<u8>) -> Seq<u8>;

pub uninterp spec fn gt_sub_of(a: Seq<u8>, b: Seq<u8>) -> Seq<u8>;

pub uninterp spec fn gt_mul_of(t: Seq<u8>, s: Seq<u8>) -> Seq<u8>;

pub uninterp spec fn gt_id_of(tag: bool) -> Seq<u8>;

pub uninterp spec fn ml_of(ps: Seq<Seq<u8>>, qs: Seq<Seq<u8>>) -> Seq<u8>;

pub uninterp spec fn fp12_mul_of(a: Seq<u8>, b: Seq<u8>) -> Seq<u8>;

pub uninterp spec fn final_exp_of(m: Seq<u8>) -> Seq<u8>;

// ------------------------------------------------------------------
// Trusted wrappers over the outside arithmetic.
// ------------------------------------------------------------------

/// Relies on `ark_ff::Fp::from` for `u64`: the canonical embedding of a
/// small integer into the scalar field.
#[verifier::external_body]
pub(crate) fn scalar_from_u64(v: u64) -> (r: Scalar)
    ensures
        r@ == sc_of_u64(v),
{
    let mut out = Vec::new();
    Fr::from(v).serialize_compressed(&mut out).unwrap();
    Scalar { b: out }
}

/// Relies on field addition of `ark_ff`.
#[verifier::external_body]
pub(crate) fn scalar_add(a: &Scalar, b: &Scalar) -> (r: Scalar)
    ensures
        r@ == sc_add_of(a@, b@),
{
    let x = Fr::deserialize_compressed(a.b.as_slice()).unwrap_or(Fr::from(0u64));
    let y = Fr::deserialize_compressed(b.b.as_slice()).unwrap_or(Fr::from(0u64));
    let mut out = Vec::new();
    (x + y).serialize_compressed(&mut out).unwrap();
    Scalar { b: out }
}

/// Relies on field subtraction of `ark_ff`.
#[verifier::external_body]
pub(crate) fn scalar_sub(a: &Scalar, b: &Scalar) -> (r: Scalar)
    ensures
        r@ == sc_sub_of(a@, b@),
{
    let x = Fr::deserialize_compressed(a.b.as_slice()).unwrap_or(Fr::from(0u64));
    let y = Fr::deserialize_compressed(b.b.as_slice()).unwrap_or(Fr::from(0u64));
    let mut out = Vec::new();
    (x - y).serialize_compressed(&mut out).unwrap();
    Scalar { b: out }
}

/// Relies on field multiplication of `ark_ff`.
#[verifier::external_body]
pub(crate) fn scalar_mul(a: &Scalar, b: &Scalar) -> (r: Scalar)
    ensures
        r@ == sc_mul_of(a@, b@),
{
    let x = Fr::deserialize_compressed(a.b.as_slice()).unwrap_or(Fr::from(0u64));
    let y = Fr::deserialize_compressed(b.b.as_slice()).unwrap_or(Fr::from(0u64));
    let mut out = Vec::new();
    (x * y).serialize_compressed(&mut out).unwrap();
    Scalar { b: out }
}

/// Relies on field negation of `ark_ff`.
#[verifier::external_body]
pub(crate) fn scalar_neg(a: &Scalar) -> (r: Scalar)
    ensures
        r@ == sc_neg_of(a@),
{
    let x = Fr::deserialize_compressed(a.b.as_slice()).unwrap_or(Fr::from(0u64));
    let mut out = Vec::new();
    (-x).serialize_compressed(&mut out).unwrap();
    Scalar { b: out }
}

/// Relies on `ark_ff::Field::inverse`; the zero scalar, which has no
/// inverse, is mapped to zero.
#[verifier::external_body]
pub(crate) fn scalar_inv(a: &Scalar) -> (r: Scalar)
    ensures
        r@ == sc_inv_of(a@),
{
    let x = Fr::deserialize_compressed(a.b.as_slice()).unwrap_or(Fr::from(0u64));
    let inv = x.inverse().unwrap_or(Fr::from(0u64));
    let mut out = Vec::new();
    inv.serialize_compressed(&mut out).unwrap();
    Scalar { b: out }
}

/// Relies on the integer order of `ark_ff::PrimeField::into_bigint`:
/// compares the scalars as the integers of their canonical representation.
#[verifier::external_body]
pub(crate) fn scalar_lt(a: &Scalar, b: &Scalar) -> (r: bool)
    ensures
        r == sc_lt_of(a@, b@),
{
    let x = Fr::deserialize_compressed(a.b.as_slice()).unwrap_or(Fr::from(0u64));
    let y = Fr::deserialize_compressed(b.b.as_slice()).unwrap_or(Fr::from(0u64));
    x.into_bigint() < y.into_bigint()
}

/// Relies on `ark_ff::PrimeField::MODULUS_MINUS_ONE_DIV_TWO`: true iff the
/// scalar's integer representation is at most half the field order.
#[verifier::external_body]
pub(crate) fn scalar_le_half_order(a: &Scalar) -> (r: bool)
    ensures
        r == sc_le_half_of(a@),
{
    let x = Fr::deserialize_compressed(a.b.as_slice()).unwrap_or(Fr::from(0u64));
    x.into_bigint() <= Fr::MODULUS_MINUS_ONE_DIV_TWO
}

/// Relies on `ark_ff::PrimeField::from_le_bytes_mod_order`: the scalar read
/// from a little-endian byte string, reduced modulo the field order.
#[verifier::external_body]
pub(crate) fn scalar_from_le_bytes(bytes: &Vec<u8>) -> (r: Scalar)
    ensures
        r@ == sc_of_le_bytes(bytes@),
{
    let x = Fr::from_le_bytes_mod_order(bytes.as_slice());
    let mut out = Vec::new();
    x.serialize_compressed(&mut out).unwrap();
    Scalar { b: out }
}

/// Relies on `sha3::Sha3_512`: the 64-byte digest of the input.
#[verifier::external_body]
pub(crate) fn sha3_512(bytes: &Vec<u8>) -> (r: Vec<u8>)
    ensures
        r@ == sha3_512_of(bytes@),
{
    let mut h = Sha3_512::new();
    h.update(bytes.as_slice());
    h.finalize().to_vec()
}

/// Relies on group addition in the first pairing group of `ark_ec`.
#[verifier::external_body]
pub(crate) fn g1_add(a: &G1Elem, b: &G1Elem) -> (r: G1Elem)
    ensures
        r@ == g1_add_of(a@, b@),
{
    let x = G1Affine::deserialize_compressed(a.b.as_slice()).unwrap_or(G1Affine::zero());
    let y = G1Affine::deserialize_compressed(b.b.as_slice()).unwrap_or(G1Affine::zero());
    let mut out = Vec::new();
    (x + y).into_affine().serialize_compressed(&mut out).unwrap();
    G1Elem { b: out }
}

/// Relies on scalar multiplication in the first pairing group of `ark_ec`.
#[verifier::external_body]
pub(crate) fn g1_mul(p: &G1Elem, s: &Scalar) -> (r: G1Elem)
    ensures
        r@ == g1_mul_of(p@, s@),
{
    let x = G1Affine::deserialize_compressed(p.b.as_slice()).unwrap_or(G1Affine::zero());
    let k = Fr::deserialize_compressed(s.b.as_slice()).unwrap_or(Fr::from(0u64));
    let mut out = Vec::new();
    (x * k).into_affine().serialize_compressed(&mut out).unwrap();
    G1Elem { b: out }
}

/// Relies on group negation in the first pairing group of `ark_ec`.
#[verifier::external_body]
pub(crate) fn g1_neg(p: &G1Elem) -> (r: G1Elem)
    ensures
        r@ == g1_neg_of(p@),
{
    let x = G1Affine::deserialize_compressed(p.b.as_slice()).unwrap_or(G1Affine::zero());
    let mut out = Vec::new();
    (-x).serialize_compressed(&mut out).unwrap();
    G1Elem { b: out }
}

/// Relies on `ark_ec::VariableBaseMSM::msm_unchecked`: the multi-scalar
/// multiplication over the first pairing group.
#[verifier::external_body]
pub(crate) fn g1_msm(ps: &Vec<G1Elem>, ss: &Vec<Scalar>) -> (r: G1Elem)
    requires
        ps@.len() == ss@.len(),
    ensures
        r@ == g1_msm_of(g1_views(ps@), scalar_views(ss@)),
{
    let points: std::vec::Vec<G1Affine> = ps.iter().map(|p|
        G1Affine::deserialize_compressed(p.b.as_slice()).unwrap_or(G1Affine::zero())).collect();
    let scalars: std::vec::Vec<Fr> = ss.iter().map(|s|
        Fr::deserialize_compressed(s.b.as_slice()).unwrap_or(Fr::from(0u64))).collect();
    let acc = G1Projective::msm_unchecked(points.as_slice(), scalars.as_slice());
    let mut out = Vec::new();
    acc.into_affine().serialize_compressed(&mut out).unwrap();
    G1Elem { b: out }
}

/// Relies on the hash-to-curve of `ark_ec` for the first pairing group
/// (Wahby-Boneh map over a Sha3-256 field hasher).
#[verifier::external_body]
pub(crate) fn g1_hash_to_curve(msg: &Vec<u8>) -> (r: G1Elem)
    ensures
        r@ == g1_hash_of(msg@),
{
    let hasher = MapToCurveBasedHasher::<
        G1Projective,
        DefaultFieldHasher<Sha3_256>,
        WBMap<ark_bls12_381::g1::Config>,
    >::new(b"composite-proof-system-g1").unwrap();
    let p = hasher.hash(msg.as_slice()).unwrap_or(G1Affine::zero());
    let mut out = Vec::new();
    p.serialize_compressed(&mut out).unwrap();
    G1Elem { b: out }
}

/// Relies on group addition in the second pairing group of `ark_ec`.
#[verifier::external_body]
pub(crate) fn g2_add(a: &G2Elem, b: &G2Elem) -> (r: G2Elem)
    ensures
        r@ == g2_add_of(a@, b@),
{
    let x = G2Affine::deserialize_compressed(a.b.as_slice()).unwrap_or(G2Affine::zero());
    let y = G2Affine::deserialize_compressed(b.b.as_slice()).unwrap_or(G2Affine::zero());
    let mut out = Vec::new();
    (x + y).into_affine().serialize_compressed(&mut out).unwrap();
    G2Elem { b: out }
}

/// Relies on scalar multiplication in the second pairing group of `ark_ec`.
#[verifier::external_body]
pub(crate) fn g2_mul(p: &G2Elem, s: &Scalar) -> (r: G2Elem)
    ensures
        r@ == g2_mul_of(p@, s@),
{
    let x = G2Affine::deserialize_compressed(p.b.as_slice()).unwrap_or(G2Affine::zero());
    let k = Fr::deserialize_compressed(s.b.as_slice()).unwrap_or(Fr::from(0u64));
    let mut out = Vec::new();
    (x * k).into_affine().serialize_compressed(&mut out).unwrap();
    G2Elem { b: out }
}

/// Relies on `ark_ec::pairing::Pairing::multi_pairing`: the product of the
/// pairings of the paired-up points.
#[verifier::external_body]
pub(crate) fn multi_pairing(ps: &Vec<G1Elem>, qs: &Vec<G2Elem>) -> (r: GtElem)
    requires
        ps@.len() == qs@.len(),
    ensures
        r@ == pairing_of(g1_views(ps@), g2_views(qs@)),
{
    let a: std::vec::Vec<G1Affine> = ps.iter().map(|p|
        G1Affine::deserialize_compressed(p.b.as_slice()).unwrap_or(G1Affine::zero())).collect();
    let b: std::vec::Vec<G2Affine> = qs.iter().map(|q|
        G2Affine::deserialize_compressed(q.b.as_slice()).unwrap_or(G2Affine::zero())).collect();
    let t = Bls12_381::multi_pairing(a, b);
    let mut out = Vec::new();
    t.serialize_compressed(&mut out).unwrap();
    GtElem { b: out }
}

/// Relies on addition in the pairing target group of `ark_ec` (written
/// additively over `PairingOutput`).
#[verifier::external_body]
pub(crate) fn gt_add(a: &GtElem, b: &GtElem) -> (r: GtElem)
    ensures
        r@ == gt_add_of(a@, b@),
{
    let x = PairingOutput::<Bls12_381>::deserialize_compressed(a.b.as_slice())
        .unwrap_or(PairingOutput::<Bls12_381>::default());
    let y = PairingOutput::<Bls12_381>::deserialize_compressed(b.b.as_slice())
        .unwrap_or(PairingOutput::<Bls12_381>::default());
    let mut out = Vec::new();
    (x + y).serialize_compressed(&mut out).unwrap();
    GtElem { b: out }
}

/// Relies on subtraction in the pairing target group of `ark_ec`.
#[verifier::external_body]
pub(crate) fn gt_sub(a: &GtElem, b: &GtElem) -> (r: GtElem)
    ensures
        r@ == gt_sub_of(a@, b@),
{
    let x = PairingOutput::<Bls12_381>::deserialize_compressed(a.b.as_slice())
        .unwrap_or(PairingOutput::<Bls12_381>::default());
    let y = PairingOutput::<Bls12_381>::deserialize_compressed(b.b.as_slice())
        .unwrap_or(PairingOutput::<Bls12_381>::default());
    let mut out = Vec::new();
    (x - y).serialize_compressed(&mut out).unwrap();
    GtElem { b: out }
}

/// Relies on scalar multiplication in the pairing target group of `ark_ec`.
#[verifier::external_body]
pub(crate) fn gt_mul_scalar(t: &GtElem, s: &Scalar) -> (r: GtElem)
    ensures
        r@ == gt_mul_of(t@, s@),
{
    let x = PairingOutput::<Bls12_381>::deserialize_compressed(t.b.as_slice())
        .unwrap_or(PairingOutput::<Bls12_381>::default());
    let k = Fr::deserialize_compressed(s.b.as_slice()).unwrap_or(Fr::from(0u64));
    let mut out = Vec::new();
    (x * k).serialize_compressed(&mut out).unwrap();
    GtElem { b: out }
}

/// Relies on `ark_ec::pairing::PairingOutput::default`: the identity of the
/// pairing target group. The result does not depend on the tag.
#[verifier::external_body]
pub(crate) fn gt_identity(tag: bool) -> (r: GtElem)
    ensures
        r@ == gt_id_of(tag),
{
    let _ = tag;
    let mut out = Vec::new();
    PairingOutput::<Bls12_381>::default().serialize_compressed(&mut out).unwrap();
    GtElem { b: out }
}

/// Relies on `ark_ec::pairing::Pairing::multi_miller_loop`: the combined
/// Miller loop of the paired-up points, before final exponentiation.
#[verifier::external_body]
pub(crate) fn multi_miller_loop(ps: &Vec<G1Elem>, qs: &Vec<G2Elem>) -> (r: MillerAcc)
    requires
        ps@.len() == qs@.len(),
    ensures
        r@ == ml_of(g1_views(ps@), g2_views(qs@)),
{
    let a: std::vec::Vec<G1Affine> = ps.iter().map(|p|
        G1Affine::deserialize_compressed(p.b.as_slice()).unwrap_or(G1Affine::zero())).collect();
    let b: std::vec::Vec<G2Affine> = qs.iter().map(|q|
        G2Affine::deserialize_compressed(q.b.as_slice()).unwrap_or(G2Affine::zero())).collect();
    let m = Bls12_381::multi_miller_loop(a, b);
    let mut out = Vec::new();
    m.0.serialize_compressed(&mut out).unwrap();
    MillerAcc { b: out }
}

/// Relies on multiplication in the degree-twelve extension field of
/// `ark_ff`: the product of two Miller-loop accumulators.
#[verifier::external_body]
pub(crate) fn miller_mul(a: &MillerAcc, b: &MillerAcc) -> (r: MillerAcc)
    ensures
        r@ == fp12_mul_of(a@, b@),
{
    let x = <Bls12_381 as Pairing>::TargetField::deserialize_compressed(a.b.as_slice())
        .unwrap_or(<Bls12_381 as Pairing>::TargetField::ONE);
    let y = <Bls12_381 as Pairing>::TargetField::deserialize_compressed(b.b.as_slice())
        .unwrap_or(<Bls12_381 as Pairing>::TargetField::ONE);
    let mut out = Vec::new();
    (x * y).serialize_compressed(&mut out).unwrap();
    MillerAcc { b: out }
}

/// Relies on `ark_ec::pairing::Pairing::final_exponentiation`; an
/// accumulator on which it is undefined is mapped to the identity.
#[verifier::external_body]
pub(crate) fn final_exponentiation(m: &MillerAcc) -> (r: GtElem)
    ensures
        r@ == final_exp_of(m@),
{
    let x = <Bls12_381 as Pairing>::TargetField::deserialize_compressed(m.b.as_slice())
        .unwrap_or(<Bls12_381 as Pairing>::TargetField::ONE);
    let t = Bls12_381::final_exponentiation(MillerLoopOutput(x))
        .unwrap_or(PairingOutput::<Bls12_381>::default());
    let mut out = Vec::new();
    t.serialize_compressed(&mut out).unwrap();
    GtElem { b: out }
}

// ------------------------------------------------------------------
// Randomness.
// ------------------------------------------------------------------

#[verifier::external_type_specification]
#[verifier::external_body]
pub struct ExStdRng(rand::rngs::StdRng);

/// A seedable random-number generator for sampling scalars and points.
pub struct FieldRng {
    pub inner: rand::rngs::StdRng,
}

/// Relies on `ark_ff::UniformRand`: a scalar sampled uniformly from the
/// field. Nothing is promised of the value.
#[verifier::external_body]
pub(crate) fn random_scalar(rng: &mut FieldRng) -> (r: Scalar)
{
    let x = Fr::rand(&mut rng.inner);
    let mut out = Vec::new();
    x.serialize_compressed(&mut out).unwrap();
    Scalar { b: out }
}

/// Relies on `ark_ff::UniformRand`: a uniformly random point of the first
/// pairing group. Nothing is promised of the value.
#[verifier::external_body]
pub(crate) fn random_g1(rng: &mut FieldRng) -> (r: G1Elem)
{
    let x = G1Projective::rand(&mut rng.inner);
    let mut out = Vec::new();
    x.into_affine().serialize_compressed(&mut out).unwrap();
    G1Elem { b: out }
}

} // verus!
