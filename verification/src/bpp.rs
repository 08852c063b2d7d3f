//! Setup parameters for the range-proof family: a Pedersen base point and
//! two generator vectors, all derived from a label by hashing to the
//! curve, plus the commitment helpers built on them.

use vstd::prelude::*;

use crate::algebra::{
    g1_add, g1_add_of, g1_hash_of, g1_hash_to_curve, g1_msm, g1_msm_of, g1_mul, g1_mul_of,
    g1_views, random_scalar, sc_of_u64, scalar_from_u64, scalar_views, FieldRng, G1Elem, Scalar,
};
use crate::bytes::{append_bytes, dup_bytes, spec_u32_le, u32_le_bytes};
use vstd::string::{StrSliceExecFns, StringSliceAdditionalSpecFns};

verus! {

/// The label of the `i`-th generator of a family: the base label, the
/// family tag and the index, little-endian.
pub open spec fn spec_gen_label(label: Seq<u8>, tag: Seq<u8>, i: u32) -> Seq<u8> {
    label + tag + spec_u32_le(i)
}

/// The number of bits needed for one digit of the given base: the
/// position of its highest set bit.
pub open spec fn spec_base_bits(b: int) -> int
    decreases b,
{
    if b < 2 {
        0
    } else {
        1 + spec_base_bits(b / 2)
    }
}

/// The bit count is never negative.
pub proof fn lemma_base_bits_nonneg(b: int)
    ensures
        spec_base_bits(b) >= 0,
    decreases b,
{
    if b >= 2 {
        lemma_base_bits_nonneg(b / 2);
    }
}

/// A value below two to the `k` needs at most `k` bits.
pub proof fn lemma_base_bits_bound(b: int, k: nat)
    requires
        0 <= b,
        b < crate::compressed::spec_pow2(k),
    ensures
        spec_base_bits(b) <= k,
    decreases k,
{
    if b >= 2 {
        lemma_base_bits_bound(b / 2, (k - 1) as nat);
    }
}

/// Sixteen doublings of one.
pub proof fn lemma_pow2_sixteen()
    ensures
        crate::compressed::spec_pow2(16) == 65536,
{
    assert(crate::compressed::spec_pow2(0) == 1);
    assert(crate::compressed::spec_pow2(1) == 2);
    assert(crate::compressed::spec_pow2(2) == 4);
    assert(crate::compressed::spec_pow2(3) == 8);
    assert(crate::compressed::spec_pow2(4) == 16);
    assert(crate::compressed::spec_pow2(5) == 32);
    assert(crate::compressed::spec_pow2(6) == 64);
    assert(crate::compressed::spec_pow2(7) == 128);
    assert(crate::compressed::spec_pow2(8) == 256);
    assert(crate::compressed::spec_pow2(9) == 512);
    assert(crate::compressed::spec_pow2(10) == 1024);
    assert(crate::compressed::spec_pow2(11) == 2048);
    assert(crate::compressed::spec_pow2(12) == 4096);
    assert(crate::compressed::spec_pow2(13) == 8192);
    assert(crate::compressed::spec_pow2(14) == 16384);
    assert(crate::compressed::spec_pow2(15) == 32768);
    assert(crate::compressed::spec_pow2(16) == 65536);
}

/// The position of the highest set bit of the base.
pub fn base_bits(base: u16) -> (r: u16)
    ensures
        r == spec_base_bits(base as int),
{
    proof {
        lemma_pow2_sixteen();
        lemma_base_bits_bound(base as int, 16);
    }
    let mut b: u16 = base;
    let mut bits: u16 = 0;
    while b >= 2
        invariant
            bits + spec_base_bits(b as int) == spec_base_bits(base as int),
            spec_base_bits(base as int) <= 16,
        decreases b,
    {
        proof {
            lemma_base_bits_nonneg(b as int / 2);
        }
        b = b / 2;
        bits = bits + 1;
    }
    bits
}

/// Setup parameters for range proofs: a Pedersen base and two generator
/// vectors.
#[derive(Debug, PartialEq)]
pub struct SetupParams {
    pub G: G1Elem,
    pub G_vec: Vec<G1Elem>,
    pub H_vec: Vec<G1Elem>,
}

impl SetupParams {
    /// Derives all generators from the label by hashing to the curve.
    pub fn new(label: &Vec<u8>, g_count: u32, h_count: u32) -> (r: Self)
        ensures
            r.G@ == g1_hash_of(label@ + " : G".spec_bytes()),
            r.G_vec@.len() == g_count,
            forall|i: int|
                0 <= i < g_count ==> (#[trigger] r.G_vec@[i])@ == g1_hash_of(
                    spec_gen_label(label@, " : g_".spec_bytes(), i as u32),
                ),
            r.H_vec@.len() == h_count,
            forall|i: int|
                0 <= i < h_count ==> (#[trigger] r.H_vec@[i])@ == g1_hash_of(
                    spec_gen_label(label@, " : h_".spec_bytes(), i as u32),
                ),
    {
        let mut lg = dup_bytes(label);
        append_bytes(&mut lg, &" : G".as_bytes_vec());
        let g = g1_hash_to_curve(&lg);
        let g_vec = Self::hash_generators(label, &" : g_".as_bytes_vec(), g_count);
        let h_vec = Self::hash_generators(label, &" : h_".as_bytes_vec(), h_count);
        SetupParams { G: g, G_vec: g_vec, H_vec: h_vec }
    }

    /// One indexed generator family.
    fn hash_generators(label: &Vec<u8>, tag: &Vec<u8>, count: u32) -> (r: Vec<G1Elem>)
        ensures
            r@.len() == count,
            forall|i: int|
                0 <= i < count ==> (#[trigger] r@[i])@ == g1_hash_of(
                    spec_gen_label(label@, tag@, i as u32),
                ),
    {
        let mut out: Vec<G1Elem> = Vec::new();
        let mut i: u32 = 0;
        while i < count
            invariant
                i <= count,
                out@.len() == i,
                forall|j: int|
                    0 <= j < i ==> (#[trigger] out@[j])@ == g1_hash_of(
                        spec_gen_label(label@, tag@, j as u32),
                    ),
            decreases count - i,
        {
            let mut li = dup_bytes(label);
            append_bytes(&mut li, tag);
            let ib = u32_le_bytes(i);
            append_bytes(&mut li, &ib);
            out.push(g1_hash_to_curve(&li));
            i = i + 1;
        }
        out
    }

    /// Parameters for a perfect range of the form `[0, base^l)`.
    pub fn new_for_perfect_range_proof(
        label: &Vec<u8>,
        base: u16,
        num_value_bits: u16,
        num_proofs: u32,
    ) -> (r: Self)
        requires
            2 <= base,
            spec_no_of_g(base as int, num_value_bits as int, num_proofs as int) <= u32::MAX,
        ensures
            r.G_vec@.len() == spec_no_of_g(base as int, num_value_bits as int, num_proofs as int),
            r.H_vec@.len() == 8,
    {
        let count = Self::get_no_of_G(base, num_value_bits, num_proofs);
        Self::new(label, count, 8)
    }

    /// Parameters for an arbitrary range of the form `[a, b)`: twice the
    /// generators of a perfect range.
    pub fn new_for_arbitrary_range_proof(
        label: &Vec<u8>,
        base: u16,
        num_value_bits: u16,
        num_proofs: u32,
    ) -> (r: Self)
        requires
            2 <= base,
            num_proofs * 2 <= u32::MAX,
            spec_no_of_g(base as int, num_value_bits as int, num_proofs as int * 2) <= u32::MAX,
        ensures
            r.G_vec@.len() == spec_no_of_g(
                base as int,
                num_value_bits as int,
                num_proofs as int * 2,
            ),
            r.H_vec@.len() == 8,
    {
        Self::new_for_perfect_range_proof(label, base, num_value_bits, num_proofs * 2)
    }

    /// The Pedersen commitment `C = v * G + gamma * H_vec[0]`.
    pub fn compute_pedersen_commitment(&self, v: u64, gamma: &Scalar) -> (r: G1Elem)
        requires
            self.H_vec@.len() >= 1,
        ensures
            r@ == g1_add_of(
                g1_mul_of(self.G@, sc_of_u64(v)),
                g1_mul_of(self.H_vec@[0]@, gamma@),
            ),
    {
        let vs = scalar_from_u64(v);
        g1_add(&g1_mul(&self.G, &vs), &g1_mul(&self.H_vec[0], gamma))
    }

    /// The commitment `v * G + <G_vec, n> + <H_vec, l>`.
    pub fn compute_commitment(&self, v: &Scalar, l: &Vec<Scalar>, n: &Vec<Scalar>) -> (r: G1Elem)
        requires
            n@.len() == self.G_vec@.len(),
            l@.len() == self.H_vec@.len(),
        ensures
            r@ == spec_commitment_given_bases(
                v@,
                scalar_views(l@),
                scalar_views(n@),
                self.G@,
                g1_views(self.G_vec@),
                g1_views(self.H_vec@),
            ),
    {
        Self::compute_commitment_given_bases(v, l, n, &self.G, &self.G_vec, &self.H_vec)
    }

    /// The commitment `v * g + <g_vec, n> + <h_vec, l>` over explicit
    /// bases.
    pub fn compute_commitment_given_bases(
        v: &Scalar,
        l: &Vec<Scalar>,
        n: &Vec<Scalar>,
        g: &G1Elem,
        g_vec: &Vec<G1Elem>,
        h_vec: &Vec<G1Elem>,
    ) -> (r: G1Elem)
        requires
            n@.len() == g_vec@.len(),
            l@.len() == h_vec@.len(),
        ensures
            r@ == spec_commitment_given_bases(
                v@,
                scalar_views(l@),
                scalar_views(n@),
                g@,
                g1_views(g_vec@),
                g1_views(h_vec@),
            ),
    {
        g1_add(
            &g1_add(&g1_mul(g, v), &g1_msm(g_vec, n)),
            &g1_msm(h_vec, l),
        )
    }

    /// Samples the blinding and returns it with the commitment.
    pub fn gen_randomness_and_compute_commitment(
        &self,
        rng: &mut FieldRng,
        l: &Vec<Scalar>,
        n: &Vec<Scalar>,
    ) -> (r: (Scalar, G1Elem))
        requires
            n@.len() == self.G_vec@.len(),
            l@.len() == self.H_vec@.len(),
        ensures
            r.1@ == spec_commitment_given_bases(
                r.0@,
                scalar_views(l@),
                scalar_views(n@),
                self.G@,
                g1_views(self.G_vec@),
                g1_views(self.H_vec@),
            ),
    {
        let v = random_scalar(rng);
        let c = self.compute_commitment(&v, l, n);
        (v, c)
    }

    /// The two-generator Pedersen key hidden in the parameters.
    pub fn get_pedersen_commitment_key(&self) -> (r: (G1Elem, G1Elem))
        requires
            self.H_vec@.len() >= 1,
        ensures
            r.0@ == self.G@,
            r.1@ == self.H_vec@[0]@,
    {
        (self.G.dup(), self.H_vec[0].dup())
    }

    /// How many generators the proofs need: one per digit per proof, at
    /// least one per base digit.
    pub fn get_no_of_G(base: u16, num_value_bits: u16, num_proofs: u32) -> (r: u32)
        requires
            2 <= base,
            spec_no_of_g(base as int, num_value_bits as int, num_proofs as int) <= u32::MAX,
        ensures
            r == spec_no_of_g(base as int, num_value_bits as int, num_proofs as int),
    {
        let bb = base_bits(base);
        proof {
            lemma_base_bits_pos(base as int);
        }
        let digits = (num_value_bits / bb) as u32;
        let per_proof = if digits >= base as u32 {
            digits
        } else {
            base as u32
        };
        proof {
            assert(per_proof * num_proofs <= u32::MAX);
        }
        per_proof * num_proofs
    }
}

/// The generator count: the larger of the digit count and the base, per
/// proof.
pub open spec fn spec_no_of_g(base: int, num_value_bits: int, num_proofs: int) -> int {
    let digits = num_value_bits / spec_base_bits(base);
    (if digits >= base {
        digits
    } else {
        base
    }) * num_proofs
}

/// A base of at least two has at least one digit bit.
pub proof fn lemma_base_bits_pos(b: int)
    requires
        b >= 2,
    ensures
        spec_base_bits(b) >= 1,
{
    lemma_base_bits_nonneg(b / 2);
}

/// The commitment `v * g + <g_vec, n> + <h_vec, l>`, over the names of
/// the curve operations.
pub open spec fn spec_commitment_given_bases(
    v: Seq<u8>,
    l: Seq<Seq<u8>>,
    n: Seq<Seq<u8>>,
    g: Seq<u8>,
    g_vec: Seq<Seq<u8>>,
    h_vec: Seq<Seq<u8>>,
) -> Seq<u8> {
    g1_add_of(g1_add_of(g1_mul_of(g, v), g1_msm_of(g_vec, n)), g1_msm_of(h_vec, l))
}

} // verus!
