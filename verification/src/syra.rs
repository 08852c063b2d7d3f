//! Pseudonym generation with a proof of correctness: the user encrypts
//! both halves of the verifiable-random-function key under the issuer's
//! keys, publishes the pseudonym pairing, and proves consistency of all
//! exponents with a multi-relation Schnorr protocol over the pairing
//! target group.

use vstd::prelude::*;

use crate::algebra::{
    g1_add, g1_add_of, g1_mul, g1_mul_of, g1_neg, g1_neg_of, g2_add, g2_add_of, g2_mul,
    g2_mul_of, gt_add, gt_add_of, gt_mul_of, gt_mul_scalar, gt_sub, gt_sub_of, multi_pairing,
    pairing_of, random_scalar, sc_mul_of, sc_sub_of, sc_add_of, scalar_add, scalar_mul,
    scalar_neg, scalar_sub, sc_neg_of, FieldRng, G1Elem, G2Elem, GtElem, Scalar,
};
use crate::bytes::{append_bytes, bytes_eq};

verus! {

/// Why a pseudonym proof was rejected.
#[derive(Debug, Clone, Copy, PartialEq, Eq)]
pub enum SyraError {
    InvalidProof,
}

/// The scheme's public parameters: a base point in each group and their
/// pairing.
#[derive(Debug, PartialEq)]
pub struct SetupParams {
    pub g: G1Elem,
    pub g_hat: G2Elem,
    pub pairing: GtElem,
}

impl SetupParams {
    /// Parameters around the two base points; the pairing is computed
    /// once here.
    pub fn new(g: G1Elem, g_hat: G2Elem) -> (r: SetupParams)
        ensures
            r.g@ == g@,
            r.g_hat@ == g_hat@,
            r.pairing@ == pairing_of(seq![g@], seq![g_hat@]),
    {
        let mut ps: Vec<G1Elem> = Vec::new();
        ps.push(g.dup());
        let mut qs: Vec<G2Elem> = Vec::new();
        qs.push(g_hat.dup());
        proof {
            assert(crate::algebra::g1_views(ps@) =~= seq![g@]);
            assert(crate::algebra::g2_views(qs@) =~= seq![g_hat@]);
        }
        let pairing = multi_pairing(&ps, &qs);
        SetupParams { g, g_hat, pairing }
    }
}

/// The issuer's public key with the precomputed pairings the protocol
/// uses: `e(W, g_hat)`, `e(-g, W_hat)` and `e(W, vk)`.
#[derive(Debug, PartialEq)]
pub struct PreparedIssuerPublicKey {
    pub w: G1Elem,
    pub w_hat: G2Elem,
    pub vk: G2Elem,
    pub w_g_hat: GtElem,
    pub minus_g_w_hat: GtElem,
    pub w_vk: GtElem,
}

impl PreparedIssuerPublicKey {
    /// Precomputes the three pairings of the issuer key.
    pub fn new(w: G1Elem, w_hat: G2Elem, vk: G2Elem, params: &SetupParams) -> (r: Self)
        ensures
            r.w@ == w@,
            r.w_hat@ == w_hat@,
            r.vk@ == vk@,
            r.w_g_hat@ == pairing_of(seq![w@], seq![params.g_hat@]),
            r.minus_g_w_hat@ == pairing_of(seq![g1_neg_of(params.g@)], seq![w_hat@]),
            r.w_vk@ == pairing_of(seq![w@], seq![vk@]),
    {
        let w_g_hat = pair_one(&w, &params.g_hat);
        let minus_g = g1_neg(&params.g);
        let minus_g_w_hat = pair_one(&minus_g, &w_hat);
        let w_vk = pair_one(&w, &vk);
        PreparedIssuerPublicKey { w, w_hat, vk, w_g_hat, minus_g_w_hat, w_vk }
    }
}

/// The pairing of a single pair of points.
pub fn pair_one(p: &G1Elem, q: &G2Elem) -> (r: GtElem)
    ensures
        r@ == pairing_of(seq![p@], seq![q@]),
{
    let mut ps: Vec<G1Elem> = Vec::new();
    ps.push(p.dup());
    let mut qs: Vec<G2Elem> = Vec::new();
    qs.push(q.dup());
    proof {
        assert(crate::algebra::g1_views(ps@) =~= seq![p@]);
        assert(crate::algebra::g2_views(qs@) =~= seq![q@]);
    }
    multi_pairing(&ps, &qs)
}

/// The user's secret key: one point in each group, sharing the secret
/// exponent.
#[derive(Debug, PartialEq)]
pub struct UserSecretKey {
    pub sk: G1Elem,
    pub sk_hat: G2Elem,
}

/// An Elgamal ciphertext in the first group.
#[derive(Debug, PartialEq)]
pub struct ElgamalCiphertextG1 {
    pub eph_pk: G1Elem,
    pub encrypted: G1Elem,
}

/// An Elgamal ciphertext in the second group.
#[derive(Debug, PartialEq)]
pub struct ElgamalCiphertextG2 {
    pub eph_pk: G2Elem,
    pub encrypted: G2Elem,
}

/// Encrypts a first-group point under the given key with the given
/// randomness.
pub fn elgamal_encrypt_g1(
    msg: &G1Elem,
    randomness: &Scalar,
    pk: &G1Elem,
    gen: &G1Elem,
) -> (r: ElgamalCiphertextG1)
    ensures
        r.eph_pk@ == g1_mul_of(gen@, randomness@),
        r.encrypted@ == g1_add_of(msg@, g1_mul_of(pk@, randomness@)),
{
    ElgamalCiphertextG1 {
        eph_pk: g1_mul(gen, randomness),
        encrypted: g1_add(msg, &g1_mul(pk, randomness)),
    }
}

/// Encrypts a second-group point under the given key with the given
/// randomness.
pub fn elgamal_encrypt_g2(
    msg: &G2Elem,
    randomness: &Scalar,
    pk: &G2Elem,
    gen: &G2Elem,
) -> (r: ElgamalCiphertextG2)
    ensures
        r.eph_pk@ == g2_mul_of(gen@, randomness@),
        r.encrypted@ == g2_add_of(msg@, g2_mul_of(pk@, randomness@)),
{
    ElgamalCiphertextG2 {
        eph_pk: g2_mul(gen, randomness),
        encrypted: g2_add(msg, &g2_mul(pk, randomness)),
    }
}

/// Protocol state for generating a pseudonym with its proof.
#[derive(Debug, PartialEq)]
pub struct PseudonymGenProtocol {
    pub alpha: Scalar,
    pub beta: Scalar,
    pub s: Scalar,
    pub beta_times_s: Scalar,
    pub r1: Scalar,
    pub r2: Scalar,
    pub r3: Scalar,
    /// The pseudonym itself.
    pub T: GtElem,
    pub C: ElgamalCiphertextG1,
    pub C_hat: ElgamalCiphertextG2,
    pub K1: GtElem,
    pub K2: GtElem,
    pub blinding_alpha: Scalar,
    pub blinding_beta: Scalar,
    pub blinding_s: Scalar,
    pub blinding_beta_times_s: Scalar,
    pub blinding_r1: Scalar,
    pub blinding_r2: Scalar,
    pub blinding_r3: Scalar,
    pub t_C1: G1Elem,
    pub t_C1_hat: G2Elem,
    pub t_B: GtElem,
    pub t_E: GtElem,
    pub t_H: GtElem,
    pub t_K1: GtElem,
    pub t_K2: GtElem,
    pub t_K2_product: GtElem,
}

/// The pseudonym together with its proof of correctness.
#[derive(Debug, PartialEq)]
pub struct PseudonymProof {
    /// The pseudonym itself.
    pub T: GtElem,
    pub C: ElgamalCiphertextG1,
    pub C_hat: ElgamalCiphertextG2,
    pub K1: GtElem,
    pub K2: GtElem,
    pub t_C1: G1Elem,
    pub t_C1_hat: G2Elem,
    pub t_B: GtElem,
    pub t_E: GtElem,
    pub t_H: GtElem,
    pub t_K1: GtElem,
    pub t_K2: GtElem,
    pub t_K2_product: GtElem,
    pub resp_alpha: Scalar,
    pub resp_beta: Scalar,
    pub resp_s: Scalar,
    pub resp_beta_times_s: Scalar,
    pub resp_r1: Scalar,
    pub resp_r2: Scalar,
    pub resp_r3: Scalar,
}

/// The derived pairing `E = e(C2, g_hat) - e(g, C2_hat)`.
pub open spec fn spec_e_value(
    c2: Seq<u8>,
    c2_hat: Seq<u8>,
    params: SetupParams,
) -> Seq<u8> {
    gt_sub_of(
        pairing_of(seq![c2], seq![params.g_hat@]),
        pairing_of(seq![params.g@], seq![c2_hat]),
    )
}

/// The derived pairing `J = e(-C2, g_hat)`.
pub open spec fn spec_j_value(c2: Seq<u8>, params: SetupParams) -> Seq<u8> {
    pairing_of(seq![g1_neg_of(c2)], seq![params.g_hat@])
}

/// How every announcement of the protocol state relates to its secrets
/// and blindings.
pub open spec fn pseudonym_init_ok(
    z: Seq<u8>,
    s_val: Seq<u8>,
    usk: UserSecretKey,
    ipk: PreparedIssuerPublicKey,
    params: SetupParams,
    st: PseudonymGenProtocol,
) -> bool {
    let e_v = spec_e_value(st.C.encrypted@, st.C_hat.encrypted@, params);
    let j_v = spec_j_value(st.C.encrypted@, params);
    let f = ipk.w_g_hat@;
    let g_v = ipk.minus_g_w_hat@;
    let i_v = ipk.w_vk@;
    let f_bs = gt_mul_of(f, st.blinding_beta_times_s@);
    &&& st.s@ == s_val
    &&& st.beta_times_s@ == sc_mul_of(st.beta@, s_val)
    &&& st.T@ == pairing_of(seq![z], seq![usk.sk_hat@])
    &&& st.C.eph_pk@ == g1_mul_of(params.g@, st.beta@)
    &&& st.C.encrypted@ == g1_add_of(usk.sk@, g1_mul_of(ipk.w@, st.beta@))
    &&& st.C_hat.eph_pk@ == g2_mul_of(params.g_hat@, st.alpha@)
    &&& st.C_hat.encrypted@ == g2_add_of(usk.sk_hat@, g2_mul_of(ipk.w_hat@, st.alpha@))
    &&& st.r3@ == sc_sub_of(st.r2@, sc_mul_of(st.alpha@, s_val))
    &&& st.K1@ == gt_add_of(gt_mul_of(f, s_val), gt_mul_of(g_v, st.r1@))
    &&& st.K2@ == gt_add_of(gt_mul_of(f, st.beta_times_s@), gt_mul_of(g_v, st.r2@))
    &&& st.t_C1@ == g1_mul_of(params.g@, st.blinding_beta@)
    &&& st.t_C1_hat@ == g2_mul_of(params.g_hat@, st.blinding_alpha@)
    &&& st.t_B@ == gt_mul_of(pairing_of(seq![z], seq![ipk.w_hat@]), st.blinding_alpha@)
    &&& st.t_E@ == gt_add_of(
        gt_mul_of(f, st.blinding_beta@),
        gt_mul_of(g_v, st.blinding_alpha@),
    )
    &&& st.t_H@ == gt_add_of(
        gt_add_of(gt_mul_of(i_v, st.blinding_beta@), f_bs),
        gt_mul_of(j_v, st.blinding_s@),
    )
    &&& st.t_K1@ == gt_add_of(gt_mul_of(f, st.blinding_s@), gt_mul_of(g_v, st.blinding_r1@))
    &&& st.t_K2@ == gt_add_of(f_bs, gt_mul_of(g_v, st.blinding_r2@))
    &&& st.t_K2_product@ == gt_add_of(
        gt_mul_of(e_v, st.blinding_s@),
        gt_mul_of(g_v, st.blinding_r3@),
    )
}

impl PseudonymGenProtocol {
    /// Starts the protocol: `z` is the context mapped to a point, `s` the
    /// user identifier, and the caller may fix the blinding for `s` to
    /// tie it to another relation.
    pub fn init(
        rng: &mut FieldRng,
        z: &G1Elem,
        s: &Scalar,
        blinding: Option<Scalar>,
        user_sk: &UserSecretKey,
        issuer_pk: &PreparedIssuerPublicKey,
        params: &SetupParams,
    ) -> (r: Self)
        ensures
            pseudonym_init_ok(z@, s@, *user_sk, *issuer_pk, *params, r),
            blinding matches Some(b) ==> r.blinding_s@ == b@,
    {
        let alpha = random_scalar(rng);
        let beta = random_scalar(rng);
        let beta_times_s = scalar_mul(&beta, s);
        let t = pair_one(z, &user_sk.sk_hat);
        let c = elgamal_encrypt_g1(&user_sk.sk, &beta, &issuer_pk.w, &params.g);
        let c_hat = elgamal_encrypt_g2(&user_sk.sk_hat, &alpha, &issuer_pk.w_hat, &params.g_hat);

        let a_v = pair_one(z, &issuer_pk.w_hat);
        let e_v = gt_sub(
            &pair_one(&c.encrypted, &params.g_hat),
            &pair_one(&params.g, &c_hat.encrypted),
        );
        let j_v = pair_one(&g1_neg(&c.encrypted), &params.g_hat);

        let r1 = random_scalar(rng);
        let r2 = random_scalar(rng);
        let r3 = scalar_sub(&r2, &scalar_mul(&alpha, s));
        let k1 = gt_add(
            &gt_mul_scalar(&issuer_pk.w_g_hat, s),
            &gt_mul_scalar(&issuer_pk.minus_g_w_hat, &r1),
        );
        let k2 = gt_add(
            &gt_mul_scalar(&issuer_pk.w_g_hat, &beta_times_s),
            &gt_mul_scalar(&issuer_pk.minus_g_w_hat, &r2),
        );

        let blinding_alpha = random_scalar(rng);
        let blinding_beta = random_scalar(rng);
        let blinding_s = match blinding {
            Some(b) => b,
            None => random_scalar(rng),
        };
        let blinding_beta_times_s = random_scalar(rng);
        let blinding_r1 = random_scalar(rng);
        let blinding_r2 = random_scalar(rng);
        let blinding_r3 = random_scalar(rng);

        let t_C1 = g1_mul(&params.g, &blinding_beta);
        let t_C1_hat = g2_mul(&params.g_hat, &blinding_alpha);
        let t_B = gt_mul_scalar(&a_v, &blinding_alpha);
        let t_E = gt_add(
            &gt_mul_scalar(&issuer_pk.w_g_hat, &blinding_beta),
            &gt_mul_scalar(&issuer_pk.minus_g_w_hat, &blinding_alpha),
        );
        let f_bs = gt_mul_scalar(&issuer_pk.w_g_hat, &blinding_beta_times_s);
        let t_H = gt_add(
            &gt_add(&gt_mul_scalar(&issuer_pk.w_vk, &blinding_beta), &f_bs),
            &gt_mul_scalar(&j_v, &blinding_s),
        );
        let t_K1 = gt_add(
            &gt_mul_scalar(&issuer_pk.w_g_hat, &blinding_s),
            &gt_mul_scalar(&issuer_pk.minus_g_w_hat, &blinding_r1),
        );
        let t_K2 = gt_add(&f_bs, &gt_mul_scalar(&issuer_pk.minus_g_w_hat, &blinding_r2));
        let t_K2_product = gt_add(
            &gt_mul_scalar(&e_v, &blinding_s),
            &gt_mul_scalar(&issuer_pk.minus_g_w_hat, &blinding_r3),
        );

        PseudonymGenProtocol {
            alpha,
            beta,
            s: s.dup(),
            beta_times_s,
            r1,
            r2,
            r3,
            T: t,
            C: c,
            C_hat: c_hat,
            K1: k1,
            K2: k2,
            blinding_alpha,
            blinding_beta,
            blinding_s,
            blinding_beta_times_s,
            blinding_r1,
            blinding_r2,
            blinding_r3,
            t_C1,
            t_C1_hat,
            t_B,
            t_E,
            t_H,
            t_K1,
            t_K2,
            t_K2_product,
        }
    }

    /// Appends this protocol's challenge contribution.
    pub fn challenge_contribution(&self, z: &G1Elem, writer: &mut Vec<u8>)
        ensures
            final(writer)@ == old(writer)@ + pseudonym_contribution_bytes(
                z@,
                self.T@,
                self.C,
                self.C_hat,
                self.K1@,
                self.K2@,
                self.t_C1@,
                self.t_C1_hat@,
                self.t_B@,
                self.t_E@,
                self.t_H@,
                self.t_K1@,
                self.t_K2@,
                self.t_K2_product@,
            ),
    {
        Self::compute_challenge_contribution(
            z,
            &self.T,
            &self.C,
            &self.C_hat,
            &self.K1,
            &self.K2,
            &self.t_C1,
            &self.t_C1_hat,
            &self.t_B,
            &self.t_E,
            &self.t_H,
            &self.t_K1,
            &self.t_K2,
            &self.t_K2_product,
            writer,
        );
    }

    /// Finishes the proof once the challenge is known.
    pub fn gen_proof(self, challenge: &Scalar) -> (r: PseudonymProof)
        ensures
            r.T == self.T,
            r.C == self.C,
            r.C_hat == self.C_hat,
            r.K1 == self.K1,
            r.K2 == self.K2,
            r.t_C1 == self.t_C1,
            r.t_C1_hat == self.t_C1_hat,
            r.t_B == self.t_B,
            r.t_E == self.t_E,
            r.t_H == self.t_H,
            r.t_K1 == self.t_K1,
            r.t_K2 == self.t_K2,
            r.t_K2_product == self.t_K2_product,
            r.resp_beta@ == sc_add_of(self.blinding_beta@, sc_mul_of(self.beta@, challenge@)),
            r.resp_alpha@ == sc_add_of(self.blinding_alpha@, sc_mul_of(self.alpha@, challenge@)),
            r.resp_s@ == sc_add_of(self.blinding_s@, sc_mul_of(self.s@, challenge@)),
            r.resp_beta_times_s@ == sc_add_of(
                self.blinding_beta_times_s@,
                sc_mul_of(self.beta_times_s@, challenge@),
            ),
            r.resp_r1@ == sc_add_of(self.blinding_r1@, sc_mul_of(self.r1@, challenge@)),
            r.resp_r2@ == sc_add_of(self.blinding_r2@, sc_mul_of(self.r2@, challenge@)),
            r.resp_r3@ == sc_add_of(self.blinding_r3@, sc_mul_of(self.r3@, challenge@)),
    {
        let resp_beta = scalar_add(&self.blinding_beta, &scalar_mul(&self.beta, challenge));
        let resp_alpha = scalar_add(&self.blinding_alpha, &scalar_mul(&self.alpha, challenge));
        let resp_s = scalar_add(&self.blinding_s, &scalar_mul(&self.s, challenge));
        let resp_beta_times_s = scalar_add(
            &self.blinding_beta_times_s,
            &scalar_mul(&self.beta_times_s, challenge),
        );
        let resp_r1 = scalar_add(&self.blinding_r1, &scalar_mul(&self.r1, challenge));
        let resp_r2 = scalar_add(&self.blinding_r2, &scalar_mul(&self.r2, challenge));
        let resp_r3 = scalar_add(&self.blinding_r3, &scalar_mul(&self.r3, challenge));
        PseudonymProof {
            T: self.T,
            C: self.C,
            C_hat: self.C_hat,
            K1: self.K1,
            K2: self.K2,
            t_C1: self.t_C1,
            t_C1_hat: self.t_C1_hat,
            t_B: self.t_B,
            t_E: self.t_E,
            t_H: self.t_H,
            t_K1: self.t_K1,
            t_K2: self.t_K2,
            t_K2_product: self.t_K2_product,
            resp_alpha,
            resp_beta,
            resp_s,
            resp_beta_times_s,
            resp_r1,
            resp_r2,
            resp_r3,
        }
    }

    /// Appends the challenge contribution of a pseudonym and its
    /// announcements.
    pub fn compute_challenge_contribution(
        z: &G1Elem,
        t: &GtElem,
        c: &ElgamalCiphertextG1,
        c_hat: &ElgamalCiphertextG2,
        k1: &GtElem,
        k2: &GtElem,
        t_c1: &G1Elem,
        t_c1_hat: &G2Elem,
        t_b: &GtElem,
        t_e: &GtElem,
        t_h: &GtElem,
        t_k1: &GtElem,
        t_k2: &GtElem,
        t_k2_product: &GtElem,
        writer: &mut Vec<u8>,
    )
        ensures
            final(writer)@ == old(writer)@ + pseudonym_contribution_bytes(
                z@,
                t@,
                *c,
                *c_hat,
                k1@,
                k2@,
                t_c1@,
                t_c1_hat@,
                t_b@,
                t_e@,
                t_h@,
                t_k1@,
                t_k2@,
                t_k2_product@,
            ),
    {
        append_bytes(writer, &z.b);
        append_bytes(writer, &t.b);
        append_bytes(writer, &c.eph_pk.b);
        append_bytes(writer, &c.encrypted.b);
        append_bytes(writer, &c_hat.eph_pk.b);
        append_bytes(writer, &c_hat.encrypted.b);
        append_bytes(writer, &k1.b);
        append_bytes(writer, &k2.b);
        append_bytes(writer, &t_c1.b);
        append_bytes(writer, &t_c1_hat.b);
        append_bytes(writer, &t_b.b);
        append_bytes(writer, &t_e.b);
        append_bytes(writer, &t_h.b);
        append_bytes(writer, &t_k1.b);
        append_bytes(writer, &t_k2.b);
        append_bytes(writer, &t_k2_product.b);
    }
}

/// The challenge-contribution bytes of a pseudonym and its announcements,
/// in order.
pub open spec fn pseudonym_contribution_bytes(
    z: Seq<u8>,
    t: Seq<u8>,
    c: ElgamalCiphertextG1,
    c_hat: ElgamalCiphertextG2,
    k1: Seq<u8>,
    k2: Seq<u8>,
    t_c1: Seq<u8>,
    t_c1_hat: Seq<u8>,
    t_b: Seq<u8>,
    t_e: Seq<u8>,
    t_h: Seq<u8>,
    t_k1: Seq<u8>,
    t_k2: Seq<u8>,
    t_k2_product: Seq<u8>,
) -> Seq<u8> {
    z + t + c.eph_pk@ + c.encrypted@ + c_hat.eph_pk@ + c_hat.encrypted@ + k1 + k2 + t_c1
        + t_c1_hat + t_b + t_e + t_h + t_k1 + t_k2 + t_k2_product
}

/// The verifier's eight announcement recomputations, over the names of
/// the pairing operations; the proof is accepted iff all agree.
pub open spec fn pseudonym_checks_ok(
    proof: PseudonymProof,
    challenge: Seq<u8>,
    z: Seq<u8>,
    ipk: PreparedIssuerPublicKey,
    params: SetupParams,
) -> bool {
    let minus_c = sc_neg_of(challenge);
    let a_v = pairing_of(seq![z], seq![ipk.w_hat@]);
    let b_v = gt_sub_of(pairing_of(seq![z], seq![proof.C_hat.encrypted@]), proof.T@);
    let e_v = spec_e_value(proof.C.encrypted@, proof.C_hat.encrypted@, params);
    let h_v = gt_sub_of(pairing_of(seq![proof.C.encrypted@], seq![ipk.vk@]), params.pairing@);
    let j_v = spec_j_value(proof.C.encrypted@, params);
    let f = ipk.w_g_hat@;
    let g_v = ipk.minus_g_w_hat@;
    let i_v = ipk.w_vk@;
    let f_bs = gt_mul_of(f, proof.resp_beta_times_s@);
    let k2_c = gt_mul_of(proof.K2@, minus_c);
    &&& proof.t_C1@ == g1_add_of(
        g1_mul_of(params.g@, proof.resp_beta@),
        g1_mul_of(proof.C.eph_pk@, minus_c),
    )
    &&& proof.t_C1_hat@ == g2_add_of(
        g2_mul_of(params.g_hat@, proof.resp_alpha@),
        g2_mul_of(proof.C_hat.eph_pk@, minus_c),
    )
    &&& proof.t_B@ == gt_add_of(gt_mul_of(a_v, proof.resp_alpha@), gt_mul_of(b_v, minus_c))
    &&& proof.t_E@ == gt_add_of(
        gt_add_of(gt_mul_of(f, proof.resp_beta@), gt_mul_of(g_v, proof.resp_alpha@)),
        gt_mul_of(e_v, minus_c),
    )
    &&& proof.t_H@ == gt_add_of(
        gt_add_of(
            gt_add_of(gt_mul_of(i_v, proof.resp_beta@), f_bs),
            gt_mul_of(j_v, proof.resp_s@),
        ),
        gt_mul_of(h_v, minus_c),
    )
    &&& proof.t_K1@ == gt_add_of(
        gt_add_of(gt_mul_of(f, proof.resp_s@), gt_mul_of(g_v, proof.resp_r1@)),
        gt_mul_of(proof.K1@, minus_c),
    )
    &&& proof.t_K2@ == gt_add_of(gt_add_of(f_bs, gt_mul_of(g_v, proof.resp_r2@)), k2_c)
    &&& proof.t_K2_product@ == gt_add_of(
        gt_add_of(gt_mul_of(e_v, proof.resp_s@), gt_mul_of(g_v, proof.resp_r3@)),
        k2_c,
    )
}

impl PseudonymProof {
    /// Verifies the pseudonym's proof of correctness.
    pub fn verify(
        &self,
        challenge: &Scalar,
        z: &G1Elem,
        issuer_pk: &PreparedIssuerPublicKey,
        params: &SetupParams,
    ) -> (r: Result<(), SyraError>)
        ensures
            r is Ok <==> pseudonym_checks_ok(*self, challenge@, z@, *issuer_pk, *params),
            r is Err ==> r == Result::<(), SyraError>::Err(SyraError::InvalidProof),
    {
        let minus_c = scalar_neg(challenge);
        let a_v = pair_one(z, &issuer_pk.w_hat);
        let b_v = gt_sub(&pair_one(z, &self.C_hat.encrypted), &self.T);
        let e_v = gt_sub(
            &pair_one(&self.C.encrypted, &params.g_hat),
            &pair_one(&params.g, &self.C_hat.encrypted),
        );
        let h_v = gt_sub(&pair_one(&self.C.encrypted, &issuer_pk.vk), &params.pairing);
        let j_v = pair_one(&g1_neg(&self.C.encrypted), &params.g_hat);

        let lhs1 = g1_add(
            &g1_mul(&params.g, &self.resp_beta),
            &g1_mul(&self.C.eph_pk, &minus_c),
        );
        if !bytes_eq(&lhs1.b, &self.t_C1.b) {
            return Err(SyraError::InvalidProof);
        }
        let lhs2 = g2_add(
            &g2_mul(&params.g_hat, &self.resp_alpha),
            &g2_mul(&self.C_hat.eph_pk, &minus_c),
        );
        if !bytes_eq(&lhs2.b, &self.t_C1_hat.b) {
            return Err(SyraError::InvalidProof);
        }
        let lhs3 = gt_add(
            &gt_mul_scalar(&a_v, &self.resp_alpha),
            &gt_mul_scalar(&b_v, &minus_c),
        );
        if !bytes_eq(&lhs3.b, &self.t_B.b) {
            return Err(SyraError::InvalidProof);
        }
        let lhs4 = gt_add(
            &gt_add(
                &gt_mul_scalar(&issuer_pk.w_g_hat, &self.resp_beta),
                &gt_mul_scalar(&issuer_pk.minus_g_w_hat, &self.resp_alpha),
            ),
            &gt_mul_scalar(&e_v, &minus_c),
        );
        if !bytes_eq(&lhs4.b, &self.t_E.b) {
            return Err(SyraError::InvalidProof);
        }
        let f_bs = gt_mul_scalar(&issuer_pk.w_g_hat, &self.resp_beta_times_s);
        let lhs5 = gt_add(
            &gt_add(
                &gt_add(&gt_mul_scalar(&issuer_pk.w_vk, &self.resp_beta), &f_bs),
                &gt_mul_scalar(&j_v, &self.resp_s),
            ),
            &gt_mul_scalar(&h_v, &minus_c),
        );
        if !bytes_eq(&lhs5.b, &self.t_H.b) {
            return Err(SyraError::InvalidProof);
        }
        let lhs6 = gt_add(
            &gt_add(
                &gt_mul_scalar(&issuer_pk.w_g_hat, &self.resp_s),
                &gt_mul_scalar(&issuer_pk.minus_g_w_hat, &self.resp_r1),
            ),
            &gt_mul_scalar(&self.K1, &minus_c),
        );
        if !bytes_eq(&lhs6.b, &self.t_K1.b) {
            return Err(SyraError::InvalidProof);
        }
        let k2_c = gt_mul_scalar(&self.K2, &minus_c);
        let lhs7 = gt_add(
            &gt_add(&f_bs, &gt_mul_scalar(&issuer_pk.minus_g_w_hat, &self.resp_r2)),
            &k2_c,
        );
        if !bytes_eq(&lhs7.b, &self.t_K2.b) {
            return Err(SyraError::InvalidProof);
        }
        let lhs8 = gt_add(
            &gt_add(
                &gt_mul_scalar(&e_v, &self.resp_s),
                &gt_mul_scalar(&issuer_pk.minus_g_w_hat, &self.resp_r3),
            ),
            &k2_c,
        );
        if !bytes_eq(&lhs8.b, &self.t_K2_product.b) {
            return Err(SyraError::InvalidProof);
        }
        Ok(())
    }

    /// Appends this proof's challenge contribution; byte-identical to the
    /// protocol's own when the announcements agree.
    pub fn challenge_contribution(&self, z: &G1Elem, writer: &mut Vec<u8>)
        ensures
            final(writer)@ == old(writer)@ + pseudonym_contribution_bytes(
                z@,
                self.T@,
                self.C,
                self.C_hat,
                self.K1@,
                self.K2@,
                self.t_C1@,
                self.t_C1_hat@,
                self.t_B@,
                self.t_E@,
                self.t_H@,
                self.t_K1@,
                self.t_K2@,
                self.t_K2_product@,
            ),
    {
        PseudonymGenProtocol::compute_challenge_contribution(
            z,
            &self.T,
            &self.C,
            &self.C_hat,
            &self.K1,
            &self.K2,
            &self.t_C1,
            &self.t_C1_hat,
            &self.t_B,
            &self.t_E,
            &self.t_H,
            &self.t_K1,
            &self.t_K2,
            &self.t_K2_product,
            writer,
        );
    }
}

} // verus!
