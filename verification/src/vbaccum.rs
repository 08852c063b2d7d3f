//! Zero-knowledge proofs of membership and non-membership for the
//! bilinear-pairing accumulator: the witness is randomized, Schnorr
//! commitments are formed over the randomizers, and the verifier recomputes
//! every commitment from the responses and the challenge.

use vstd::prelude::*;

use crate::algebra::{
    g1_add, g1_add_of, g1_hash_of, g1_hash_to_curve, g1_mul, g1_mul_of, g1_neg, g1_neg_of,
    multi_pairing, pairing_of, random_g1, random_scalar, sc_add_of, sc_inv_of, sc_mul_of,
    sc_neg_of, scalar_add, scalar_inv, scalar_mul, scalar_neg, FieldRng, G1Elem, G2Elem, GtElem,
    Scalar,
};
use crate::bytes::{append_bytes, bytes_eq};
use vstd::string::{StrSliceExecFns, StringSliceAdditionalSpecFns};

verus! {

/// Why an accumulator proof was rejected.
#[derive(Debug, Clone, Copy, PartialEq, Eq)]
pub enum VBAccumulatorError {
    SigmaResponseInvalid,
    RhoResponseInvalid,
    DeltaSigmaResponseInvalid,
    DeltaRhoResponseInvalid,
    PairingResponseInvalid,
    E_d_ResponseInvalid,
    E_d_inv_ResponseInvalid,
}

/// The accumulator's public parameters: the base points of both groups.
#[derive(Debug, PartialEq)]
pub struct SetupParams {
    pub P: G1Elem,
    pub P_tilde: G2Elem,
}

/// The accumulator manager's public key.
#[derive(Debug, PartialEq)]
pub struct PublicKey(pub G2Elem);

/// Proving key agreed between prover and verifier; common part of the
/// membership and non-membership keys.
#[derive(Debug, PartialEq)]
pub struct ProvingKey {
    pub X: G1Elem,
    pub Y: G1Elem,
    pub Z: G1Elem,
}

/// Proving key for membership proofs.
#[derive(Debug, PartialEq)]
pub struct MembershipProvingKey(pub ProvingKey);

/// Proving key for non-membership proofs.
#[derive(Debug, PartialEq)]
pub struct NonMembershipProvingKey {
    pub XYZ: ProvingKey,
    pub K: G1Elem,
}

/// A membership witness: one point of the first group.
#[derive(Debug, PartialEq)]
pub struct MembershipWitness(pub G1Elem);

/// A non-membership witness: a point and the non-zero offset scalar.
#[derive(Debug, PartialEq)]
pub struct NonMembershipWitness {
    pub d: Scalar,
    pub C: G1Elem,
}

/// The randomized witness common to both proof kinds.
#[derive(Debug, PartialEq)]
pub struct RandomizedWitness {
    pub E_C: G1Elem,
    pub T_sigma: G1Elem,
    pub T_rho: G1Elem,
}

/// The Schnorr blindings common to both proof kinds.
#[derive(Debug, PartialEq)]
pub struct Blindings {
    pub sigma: Scalar,
    pub rho: Scalar,
    pub delta_sigma: Scalar,
    pub delta_rho: Scalar,
    pub r_y: Scalar,
    pub r_sigma: Scalar,
    pub r_rho: Scalar,
    pub r_delta_sigma: Scalar,
    pub r_delta_rho: Scalar,
}

/// The Schnorr commitments common to both proof kinds.
#[derive(Debug, PartialEq)]
pub struct SchnorrCommit {
    pub R_E: GtElem,
    pub R_sigma: G1Elem,
    pub R_rho: G1Elem,
    pub R_delta_sigma: G1Elem,
    pub R_delta_rho: G1Elem,
}

/// The Schnorr responses common to both proof kinds.
#[derive(Debug, PartialEq)]
pub struct SchnorrResponse {
    pub s_y: Scalar,
    pub s_sigma: Scalar,
    pub s_rho: Scalar,
    pub s_delta_sigma: Scalar,
    pub s_delta_rho: Scalar,
}

impl SchnorrResponse {
    /// The response for the accumulated element itself, for use where the
    /// element is shared with another relation.
    pub fn get_response_for_element(&self) -> (r: &Scalar)
        ensures
            r@ == self.s_y@,
    {
        &self.s_y
    }
}

impl ProvingKey {
    /// Three uniformly random generators.
    fn generate_proving_key_using_rng(rng: &mut FieldRng) -> ProvingKey {
        ProvingKey { X: random_g1(rng), Y: random_g1(rng), Z: random_g1(rng) }
    }

    /// Three generators derived from a label by hashing to the curve.
    fn generate_proving_key_using_hash(label: &Vec<u8>) -> (r: ProvingKey)
        ensures
            r.X@ == g1_hash_of(label@ + " : X".spec_bytes()),
            r.Y@ == g1_hash_of(label@ + " : Y".spec_bytes()),
            r.Z@ == g1_hash_of(label@ + " : Z".spec_bytes()),
    {
        let mut lx = crate::bytes::dup_bytes(label);
        append_bytes(&mut lx, &" : X".as_bytes_vec());
        let mut ly = crate::bytes::dup_bytes(label);
        append_bytes(&mut ly, &" : Y".as_bytes_vec());
        let mut lz = crate::bytes::dup_bytes(label);
        append_bytes(&mut lz, &" : Z".as_bytes_vec());
        ProvingKey {
            X: g1_hash_to_curve(&lx),
            Y: g1_hash_to_curve(&ly),
            Z: g1_hash_to_curve(&lz),
        }
    }
}

impl MembershipProvingKey {
    /// A random membership proving key.
    pub fn generate_using_rng(rng: &mut FieldRng) -> Self {
        MembershipProvingKey(ProvingKey::generate_proving_key_using_rng(rng))
    }

    /// A membership proving key derived from a label.
    pub fn new(label: &Vec<u8>) -> (r: Self)
        ensures
            r.0.X@ == g1_hash_of(label@ + " : X".spec_bytes()),
            r.0.Y@ == g1_hash_of(label@ + " : Y".spec_bytes()),
            r.0.Z@ == g1_hash_of(label@ + " : Z".spec_bytes()),
    {
        MembershipProvingKey(ProvingKey::generate_proving_key_using_hash(label))
    }
}

impl NonMembershipProvingKey {
    /// A random non-membership proving key.
    pub fn generate_using_rng(rng: &mut FieldRng) -> Self {
        let XYZ = ProvingKey::generate_proving_key_using_rng(rng);
        NonMembershipProvingKey { XYZ, K: random_g1(rng) }
    }

    /// A non-membership proving key derived from a label.
    pub fn new(label: &Vec<u8>) -> (r: Self)
        ensures
            r.XYZ.X@ == g1_hash_of(label@ + " : X".spec_bytes()),
            r.XYZ.Y@ == g1_hash_of(label@ + " : Y".spec_bytes()),
            r.XYZ.Z@ == g1_hash_of(label@ + " : Z".spec_bytes()),
            r.K@ == g1_hash_of(label@ + " : K".spec_bytes()),
    {
        let XYZ = ProvingKey::generate_proving_key_using_hash(label);
        let mut lk = crate::bytes::dup_bytes(label);
        append_bytes(&mut lk, &" : K".as_bytes_vec());
        NonMembershipProvingKey { XYZ, K: g1_hash_to_curve(&lk) }
    }

    /// The membership proving key hidden inside this one.
    pub fn derive_membership_proving_key(&self) -> (r: MembershipProvingKey)
        ensures
            r.0.X@ == self.XYZ.X@,
            r.0.Y@ == self.XYZ.Y@,
            r.0.Z@ == self.XYZ.Z@,
    {
        MembershipProvingKey(
            ProvingKey { X: self.XYZ.X.dup(), Y: self.XYZ.Y.dup(), Z: self.XYZ.Z.dup() },
        )
    }
}

/// The challenge-contribution bytes of a randomized witness.
pub open spec fn rw_bytes(rw: RandomizedWitness) -> Seq<u8> {
    rw.E_C@ + rw.T_sigma@ + rw.T_rho@
}

/// The challenge-contribution bytes of a Schnorr commitment.
pub open spec fn sc_bytes(sc: SchnorrCommit) -> Seq<u8> {
    sc.R_E@ + sc.R_sigma@ + sc.R_rho@ + sc.R_delta_sigma@ + sc.R_delta_rho@
}

/// The challenge-contribution bytes shared by the membership and
/// non-membership protocols: the randomized witness, the commitments, the
/// accumulator value and all public parameters, in order.
pub open spec fn common_contribution_bytes(
    rw: RandomizedWitness,
    sc: SchnorrCommit,
    accumulator_value: Seq<u8>,
    pk: PublicKey,
    params: SetupParams,
    prk: ProvingKey,
) -> Seq<u8> {
    rw_bytes(rw) + sc_bytes(sc) + accumulator_value + pk.0@ + params.P@ + params.P_tilde@ + prk.X@
        + prk.Y@ + prk.Z@
}

impl RandomizedWitness {
    /// Appends this witness's announcement bytes.
    pub fn challenge_contribution(&self, writer: &mut Vec<u8>)
        ensures
            final(writer)@ == old(writer)@ + rw_bytes(*self),
    {
        append_bytes(writer, &self.E_C.b);
        append_bytes(writer, &self.T_sigma.b);
        append_bytes(writer, &self.T_rho.b);
    }
}

impl SchnorrCommit {
    /// Appends this commitment's announcement bytes.
    pub fn challenge_contribution(&self, writer: &mut Vec<u8>)
        ensures
            final(writer)@ == old(writer)@ + sc_bytes(*self),
    {
        append_bytes(writer, &self.R_E.b);
        append_bytes(writer, &self.R_sigma.b);
        append_bytes(writer, &self.R_rho.b);
        append_bytes(writer, &self.R_delta_sigma.b);
        append_bytes(writer, &self.R_delta_rho.b);
    }
}

/// Appends the challenge contribution shared by both proof kinds.
pub fn compute_common_challenge_contribution(
    rw: &RandomizedWitness,
    sc: &SchnorrCommit,
    accumulator_value: &G1Elem,
    pk: &PublicKey,
    params: &SetupParams,
    prk: &ProvingKey,
    writer: &mut Vec<u8>,
)
    ensures
        final(writer)@ == old(writer)@ + common_contribution_bytes(
            *rw,
            *sc,
            accumulator_value@,
            *pk,
            *params,
            *prk,
        ),
{
    rw.challenge_contribution(writer);
    sc.challenge_contribution(writer);
    append_bytes(writer, &accumulator_value.b);
    append_bytes(writer, &pk.0.b);
    append_bytes(writer, &params.P.b);
    append_bytes(writer, &params.P_tilde.b);
    append_bytes(writer, &prk.X.b);
    append_bytes(writer, &prk.Y.b);
    append_bytes(writer, &prk.Z.b);
}

/// How the randomized witness and the Schnorr commitments relate to the
/// blindings: the commit phase of the protocol, written over the names of
/// the curve operations.
pub open spec fn commit_phase_ok(
    element: Seq<u8>,
    witness: Seq<u8>,
    pairing_extra: Option<Seq<u8>>,
    pk: PublicKey,
    params: SetupParams,
    prk: ProvingKey,
    rw: RandomizedWitness,
    sc: SchnorrCommit,
    bl: Blindings,
) -> bool {
    &&& rw.E_C@ == g1_add_of(g1_mul_of(prk.Z@, sc_add_of(bl.sigma@, bl.rho@)), witness)
    &&& rw.T_sigma@ == g1_mul_of(prk.X@, bl.sigma@)
    &&& rw.T_rho@ == g1_mul_of(prk.Y@, bl.rho@)
    &&& bl.delta_sigma@ == sc_mul_of(element, bl.sigma@)
    &&& bl.delta_rho@ == sc_mul_of(element, bl.rho@)
    &&& sc.R_sigma@ == g1_mul_of(prk.X@, bl.r_sigma@)
    &&& sc.R_rho@ == g1_mul_of(prk.Y@, bl.r_rho@)
    &&& sc.R_delta_sigma@ == g1_add_of(
        g1_mul_of(rw.T_sigma@, bl.r_y@),
        g1_neg_of(g1_mul_of(prk.X@, bl.r_delta_sigma@)),
    )
    &&& sc.R_delta_rho@ == g1_add_of(
        g1_mul_of(rw.T_rho@, bl.r_y@),
        g1_neg_of(g1_mul_of(prk.Y@, bl.r_delta_rho@)),
    )
    &&& sc.R_E@ == pairing_of(
        commit_pairing_g1(rw.E_C@, prk, bl, pairing_extra),
        commit_pairing_g2(pk, params, pairing_extra),
    )
}

/// The first-group entries of the commit-phase multi-pairing.
pub open spec fn commit_pairing_g1(
    e_c: Seq<u8>,
    prk: ProvingKey,
    bl: Blindings,
    pairing_extra: Option<Seq<u8>>,
) -> Seq<Seq<u8>> {
    let base = seq![
        g1_mul_of(e_c, bl.r_y@),
        g1_mul_of(prk.Z@, sc_add_of(sc_neg_of(bl.r_delta_sigma@), sc_neg_of(bl.r_delta_rho@))),
        g1_mul_of(prk.Z@, sc_add_of(sc_neg_of(bl.r_sigma@), sc_neg_of(bl.r_rho@))),
    ];
    match pairing_extra {
        Some(a) => base.push(a),
        None => base,
    }
}

/// The second-group entries of the commit-phase multi-pairing.
pub open spec fn commit_pairing_g2(
    pk: PublicKey,
    params: SetupParams,
    pairing_extra: Option<Seq<u8>>,
) -> Seq<Seq<u8>> {
    let base = seq![params.P_tilde@, params.P_tilde@, pk.0@];
    match pairing_extra {
        Some(_a) => base.push(params.P_tilde@),
        None => base,
    }
}

/// Randomizes the witness and runs the commit phase of the Schnorr
/// protocol. The blindings are sampled here, except for the element's,
/// which the caller may fix to tie the element to another relation.
pub fn randomize_witness_and_compute_commitments(
    rng: &mut FieldRng,
    element: &Scalar,
    element_blinding: Option<Scalar>,
    witness: &G1Elem,
    pairing_extra: Option<G1Elem>,
    pk: &PublicKey,
    params: &SetupParams,
    prk: &ProvingKey,
) -> (r: (RandomizedWitness, SchnorrCommit, Blindings))
    ensures
        commit_phase_ok(
            element@,
            witness@,
            match pairing_extra {
                Some(a) => Some(a@),
                None => None,
            },
            *pk,
            *params,
            *prk,
            r.0,
            r.1,
            r.2,
        ),
        element_blinding matches Some(b) ==> r.2.r_y@ == b@,
{
    let sigma = random_scalar(rng);
    let rho = random_scalar(rng);
    let E_C = g1_add(&g1_mul(&prk.Z, &scalar_add(&sigma, &rho)), witness);
    let T_sigma = g1_mul(&prk.X, &sigma);
    let T_rho = g1_mul(&prk.Y, &rho);
    let delta_sigma = scalar_mul(element, &sigma);
    let delta_rho = scalar_mul(element, &rho);

    let r_y = match element_blinding {
        Some(b) => b,
        None => random_scalar(rng),
    };
    let r_sigma = random_scalar(rng);
    let r_delta_sigma = random_scalar(rng);
    let r_rho = random_scalar(rng);
    let r_delta_rho = random_scalar(rng);

    let mut g1s: Vec<G1Elem> = Vec::new();
    let mut g2s: Vec<G2Elem> = Vec::new();
    g1s.push(g1_mul(&E_C, &r_y));
    g2s.push(params.P_tilde.dup());
    g1s.push(g1_mul(&prk.Z, &scalar_add(&scalar_neg(&r_delta_sigma), &scalar_neg(&r_delta_rho))));
    g2s.push(params.P_tilde.dup());
    g1s.push(g1_mul(&prk.Z, &scalar_add(&scalar_neg(&r_sigma), &scalar_neg(&r_rho))));
    g2s.push(pk.0.dup());
    let has_extra = match &pairing_extra {
        Some(a) => {
            g1s.push(a.dup());
            g2s.push(params.P_tilde.dup());
            true
        },
        None => false,
    };
    let R_E = multi_pairing(&g1s, &g2s);
    proof {
        let bl_extra = match pairing_extra {
            Some(a) => Some(a@),
            None => None,
        };
        assert(crate::algebra::g1_views(g1s@) =~= commit_pairing_g1(
            E_C@,
            *prk,
            Blindings {
                sigma,
                rho,
                delta_sigma,
                delta_rho,
                r_y,
                r_sigma,
                r_rho,
                r_delta_sigma,
                r_delta_rho,
            },
            bl_extra,
        ));
        assert(crate::algebra::g2_views(g2s@) =~= commit_pairing_g2(*pk, *params, bl_extra));
    }

    let R_sigma = g1_mul(&prk.X, &r_sigma);
    let R_rho = g1_mul(&prk.Y, &r_rho);
    let R_delta_sigma = g1_add(
        &g1_mul(&T_sigma, &r_y),
        &g1_neg(&g1_mul(&prk.X, &r_delta_sigma)),
    );
    let R_delta_rho = g1_add(&g1_mul(&T_rho, &r_y), &g1_neg(&g1_mul(&prk.Y, &r_delta_rho)));

    (
        RandomizedWitness { E_C, T_sigma, T_rho },
        SchnorrCommit { R_E, R_sigma, R_rho, R_delta_sigma, R_delta_rho },
        Blindings {
            sigma,
            rho,
            delta_sigma,
            delta_rho,
            r_y,
            r_sigma,
            r_rho,
            r_delta_sigma,
            r_delta_rho,
        },
    )
}

/// How the Schnorr responses relate to the blindings, the element and the
/// challenge.
pub open spec fn responses_ok(
    element: Seq<u8>,
    bl: Blindings,
    challenge: Seq<u8>,
    resp: SchnorrResponse,
) -> bool {
    &&& resp.s_y@ == sc_add_of(bl.r_y@, sc_mul_of(challenge, element))
    &&& resp.s_sigma@ == sc_add_of(bl.r_sigma@, sc_mul_of(challenge, bl.sigma@))
    &&& resp.s_rho@ == sc_add_of(bl.r_rho@, sc_mul_of(challenge, bl.rho@))
    &&& resp.s_delta_sigma@ == sc_add_of(bl.r_delta_sigma@, sc_mul_of(challenge, bl.delta_sigma@))
    &&& resp.s_delta_rho@ == sc_add_of(bl.r_delta_rho@, sc_mul_of(challenge, bl.delta_rho@))
}

/// The response phase of the Schnorr protocol.
pub fn compute_responses(element: &Scalar, blindings: &Blindings, challenge: &Scalar) -> (r:
    SchnorrResponse)
    ensures
        responses_ok(element@, *blindings, challenge@, r),
{
    SchnorrResponse {
        s_y: scalar_add(&blindings.r_y, &scalar_mul(challenge, element)),
        s_sigma: scalar_add(&blindings.r_sigma, &scalar_mul(challenge, &blindings.sigma)),
        s_rho: scalar_add(&blindings.r_rho, &scalar_mul(challenge, &blindings.rho)),
        s_delta_sigma: scalar_add(
            &blindings.r_delta_sigma,
            &scalar_mul(challenge, &blindings.delta_sigma),
        ),
        s_delta_rho: scalar_add(
            &blindings.r_delta_rho,
            &scalar_mul(challenge, &blindings.delta_rho),
        ),
    }
}

/// The verifier's recomputation of `R_sigma`.
pub open spec fn check_sigma(
    rw: RandomizedWitness,
    sc: SchnorrCommit,
    resp: SchnorrResponse,
    challenge: Seq<u8>,
    prk: ProvingKey,
) -> bool {
    g1_add_of(g1_mul_of(prk.X@, resp.s_sigma@), g1_neg_of(g1_mul_of(rw.T_sigma@, challenge)))
        == sc.R_sigma@
}

/// The verifier's recomputation of `R_rho`.
pub open spec fn check_rho(
    rw: RandomizedWitness,
    sc: SchnorrCommit,
    resp: SchnorrResponse,
    challenge: Seq<u8>,
    prk: ProvingKey,
) -> bool {
    g1_add_of(g1_mul_of(prk.Y@, resp.s_rho@), g1_neg_of(g1_mul_of(rw.T_rho@, challenge)))
        == sc.R_rho@
}

/// The verifier's recomputation of `R_delta_sigma`.
pub open spec fn check_delta_sigma(
    rw: RandomizedWitness,
    sc: SchnorrCommit,
    resp: SchnorrResponse,
    prk: ProvingKey,
) -> bool {
    g1_add_of(
        g1_mul_of(rw.T_sigma@, resp.s_y@),
        g1_neg_of(g1_mul_of(prk.X@, resp.s_delta_sigma@)),
    ) == sc.R_delta_sigma@
}

/// The verifier's recomputation of `R_delta_rho`.
pub open spec fn check_delta_rho(
    rw: RandomizedWitness,
    sc: SchnorrCommit,
    resp: SchnorrResponse,
    prk: ProvingKey,
) -> bool {
    g1_add_of(g1_mul_of(rw.T_rho@, resp.s_y@), g1_neg_of(g1_mul_of(prk.Y@, resp.s_delta_rho@)))
        == sc.R_delta_rho@
}

/// The first-group entries of the verifier's multi-pairing.
pub open spec fn verify_pairing_g1(
    rw: RandomizedWitness,
    resp: SchnorrResponse,
    accumulator_value: Seq<u8>,
    challenge: Seq<u8>,
    prk: ProvingKey,
    pairing_extra: Option<(Seq<u8>, Seq<u8>)>,
) -> Seq<Seq<u8>> {
    let base = seq![
        g1_mul_of(rw.E_C@, resp.s_y@),
        g1_mul_of(
            prk.Z@,
            sc_add_of(sc_neg_of(resp.s_delta_sigma@), sc_neg_of(resp.s_delta_rho@)),
        ),
        g1_mul_of(prk.Z@, sc_add_of(sc_neg_of(resp.s_sigma@), sc_neg_of(resp.s_rho@))),
        g1_mul_of(accumulator_value, sc_neg_of(challenge)),
        g1_mul_of(rw.E_C@, challenge),
    ];
    match pairing_extra {
        Some(ab) => base.push(ab.0).push(ab.1),
        None => base,
    }
}

/// The second-group entries of the verifier's multi-pairing.
pub open spec fn verify_pairing_g2(
    pk: PublicKey,
    params: SetupParams,
    pairing_extra: Option<(Seq<u8>, Seq<u8>)>,
) -> Seq<Seq<u8>> {
    let base = seq![params.P_tilde@, params.P_tilde@, pk.0@, params.P_tilde@, pk.0@];
    match pairing_extra {
        Some(_ab) => base.push(params.P_tilde@).push(params.P_tilde@),
        None => base,
    }
}

/// The verifier's recomputation of `R_E`.
pub open spec fn check_pairing(
    rw: RandomizedWitness,
    sc: SchnorrCommit,
    resp: SchnorrResponse,
    pairing_extra: Option<(Seq<u8>, Seq<u8>)>,
    accumulator_value: Seq<u8>,
    challenge: Seq<u8>,
    pk: PublicKey,
    params: SetupParams,
    prk: ProvingKey,
) -> bool {
    pairing_of(
        verify_pairing_g1(rw, resp, accumulator_value, challenge, prk, pairing_extra),
        verify_pairing_g2(pk, params, pairing_extra),
    ) == sc.R_E@
}

/// The outcome the verifier owes for the common part of the relation: the
/// first failing recomputation names the error; all five passing means
/// acceptance.
pub open spec fn spec_verify_common(
    rw: RandomizedWitness,
    sc: SchnorrCommit,
    resp: SchnorrResponse,
    pairing_extra: Option<(Seq<u8>, Seq<u8>)>,
    accumulator_value: Seq<u8>,
    challenge: Seq<u8>,
    pk: PublicKey,
    params: SetupParams,
    prk: ProvingKey,
) -> Result<(), VBAccumulatorError> {
    if !check_sigma(rw, sc, resp, challenge, prk) {
        Err(VBAccumulatorError::SigmaResponseInvalid)
    } else if !check_rho(rw, sc, resp, challenge, prk) {
        Err(VBAccumulatorError::RhoResponseInvalid)
    } else if !check_delta_sigma(rw, sc, resp, prk) {
        Err(VBAccumulatorError::DeltaSigmaResponseInvalid)
    } else if !check_delta_rho(rw, sc, resp, prk) {
        Err(VBAccumulatorError::DeltaRhoResponseInvalid)
    } else if !check_pairing(
        rw,
        sc,
        resp,
        pairing_extra,
        accumulator_value,
        challenge,
        pk,
        params,
        prk,
    ) {
        Err(VBAccumulatorError::PairingResponseInvalid)
    } else {
        Ok(())
    }
}

/// Verifies the randomized-witness relation common to membership and
/// non-membership proofs: recomputes each Schnorr commitment from the
/// responses and compares, then recomputes the pairing commitment.
pub fn verify_common_proof(
    rw: &RandomizedWitness,
    sc: &SchnorrCommit,
    resp: &SchnorrResponse,
    pairing_extra: Option<(G1Elem, G1Elem)>,
    accumulator_value: &G1Elem,
    challenge: &Scalar,
    pk: &PublicKey,
    params: &SetupParams,
    prk: &ProvingKey,
) -> (r: Result<(), VBAccumulatorError>)
    ensures
        r == spec_verify_common(
            *rw,
            *sc,
            *resp,
            match pairing_extra {
                Some(ab) => Some((ab.0@, ab.1@)),
                None => None,
            },
            accumulator_value@,
            challenge@,
            *pk,
            *params,
            *prk,
        ),
{
    let R_sigma = g1_add(
        &g1_mul(&prk.X, &resp.s_sigma),
        &g1_neg(&g1_mul(&rw.T_sigma, challenge)),
    );
    if !bytes_eq(&R_sigma.b, &sc.R_sigma.b) {
        return Err(VBAccumulatorError::SigmaResponseInvalid);
    }
    let R_rho = g1_add(&g1_mul(&prk.Y, &resp.s_rho), &g1_neg(&g1_mul(&rw.T_rho, challenge)));
    if !bytes_eq(&R_rho.b, &sc.R_rho.b) {
        return Err(VBAccumulatorError::RhoResponseInvalid);
    }
    let R_delta_sigma = g1_add(
        &g1_mul(&rw.T_sigma, &resp.s_y),
        &g1_neg(&g1_mul(&prk.X, &resp.s_delta_sigma)),
    );
    if !bytes_eq(&R_delta_sigma.b, &sc.R_delta_sigma.b) {
        return Err(VBAccumulatorError::DeltaSigmaResponseInvalid);
    }
    let R_delta_rho = g1_add(
        &g1_mul(&rw.T_rho, &resp.s_y),
        &g1_neg(&g1_mul(&prk.Y, &resp.s_delta_rho)),
    );
    if !bytes_eq(&R_delta_rho.b, &sc.R_delta_rho.b) {
        return Err(VBAccumulatorError::DeltaRhoResponseInvalid);
    }

    let mut g1s: Vec<G1Elem> = Vec::new();
    let mut g2s: Vec<G2Elem> = Vec::new();
    g1s.push(g1_mul(&rw.E_C, &resp.s_y));
    g2s.push(params.P_tilde.dup());
    g1s.push(
        g1_mul(
            &prk.Z,
            &scalar_add(&scalar_neg(&resp.s_delta_sigma), &scalar_neg(&resp.s_delta_rho)),
        ),
    );
    g2s.push(params.P_tilde.dup());
    g1s.push(g1_mul(&prk.Z, &scalar_add(&scalar_neg(&resp.s_sigma), &scalar_neg(&resp.s_rho))));
    g2s.push(pk.0.dup());
    g1s.push(g1_mul(accumulator_value, &scalar_neg(challenge)));
    g2s.push(params.P_tilde.dup());
    g1s.push(g1_mul(&rw.E_C, challenge));
    g2s.push(pk.0.dup());
    match &pairing_extra {
        Some(ab) => {
            g1s.push(ab.0.dup());
            g2s.push(params.P_tilde.dup());
            g1s.push(ab.1.dup());
            g2s.push(params.P_tilde.dup());
        },
        None => {},
    }
    let R_E = multi_pairing(&g1s, &g2s);
    proof {
        let extra_view = match pairing_extra {
            Some(ab) => Some((ab.0@, ab.1@)),
            None => None,
        };
        assert(crate::algebra::g1_views(g1s@) =~= verify_pairing_g1(
            *rw,
            *resp,
            accumulator_value@,
            challenge@,
            *prk,
            extra_view,
        ));
        assert(crate::algebra::g2_views(g2s@) =~= verify_pairing_g2(*pk, *params, extra_view));
    }
    if !bytes_eq(&R_E.b, &sc.R_E.b) {
        return Err(VBAccumulatorError::PairingResponseInvalid);
    }
    Ok(())
}

/// The outcome of the four scalar-side recomputations alone, with the
/// pairing equation left to a batch checker.
pub open spec fn spec_verify_common_scalar_side(
    rw: RandomizedWitness,
    sc: SchnorrCommit,
    resp: SchnorrResponse,
    challenge: Seq<u8>,
    prk: ProvingKey,
) -> Result<(), VBAccumulatorError> {
    if !check_sigma(rw, sc, resp, challenge, prk) {
        Err(VBAccumulatorError::SigmaResponseInvalid)
    } else if !check_rho(rw, sc, resp, challenge, prk) {
        Err(VBAccumulatorError::RhoResponseInvalid)
    } else if !check_delta_sigma(rw, sc, resp, prk) {
        Err(VBAccumulatorError::DeltaSigmaResponseInvalid)
    } else if !check_delta_rho(rw, sc, resp, prk) {
        Err(VBAccumulatorError::DeltaRhoResponseInvalid)
    } else {
        Ok(())
    }
}

/// Verifies the scalar-side announcements and stages the pairing equation
/// into the batch checker instead of deciding it here: the staged claim
/// says the verifier's multi-pairing meets the committed `R_E`.
pub fn verify_common_proof_with_checker(
    rw: &RandomizedWitness,
    sc: &SchnorrCommit,
    resp: &SchnorrResponse,
    pairing_extra: Option<(G1Elem, G1Elem)>,
    accumulator_value: &G1Elem,
    challenge: &Scalar,
    pk: &PublicKey,
    params: &SetupParams,
    prk: &ProvingKey,
    checker: &mut crate::pairing_check::RandomizedPairingChecker,
) -> (r: Result<(), VBAccumulatorError>)
    requires
        old(checker).wf(),
    ensures
        final(checker).wf(),
        r == spec_verify_common_scalar_side(*rw, *sc, *resp, challenge@, *prk),
        r is Ok ==> crate::pairing_check::spec_add_target(
            *old(checker),
            *final(checker),
            verify_pairing_g1(
                *rw,
                *resp,
                accumulator_value@,
                challenge@,
                *prk,
                match pairing_extra {
                    Some(ab) => Some((ab.0@, ab.1@)),
                    None => None,
                },
            ),
            verify_pairing_g2(
                *pk,
                *params,
                match pairing_extra {
                    Some(ab) => Some((ab.0@, ab.1@)),
                    None => None,
                },
            ),
            sc.R_E@,
            old(checker).lazy,
        ),
        r is Err ==> *final(checker) == *old(checker),
{
    let R_sigma = g1_add(
        &g1_mul(&prk.X, &resp.s_sigma),
        &g1_neg(&g1_mul(&rw.T_sigma, challenge)),
    );
    if !bytes_eq(&R_sigma.b, &sc.R_sigma.b) {
        return Err(VBAccumulatorError::SigmaResponseInvalid);
    }
    let R_rho = g1_add(&g1_mul(&prk.Y, &resp.s_rho), &g1_neg(&g1_mul(&rw.T_rho, challenge)));
    if !bytes_eq(&R_rho.b, &sc.R_rho.b) {
        return Err(VBAccumulatorError::RhoResponseInvalid);
    }
    let R_delta_sigma = g1_add(
        &g1_mul(&rw.T_sigma, &resp.s_y),
        &g1_neg(&g1_mul(&prk.X, &resp.s_delta_sigma)),
    );
    if !bytes_eq(&R_delta_sigma.b, &sc.R_delta_sigma.b) {
        return Err(VBAccumulatorError::DeltaSigmaResponseInvalid);
    }
    let R_delta_rho = g1_add(
        &g1_mul(&rw.T_rho, &resp.s_y),
        &g1_neg(&g1_mul(&prk.Y, &resp.s_delta_rho)),
    );
    if !bytes_eq(&R_delta_rho.b, &sc.R_delta_rho.b) {
        return Err(VBAccumulatorError::DeltaRhoResponseInvalid);
    }

    let mut g1s: Vec<G1Elem> = Vec::new();
    let mut g2s: Vec<G2Elem> = Vec::new();
    g1s.push(g1_mul(&rw.E_C, &resp.s_y));
    g2s.push(params.P_tilde.dup());
    g1s.push(
        g1_mul(
            &prk.Z,
            &scalar_add(&scalar_neg(&resp.s_delta_sigma), &scalar_neg(&resp.s_delta_rho)),
        ),
    );
    g2s.push(params.P_tilde.dup());
    g1s.push(g1_mul(&prk.Z, &scalar_add(&scalar_neg(&resp.s_sigma), &scalar_neg(&resp.s_rho))));
    g2s.push(pk.0.dup());
    g1s.push(g1_mul(accumulator_value, &scalar_neg(challenge)));
    g2s.push(params.P_tilde.dup());
    g1s.push(g1_mul(&rw.E_C, challenge));
    g2s.push(pk.0.dup());
    match &pairing_extra {
        Some(ab) => {
            g1s.push(ab.0.dup());
            g2s.push(params.P_tilde.dup());
            g1s.push(ab.1.dup());
            g2s.push(params.P_tilde.dup());
        },
        None => {},
    }
    proof {
        let extra_view = match pairing_extra {
            Some(ab) => Some((ab.0@, ab.1@)),
            None => None,
        };
        assert(crate::algebra::g1_views(g1s@) =~= verify_pairing_g1(
            *rw,
            *resp,
            accumulator_value@,
            challenge@,
            *prk,
            extra_view,
        ));
        assert(crate::algebra::g2_views(g2s@) =~= verify_pairing_g2(*pk, *params, extra_view));
    }
    checker.add_multiple_sources_and_target(&g1s, &g2s, &sc.R_E);
    Ok(())
}

/// Randomized membership witness.
#[derive(Debug, PartialEq)]
pub struct MembershipRandomizedWitness(pub RandomizedWitness);

/// Blindings of the membership proof protocol.
#[derive(Debug, PartialEq)]
pub struct MembershipBlindings(pub Blindings);

/// Schnorr commitments of the membership proof protocol.
#[derive(Debug, PartialEq)]
pub struct MembershipSchnorrCommit(pub SchnorrCommit);

/// Schnorr responses of the membership proof protocol.
#[derive(Debug, PartialEq)]
pub struct MembershipSchnorrResponse(pub SchnorrResponse);

/// Proof of knowledge of a member and its membership witness.
#[derive(Debug, PartialEq)]
pub struct MembershipProof {
    pub randomized_witness: MembershipRandomizedWitness,
    pub schnorr_commit: MembershipSchnorrCommit,
    pub schnorr_response: MembershipSchnorrResponse,
}

/// Protocol state for proving knowledge of a member and its witness.
#[derive(Debug, PartialEq)]
pub struct MembershipProofProtocol {
    pub element: Scalar,
    pub randomized_witness: MembershipRandomizedWitness,
    pub schnorr_commit: MembershipSchnorrCommit,
    pub schnorr_blindings: MembershipBlindings,
}

impl MembershipProofProtocol {
    /// Starts a membership proof: randomizes the witness and commits.
    pub fn init(
        rng: &mut FieldRng,
        element: &Scalar,
        element_blinding: Option<Scalar>,
        witness: &MembershipWitness,
        pk: &PublicKey,
        params: &SetupParams,
        prk: &MembershipProvingKey,
    ) -> (r: Self)
        ensures
            r.element@ == element@,
            commit_phase_ok(
                element@,
                witness.0@,
                None,
                *pk,
                *params,
                prk.0,
                r.randomized_witness.0,
                r.schnorr_commit.0,
                r.schnorr_blindings.0,
            ),
            element_blinding matches Some(b) ==> r.schnorr_blindings.0.r_y@ == b@,
    {
        let (rw, sc, bl) = randomize_witness_and_compute_commitments(
            rng,
            element,
            element_blinding,
            &witness.0,
            None,
            pk,
            params,
            &prk.0,
        );
        MembershipProofProtocol {
            element: element.dup(),
            randomized_witness: MembershipRandomizedWitness(rw),
            schnorr_commit: MembershipSchnorrCommit(sc),
            schnorr_blindings: MembershipBlindings(bl),
        }
    }

    /// Appends this protocol's challenge contribution.
    pub fn challenge_contribution(
        &self,
        accumulator_value: &G1Elem,
        pk: &PublicKey,
        params: &SetupParams,
        prk: &MembershipProvingKey,
        writer: &mut Vec<u8>,
    )
        ensures
            final(writer)@ == old(writer)@ + common_contribution_bytes(
                self.randomized_witness.0,
                self.schnorr_commit.0,
                accumulator_value@,
                *pk,
                *params,
                prk.0,
            ),
    {
        compute_common_challenge_contribution(
            &self.randomized_witness.0,
            &self.schnorr_commit.0,
            accumulator_value,
            pk,
            params,
            &prk.0,
            writer,
        );
    }

    /// Finishes the proof once the challenge is known.
    pub fn gen_proof(self, challenge: &Scalar) -> (r: MembershipProof)
        ensures
            r.randomized_witness == self.randomized_witness,
            r.schnorr_commit == self.schnorr_commit,
            responses_ok(
                self.element@,
                self.schnorr_blindings.0,
                challenge@,
                r.schnorr_response.0,
            ),
    {
        let resp = compute_responses(&self.element, &self.schnorr_blindings.0, challenge);
        MembershipProof {
            randomized_witness: self.randomized_witness,
            schnorr_commit: self.schnorr_commit,
            schnorr_response: MembershipSchnorrResponse(resp),
        }
    }
}

impl MembershipProof {
    /// Appends this proof's challenge contribution; byte-identical to the
    /// protocol's own when the announcements agree.
    pub fn challenge_contribution(
        &self,
        accumulator_value: &G1Elem,
        pk: &PublicKey,
        params: &SetupParams,
        prk: &MembershipProvingKey,
        writer: &mut Vec<u8>,
    )
        ensures
            final(writer)@ == old(writer)@ + common_contribution_bytes(
                self.randomized_witness.0,
                self.schnorr_commit.0,
                accumulator_value@,
                *pk,
                *params,
                prk.0,
            ),
    {
        compute_common_challenge_contribution(
            &self.randomized_witness.0,
            &self.schnorr_commit.0,
            accumulator_value,
            pk,
            params,
            &prk.0,
            writer,
        );
    }

    /// Verifies the proof against the accumulator value.
    pub fn verify(
        &self,
        accumulator_value: &G1Elem,
        challenge: &Scalar,
        pk: &PublicKey,
        params: &SetupParams,
        prk: &MembershipProvingKey,
    ) -> (r: Result<(), VBAccumulatorError>)
        ensures
            r == spec_verify_common(
                self.randomized_witness.0,
                self.schnorr_commit.0,
                self.schnorr_response.0,
                None,
                accumulator_value@,
                challenge@,
                *pk,
                *params,
                prk.0,
            ),
    {
        verify_common_proof(
            &self.randomized_witness.0,
            &self.schnorr_commit.0,
            &self.schnorr_response.0,
            None,
            accumulator_value,
            challenge,
            pk,
            params,
            &prk.0,
        )
    }

    /// The Schnorr response for the member itself.
    pub fn get_schnorr_response_for_element(&self) -> (r: &Scalar)
        ensures
            r@ == self.schnorr_response.0.s_y@,
    {
        self.schnorr_response.0.get_response_for_element()
    }

    /// Verifies the scalar side and stages the pairing equation into the
    /// batch checker.
    pub fn verify_with_checker(
        &self,
        accumulator_value: &G1Elem,
        challenge: &Scalar,
        pk: &PublicKey,
        params: &SetupParams,
        prk: &MembershipProvingKey,
        checker: &mut crate::pairing_check::RandomizedPairingChecker,
    ) -> (r: Result<(), VBAccumulatorError>)
        requires
            old(checker).wf(),
        ensures
            final(checker).wf(),
            r == spec_verify_common_scalar_side(
                self.randomized_witness.0,
                self.schnorr_commit.0,
                self.schnorr_response.0,
                challenge@,
                prk.0,
            ),
            r is Ok ==> crate::pairing_check::spec_add_target(
                *old(checker),
                *final(checker),
                verify_pairing_g1(
                    self.randomized_witness.0,
                    self.schnorr_response.0,
                    accumulator_value@,
                    challenge@,
                    prk.0,
                    None,
                ),
                verify_pairing_g2(*pk, *params, None),
                self.schnorr_commit.0.R_E@,
                old(checker).lazy,
            ),
            r is Err ==> *final(checker) == *old(checker),
    {
        verify_common_proof_with_checker(
            &self.randomized_witness.0,
            &self.schnorr_commit.0,
            &self.schnorr_response.0,
            None,
            accumulator_value,
            challenge,
            pk,
            params,
            &prk.0,
            checker,
        )
    }
}

/// Randomized non-membership witness: the common part plus commitments to
/// the offset scalar and its inverse.
#[derive(Debug, PartialEq)]
pub struct NonMembershipRandomizedWitness {
    pub C: RandomizedWitness,
    pub E_d: G1Elem,
    pub E_d_inv: G1Elem,
}

/// Blindings of the non-membership proof protocol.
#[derive(Debug, PartialEq)]
pub struct NonMembershipBlindings {
    pub C: Blindings,
    pub tau: Scalar,
    pub pi: Scalar,
    pub r_u: Scalar,
    pub r_v: Scalar,
    pub r_w: Scalar,
}

/// Schnorr commitments of the non-membership proof protocol.
#[derive(Debug, PartialEq)]
pub struct NonMembershipSchnorrCommit {
    pub C: SchnorrCommit,
    pub R_A: G1Elem,
    pub R_B: G1Elem,
}

/// Schnorr responses of the non-membership proof protocol.
#[derive(Debug, PartialEq)]
pub struct NonMembershipSchnorrResponse {
    pub C: SchnorrResponse,
    pub s_u: Scalar,
    pub s_v: Scalar,
    pub s_w: Scalar,
}

/// Proof of knowledge of a non-member and its non-membership witness.
#[derive(Debug, PartialEq)]
pub struct NonMembershipProof {
    pub randomized_witness: NonMembershipRandomizedWitness,
    pub schnorr_commit: NonMembershipSchnorrCommit,
    pub schnorr_response: NonMembershipSchnorrResponse,
}

/// Protocol state for proving knowledge of a non-member and its witness.
#[derive(Debug, PartialEq)]
pub struct NonMembershipProofProtocol {
    pub element: Scalar,
    pub d: Scalar,
    pub randomized_witness: NonMembershipRandomizedWitness,
    pub schnorr_commit: NonMembershipSchnorrCommit,
    pub schnorr_blindings: NonMembershipBlindings,
}

/// How the extra non-membership announcements relate to the blindings: the
/// commitments to `d` and `1/d` and the two extra Schnorr commitments.
pub open spec fn nonmem_commit_ok(
    d: Seq<u8>,
    params: SetupParams,
    prk: NonMembershipProvingKey,
    rw: NonMembershipRandomizedWitness,
    sc: NonMembershipSchnorrCommit,
    bl: NonMembershipBlindings,
) -> bool {
    &&& rw.E_d@ == g1_add_of(g1_mul_of(params.P@, d), g1_mul_of(prk.K@, bl.tau@))
    &&& rw.E_d_inv@ == g1_add_of(
        g1_mul_of(params.P@, sc_inv_of(d)),
        g1_mul_of(prk.K@, bl.pi@),
    )
    &&& sc.R_A@ == g1_add_of(g1_mul_of(params.P@, bl.r_u@), g1_mul_of(prk.K@, bl.r_v@))
    &&& sc.R_B@ == g1_add_of(g1_mul_of(rw.E_d_inv@, bl.r_u@), g1_mul_of(prk.K@, bl.r_w@))
}

/// The challenge-contribution bytes of the non-membership protocol: the
/// common contribution with the extra announcements interleaved, and the
/// extra generator at the end.
pub open spec fn nonmem_contribution_bytes(
    rw: NonMembershipRandomizedWitness,
    sc: NonMembershipSchnorrCommit,
    accumulator_value: Seq<u8>,
    pk: PublicKey,
    params: SetupParams,
    prk: NonMembershipProvingKey,
) -> Seq<u8> {
    rw_bytes(rw.C) + rw.E_d@ + rw.E_d_inv@ + sc_bytes(sc.C) + sc.R_A@ + sc.R_B@
        + accumulator_value + pk.0@ + params.P@ + params.P_tilde@ + prk.XYZ.X@ + prk.XYZ.Y@
        + prk.XYZ.Z@ + prk.K@
}

/// Appends the non-membership challenge contribution.
fn nonmem_challenge_contribution(
    rw: &NonMembershipRandomizedWitness,
    sc: &NonMembershipSchnorrCommit,
    accumulator_value: &G1Elem,
    pk: &PublicKey,
    params: &SetupParams,
    prk: &NonMembershipProvingKey,
    writer: &mut Vec<u8>,
)
    ensures
        final(writer)@ == old(writer)@ + nonmem_contribution_bytes(
            *rw,
            *sc,
            accumulator_value@,
            *pk,
            *params,
            *prk,
        ),
{
    rw.C.challenge_contribution(writer);
    append_bytes(writer, &rw.E_d.b);
    append_bytes(writer, &rw.E_d_inv.b);
    sc.C.challenge_contribution(writer);
    append_bytes(writer, &sc.R_A.b);
    append_bytes(writer, &sc.R_B.b);
    append_bytes(writer, &accumulator_value.b);
    append_bytes(writer, &pk.0.b);
    append_bytes(writer, &params.P.b);
    append_bytes(writer, &params.P_tilde.b);
    append_bytes(writer, &prk.XYZ.X.b);
    append_bytes(writer, &prk.XYZ.Y.b);
    append_bytes(writer, &prk.XYZ.Z.b);
    append_bytes(writer, &prk.K.b);
}

impl NonMembershipProofProtocol {
    /// Starts a non-membership proof: commits to the non-zero offset and
    /// its inverse, then randomizes the witness and commits, feeding the
    /// pairing equation the extra term for the offset commitment.
    pub fn init(
        rng: &mut FieldRng,
        element: &Scalar,
        element_blinding: Option<Scalar>,
        witness: &NonMembershipWitness,
        pk: &PublicKey,
        params: &SetupParams,
        prk: &NonMembershipProvingKey,
    ) -> (r: Self)
        ensures
            r.element@ == element@,
            r.d@ == witness.d@,
            nonmem_commit_ok(
                witness.d@,
                *params,
                *prk,
                r.randomized_witness,
                r.schnorr_commit,
                r.schnorr_blindings,
            ),
            commit_phase_ok(
                element@,
                witness.C@,
                Some(g1_mul_of(prk.K@, sc_neg_of(r.schnorr_blindings.r_v@))),
                *pk,
                *params,
                prk.XYZ,
                r.randomized_witness.C,
                r.schnorr_commit.C,
                r.schnorr_blindings.C,
            ),
            element_blinding matches Some(b) ==> r.schnorr_blindings.C.r_y@ == b@,
    {
        let tau = random_scalar(rng);
        let pi = random_scalar(rng);

        let E_d = g1_add(&g1_mul(&params.P, &witness.d), &g1_mul(&prk.K, &tau));
        let E_d_inv = g1_add(&g1_mul(&params.P, &scalar_inv(&witness.d)), &g1_mul(&prk.K, &pi));

        let r_u = random_scalar(rng);
        let r_v = random_scalar(rng);
        let r_w = random_scalar(rng);

        let R_A = g1_add(&g1_mul(&params.P, &r_u), &g1_mul(&prk.K, &r_v));
        let R_B = g1_add(&g1_mul(&E_d_inv, &r_u), &g1_mul(&prk.K, &r_w));

        let extra = g1_mul(&prk.K, &scalar_neg(&r_v));
        let (rw, sc, bl) = randomize_witness_and_compute_commitments(
            rng,
            element,
            element_blinding,
            &witness.C,
            Some(extra),
            pk,
            params,
            &prk.XYZ,
        );

        NonMembershipProofProtocol {
            element: element.dup(),
            d: witness.d.dup(),
            randomized_witness: NonMembershipRandomizedWitness { C: rw, E_d, E_d_inv },
            schnorr_commit: NonMembershipSchnorrCommit { C: sc, R_A, R_B },
            schnorr_blindings: NonMembershipBlindings { C: bl, tau, pi, r_u, r_v, r_w },
        }
    }

    /// Appends this protocol's challenge contribution.
    pub fn challenge_contribution(
        &self,
        accumulator_value: &G1Elem,
        pk: &PublicKey,
        params: &SetupParams,
        prk: &NonMembershipProvingKey,
        writer: &mut Vec<u8>,
    )
        ensures
            final(writer)@ == old(writer)@ + nonmem_contribution_bytes(
                self.randomized_witness,
                self.schnorr_commit,
                accumulator_value@,
                *pk,
                *params,
                *prk,
            ),
    {
        nonmem_challenge_contribution(
            &self.randomized_witness,
            &self.schnorr_commit,
            accumulator_value,
            pk,
            params,
            prk,
            writer,
        );
    }

    /// Finishes the proof once the challenge is known: the responses for
    /// the offset relation, then the common responses.
    pub fn gen_proof(self, challenge: &Scalar) -> (r: NonMembershipProof)
        ensures
            r.randomized_witness == self.randomized_witness,
            r.schnorr_commit == self.schnorr_commit,
            responses_ok(self.element@, self.schnorr_blindings.C, challenge@, r.schnorr_response.C),
            r.schnorr_response.s_u@ == sc_add_of(
                self.schnorr_blindings.r_u@,
                sc_mul_of(challenge@, self.d@),
            ),
            r.schnorr_response.s_v@ == sc_add_of(
                self.schnorr_blindings.r_v@,
                sc_mul_of(challenge@, self.schnorr_blindings.tau@),
            ),
            r.schnorr_response.s_w@ == crate::algebra::sc_sub_of(
                self.schnorr_blindings.r_w@,
                sc_mul_of(sc_mul_of(challenge@, self.d@), self.schnorr_blindings.pi@),
            ),
    {
        let challenge_times_d = scalar_mul(challenge, &self.d);
        let s_u = scalar_add(&self.schnorr_blindings.r_u, &challenge_times_d);
        let s_v = scalar_add(
            &self.schnorr_blindings.r_v,
            &scalar_mul(challenge, &self.schnorr_blindings.tau),
        );
        let s_w = crate::algebra::scalar_sub(
            &self.schnorr_blindings.r_w,
            &scalar_mul(&challenge_times_d, &self.schnorr_blindings.pi),
        );
        let resp = compute_responses(&self.element, &self.schnorr_blindings.C, challenge);
        NonMembershipProof {
            randomized_witness: self.randomized_witness,
            schnorr_commit: self.schnorr_commit,
            schnorr_response: NonMembershipSchnorrResponse { C: resp, s_u, s_v, s_w },
        }
    }
}

/// The verifier's recomputation of `R_A`: the announcement for the
/// commitment to the offset.
pub open spec fn check_e_d(
    rw: NonMembershipRandomizedWitness,
    sc: NonMembershipSchnorrCommit,
    resp: NonMembershipSchnorrResponse,
    challenge: Seq<u8>,
    params: SetupParams,
    prk: NonMembershipProvingKey,
) -> bool {
    g1_add_of(
        g1_add_of(g1_mul_of(params.P@, resp.s_u@), g1_mul_of(prk.K@, resp.s_v@)),
        g1_neg_of(g1_mul_of(rw.E_d@, challenge)),
    ) == sc.R_A@
}

/// The verifier's recomputation of `R_B`: the announcement binding the
/// offset's inverse, which forces the offset to be non-zero.
pub open spec fn check_e_d_inv(
    rw: NonMembershipRandomizedWitness,
    sc: NonMembershipSchnorrCommit,
    resp: NonMembershipSchnorrResponse,
    challenge: Seq<u8>,
    params: SetupParams,
    prk: NonMembershipProvingKey,
) -> bool {
    g1_add_of(
        g1_add_of(g1_mul_of(prk.K@, resp.s_w@), g1_mul_of(rw.E_d_inv@, resp.s_u@)),
        g1_neg_of(g1_mul_of(params.P@, challenge)),
    ) == sc.R_B@
}

/// The outcome the verifier owes for a non-membership proof.
pub open spec fn spec_verify_nonmem(
    proof: NonMembershipProof,
    accumulator_value: Seq<u8>,
    challenge: Seq<u8>,
    pk: PublicKey,
    params: SetupParams,
    prk: NonMembershipProvingKey,
) -> Result<(), VBAccumulatorError> {
    if !check_e_d(
        proof.randomized_witness,
        proof.schnorr_commit,
        proof.schnorr_response,
        challenge,
        params,
        prk,
    ) {
        Err(VBAccumulatorError::E_d_ResponseInvalid)
    } else if !check_e_d_inv(
        proof.randomized_witness,
        proof.schnorr_commit,
        proof.schnorr_response,
        challenge,
        params,
        prk,
    ) {
        Err(VBAccumulatorError::E_d_inv_ResponseInvalid)
    } else {
        spec_verify_common(
            proof.randomized_witness.C,
            proof.schnorr_commit.C,
            proof.schnorr_response.C,
            Some(
                (
                    g1_mul_of(prk.K@, sc_neg_of(proof.schnorr_response.s_v@)),
                    g1_mul_of(proof.randomized_witness.E_d@, challenge),
                ),
            ),
            accumulator_value,
            challenge,
            pk,
            params,
            prk.XYZ,
        )
    }
}

impl NonMembershipProof {
    /// Appends this proof's challenge contribution; byte-identical to the
    /// protocol's own when the announcements agree.
    pub fn challenge_contribution(
        &self,
        accumulator_value: &G1Elem,
        pk: &PublicKey,
        params: &SetupParams,
        prk: &NonMembershipProvingKey,
        writer: &mut Vec<u8>,
    )
        ensures
            final(writer)@ == old(writer)@ + nonmem_contribution_bytes(
                self.randomized_witness,
                self.schnorr_commit,
                accumulator_value@,
                *pk,
                *params,
                *prk,
            ),
    {
        nonmem_challenge_contribution(
            &self.randomized_witness,
            &self.schnorr_commit,
            accumulator_value,
            pk,
            params,
            prk,
            writer,
        );
    }

    /// Verifies the proof: the two offset announcements first, then the
    /// common relation with the offset terms folded into the pairing.
    pub fn verify(
        &self,
        accumulator_value: &G1Elem,
        challenge: &Scalar,
        pk: &PublicKey,
        params: &SetupParams,
        prk: &NonMembershipProvingKey,
    ) -> (r: Result<(), VBAccumulatorError>)
        ensures
            r == spec_verify_nonmem(*self, accumulator_value@, challenge@, *pk, *params, *prk),
    {
        let R_A = g1_add(
            &g1_add(
                &g1_mul(&params.P, &self.schnorr_response.s_u),
                &g1_mul(&prk.K, &self.schnorr_response.s_v),
            ),
            &g1_neg(&g1_mul(&self.randomized_witness.E_d, challenge)),
        );
        if !bytes_eq(&R_A.b, &self.schnorr_commit.R_A.b) {
            return Err(VBAccumulatorError::E_d_ResponseInvalid);
        }
        let R_B = g1_add(
            &g1_add(
                &g1_mul(&prk.K, &self.schnorr_response.s_w),
                &g1_mul(&self.randomized_witness.E_d_inv, &self.schnorr_response.s_u),
            ),
            &g1_neg(&g1_mul(&params.P, challenge)),
        );
        if !bytes_eq(&R_B.b, &self.schnorr_commit.R_B.b) {
            return Err(VBAccumulatorError::E_d_inv_ResponseInvalid);
        }
        let extra_a = g1_mul(&prk.K, &scalar_neg(&self.schnorr_response.s_v));
        let extra_b = g1_mul(&self.randomized_witness.E_d, challenge);
        verify_common_proof(
            &self.randomized_witness.C,
            &self.schnorr_commit.C,
            &self.schnorr_response.C,
            Some((extra_a, extra_b)),
            accumulator_value,
            challenge,
            pk,
            params,
            &prk.XYZ,
        )
    }

    /// The Schnorr response for the non-member itself.
    pub fn get_schnorr_response_for_element(&self) -> (r: &Scalar)
        ensures
            r@ == self.schnorr_response.C.s_y@,
    {
        self.schnorr_response.C.get_response_for_element()
    }

    /// Verifies the offset announcements and the scalar side, staging the
    /// pairing equation into the batch checker.
    pub fn verify_with_checker(
        &self,
        accumulator_value: &G1Elem,
        challenge: &Scalar,
        pk: &PublicKey,
        params: &SetupParams,
        prk: &NonMembershipProvingKey,
        checker: &mut crate::pairing_check::RandomizedPairingChecker,
    ) -> (r: Result<(), VBAccumulatorError>)
        requires
            old(checker).wf(),
        ensures
            final(checker).wf(),
            r == spec_verify_nonmem_scalar_side(*self, challenge@, *params, *prk),
            r is Ok ==> crate::pairing_check::spec_add_target(
                *old(checker),
                *final(checker),
                verify_pairing_g1(
                    self.randomized_witness.C,
                    self.schnorr_response.C,
                    accumulator_value@,
                    challenge@,
                    prk.XYZ,
                    Some(
                        (
                            g1_mul_of(prk.K@, sc_neg_of(self.schnorr_response.s_v@)),
                            g1_mul_of(self.randomized_witness.E_d@, challenge@),
                        ),
                    ),
                ),
                verify_pairing_g2(
                    *pk,
                    *params,
                    Some(
                        (
                            g1_mul_of(prk.K@, sc_neg_of(self.schnorr_response.s_v@)),
                            g1_mul_of(self.randomized_witness.E_d@, challenge@),
                        ),
                    ),
                ),
                self.schnorr_commit.C.R_E@,
                old(checker).lazy,
            ),
            r is Err ==> *final(checker) == *old(checker),
    {
        let R_A = g1_add(
            &g1_add(
                &g1_mul(&params.P, &self.schnorr_response.s_u),
                &g1_mul(&prk.K, &self.schnorr_response.s_v),
            ),
            &g1_neg(&g1_mul(&self.randomized_witness.E_d, challenge)),
        );
        if !bytes_eq(&R_A.b, &self.schnorr_commit.R_A.b) {
            return Err(VBAccumulatorError::E_d_ResponseInvalid);
        }
        let R_B = g1_add(
            &g1_add(
                &g1_mul(&prk.K, &self.schnorr_response.s_w),
                &g1_mul(&self.randomized_witness.E_d_inv, &self.schnorr_response.s_u),
            ),
            &g1_neg(&g1_mul(&params.P, challenge)),
        );
        if !bytes_eq(&R_B.b, &self.schnorr_commit.R_B.b) {
            return Err(VBAccumulatorError::E_d_inv_ResponseInvalid);
        }
        let extra_a = g1_mul(&prk.K, &scalar_neg(&self.schnorr_response.s_v));
        let extra_b = g1_mul(&self.randomized_witness.E_d, challenge);
        verify_common_proof_with_checker(
            &self.randomized_witness.C,
            &self.schnorr_commit.C,
            &self.schnorr_response.C,
            Some((extra_a, extra_b)),
            accumulator_value,
            challenge,
            pk,
            params,
            &prk.XYZ,
            checker,
        )
    }
}

/// The outcome of the non-membership checks other than the pairing
/// equation, which a batch checker decides later.
pub open spec fn spec_verify_nonmem_scalar_side(
    proof: NonMembershipProof,
    challenge: Seq<u8>,
    params: SetupParams,
    prk: NonMembershipProvingKey,
) -> Result<(), VBAccumulatorError> {
    if !check_e_d(
        proof.randomized_witness,
        proof.schnorr_commit,
        proof.schnorr_response,
        challenge,
        params,
        prk,
    ) {
        Err(VBAccumulatorError::E_d_ResponseInvalid)
    } else if !check_e_d_inv(
        proof.randomized_witness,
        proof.schnorr_commit,
        proof.schnorr_response,
        challenge,
        params,
        prk,
    ) {
        Err(VBAccumulatorError::E_d_inv_ResponseInvalid)
    } else {
        spec_verify_common_scalar_side(
            proof.randomized_witness.C,
            proof.schnorr_commit.C,
            proof.schnorr_response.C,
            challenge,
            prk.XYZ,
        )
    }
}

} // verus!
