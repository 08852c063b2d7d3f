//! Schnorr proof of knowledge of the opening of a Pedersen commitment
//! `C = sum of witnesses[i] * bases[i]`: one announcement and one response
//! per witness scalar, so that single responses can be shared across
//! statements through witness-equality classes.

use vstd::prelude::*;

use crate::algebra::{
    g1_add, g1_add_of, g1_msm, g1_msm_of, g1_mul, g1_mul_of, g1_views, random_scalar, sc_add_of,
    sc_mul_of, scalar_add, scalar_mul, scalar_views, FieldRng, G1Elem, Scalar,
};
use crate::bytes::{append_bytes, bytes_eq};

verus! {

/// Why a Schnorr proof was rejected.
#[derive(Debug, Clone, Copy, PartialEq, Eq)]
pub enum SchnorrError {
    /// The recomputed announcement does not meet the committed one.
    InvalidResponse,
    /// A response vector does not line up with the commitment key.
    MissingResponse,
}

/// Prover state of the Schnorr protocol: the announcement, the blindings
/// and the witnesses.
#[derive(Debug, PartialEq)]
pub struct SchnorrProtocol {
    pub t: G1Elem,
    pub blindings: Vec<Scalar>,
    pub witnesses: Vec<Scalar>,
}

/// The challenge-contribution bytes of a Pedersen statement: the key, the
/// commitment and the announcement.
pub open spec fn schnorr_contribution_bytes(
    comm_key: Seq<Seq<u8>>,
    commitment: Seq<u8>,
    t: Seq<u8>,
) -> Seq<u8>
    decreases comm_key.len(),
{
    if comm_key.len() == 0 {
        commitment + t
    } else {
        comm_key.first() + schnorr_contribution_bytes(comm_key.drop_first(), commitment, t)
    }
}

/// Appends the challenge contribution of a Pedersen statement.
pub fn compute_schnorr_challenge_contribution(
    comm_key: &Vec<G1Elem>,
    commitment: &G1Elem,
    t: &G1Elem,
    writer: &mut Vec<u8>,
)
    ensures
        final(writer)@ == old(writer)@ + schnorr_contribution_bytes(
            g1_views(comm_key@),
            commitment@,
            t@,
        ),
{
    let mut i: usize = 0;
    proof {
        assert(g1_views(comm_key@).skip(0) =~= g1_views(comm_key@));
    }
    while i < comm_key.len()
        invariant
            i <= comm_key@.len(),
            old(writer)@ + schnorr_contribution_bytes(
                g1_views(comm_key@),
                commitment@,
                t@,
            ) == writer@ + schnorr_contribution_bytes(
                g1_views(comm_key@).skip(i as int),
                commitment@,
                t@,
            ),
        decreases comm_key@.len() - i,
    {
        proof {
            let kv = g1_views(comm_key@);
            assert(kv.skip(i as int).first() == kv[i as int]);
            assert(kv.skip(i as int).drop_first() =~= kv.skip(i + 1));
        }
        append_bytes(writer, &comm_key[i].b);
        proof {
            let kv = g1_views(comm_key@);
            assert(writer@ + schnorr_contribution_bytes(kv.skip(i + 1), commitment@, t@)
                =~= old(writer)@ + schnorr_contribution_bytes(kv, commitment@, t@));
        }
        i += 1;
    }
    proof {
        assert(g1_views(comm_key@).skip(comm_key@.len() as int)
            =~= Seq::<Seq<u8>>::empty());
    }
    append_bytes(writer, &commitment.b);
    append_bytes(writer, &t.b);
    proof {
        assert(writer@ =~= old(writer)@ + schnorr_contribution_bytes(
            g1_views(comm_key@),
            commitment@,
            t@,
        ));
    }
}

impl SchnorrProtocol {
    /// Starts the protocol: samples one blinding per witness, or adopts
    /// the supplied one, and announces their combination.
    pub fn init(
        rng: &mut FieldRng,
        comm_key: &Vec<G1Elem>,
        witnesses: Vec<Scalar>,
        blindings: Vec<Option<Scalar>>,
    ) -> (r: SchnorrProtocol)
        requires
            witnesses@.len() == comm_key@.len(),
            blindings@.len() == comm_key@.len(),
        ensures
            r.witnesses@ == witnesses@,
            r.blindings@.len() == comm_key@.len(),
            forall|i: int|
                0 <= i < comm_key@.len() ==> (blindings@[i] matches Some(b) ==> (
                #[trigger] r.blindings@[i])@ == b@),
            r.t@ == g1_msm_of(g1_views(comm_key@), scalar_views(r.blindings@)),
    {
        let mut bl: Vec<Scalar> = Vec::new();
        let mut i: usize = 0;
        while i < blindings.len()
            invariant
                i <= blindings@.len(),
                bl@.len() == i,
                forall|j: int|
                    0 <= j < i ==> (blindings@[j] matches Some(b) ==> (#[trigger] bl@[j])@
                        == b@),
            decreases blindings@.len() - i,
        {
            let next = match &blindings[i] {
                Some(b) => b.dup(),
                None => random_scalar(rng),
            };
            bl.push(next);
            i += 1;
        }
        let t = g1_msm(comm_key, &bl);
        SchnorrProtocol { t, blindings: bl, witnesses }
    }

    /// Appends this protocol's challenge contribution.
    pub fn challenge_contribution(
        &self,
        comm_key: &Vec<G1Elem>,
        commitment: &G1Elem,
        writer: &mut Vec<u8>,
    )
        ensures
            final(writer)@ == old(writer)@ + schnorr_contribution_bytes(
                g1_views(comm_key@),
                commitment@,
                self.t@,
            ),
    {
        compute_schnorr_challenge_contribution(comm_key, commitment, &self.t, writer);
    }

    /// The response phase: each blinding folded with its witness by the
    /// challenge, over as many pairs as both vectors hold.
    pub fn gen_responses(&self, challenge: &Scalar) -> (r: Vec<Scalar>)
        ensures
            r@.len() == (if self.witnesses@.len() <= self.blindings@.len() {
                self.witnesses@.len()
            } else {
                self.blindings@.len()
            }),
            forall|i: int|
                0 <= i < r@.len() ==> (#[trigger] r@[i])@ == sc_add_of(
                    self.blindings@[i]@,
                    sc_mul_of(self.witnesses@[i]@, challenge@),
                ),
    {
        let n = if self.witnesses.len() <= self.blindings.len() {
            self.witnesses.len()
        } else {
            self.blindings.len()
        };
        let mut out: Vec<Scalar> = Vec::new();
        let mut i: usize = 0;
        while i < n
            invariant
                i <= n,
                n <= self.witnesses@.len(),
                n <= self.blindings@.len(),
                out@.len() == i,
                forall|j: int|
                    0 <= j < i ==> (#[trigger] out@[j])@ == sc_add_of(
                        self.blindings@[j]@,
                        sc_mul_of(self.witnesses@[j]@, challenge@),
                    ),
            decreases n - i,
        {
            out.push(scalar_add(&self.blindings[i], &scalar_mul(&self.witnesses[i], challenge)));
            i += 1;
        }
        out
    }
}

/// Whether a full response vector satisfies the Schnorr equation: the
/// multi-scalar multiplication of the key with the responses meets the
/// announcement plus the challenge times the commitment.
pub open spec fn schnorr_responses_valid(
    comm_key: Seq<Seq<u8>>,
    commitment: Seq<u8>,
    t: Seq<u8>,
    challenge: Seq<u8>,
    responses: Seq<Seq<u8>>,
) -> bool {
    g1_msm_of(comm_key, responses) == g1_add_of(t, g1_mul_of(commitment, challenge))
}

/// Checks a full response vector against the commitment.
pub fn verify_schnorr_responses(
    comm_key: &Vec<G1Elem>,
    commitment: &G1Elem,
    t: &G1Elem,
    challenge: &Scalar,
    responses: &Vec<Scalar>,
) -> (r: Result<(), SchnorrError>)
    ensures
        responses@.len() != comm_key@.len() ==> r == Result::<(), SchnorrError>::Err(
            SchnorrError::MissingResponse,
        ),
        responses@.len() == comm_key@.len() ==> r == (if schnorr_responses_valid(
            g1_views(comm_key@),
            commitment@,
            t@,
            challenge@,
            scalar_views(responses@),
        ) {
            Result::<(), SchnorrError>::Ok(())
        } else {
            Result::<(), SchnorrError>::Err(SchnorrError::InvalidResponse)
        }),
{
    if responses.len() != comm_key.len() {
        return Err(SchnorrError::MissingResponse);
    }
    let lhs = g1_msm(comm_key, responses);
    let rhs = g1_add(t, &g1_mul(commitment, challenge));
    if bytes_eq(&lhs.b, &rhs.b) {
        Ok(())
    } else {
        Err(SchnorrError::InvalidResponse)
    }
}

} // verus!
