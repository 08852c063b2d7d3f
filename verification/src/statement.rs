//! The statements of a proof spec: tagged variants carrying public
//! parameters, either inline or as references into the shared setup-params
//! pool, plus the pool itself and the resolution of the references.

use vstd::prelude::*;

use crate::algebra::{g1_views, sc_le_half_of, sc_lt_of, scalar_le_half_order, scalar_lt, G1Elem, Scalar};
use crate::error::ProofSystemError;
use crate::vbaccum::{MembershipProvingKey, NonMembershipProvingKey, PublicKey};

verus! {

/// A typed parameter blob of the shared pool, addressable by index.
#[derive(Debug, PartialEq)]
pub enum SetupParams {
    PedersenCommitmentKey(Vec<G1Elem>),
    VbAccumulatorParams(crate::vbaccum::SetupParams),
    VbAccumulatorPublicKey(PublicKey),
    VbAccumulatorMemProvingKey(MembershipProvingKey),
    VbAccumulatorNonMemProvingKey(NonMembershipProvingKey),
    /// An opaque serialized proving key of the range-check back-end.
    LegoSnarkProvingKey(Vec<u8>),
    /// An opaque serialized verifying key of the range-check back-end.
    LegoSnarkVerifyingKey(Vec<u8>),
}

/// Proof of knowledge of the opening of a Pedersen commitment.
#[derive(Debug, PartialEq)]
pub struct PedersenCommitmentStmt {
    pub commitment: G1Elem,
    pub key: Option<Vec<G1Elem>>,
    pub key_ref: Option<usize>,
}

/// Membership of a hidden element in an accumulator.
#[derive(Debug, PartialEq)]
pub struct VbAccumulatorMemStmt {
    pub accumulator_value: G1Elem,
    pub params: Option<crate::vbaccum::SetupParams>,
    pub params_ref: Option<usize>,
    pub public_key: Option<PublicKey>,
    pub public_key_ref: Option<usize>,
    pub proving_key: Option<MembershipProvingKey>,
    pub proving_key_ref: Option<usize>,
}

/// Non-membership of a hidden element in a universal accumulator.
#[derive(Debug, PartialEq)]
pub struct VbAccumulatorNonMemStmt {
    pub accumulator_value: G1Elem,
    pub params: Option<crate::vbaccum::SetupParams>,
    pub params_ref: Option<usize>,
    pub public_key: Option<PublicKey>,
    pub public_key_ref: Option<usize>,
    pub proving_key: Option<NonMembershipProvingKey>,
    pub proving_key_ref: Option<usize>,
}

/// Prover-side bound check `min <= message <= max` over the snark
/// back-end, whose key the statement carries opaquely.
#[derive(Debug, PartialEq)]
pub struct BoundCheckLegoGroth16Prover {
    pub min: Scalar,
    pub max: Scalar,
    pub snark_proving_key: Option<Vec<u8>>,
    pub snark_proving_key_ref: Option<usize>,
}

/// Verifier-side bound check `min <= message <= max`.
#[derive(Debug, PartialEq)]
pub struct BoundCheckLegoGroth16Verifier {
    pub min: Scalar,
    pub max: Scalar,
    pub snark_verifying_key: Option<Vec<u8>>,
    pub snark_verifying_key_ref: Option<usize>,
}

/// A statement of the proof spec.
#[derive(Debug, PartialEq)]
pub enum Statement {
    PedersenCommitment(PedersenCommitmentStmt),
    VBAccumulatorMembership(VbAccumulatorMemStmt),
    VBAccumulatorNonMembership(VbAccumulatorNonMemStmt),
    BoundCheckLegoGroth16Prover(BoundCheckLegoGroth16Prover),
    BoundCheckLegoGroth16Verifier(BoundCheckLegoGroth16Verifier),
}

/// Whether the bounds of a bound-check statement are admissible: the
/// bounds must be ordered and fit in half the field order.
pub open spec fn spec_bounds_valid(min: Seq<u8>, max: Seq<u8>) -> bool {
    sc_lt_of(min, max) && sc_le_half_of(max) && sc_le_half_of(min)
}

/// Checks the bounds of a bound-check statement: ordered, and each within
/// half the field order.
pub fn validate_bounds(min: &Scalar, max: &Scalar) -> (r: Result<(), ProofSystemError>)
    ensures
        r is Ok <==> spec_bounds_valid(min@, max@),
        !sc_lt_of(min@, max@) ==> r == Result::<(), ProofSystemError>::Err(
            ProofSystemError::BoundCheckMaxNotGreaterThanMin,
        ),
        sc_lt_of(min@, max@) && !(sc_le_half_of(max@) && sc_le_half_of(min@)) ==> r
            == Result::<(), ProofSystemError>::Err(ProofSystemError::BoundCheckBoundExceedsField),
{
    if !scalar_lt(min, max) {
        return Err(ProofSystemError::BoundCheckMaxNotGreaterThanMin);
    }
    if !scalar_le_half_order(max) || !scalar_le_half_order(min) {
        return Err(ProofSystemError::BoundCheckBoundExceedsField);
    }
    Ok(())
}

impl BoundCheckLegoGroth16Prover {
    /// A bound-check prover statement around an inline proving key;
    /// rejects inadmissible bounds.
    pub fn new_statement_from_params(min: Scalar, max: Scalar, snark_proving_key: Vec<u8>) -> (r:
        Result<Statement, ProofSystemError>)
        ensures
            r is Ok <==> spec_bounds_valid(min@, max@),
            r matches Ok(st) ==> st == Statement::BoundCheckLegoGroth16Prover(
                BoundCheckLegoGroth16Prover {
                    min,
                    max,
                    snark_proving_key: Some(snark_proving_key),
                    snark_proving_key_ref: None,
                },
            ),
    {
        match validate_bounds(&min, &max) {
            Ok(()) => Ok(
                Statement::BoundCheckLegoGroth16Prover(
                    BoundCheckLegoGroth16Prover {
                        min,
                        max,
                        snark_proving_key: Some(snark_proving_key),
                        snark_proving_key_ref: None,
                    },
                ),
            ),
            Err(e) => Err(e),
        }
    }

    /// A bound-check prover statement around a pool reference; the
    /// bounds are validated with the whole spec.
    pub fn new_statement_from_params_ref(min: Scalar, max: Scalar, snark_proving_key_ref: usize)
        -> (r: Statement)
        ensures
            r == Statement::BoundCheckLegoGroth16Prover(
                BoundCheckLegoGroth16Prover {
                    min,
                    max,
                    snark_proving_key: None,
                    snark_proving_key_ref: Some(snark_proving_key_ref),
                },
            ),
    {
        Statement::BoundCheckLegoGroth16Prover(
            BoundCheckLegoGroth16Prover {
                min,
                max,
                snark_proving_key: None,
                snark_proving_key_ref: Some(snark_proving_key_ref),
            },
        )
    }

    /// The resolved proving key.
    pub fn get_proving_key<'a>(&'a self, setup_params: &'a Vec<SetupParams>) -> (r: Result<
        &'a Vec<u8>,
        ProofSystemError,
    >)
        ensures
            r is Ok <==> spec_lego_pk_resolves(setup_params@, *self),
    {
        match &self.snark_proving_key {
            Some(k) => Ok(k),
            None => match self.snark_proving_key_ref {
                Some(i) => {
                    if i < setup_params.len() {
                        match &setup_params[i] {
                            SetupParams::LegoSnarkProvingKey(k) => Ok(k),
                            _ => Err(ProofSystemError::InvalidProofSpec),
                        }
                    } else {
                        Err(ProofSystemError::InvalidProofSpec)
                    }
                },
                None => Err(ProofSystemError::InvalidProofSpec),
            },
        }
    }
}

/// Whether a bound-check prover statement's key reference resolves.
pub open spec fn spec_lego_pk_resolves(
    pool: Seq<SetupParams>,
    s: BoundCheckLegoGroth16Prover,
) -> bool {
    if s.snark_proving_key is Some {
        true
    } else {
        match s.snark_proving_key_ref {
            Some(i) => 0 <= i < pool.len() && pool[i as int] is LegoSnarkProvingKey,
            None => false,
        }
    }
}

impl BoundCheckLegoGroth16Verifier {
    /// A bound-check verifier statement around an inline verifying key;
    /// rejects inadmissible bounds.
    pub fn new_statement_from_params(min: Scalar, max: Scalar, snark_verifying_key: Vec<u8>) -> (r:
        Result<Statement, ProofSystemError>)
        ensures
            r is Ok <==> spec_bounds_valid(min@, max@),
            r matches Ok(st) ==> st == Statement::BoundCheckLegoGroth16Verifier(
                BoundCheckLegoGroth16Verifier {
                    min,
                    max,
                    snark_verifying_key: Some(snark_verifying_key),
                    snark_verifying_key_ref: None,
                },
            ),
    {
        match validate_bounds(&min, &max) {
            Ok(()) => Ok(
                Statement::BoundCheckLegoGroth16Verifier(
                    BoundCheckLegoGroth16Verifier {
                        min,
                        max,
                        snark_verifying_key: Some(snark_verifying_key),
                        snark_verifying_key_ref: None,
                    },
                ),
            ),
            Err(e) => Err(e),
        }
    }

    /// A bound-check verifier statement around a pool reference.
    pub fn new_statement_from_params_ref(min: Scalar, max: Scalar, snark_verifying_key_ref: usize)
        -> (r: Statement)
        ensures
            r == Statement::BoundCheckLegoGroth16Verifier(
                BoundCheckLegoGroth16Verifier {
                    min,
                    max,
                    snark_verifying_key: None,
                    snark_verifying_key_ref: Some(snark_verifying_key_ref),
                },
            ),
    {
        Statement::BoundCheckLegoGroth16Verifier(
            BoundCheckLegoGroth16Verifier {
                min,
                max,
                snark_verifying_key: None,
                snark_verifying_key_ref: Some(snark_verifying_key_ref),
            },
        )
    }

    /// The resolved verifying key.
    pub fn get_verifying_key<'a>(&'a self, setup_params: &'a Vec<SetupParams>) -> (r: Result<
        &'a Vec<u8>,
        ProofSystemError,
    >)
        ensures
            r is Ok <==> spec_lego_vk_resolves(setup_params@, *self),
    {
        match &self.snark_verifying_key {
            Some(k) => Ok(k),
            None => match self.snark_verifying_key_ref {
                Some(i) => {
                    if i < setup_params.len() {
                        match &setup_params[i] {
                            SetupParams::LegoSnarkVerifyingKey(k) => Ok(k),
                            _ => Err(ProofSystemError::InvalidProofSpec),
                        }
                    } else {
                        Err(ProofSystemError::InvalidProofSpec)
                    }
                },
                None => Err(ProofSystemError::InvalidProofSpec),
            },
        }
    }
}

/// Whether a bound-check verifier statement's key reference resolves.
pub open spec fn spec_lego_vk_resolves(
    pool: Seq<SetupParams>,
    s: BoundCheckLegoGroth16Verifier,
) -> bool {
    if s.snark_verifying_key is Some {
        true
    } else {
        match s.snark_verifying_key_ref {
            Some(i) => 0 <= i < pool.len() && pool[i as int] is LegoSnarkVerifyingKey,
            None => false,
        }
    }
}

/// Whether a Pedersen statement's key resolves.
pub open spec fn spec_ped_key_resolves(pool: Seq<SetupParams>, s: PedersenCommitmentStmt) -> bool {
    if s.key is Some {
        true
    } else {
        match s.key_ref {
            Some(i) => 0 <= i < pool.len() && pool[i as int] is PedersenCommitmentKey,
            None => false,
        }
    }
}

/// The encodings of a Pedersen statement's resolved key.
pub open spec fn spec_resolved_ped_key(
    pool: Seq<SetupParams>,
    s: PedersenCommitmentStmt,
) -> Seq<Seq<u8>> {
    match s.key {
        Some(k) => g1_views(k@),
        None => g1_views(pool[s.key_ref->Some_0 as int]->PedersenCommitmentKey_0@),
    }
}

impl PedersenCommitmentStmt {
    /// A Pedersen statement around an inline key.
    pub fn new_statement_from_params(commitment: G1Elem, key: Vec<G1Elem>) -> (r: Statement)
        ensures
            r == Statement::PedersenCommitment(
                PedersenCommitmentStmt { commitment, key: Some(key), key_ref: None },
            ),
    {
        Statement::PedersenCommitment(
            PedersenCommitmentStmt { commitment, key: Some(key), key_ref: None },
        )
    }

    /// A Pedersen statement around a pool reference.
    pub fn new_statement_from_params_ref(commitment: G1Elem, key_ref: usize) -> (r: Statement)
        ensures
            r == Statement::PedersenCommitment(
                PedersenCommitmentStmt { commitment, key: None, key_ref: Some(key_ref) },
            ),
    {
        Statement::PedersenCommitment(
            PedersenCommitmentStmt { commitment, key: None, key_ref: Some(key_ref) },
        )
    }

    /// The resolved commitment key.
    pub fn get_commitment_key<'a>(&'a self, setup_params: &'a Vec<SetupParams>) -> (r: Result<
        &'a Vec<G1Elem>,
        ProofSystemError,
    >)
        ensures
            r is Ok <==> spec_ped_key_resolves(setup_params@, *self),
            r matches Ok(k) ==> g1_views(k@) == spec_resolved_ped_key(setup_params@, *self),
    {
        match &self.key {
            Some(k) => Ok(k),
            None => match self.key_ref {
                Some(i) => {
                    if i < setup_params.len() {
                        match &setup_params[i] {
                            SetupParams::PedersenCommitmentKey(k) => Ok(k),
                            _ => Err(ProofSystemError::InvalidProofSpec),
                        }
                    } else {
                        Err(ProofSystemError::InvalidProofSpec)
                    }
                },
                None => Err(ProofSystemError::InvalidProofSpec),
            },
        }
    }
}

/// Whether the parameters reference of a membership statement resolves.
pub open spec fn spec_vbmem_params_resolves(pool: Seq<SetupParams>, s: VbAccumulatorMemStmt) -> bool {
    if s.params is Some {
        true
    } else {
        match s.params_ref {
            Some(i) => 0 <= i < pool.len() && pool[i as int] is VbAccumulatorParams,
            None => false,
        }
    }
}

/// Whether the public-key reference of a membership statement resolves.
pub open spec fn spec_vbmem_pk_resolves(pool: Seq<SetupParams>, s: VbAccumulatorMemStmt) -> bool {
    if s.public_key is Some {
        true
    } else {
        match s.public_key_ref {
            Some(i) => 0 <= i < pool.len() && pool[i as int] is VbAccumulatorPublicKey,
            None => false,
        }
    }
}

/// Whether the proving-key reference of a membership statement resolves.
pub open spec fn spec_vbmem_prk_resolves(pool: Seq<SetupParams>, s: VbAccumulatorMemStmt) -> bool {
    if s.proving_key is Some {
        true
    } else {
        match s.proving_key_ref {
            Some(i) => 0 <= i < pool.len() && pool[i as int] is VbAccumulatorMemProvingKey,
            None => false,
        }
    }
}

/// Whether an accumulator-membership statement's references resolve.
pub open spec fn spec_vbmem_resolves(pool: Seq<SetupParams>, s: VbAccumulatorMemStmt) -> bool {
    spec_vbmem_params_resolves(pool, s) && spec_vbmem_pk_resolves(pool, s)
        && spec_vbmem_prk_resolves(pool, s)
}

/// The resolved parts of an accumulator-membership statement.
pub open spec fn spec_resolved_vbmem(pool: Seq<SetupParams>, s: VbAccumulatorMemStmt) -> (
    crate::vbaccum::SetupParams,
    PublicKey,
    MembershipProvingKey,
) {
    (
        match s.params {
            Some(p) => p,
            None => pool[s.params_ref->Some_0 as int]->VbAccumulatorParams_0,
        },
        match s.public_key {
            Some(p) => p,
            None => pool[s.public_key_ref->Some_0 as int]->VbAccumulatorPublicKey_0,
        },
        match s.proving_key {
            Some(p) => p,
            None => pool[s.proving_key_ref->Some_0 as int]->VbAccumulatorMemProvingKey_0,
        },
    )
}

impl VbAccumulatorMemStmt {
    /// The resolved accumulator parameters.
    pub fn get_params<'a>(&'a self, setup_params: &'a Vec<SetupParams>) -> (r: Result<
        &'a crate::vbaccum::SetupParams,
        ProofSystemError,
    >)
        ensures
            r is Ok <==> spec_vbmem_params_resolves(setup_params@, *self),
            r matches Ok(p) ==> *p == spec_resolved_vbmem(setup_params@, *self).0,
    {
        match &self.params {
            Some(p) => Ok(p),
            None => match self.params_ref {
                Some(i) => {
                    if i < setup_params.len() {
                        match &setup_params[i] {
                            SetupParams::VbAccumulatorParams(p) => Ok(p),
                            _ => Err(ProofSystemError::InvalidProofSpec),
                        }
                    } else {
                        Err(ProofSystemError::InvalidProofSpec)
                    }
                },
                None => Err(ProofSystemError::InvalidProofSpec),
            },
        }
    }

    /// The resolved accumulator public key.
    pub fn get_public_key<'a>(&'a self, setup_params: &'a Vec<SetupParams>) -> (r: Result<
        &'a PublicKey,
        ProofSystemError,
    >)
        ensures
            r is Ok <==> spec_vbmem_pk_resolves(setup_params@, *self),
            r matches Ok(p) ==> *p == spec_resolved_vbmem(setup_params@, *self).1,
    {
        match &self.public_key {
            Some(p) => Ok(p),
            None => match self.public_key_ref {
                Some(i) => {
                    if i < setup_params.len() {
                        match &setup_params[i] {
                            SetupParams::VbAccumulatorPublicKey(p) => Ok(p),
                            _ => Err(ProofSystemError::InvalidProofSpec),
                        }
                    } else {
                        Err(ProofSystemError::InvalidProofSpec)
                    }
                },
                None => Err(ProofSystemError::InvalidProofSpec),
            },
        }
    }

    /// The resolved membership proving key.
    pub fn get_proving_key<'a>(&'a self, setup_params: &'a Vec<SetupParams>) -> (r: Result<
        &'a MembershipProvingKey,
        ProofSystemError,
    >)
        ensures
            r is Ok <==> spec_vbmem_prk_resolves(setup_params@, *self),
            r matches Ok(p) ==> *p == spec_resolved_vbmem(setup_params@, *self).2,
    {
        match &self.proving_key {
            Some(p) => Ok(p),
            None => match self.proving_key_ref {
                Some(i) => {
                    if i < setup_params.len() {
                        match &setup_params[i] {
                            SetupParams::VbAccumulatorMemProvingKey(p) => Ok(p),
                            _ => Err(ProofSystemError::InvalidProofSpec),
                        }
                    } else {
                        Err(ProofSystemError::InvalidProofSpec)
                    }
                },
                None => Err(ProofSystemError::InvalidProofSpec),
            },
        }
    }

    /// Whether every reference of this statement resolves.
    pub fn resolves(&self, setup_params: &Vec<SetupParams>) -> (r: bool)
        ensures
            r == spec_vbmem_resolves(setup_params@, *self),
    {
        let a = match self.get_params(setup_params) {
            Ok(_) => true,
            Err(_) => false,
        };
        let b = match self.get_public_key(setup_params) {
            Ok(_) => true,
            Err(_) => false,
        };
        let c = match self.get_proving_key(setup_params) {
            Ok(_) => true,
            Err(_) => false,
        };
        a && b && c
    }
}

/// Whether the parameters reference of a non-membership statement
/// resolves.
pub open spec fn spec_vbnonmem_params_resolves(
    pool: Seq<SetupParams>,
    s: VbAccumulatorNonMemStmt,
) -> bool {
    if s.params is Some {
        true
    } else {
        match s.params_ref {
            Some(i) => 0 <= i < pool.len() && pool[i as int] is VbAccumulatorParams,
            None => false,
        }
    }
}

/// Whether the public-key reference of a non-membership statement
/// resolves.
pub open spec fn spec_vbnonmem_pk_resolves(
    pool: Seq<SetupParams>,
    s: VbAccumulatorNonMemStmt,
) -> bool {
    if s.public_key is Some {
        true
    } else {
        match s.public_key_ref {
            Some(i) => 0 <= i < pool.len() && pool[i as int] is VbAccumulatorPublicKey,
            None => false,
        }
    }
}

/// Whether the proving-key reference of a non-membership statement
/// resolves.
pub open spec fn spec_vbnonmem_prk_resolves(
    pool: Seq<SetupParams>,
    s: VbAccumulatorNonMemStmt,
) -> bool {
    if s.proving_key is Some {
        true
    } else {
        match s.proving_key_ref {
            Some(i) => 0 <= i < pool.len() && pool[i as int] is VbAccumulatorNonMemProvingKey,
            None => false,
        }
    }
}

/// Whether an accumulator-non-membership statement's references resolve.
pub open spec fn spec_vbnonmem_resolves(
    pool: Seq<SetupParams>,
    s: VbAccumulatorNonMemStmt,
) -> bool {
    spec_vbnonmem_params_resolves(pool, s) && spec_vbnonmem_pk_resolves(pool, s)
        && spec_vbnonmem_prk_resolves(pool, s)
}

/// The resolved parts of an accumulator-non-membership statement.
pub open spec fn spec_resolved_vbnonmem(pool: Seq<SetupParams>, s: VbAccumulatorNonMemStmt) -> (
    crate::vbaccum::SetupParams,
    PublicKey,
    NonMembershipProvingKey,
) {
    (
        match s.params {
            Some(p) => p,
            None => pool[s.params_ref->Some_0 as int]->VbAccumulatorParams_0,
        },
        match s.public_key {
            Some(p) => p,
            None => pool[s.public_key_ref->Some_0 as int]->VbAccumulatorPublicKey_0,
        },
        match s.proving_key {
            Some(p) => p,
            None => pool[s.proving_key_ref->Some_0 as int]->VbAccumulatorNonMemProvingKey_0,
        },
    )
}

impl VbAccumulatorNonMemStmt {
    /// The resolved accumulator parameters.
    pub fn get_params<'a>(&'a self, setup_params: &'a Vec<SetupParams>) -> (r: Result<
        &'a crate::vbaccum::SetupParams,
        ProofSystemError,
    >)
        ensures
            r is Ok <==> spec_vbnonmem_params_resolves(setup_params@, *self),
            r matches Ok(p) ==> *p == spec_resolved_vbnonmem(setup_params@, *self).0,
    {
        match &self.params {
            Some(p) => Ok(p),
            None => match self.params_ref {
                Some(i) => {
                    if i < setup_params.len() {
                        match &setup_params[i] {
                            SetupParams::VbAccumulatorParams(p) => Ok(p),
                            _ => Err(ProofSystemError::InvalidProofSpec),
                        }
                    } else {
                        Err(ProofSystemError::InvalidProofSpec)
                    }
                },
                None => Err(ProofSystemError::InvalidProofSpec),
            },
        }
    }

    /// The resolved accumulator public key.
    pub fn get_public_key<'a>(&'a self, setup_params: &'a Vec<SetupParams>) -> (r: Result<
        &'a PublicKey,
        ProofSystemError,
    >)
        ensures
            r is Ok <==> spec_vbnonmem_pk_resolves(setup_params@, *self),
            r matches Ok(p) ==> *p == spec_resolved_vbnonmem(setup_params@, *self).1,
    {
        match &self.public_key {
            Some(p) => Ok(p),
            None => match self.public_key_ref {
                Some(i) => {
                    if i < setup_params.len() {
                        match &setup_params[i] {
                            SetupParams::VbAccumulatorPublicKey(p) => Ok(p),
                            _ => Err(ProofSystemError::InvalidProofSpec),
                        }
                    } else {
                        Err(ProofSystemError::InvalidProofSpec)
                    }
                },
                None => Err(ProofSystemError::InvalidProofSpec),
            },
        }
    }

    /// The resolved non-membership proving key.
    pub fn get_proving_key<'a>(&'a self, setup_params: &'a Vec<SetupParams>) -> (r: Result<
        &'a NonMembershipProvingKey,
        ProofSystemError,
    >)
        ensures
            r is Ok <==> spec_vbnonmem_prk_resolves(setup_params@, *self),
            r matches Ok(p) ==> *p == spec_resolved_vbnonmem(setup_params@, *self).2,
    {
        match &self.proving_key {
            Some(p) => Ok(p),
            None => match self.proving_key_ref {
                Some(i) => {
                    if i < setup_params.len() {
                        match &setup_params[i] {
                            SetupParams::VbAccumulatorNonMemProvingKey(p) => Ok(p),
                            _ => Err(ProofSystemError::InvalidProofSpec),
                        }
                    } else {
                        Err(ProofSystemError::InvalidProofSpec)
                    }
                },
                None => Err(ProofSystemError::InvalidProofSpec),
            },
        }
    }

    /// Whether every reference of this statement resolves.
    pub fn resolves(&self, setup_params: &Vec<SetupParams>) -> (r: bool)
        ensures
            r == spec_vbnonmem_resolves(setup_params@, *self),
    {
        let a = match self.get_params(setup_params) {
            Ok(_) => true,
            Err(_) => false,
        };
        let b = match self.get_public_key(setup_params) {
            Ok(_) => true,
            Err(_) => false,
        };
        let c = match self.get_proving_key(setup_params) {
            Ok(_) => true,
            Err(_) => false,
        };
        a && b && c
    }
}

} // verus!
