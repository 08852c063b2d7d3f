//! The proof spec: the declarative list of statements, the meta
//! statements, the shared setup-params pool and the optional context,
//! together with its validation.

use vstd::prelude::*;

use crate::bytes::dup_bytes;
use crate::error::ProofSystemError;
use crate::meta::{ew_has, MetaStatements};
use crate::statement::{
    spec_bounds_valid, spec_lego_pk_resolves, spec_lego_vk_resolves, spec_ped_key_resolves,
    spec_vbmem_resolves, spec_vbnonmem_resolves, validate_bounds, SetupParams, Statement,
};

verus! {

/// The declarative description of what is to be proven.
#[derive(Debug, PartialEq)]
pub struct ProofSpec {
    pub statements: Vec<Statement>,
    pub meta_statements: MetaStatements,
    pub setup_params: Vec<SetupParams>,
    pub context: Option<Vec<u8>>,
}

/// Whether one statement's parameter references resolve against the pool,
/// and its local invariants hold.
pub open spec fn spec_statement_valid(pool: Seq<SetupParams>, s: Statement) -> bool {
    match s {
        Statement::PedersenCommitment(st) => spec_ped_key_resolves(pool, st),
        Statement::VBAccumulatorMembership(st) => spec_vbmem_resolves(pool, st),
        Statement::VBAccumulatorNonMembership(st) => spec_vbnonmem_resolves(pool, st),
        Statement::BoundCheckLegoGroth16Prover(st) => spec_lego_pk_resolves(pool, st)
            && spec_bounds_valid(st.min@, st.max@),
        Statement::BoundCheckLegoGroth16Verifier(st) => spec_lego_vk_resolves(pool, st)
            && spec_bounds_valid(st.min@, st.max@),
    }
}

/// Whether the whole spec is valid: every statement's references resolve,
/// every meta statement relates at least two references, and every
/// reference points at an existing statement.
pub open spec fn spec_valid(spec: ProofSpec) -> bool {
    &&& forall|i: int|
        0 <= i < spec.statements@.len() ==> spec_statement_valid(
            spec.setup_params@,
            #[trigger] spec.statements@[i],
        )
    &&& forall|k: int|
        0 <= k < spec.meta_statements.eqs@.len() ==> (
        #[trigger] spec.meta_statements.eqs@[k]).refs@.len() >= 2
    &&& forall|k: int, x: (usize, usize)|
        0 <= k < spec.meta_statements.eqs@.len() && #[trigger] ew_has(
            spec.meta_statements.eqs@[k],
            x,
        ) ==> x.0 < spec.statements@.len()
}

impl ProofSpec {
    /// A spec over the given statements, meta statements, pool and
    /// context.
    pub fn new(
        statements: Vec<Statement>,
        meta_statements: MetaStatements,
        setup_params: Vec<SetupParams>,
        context: Option<Vec<u8>>,
    ) -> (r: ProofSpec)
        ensures
            r == (ProofSpec { statements, meta_statements, setup_params, context }),
    {
        ProofSpec { statements, meta_statements, setup_params, context }
    }

    /// The context bytes, or an empty string where none was given.
    pub open spec fn spec_context_view(&self) -> Option<Seq<u8>> {
        match self.context {
            Some(c) => Some(c@),
            None => None,
        }
    }

    /// Validates the spec: all parameter references resolve, all local
    /// statement invariants hold, and all meta statements are
    /// well-formed.
    pub fn validate(&self) -> (r: Result<(), ProofSystemError>)
        ensures
            r is Ok <==> spec_valid(*self),
            r is Err ==> r == Result::<(), ProofSystemError>::Err(
                ProofSystemError::InvalidProofSpec,
            ),
    {
        let mut i: usize = 0;
        while i < self.statements.len()
            invariant
                i <= self.statements@.len(),
                forall|j: int|
                    0 <= j < i ==> spec_statement_valid(
                        self.setup_params@,
                        #[trigger] self.statements@[j],
                    ),
            decreases self.statements@.len() - i,
        {
            let ok = match &self.statements[i] {
                Statement::PedersenCommitment(st) => match st.get_commitment_key(
                    &self.setup_params,
                ) {
                    Ok(_) => true,
                    Err(_) => false,
                },
                Statement::VBAccumulatorMembership(st) => st.resolves(&self.setup_params),
                Statement::VBAccumulatorNonMembership(st) => st.resolves(&self.setup_params),
                Statement::BoundCheckLegoGroth16Prover(st) => {
                    let keys = match st.get_proving_key(&self.setup_params) {
                        Ok(_) => true,
                        Err(_) => false,
                    };
                    let bounds = match validate_bounds(&st.min, &st.max) {
                        Ok(_) => true,
                        Err(_) => false,
                    };
                    keys && bounds
                },
                Statement::BoundCheckLegoGroth16Verifier(st) => {
                    let keys = match st.get_verifying_key(&self.setup_params) {
                        Ok(_) => true,
                        Err(_) => false,
                    };
                    let bounds = match validate_bounds(&st.min, &st.max) {
                        Ok(_) => true,
                        Err(_) => false,
                    };
                    keys && bounds
                },
            };
            if !ok {
                return Err(ProofSystemError::InvalidProofSpec);
            }
            i += 1;
        }
        let mut k: usize = 0;
        while k < self.meta_statements.eqs.len()
            invariant
                k <= self.meta_statements.eqs@.len(),
                forall|j: int|
                    0 <= j < k ==> (#[trigger] self.meta_statements.eqs@[j]).refs@.len() >= 2,
                forall|j: int, x: (usize, usize)|
                    0 <= j < k && #[trigger] ew_has(self.meta_statements.eqs@[j], x) ==> x.0
                        < self.statements@.len(),
            decreases self.meta_statements.eqs@.len() - k,
        {
            let eq = &self.meta_statements.eqs[k];
            if eq.refs.len() < 2 {
                return Err(ProofSystemError::InvalidProofSpec);
            }
            let mut m: usize = 0;
            while m < eq.refs.len()
                invariant
                    m <= eq.refs@.len(),
                    eq == &self.meta_statements.eqs@[k as int],
                    k < self.meta_statements.eqs@.len(),
                    forall|j: int| 0 <= j < m ==> (#[trigger] eq.refs@[j]).0
                        < self.statements@.len(),
                decreases eq.refs@.len() - m,
            {
                if eq.refs[m].0 >= self.statements.len() {
                    proof {
                        assert(eq.refs@.contains(eq.refs@[m as int]));
                        assert(ew_has(self.meta_statements.eqs@[k as int], eq.refs@[m as int]));
                    }
                    return Err(ProofSystemError::InvalidProofSpec);
                }
                m += 1;
            }
            proof {
                assert forall|x: (usize, usize)|
                    ew_has(self.meta_statements.eqs@[k as int], x) implies x.0
                    < self.statements@.len() by {
                    let j = choose|j: int|
                        0 <= j < eq.refs@.len() && eq.refs@[j] == x;
                }
            }
            k += 1;
        }
        Ok(())
    }
}

} // verus!
