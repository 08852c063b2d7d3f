//! The witnesses of a proof spec, one per statement and of its kind.

use vstd::prelude::*;

use crate::algebra::Scalar;
use crate::vbaccum::{MembershipWitness, NonMembershipWitness};

verus! {

/// The witness for one statement.
#[derive(Debug, PartialEq)]
pub enum Witness {
    /// The opening scalars of a Pedersen commitment.
    PedersenCommitment(Vec<Scalar>),
    /// The accumulated element and its membership witness.
    VBAccumulatorMembership { element: Scalar, witness: MembershipWitness },
    /// The absent element and its non-membership witness.
    VBAccumulatorNonMembership { element: Scalar, witness: NonMembershipWitness },
}

} // verus!
