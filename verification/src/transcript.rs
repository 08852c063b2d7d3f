//! The Fiat-Shamir transcript: a write-only, domain-separated append log.
//! Every append is framed with the length of the label and of the message,
//! so distinct append sequences yield distinct logs; a challenge is the
//! digest of the whole log and a final label, mapped into the scalar field.

use vstd::prelude::*;

use crate::algebra::{sc_of_le_bytes, scalar_from_le_bytes, sha3_512, sha3_512_of, Scalar};
use crate::bytes::{append_framed, dup_bytes, spec_framed};

verus! {

/// The scalar derived from a byte string: its digest read as a
/// little-endian integer and reduced into the field.
pub open spec fn hash_scalar_of(bytes: Seq<u8>) -> Seq<u8> {
    sc_of_le_bytes(sha3_512_of(bytes))
}

/// Derives a scalar from a byte string.
pub fn hash_to_scalar(bytes: &Vec<u8>) -> (r: Scalar)
    ensures
        r@ == hash_scalar_of(bytes@),
{
    let digest = sha3_512(bytes);
    scalar_from_le_bytes(&digest)
}

/// The transcript log after one labelled append.
pub open spec fn spec_appended(state: Seq<u8>, label: Seq<u8>, msg: Seq<u8>) -> Seq<u8> {
    state + spec_framed(label) + spec_framed(msg)
}

/// The challenge drawn from a transcript log under a final label.
pub open spec fn challenge_of(state: Seq<u8>, label: Seq<u8>) -> Seq<u8> {
    hash_scalar_of(state + spec_framed(label))
}

/// A write-only append log with framed, labelled entries.
pub struct Transcript {
    pub data: Vec<u8>,
}

impl View for Transcript {
    type V = Seq<u8>;

    open spec fn view(&self) -> Seq<u8> {
        self.data@
    }
}

impl Transcript {
    /// A fresh transcript under a domain-separator label.
    pub fn new(label: &Vec<u8>) -> (r: Transcript)
        ensures
            r@ == spec_framed(label@),
    {
        let mut data: Vec<u8> = Vec::new();
        append_framed(&mut data, label);
        Transcript { data }
    }

    /// Appends a labelled message; order-sensitive.
    pub fn append_message(&mut self, label: &Vec<u8>, msg: &Vec<u8>)
        ensures
            final(self)@ == spec_appended(old(self)@, label@, msg@),
    {
        append_framed(&mut self.data, label);
        append_framed(&mut self.data, msg);
    }

    /// Appends raw bytes without a label, for sub-protocols that write
    /// their whole contribution as one already-structured block.
    pub fn append_raw(&mut self, msg: &Vec<u8>)
        ensures
            final(self)@ == old(self)@ + msg@,
    {
        crate::bytes::append_bytes(&mut self.data, msg);
    }

    /// Draws the challenge scalar determined by the log so far and the
    /// given label.
    pub fn challenge_scalar(&self, label: &Vec<u8>) -> (r: Scalar)
        ensures
            r@ == challenge_of(self@, label@),
    {
        let mut input = dup_bytes(&self.data);
        append_framed(&mut input, label);
        hash_to_scalar(&input)
    }
}

} // verus!
