#![allow(non_snake_case)]
#![allow(non_camel_case_types)]
//! Composite zero-knowledge proof engine: statements plus witness-equality
//! meta-statements are proved under a single Fiat-Shamir transcript.
//!
//! Group and field elements are carried in their canonical compressed
//! encodings; the curve arithmetic itself is delegated to the arkworks
//! crates through a small set of trusted wrappers in `algebra`.

pub mod bytes;
pub mod algebra;
pub mod transcript;
pub mod pairing_check;
pub mod meta;
pub mod vbaccum;
pub mod compressed;
pub mod syra;
pub mod bpp;
pub mod schnorr;
pub mod error;
pub mod statement;
pub mod witness;
pub mod statement_proof;
pub mod proof_spec;
pub mod verification;
pub mod prover;
