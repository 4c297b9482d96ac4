//! Streaming Ed25519 signing for memory-constrained signers.
//!
//! The message to be signed may exceed available memory, so the signer is a
//! two-pass state machine: the first pass accumulates the nonce hash, the
//! second the challenge hash, and private key material is re-derived and
//! wiped inside each of two bounded exposure windows. Every public function
//! carries a contract that pins its output down to the Ed25519 signature
//! equations, stated over named hash and curve primitives.

pub mod bytes;
pub mod common;
pub mod ed25519;
pub mod eddsa;
pub mod hasher;
pub mod internal;
pub mod primitives;
