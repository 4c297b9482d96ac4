//! The direct, non-streaming signer: for callers holding the whole message in
//! memory, one call to the single-shot Ed25519 primitive. Serves as the
//! simpler fallback and as the equivalence oracle for the streaming path: its
//! contract states the very same signature the streaming signer is proved to
//! produce.

use vstd::prelude::*;

use ed25519_dalek::Signer;

use crate::ed25519::ed25519_signature_of;
use crate::internal::bip32_derive_eddsa;
use crate::internal::scalar_seed_of;
use crate::internal::PrivateKey;
use crate::internal::MAX_PATH_LEN;

verus! {

/// A 64-byte signature from the direct signer: `R` (32 bytes) then `S` (32).
#[derive(Clone, Debug, PartialEq, Eq)]
pub struct EdDSASignature(pub [u8; 64]);

/// Relies on `ed25519_dalek::SigningKey::{from_bytes, sign}` implementing
/// RFC 8032 Ed25519 exactly: the 32-byte seed is hashed with SHA-512, the low
/// half clamped into the scalar `a` and the high half kept as the nonce
/// prefix; the nonce is the hash of prefix and message, `R` its compressed
/// base-point multiple, and `S = (nonce + challenge · a) mod l` — which is
/// `ed25519_signature_of`, stated over the same named hash and curve
/// functions as the streaming signer's contract (the scalars there carry an
/// extra reduction modulo the group order, which neither scalar arithmetic
/// mod `l` nor base-point multiplication can distinguish).
#[verifier::external_body]
fn eddsa_sign_oneshot(scalar_seed: &[u8], m: &[u8]) -> (r: [u8; 64])
    requires
        scalar_seed@.len() == 32,
    ensures
        r@ == ed25519_signature_of(scalar_seed@, m@),
{
    let mut s = [0u8; 32];
    s.copy_from_slice(scalar_seed);
    let key = ed25519_dalek::SigningKey::from_bytes(&s);
    zeroize::Zeroize::zeroize(&mut s);
    key.sign(m).to_bytes()
}

/// Signs `m` in one shot under the key for `path`: derives the private key
/// (one exposure window), invokes the single-shot signing primitive with the
/// full message, wipes the key material, and returns the 64-byte signature —
/// or no result when the path is over the ten-index bound.
pub fn eddsa_sign(seed: &[u8; 32], path: &[u32], m: &[u8]) -> (r: Option<EdDSASignature>)
    ensures
        r is Some <==> path@.len() <= MAX_PATH_LEN,
        r matches Some(sig) ==> sig.0@ == ed25519_signature_of(
            scalar_seed_of(seed@, path@),
            m@,
        ),
{
    if path.len() > MAX_PATH_LEN {
        return None;
    }
    let raw = match bip32_derive_eddsa(seed, path) {
        Ok(raw) => raw,
        Err(_) => {
            return None;
        },
    };
    let mut key = PrivateKey { d: raw };
    let sig = eddsa_sign_oneshot(&key.d[0..32], m);
    proof {
        assert(key.d@.subrange(0, 32) =~= key.d@.take(32));
        assert(key.d@.take(32) == scalar_seed_of(seed@, path@));
    }
    key.wipe();
    Some(EdDSASignature(sig))
}

} // verus!
