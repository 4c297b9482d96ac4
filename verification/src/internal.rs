//! Private-key derivation and the scoped-access protocol.
//!
//! Raw key material exists only inside a bounded window: it is derived from
//! the caller's master seed and a derivation path, handed to the borrower,
//! and wiped before control returns, on every exit path.

use vstd::prelude::*;

use crate::bytes::le_val;
use crate::bytes::path_bytes;
use crate::common::PublicKey;
use crate::hasher::sha512_of;
use crate::hasher::SHA512;
use crate::primitives::bn_reduce;
use crate::primitives::ed_base_mul_compress;
use crate::primitives::ed_base_wire;
use crate::primitives::group_order;
use crate::primitives::BnLock;

verus! {

/// A hardware primitive reported a non-zero status code.
#[derive(Clone, Copy, Debug, PartialEq, Eq, Structural)]
pub struct SyscallError(pub u32);

/// A derivation path exceeded the ten-index bound.
#[derive(Clone, Copy, Debug, PartialEq, Eq, Structural)]
pub struct CapacityError;

/// Everything a signing operation can fail with.
#[derive(Clone, Copy, Debug, PartialEq, Eq, Structural)]
pub enum CryptographyError {
    /// A fallible step yielded no value.
    NoneError,
    /// A hardware primitive failed.
    SyscallError(SyscallError),
    /// The derivation path was longer than ten indices.
    CapacityError(CapacityError),
}

impl From<SyscallError> for CryptographyError {
    fn from(e: SyscallError) -> (r: Self) {
        CryptographyError::SyscallError(e)
    }
}

impl vstd::std_specs::convert::FromSpecImpl<SyscallError> for CryptographyError {
    open spec fn obeys_from_spec() -> bool {
        true
    }

    open spec fn from_spec(e: SyscallError) -> Self {
        CryptographyError::SyscallError(e)
    }
}

impl From<CapacityError> for CryptographyError {
    fn from(e: CapacityError) -> (r: Self) {
        CryptographyError::CapacityError(e)
    }
}

impl vstd::std_specs::convert::FromSpecImpl<CapacityError> for CryptographyError {
    open spec fn obeys_from_spec() -> bool {
        true
    }

    open spec fn from_spec(e: CapacityError) -> Self {
        CryptographyError::CapacityError(e)
    }
}

/// The longest derivation path the key-derivation service accepts.
pub const MAX_PATH_LEN: usize = 10;

/// Raw private key material: 64 bytes of which the low 32 are the scalar
/// seed. Exists only inside a [`with_private_key`] window; wiped at exit.
#[derive(Clone, Copy)]
pub struct PrivateKey {
    pub d: [u8; 64],
}

impl PrivateKey {
    /// Relies on `zeroize::Zeroize` for byte arrays: overwrites every byte
    /// with zero in a way the compiler will not elide.
    #[verifier::external_body]
    pub fn wipe(&mut self)
        ensures
            forall|i: int| 0 <= i < 64 ==> final(self).d@[i] == 0u8,
    {
        zeroize::Zeroize::zeroize(&mut self.d)
    }
}

/// The 64 bytes of key material that the derivation service yields for a
/// master seed and a path: the master path yields the seed itself (padded),
/// so standard Ed25519 seeds can be used directly; a child path appends its
/// big-endian indices to the seed and takes the 64-byte hash.
pub open spec fn raw_key_of(seed: Seq<u8>, path: Seq<u32>) -> Seq<u8> {
    if path.len() == 0 {
        seed + Seq::new(32, |i: int| 0u8)
    } else {
        sha512_of(seed + path_bytes(path))
    }
}

/// The scalar seed for a master seed and path: the low half of the raw key
/// material.
pub open spec fn scalar_seed_of(seed: Seq<u8>, path: Seq<u32>) -> Seq<u8> {
    raw_key_of(seed, path).take(32)
}

/// Derives the 64 bytes of raw key material for `path` over the Ed25519
/// curve. Only the low 32 bytes are the scalar seed.
pub fn bip32_derive_eddsa(seed: &[u8; 32], path: &[u32]) -> (r: Result<[u8; 64], SyscallError>)
    requires
        path@.len() <= MAX_PATH_LEN,
    ensures
        r is Ok,
        r matches Ok(k) ==> k@ == raw_key_of(seed@, path@),
{
    if path.len() == 0 {
        let mut out = [0u8; 64];
        let mut i: usize = 0;
        while i < 32
            invariant
                i <= 32,
                forall|j: int| 0 <= j < i ==> out@[j] == seed@[j],
                forall|j: int| i <= j < 64 ==> out@[j] == 0u8,
            decreases 32 - i,
        {
            out[i] = seed[i];
            i = i + 1;
        }
        proof {
            assert(out@ =~= seed@ + Seq::new(32, |k: int| 0u8));
        }
        Ok(out)
    } else {
        let mut eng = SHA512::new();
        eng.update(seed.as_slice());
        let mut i: usize = 0;
        while i < path.len()
            invariant
                i <= path@.len(),
                crate::hasher::sha512_state(eng) == seed@ + path_bytes(path@.take(i as int)),
            decreases path@.len() - i,
        {
            let x = path[i];
            let word: [u8; 4] = [(x >> 24) as u8, (x >> 16) as u8, (x >> 8) as u8, x as u8];
            eng.update(word.as_slice());
            proof {
                assert(word@ =~= crate::bytes::u32_be(x));
                crate::bytes::lemma_path_bytes_snoc(path@.take(i as int), x);
                assert(path@.take(i as int).push(x) =~= path@.take(i + 1));
            }
            i = i + 1;
        }
        proof {
            assert(path@.take(path@.len() as int) =~= path@);
        }
        let d = eng.finalize();
        Ok(d.0)
    }
}

/// Relies on `zeroize::Zeroize` for byte arrays: overwrites every byte with
/// zero in a way the compiler will not elide.
#[verifier::external_body]
pub fn wipe_bytes<const N: usize>(b: &mut [u8; N])
    ensures
        forall|i: int| 0 <= i < N ==> final(b)@[i] == 0u8,
{
    zeroize::Zeroize::zeroize(b)
}

/// Ed25519 clamping of a 32-byte scalar seed hash: clear the low three bits
/// of the first byte, clear the top bit and set the second-highest bit of the
/// last byte.
pub open spec fn clamp(s: Seq<u8>) -> Seq<u8> {
    s.update(0, (s[0] & 248) as u8).update(31, ((s[31] & 63) | 64) as u8)
}

/// The secret scalar for a scalar seed: the clamped low half of the seed's
/// 64-byte hash, reduced modulo the group order (multiplication by the base
/// point cannot tell the clamped scalar from its reduction).
pub open spec fn a_of(scalar_seed: Seq<u8>) -> nat {
    le_val(clamp(sha512_of(scalar_seed).take(32))) % group_order()
}

/// The nonce prefix for a scalar seed: the high half of the seed's 64-byte
/// hash.
pub open spec fn prefix_of(scalar_seed: Seq<u8>) -> Seq<u8> {
    sha512_of(scalar_seed).skip(32)
}

/// The 32-byte compressed wire encoding of the public key for a scalar seed.
pub open spec fn a_wire_of(scalar_seed: Seq<u8>) -> Seq<u8> {
    ed_base_wire(a_of(scalar_seed))
}

/// Applies Ed25519 clamping to the low 32 bytes of an expanded (64-byte
/// hashed) scalar seed.
pub fn clamp_scalar(t: &crate::hasher::Hash<64>) -> (r: [u8; 32])
    ensures
        r@ == clamp(t.0@.take(32)),
{
    let mut a = [0u8; 32];
    let mut i: usize = 0;
    while i < 32
        invariant
            i <= 32,
            forall|j: int| 0 <= j < i ==> a@[j] == t.0@[j],
        decreases 32 - i,
    {
        a[i] = t.0[i];
        i = i + 1;
    }
    a[0] = a[0] & 248;
    a[31] = (a[31] & 63) | 64;
    proof {
        assert(a@ =~= clamp(t.0@.take(32)));
    }
    a
}

/// Computes the compressed public key for derived private key material:
/// expand the scalar seed by hashing, clamp, and multiply the base point.
pub fn get_pubkey_from_privkey(key: &PrivateKey) -> (r: Result<PublicKey, SyscallError>)
    ensures
        r is Ok,
        r matches Ok(pk) ==> pk.wf() && pk.W@.skip(1) == a_wire_of(key.d@.take(32)),
{
    let mut eng = SHA512::new();
    eng.update(&key.d[0..32]);
    proof {
        assert(key.d@.subrange(0, 32) =~= key.d@.take(32));
    }
    let mut temp = eng.finalize();
    let mut a = clamp_scalar(&temp);
    temp.wipe();
    let a_wire = {
        let lock = match BnLock::lock() {
            Ok(lock) => lock,
            Err(e) => {
                wipe_bytes(&mut a);
                return Err(e);
            },
        };
        let mut a_red = bn_reduce(&lock, &a);
        let w = ed_base_mul_compress(&lock, &a_red);
        wipe_bytes(&mut a_red);
        w
    };
    wipe_bytes(&mut a);
    let mut w: Vec<u8> = Vec::new();
    w.push(2u8);
    let mut i: usize = 0;
    while i < 32
        invariant
            i <= 32,
            w@ == seq![2u8] + a_wire@.take(i as int),
        decreases 32 - i,
    {
        w.push(a_wire[i]);
        proof {
            assert(seq![2u8] + a_wire@.take(i as int) + seq![a_wire@[i as int]] =~= seq![2u8]
                + a_wire@.take(i + 1));
        }
        i = i + 1;
    }
    let pk = PublicKey { W: w };
    proof {
        assert(a_wire@.take(32) =~= a_wire@);
        assert(pk.W@.skip(1) =~= a_wire@);
    }
    Ok(pk)
}

/// Derives the private key for `path`, lends it to `f`, and wipes the key
/// material before returning, whatever `f` returned. Fails with a capacity
/// error, before any key material exists, if `path` has more than ten
/// indices.
pub fn with_private_key<A, F: FnOnce(&PrivateKey) -> Result<A, CryptographyError>>(
    seed: &[u8; 32],
    path: &[u32],
    f: F,
) -> (r: Result<A, CryptographyError>)
    requires
        forall|k: &PrivateKey| call_requires(f, (k,)),
    ensures
        path@.len() > MAX_PATH_LEN ==> r == Err::<A, CryptographyError>(
            CryptographyError::CapacityError(CapacityError),
        ),
        path@.len() <= MAX_PATH_LEN ==> exists|k: &PrivateKey|
            k.d@ == raw_key_of(seed@, path@) && call_ensures(f, (k,), r),
{
    if path.len() > MAX_PATH_LEN {
        return Err(CryptographyError::CapacityError(CapacityError));
    }
    let raw = match bip32_derive_eddsa(seed, path) {
        Ok(raw) => raw,
        Err(e) => {
            return Err(CryptographyError::SyscallError(e));
        },
    };
    let mut key = PrivateKey { d: raw };
    let ghost key0 = key;
    let r = f(&key);
    proof {
        assert(key0.d@ == raw_key_of(seed@, path@) && call_ensures(f, (&key0,), r));
    }
    key.wipe();
    r
}

} // verus!
