//! The two-pass streaming Ed25519 signer.
//!
//! The message is streamed twice: the first pass accumulates the nonce hash
//! `SHA-512(prefix ‖ M)`, the second the challenge hash `SHA-512(R ‖ A ‖ M)`.
//! The phases are encoded in the types: [`Ed25519`] accepts first-pass
//! updates and is consumed by [`Ed25519::done_with_r`], which yields an
//! [`Ed25519Challenge`] accepting second-pass updates and consumed by
//! [`Ed25519Challenge::finalize`]. A call out of order does not compile, so a
//! misused session can never yield a plausible-but-wrong signature.
//!
//! Private key material is derived afresh inside each of two bounded exposure
//! windows and wiped before the window closes, on every exit path.

use vstd::prelude::*;

use crate::bytes::le_bytes;
use crate::bytes::le_val;
use crate::bytes::lemma_le_bytes_of_le_val;
use crate::hasher::sha512_of;
use crate::hasher::sha512_state;
use crate::hasher::SHA512;
use crate::internal::a_of;
use crate::internal::a_wire_of;
use crate::internal::bip32_derive_eddsa;
use crate::internal::clamp_scalar;
use crate::internal::get_pubkey_from_privkey;
use crate::internal::prefix_of;
use crate::internal::scalar_seed_of;
use crate::internal::wipe_bytes;
use crate::internal::CapacityError;
use crate::internal::CryptographyError;
use crate::internal::PrivateKey;
use crate::internal::MAX_PATH_LEN;
use crate::primitives::bn_mod_add;
use crate::primitives::bn_mod_mul;
use crate::primitives::bn_reduce;
use crate::primitives::bn_reduce_wide;
use crate::primitives::ed_base_mul_compress;
use crate::primitives::group_order;
use crate::primitives::BnLock;

verus! {

/// The per-signature nonce: the 512-bit nonce hash read as a little-endian
/// integer, reduced modulo the group order.
pub open spec fn nonce_of(scalar_seed: Seq<u8>, m1: Seq<u8>) -> nat {
    le_val(sha512_of(prefix_of(scalar_seed) + m1)) % group_order()
}

/// `R`, the first half of the signature: the compressed nonce point in wire
/// form.
pub open spec fn r_wire_of(scalar_seed: Seq<u8>, m1: Seq<u8>) -> Seq<u8> {
    crate::primitives::ed_base_wire(nonce_of(scalar_seed, m1))
}

/// The challenge scalar: the 512-bit hash of `R ‖ A ‖ M` read as a
/// little-endian integer, reduced modulo the group order. `m2` is the message
/// as streamed in the second pass.
pub open spec fn challenge_of(scalar_seed: Seq<u8>, m1: Seq<u8>, m2: Seq<u8>) -> nat {
    le_val(sha512_of(r_wire_of(scalar_seed, m1) + a_wire_of(scalar_seed) + m2)) % group_order()
}

/// `S`, the second half of the signature: `(challenge · a + nonce) mod l`.
pub open spec fn s_scalar_of(scalar_seed: Seq<u8>, m1: Seq<u8>, m2: Seq<u8>) -> nat {
    (challenge_of(scalar_seed, m1, m2) * a_of(scalar_seed) + nonce_of(scalar_seed, m1))
        % group_order()
}

/// The 64 signature bytes produced by a session whose first pass streamed
/// `m1` and whose second pass streamed `m2`: `R ‖ S` in wire form.
pub open spec fn signature_of(scalar_seed: Seq<u8>, m1: Seq<u8>, m2: Seq<u8>) -> Seq<u8> {
    r_wire_of(scalar_seed, m1) + le_bytes(s_scalar_of(scalar_seed, m1, m2), 32)
}

/// The one-shot Ed25519 signature of `m` under a scalar seed: what a session
/// produces when both passes stream the same message.
pub open spec fn ed25519_signature_of(scalar_seed: Seq<u8>, m: Seq<u8>) -> Seq<u8> {
    signature_of(scalar_seed, m, m)
}

/// Streaming output equals one-shot output: a session whose two passes stream
/// the same message yields exactly the one-shot Ed25519 signature.
pub proof fn lemma_streaming_matches_direct(scalar_seed: Seq<u8>, m: Seq<u8>)
    ensures
        signature_of(scalar_seed, m, m) == ed25519_signature_of(scalar_seed, m),
{
}

/// Chunking invariance: a pass fed `x` and then `y` accumulates the same
/// bytes as one fed `x + y` at once, so — by the contracts of `update`,
/// `done_with_r` and `finalize`, which depend on a pass only through its
/// accumulated bytes — chunk boundaries can never change the signature.
pub proof fn lemma_update_chunking(m: Seq<u8>, x: Seq<u8>, y: Seq<u8>)
    ensures
        (m + x) + y == m + (x + y),
{
    assert((m + x) + y =~= m + (x + y));
}

/// A finished 64-byte signature: `R` (32 bytes) followed by `S` (32 bytes).
#[derive(Clone, Debug, PartialEq, Eq)]
pub struct Ed25519Signature(pub [u8; 64]);

/// A signing session in its first pass, accumulating the nonce hash.
pub struct Ed25519 {
    /// The running hash; holds `prefix ‖ M` so far.
    pub hash: SHA512,
    /// The derivation path the session signs under.
    pub path: Vec<u32>,
    /// The master seed the session was initialized with.
    pub master: Ghost<Seq<u8>>,
    /// The message bytes streamed in the first pass so far.
    pub m1: Ghost<Seq<u8>>,
}

impl Ed25519 {
    /// A session is well-formed when its running hash holds the nonce prefix
    /// followed by the first-pass bytes streamed so far.
    pub open spec fn wf(&self) -> bool {
        &&& self.path@.len() <= MAX_PATH_LEN
        &&& self.master@.len() == 32
        &&& sha512_state(self.hash) == prefix_of(scalar_seed_of(self.master@, self.path@))
            + self.m1@
    }

    /// Starts a session for `path` under `seed`. Fails with a capacity error,
    /// before any key material is derived, if `path` has more than ten
    /// indices.
    pub fn new(seed: &[u8; 32], path: &[u32]) -> (r: Result<Ed25519, CryptographyError>)
        ensures
            path@.len() > MAX_PATH_LEN ==> r == Err::<Ed25519, CryptographyError>(
                CryptographyError::CapacityError(CapacityError),
            ),
            path@.len() <= MAX_PATH_LEN ==> r is Ok,
            r matches Ok(s) ==> s.wf() && s.master@ == seed@ && s.path@ == path@ && s.m1@
                == Seq::<u8>::empty(),
    {
        let mut s = Ed25519 {
            hash: SHA512::new(),
            path: Vec::new(),
            master: Ghost(seed@),
            m1: Ghost(Seq::empty()),
        };
        match s.init(seed, path) {
            Ok(()) => Ok(s),
            Err(e) => Err(e),
        }
    }

    /// Re-initializes the session for `path` under `seed`: derives the key
    /// material (first exposure window), seeds the running hash with the
    /// nonce prefix — the high half of the hashed scalar seed — and wipes the
    /// key material again. Fails with a capacity error, before any key
    /// material is derived, if `path` has more than ten indices.
    pub fn init(&mut self, seed: &[u8; 32], path: &[u32]) -> (r: Result<(), CryptographyError>)
        ensures
            path@.len() > MAX_PATH_LEN ==> r == Err::<(), CryptographyError>(
                CryptographyError::CapacityError(CapacityError),
            ),
            path@.len() <= MAX_PATH_LEN ==> r is Ok,
            r is Ok ==> final(self).wf() && final(self).master@ == seed@ && final(self).path@
                == path@ && final(self).m1@ == Seq::<u8>::empty(),
    {
        if path.len() > MAX_PATH_LEN {
            return Err(CryptographyError::CapacityError(CapacityError));
        }
        let mut raw = match bip32_derive_eddsa(seed, path) {
            Ok(raw) => raw,
            Err(e) => {
                return Err(CryptographyError::SyscallError(e));
            },
        };
        self.hash.clear();
        self.hash.update(&raw[0..32]);
        proof {
            assert(raw@.subrange(0, 32) =~= raw@.take(32));
            assert(Seq::<u8>::empty() + raw@.take(32) =~= raw@.take(32));
            assert(raw@.take(32) == scalar_seed_of(seed@, path@));
        }
        let mut temp = self.hash.finalize();
        self.hash.update(&temp.0[32..64]);
        proof {
            assert(temp.0@ == sha512_of(scalar_seed_of(seed@, path@)));
            assert(temp.0@.subrange(32, 64) =~= temp.0@.skip(32));
            assert(Seq::<u8>::empty() + temp.0@.skip(32) =~= temp.0@.skip(32));
            assert(sha512_state(self.hash) == prefix_of(scalar_seed_of(seed@, path@)));
        }
        temp.wipe();
        wipe_bytes(&mut raw);
        let mut p: Vec<u32> = Vec::new();
        let mut i: usize = 0;
        while i < path.len()
            invariant
                i <= path@.len(),
                p@ == path@.take(i as int),
            decreases path@.len() - i,
        {
            p.push(path[i]);
            proof {
                assert(path@.take(i as int).push(path@[i as int]) =~= path@.take(i + 1));
            }
            i = i + 1;
        }
        self.path = p;
        self.master = Ghost(seed@);
        self.m1 = Ghost(Seq::empty());
        proof {
            assert(path@.take(path@.len() as int) =~= path@);
            assert(prefix_of(scalar_seed_of(seed@, path@)) + Seq::<u8>::empty() =~= prefix_of(
                scalar_seed_of(seed@, path@),
            ));
        }
        Ok(())
    }

    /// Streams first-pass message bytes into the nonce hash. Callable any
    /// number of times with any chunking; only the concatenation of the
    /// chunks matters.
    pub fn update(&mut self, bytes: &[u8])
        requires
            old(self).wf(),
        ensures
            final(self).wf(),
            final(self).m1@ == old(self).m1@ + bytes@,
            final(self).master@ == old(self).master@,
            final(self).path@ == old(self).path@,
    {
        self.hash.update(bytes);
        proof {
            self.m1@ = self.m1@ + bytes@;
            assert(prefix_of(scalar_seed_of(self.master@, self.path@)) + (old(self).m1@ + bytes@)
                =~= (prefix_of(scalar_seed_of(self.master@, self.path@)) + old(self).m1@)
                + bytes@);
        }
    }

    /// Closes the first pass: finalizes the nonce hash, computes the
    /// compressed nonce point `R` under the arena lock, and starts the
    /// challenge hash by seeding it with `R` and the public key's coordinate
    /// (second exposure window). Consumes the session; the value returned
    /// only accepts second-pass operations.
    pub fn done_with_r(self, seed: &[u8; 32]) -> (r: Result<Ed25519Challenge, CryptographyError>)
        requires
            self.wf(),
            seed@ == self.master@,
        ensures
            r is Ok,
            r matches Ok(c) ==> {
                &&& c.wf()
                &&& c.master@ == self.master@
                &&& c.path@ == self.path@
                &&& c.m1@ == self.m1@
                &&& c.m2@ == Seq::<u8>::empty()
                &&& c.r@ == r_wire_of(scalar_seed_of(self.master@, self.path@), self.m1@)
            },
    {
        let Ed25519 { mut hash, path, master, m1 } = self;
        let ghost ss = scalar_seed_of(master@, path@);
        let (r_pre, r_wire) = {
            let lock = match BnLock::lock() {
                Ok(lock) => lock,
                Err(e) => {
                    return Err(CryptographyError::SyscallError(e));
                },
            };
            let r_pre = hash.finalize();
            let r_red = bn_reduce_wide(&lock, &r_pre.0[0..64]);
            let r_wire = ed_base_mul_compress(&lock, &r_red);
            (r_pre, r_wire)
        };
        proof {
            assert(r_pre.0@.subrange(0, 64) =~= r_pre.0@);
        }
        hash.clear();
        hash.update(&r_wire[0..32]);
        let mut raw = match bip32_derive_eddsa(seed, path.as_slice()) {
            Ok(raw) => raw,
            Err(e) => {
                return Err(CryptographyError::SyscallError(e));
            },
        };
        let mut key = PrivateKey { d: raw };
        wipe_bytes(&mut raw);
        let pk_res = get_pubkey_from_privkey(&key);
        key.wipe();
        let pk = match pk_res {
            Ok(pk) => pk,
            Err(e) => {
                return Err(CryptographyError::SyscallError(e));
            },
        };
        hash.update(crate::common::public_key_bytes(&pk));
        proof {
            assert(r_wire@.subrange(0, 32) =~= r_wire@);
            assert(sha512_state(hash) =~= (r_wire@ + a_wire_of(ss) + Seq::<u8>::empty()));
        }
        Ok(
            Ed25519Challenge {
                hash,
                path,
                r_pre,
                r: r_wire,
                master,
                m1,
                m2: Ghost(Seq::empty()),
            },
        )
    }
}

/// A signing session in its second pass, accumulating the challenge hash.
pub struct Ed25519Challenge {
    /// The running hash; holds `R ‖ A ‖ M` so far.
    pub hash: SHA512,
    /// The derivation path the session signs under.
    pub path: Vec<u32>,
    /// The 64-byte nonce hash, kept for `finalize`; secret, wiped there.
    pub r_pre: crate::hasher::Hash<64>,
    /// `R`, the compressed nonce point in wire form.
    pub r: [u8; 32],
    /// The master seed the session was initialized with.
    pub master: Ghost<Seq<u8>>,
    /// The message bytes the first pass streamed.
    pub m1: Ghost<Seq<u8>>,
    /// The message bytes streamed in the second pass so far.
    pub m2: Ghost<Seq<u8>>,
}

impl Ed25519Challenge {
    /// A second-pass session is well-formed when it carries the nonce hash
    /// and nonce point of its first pass and its running hash holds
    /// `R ‖ A ‖ M` so far.
    pub open spec fn wf(&self) -> bool {
        &&& self.path@.len() <= MAX_PATH_LEN
        &&& self.master@.len() == 32
        &&& self.r_pre.0@ == sha512_of(
            prefix_of(scalar_seed_of(self.master@, self.path@)) + self.m1@,
        )
        &&& self.r@ == r_wire_of(scalar_seed_of(self.master@, self.path@), self.m1@)
        &&& sha512_state(self.hash) == self.r@ + a_wire_of(
            scalar_seed_of(self.master@, self.path@),
        ) + self.m2@
    }

    /// Streams second-pass message bytes into the challenge hash. The caller
    /// must stream the same bytes as in the first pass, in the same order,
    /// though chunk boundaries may differ.
    pub fn update(&mut self, bytes: &[u8])
        requires
            old(self).wf(),
        ensures
            final(self).wf(),
            final(self).m2@ == old(self).m2@ + bytes@,
            final(self).m1@ == old(self).m1@,
            final(self).master@ == old(self).master@,
            final(self).path@ == old(self).path@,
            final(self).r@ == old(self).r@,
    {
        self.hash.update(bytes);
        proof {
            self.m2@ = self.m2@ + bytes@;
            let ss = scalar_seed_of(self.master@, self.path@);
            assert(self.r@ + a_wire_of(ss) + (old(self).m2@ + bytes@) =~= (self.r@ + a_wire_of(ss)
                + old(self).m2@) + bytes@);
        }
    }

    /// Closes the second pass and emits the signature: derives the key again
    /// (second exposure window), computes the challenge scalar, the secret
    /// scalar `a`, and `S = (challenge · a + nonce) mod l` under a fresh
    /// arena lock, wipes every secret intermediate, and returns `R ‖ S`.
    pub fn finalize(self, seed: &[u8; 32]) -> (r: Result<Ed25519Signature, CryptographyError>)
        requires
            self.wf(),
            seed@ == self.master@,
        ensures
            r is Ok,
            r matches Ok(sig) ==> sig.0@ == signature_of(
                scalar_seed_of(self.master@, self.path@),
                self.m1@,
                self.m2@,
            ),
    {
        let Ed25519Challenge { mut hash, path, mut r_pre, r, master, m1, m2 } = self;
        let ghost ss = scalar_seed_of(master@, path@);
        let mut raw = match bip32_derive_eddsa(seed, path.as_slice()) {
            Ok(raw) => raw,
            Err(e) => {
                return Err(CryptographyError::SyscallError(e));
            },
        };
        let mut key = PrivateKey { d: raw };
        wipe_bytes(&mut raw);
        let s_bytes = {
            let lock = match BnLock::lock() {
                Ok(lock) => lock,
                Err(e) => {
                    key.wipe();
                    return Err(CryptographyError::SyscallError(e));
                },
            };
            let h_dig = hash.finalize();
            proof {
                assert(h_dig.0@.subrange(0, 64) =~= h_dig.0@);
                assert(h_dig.0@ == sha512_of(r_wire_of(ss, m1@) + a_wire_of(ss) + m2@));
            }
            let h_red = bn_reduce_wide(&lock, &h_dig.0[0..64]);
            proof {
                assert(le_val(h_red@) == challenge_of(ss, m1@, m2@));
            }
            hash.update(&key.d[0..32]);
            proof {
                assert(key.d@.subrange(0, 32) =~= key.d@.take(32));
                assert(key.d@.take(32) == ss);
                assert(Seq::<u8>::empty() + key.d@.take(32) =~= key.d@.take(32));
            }
            let mut temp = hash.finalize();
            let mut a_clamped = clamp_scalar(&temp);
            proof {
                assert(temp.0@.take(32) == sha512_of(ss).take(32));
                assert(a_clamped@.subrange(0, 32) =~= a_clamped@);
            }
            temp.wipe();
            let mut a_red = bn_reduce(&lock, &a_clamped[0..32]);
            proof {
                assert(le_val(a_red@) == a_of(ss));
            }
            wipe_bytes(&mut a_clamped);
            let mut h_a = bn_mod_mul(&lock, &h_red, &a_red);
            // Destroy the secret scalar the moment it is no longer needed.
            wipe_bytes(&mut a_red);
            proof {
                assert(r_pre.0@.subrange(0, 64) =~= r_pre.0@);
            }
            let mut r_red = bn_reduce_wide(&lock, &r_pre.0[0..64]);
            proof {
                assert(le_val(r_red@) == nonce_of(ss, m1@));
            }
            let s_bytes = bn_mod_add(&lock, &h_a, &r_red);
            wipe_bytes(&mut h_a);
            wipe_bytes(&mut r_red);
            proof {
                vstd::arithmetic::div_mod::lemma_add_mod_noop(
                    (challenge_of(ss, m1@, m2@) * a_of(ss)) as int,
                    nonce_of(ss, m1@) as int,
                    group_order() as int,
                );
                vstd::arithmetic::div_mod::lemma_small_mod(nonce_of(ss, m1@), group_order());
                assert(le_val(s_bytes@) == s_scalar_of(ss, m1@, m2@));
            }
            s_bytes
        };
        key.wipe();
        r_pre.wipe();
        let mut buf = [0u8; 64];
        let mut i: usize = 0;
        while i < 32
            invariant
                i <= 32,
                forall|j: int| 0 <= j < i ==> buf@[j] == r@[j],
            decreases 32 - i,
        {
            buf[i] = r[i];
            i = i + 1;
        }
        let mut k: usize = 0;
        while k < 32
            invariant
                k <= 32,
                forall|j: int| 0 <= j < 32 ==> buf@[j] == r@[j],
                forall|j: int| 32 <= j < 32 + k ==> buf@[j] == s_bytes@[j - 32],
            decreases 32 - k,
        {
            buf[32 + k] = s_bytes[k];
            k = k + 1;
        }
        proof {
            assert(buf@ =~= r@ + s_bytes@);
            lemma_le_bytes_of_le_val(s_bytes@);
            assert(le_bytes(s_scalar_of(ss, m1@, m2@), 32) == s_bytes@);
        }
        Ok(Ed25519Signature(buf))
    }
}

} // verus!
