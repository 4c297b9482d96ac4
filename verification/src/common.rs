//! Public keys and chain addresses.

use vstd::prelude::*;

use crate::bytes::hex_of;
use crate::bytes::lemma_hex_of_len;
use crate::bytes::to_hex_upper;
use crate::hasher::sha256_of;
use crate::hasher::SHA256;
use crate::internal::a_wire_of;
use crate::internal::bip32_derive_eddsa;
use crate::internal::get_pubkey_from_privkey;
use crate::internal::scalar_seed_of;
use crate::internal::CapacityError;
use crate::internal::CryptographyError;
use crate::internal::PrivateKey;
use crate::internal::SyscallError;
use crate::internal::MAX_PATH_LEN;

verus! {

/// A compressed public key in wire form: one format byte, then the 32
/// coordinate bytes.
pub struct PublicKey {
    pub W: Vec<u8>,
}

impl PublicKey {
    /// Well-formed: exactly 33 bytes, with the compressed-point format byte
    /// in front.
    pub open spec fn wf(&self) -> bool {
        self.W@.len() == 33 && self.W@[0] == 2u8
    }
}

/// The 32 coordinate bytes of a public key, without its format byte.
pub fn public_key_bytes(key: &PublicKey) -> (r: &[u8])
    requires
        key.wf(),
    ensures
        r@ == key.W@.skip(1),
{
    let r = &key.W.as_slice()[1..33];
    proof {
        assert(key.W@.subrange(1, 33) =~= key.W@.skip(1));
    }
    r
}

/// A public-key-hash address: the first 20 bytes of the SHA-256 digest of the
/// public key's coordinate, rendered as 40 uppercase hex characters.
#[derive(Clone, Copy, Debug, PartialEq, Eq)]
pub struct PKH(pub [u8; 20]);

impl PKH {
    /// Derives the address of a public key: hash the 32 coordinate bytes with
    /// SHA-256 and keep the first 20 bytes. A pure function of the public
    /// key; no secret material is involved.
    pub fn get_address(key: &PublicKey) -> (r: Result<PKH, SyscallError>)
        requires
            key.wf(),
        ensures
            r is Ok,
            r matches Ok(p) ==> p.0@ == sha256_of(key.W@.skip(1)).take(20),
    {
        let mut eng = SHA256::new();
        eng.update(public_key_bytes(key));
        let d = eng.finalize();
        let mut out = [0u8; 20];
        let mut i: usize = 0;
        while i < 20
            invariant
                i <= 20,
                d.0@.len() == 32,
                forall|j: int| 0 <= j < i ==> out@[j] == d.0@[j],
            decreases 20 - i,
        {
            out[i] = d.0[i];
            i = i + 1;
        }
        proof {
            assert(out@ =~= d.0@.take(20));
        }
        Ok(PKH(out))
    }

    /// The address as 40 uppercase hex characters (ASCII), no separators.
    pub fn to_hex(&self) -> (r: Vec<u8>)
        ensures
            r@ == hex_of(self.0@),
            r@.len() == 40,
    {
        let r = to_hex_upper(&self.0[0..20]);
        proof {
            assert(self.0@.subrange(0, 20) =~= self.0@);
            lemma_hex_of_len(self.0@);
        }
        r
    }
}

/// Derives a private key only long enough to compute the matching public key,
/// wipes it, computes the address, and hands both to `f`. The private key
/// never reaches `f`.
pub fn with_public_keys<V, F: FnOnce(&PublicKey, &PKH) -> Result<V, CryptographyError>>(
    seed: &[u8; 32],
    path: &[u32],
    f: F,
) -> (r: Result<V, CryptographyError>)
    requires
        forall|pk: &PublicKey, a: &PKH| call_requires(f, (pk, a)),
    ensures
        path@.len() > MAX_PATH_LEN ==> r == Err::<V, CryptographyError>(
            CryptographyError::CapacityError(CapacityError),
        ),
        path@.len() <= MAX_PATH_LEN ==> exists|pk: &PublicKey, a: &PKH|
            {
                &&& pk.wf()
                &&& pk.W@.skip(1) == a_wire_of(scalar_seed_of(seed@, path@))
                &&& a.0@ == sha256_of(pk.W@.skip(1)).take(20)
                &&& call_ensures(f, (pk, a), r)
            },
{
    if path.len() > MAX_PATH_LEN {
        return Err(CryptographyError::CapacityError(CapacityError));
    }
    let raw = match bip32_derive_eddsa(seed, path) {
        Ok(raw) => raw,
        Err(e) => {
            return Err(CryptographyError::SyscallError(e));
        },
    };
    let mut key = PrivateKey { d: raw };
    let pk_res = get_pubkey_from_privkey(&key);
    key.wipe();
    let pk = match pk_res {
        Ok(pk) => pk,
        Err(e) => {
            return Err(CryptographyError::SyscallError(e));
        },
    };
    let pkh = match PKH::get_address(&pk) {
        Ok(pkh) => pkh,
        Err(e) => {
            return Err(CryptographyError::SyscallError(e));
        },
    };
    let r = f(&pk, &pkh);
    proof {
        assert(raw@.take(32) == scalar_seed_of(seed@, path@));
        assert(call_ensures(f, (&pk, &pkh), r));
    }
    r
}

} // verus!
