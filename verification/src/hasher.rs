//! Streaming hash engines.
//!
//! Each engine wraps a hash context of an outside crate behind a small trusted
//! surface. The model of a context is the sequence of bytes fed to it since it
//! was last reset (`sha256_state` and friends); a digest is a named function of
//! that sequence alone (`sha256_of` and friends). The streaming contract — the
//! digest depends only on the concatenation of the fed chunks, never on chunk
//! boundaries — is exactly what these contracts state.

use vstd::prelude::*;

verus! {

/// A fixed-size digest buffer. Secret digests are wiped with [`Hash::wipe`]
/// before they go out of scope.
#[derive(Clone, Copy)]
pub struct Hash<const N: usize>(pub [u8; N]);

impl<const N: usize> Hash<N> {
    /// Relies on `zeroize::Zeroize` for byte arrays: overwrites every byte
    /// with zero in a way the compiler will not elide.
    #[verifier::external_body]
    pub fn wipe(&mut self)
        ensures
            forall|i: int| 0 <= i < N ==> final(self).0@[i] == 0u8,
    {
        zeroize::Zeroize::zeroize(&mut self.0)
    }

    /// The digest as uppercase hex characters (ASCII), two per byte.
    pub fn to_hex(&self) -> (r: Vec<u8>)
        ensures
            r@ == crate::bytes::hex_of(self.0@),
            r@.len() == 2 * N,
    {
        let r = crate::bytes::to_hex_upper(&self.0[0..N]);
        proof {
            assert(self.0@.subrange(0, N as int) =~= self.0@);
            crate::bytes::lemma_hex_of_len(self.0@);
        }
        r
    }
}

/// The SHA-256 digest of `input`, as the 32 output bytes.
pub uninterp spec fn sha256_of(input: Seq<u8>) -> Seq<u8>;

/// The SHA-512 digest of `input`, as the 64 output bytes.
pub uninterp spec fn sha512_of(input: Seq<u8>) -> Seq<u8>;

/// The BLAKE2b-256 digest of `input`, as the 32 output bytes.
pub uninterp spec fn blake2b_of(input: Seq<u8>) -> Seq<u8>;

/// Bytes fed to a SHA-256 context since it was created or last reset.
pub uninterp spec fn sha256_state(h: SHA256) -> Seq<u8>;

/// Bytes fed to a SHA-512 context since it was created or last reset.
pub uninterp spec fn sha512_state(h: SHA512) -> Seq<u8>;

/// Bytes fed to a BLAKE2b-256 context since it was created or last reset.
pub uninterp spec fn blake2b_state(h: Blake2b) -> Seq<u8>;

/// The streaming-hash capability: any number of `update` calls with any chunk
/// boundaries, a `finalize` that returns the digest of the concatenation of
/// everything fed and resets the engine, and a `clear` for reuse. The digest
/// depends on the fed bytes alone, never on how they were chunked.
pub trait Hasher<const N: usize>: Sized {
    /// Bytes fed since creation or the last reset.
    spec fn state(&self) -> Seq<u8>;

    /// The digest this algorithm assigns to an input.
    spec fn digest_of(input: Seq<u8>) -> Seq<u8>;

    /// A fresh engine that has hashed nothing.
    fn new() -> (h: Self)
        ensures
            h.state() == Seq::<u8>::empty(),
    ;

    /// Feeds bytes; only their concatenation matters.
    fn update(&mut self, bytes: &[u8])
        ensures
            final(self).state() == old(self).state() + bytes@,
    ;

    /// The digest of everything fed; resets the engine.
    fn finalize(&mut self) -> (d: Hash<N>)
        ensures
            d.0@ == Self::digest_of(old(self).state()),
            final(self).state() == Seq::<u8>::empty(),
    ;

    /// Resets the engine for reuse.
    fn clear(&mut self)
        ensures
            final(self).state() == Seq::<u8>::empty(),
    ;
}

/// A streaming SHA-256 engine. The context of the outside crate is held
/// opaquely; its meaning is carried by `sha256_state`.
#[verifier::external_body]
pub struct SHA256 {
    ctx: sha2::Sha256,
}

impl SHA256 {
    /// Relies on `sha2::Sha256` (`Digest::new`): a fresh context has hashed
    /// nothing.
    #[verifier::external_body]
    pub fn new() -> (h: SHA256)
        ensures
            sha256_state(h) == Seq::<u8>::empty(),
    {
        SHA256 { ctx: sha2::Digest::new() }
    }

    /// Relies on `Digest::reset` for `sha2::Sha256`: returns the context to
    /// its initial state.
    #[verifier::external_body]
    pub fn clear(&mut self)
        ensures
            sha256_state(*final(self)) == Seq::<u8>::empty(),
    {
        sha2::Digest::reset(&mut self.ctx)
    }

    /// Relies on `Digest::update` for `sha2::Sha256`: feeding bytes appends
    /// them to the hashed stream.
    #[verifier::external_body]
    pub fn update(&mut self, bytes: &[u8])
        ensures
            sha256_state(*final(self)) == sha256_state(*old(self)) + bytes@,
    {
        sha2::Digest::update(&mut self.ctx, bytes)
    }

    /// Relies on `Digest::finalize_reset` for `sha2::Sha256`: returns the
    /// SHA-256 digest of everything fed so far and resets the context.
    #[verifier::external_body]
    pub fn finalize(&mut self) -> (d: Hash<32>)
        ensures
            d.0@ == sha256_of(sha256_state(*old(self))),
            sha256_state(*final(self)) == Seq::<u8>::empty(),
    {
        let out = sha2::Digest::finalize_reset(&mut self.ctx);
        let mut d = Hash([0u8; 32]);
        d.0.copy_from_slice(&out);
        d
    }
}

/// A streaming SHA-512 engine.
#[verifier::external_body]
pub struct SHA512 {
    ctx: sha2::Sha512,
}

impl SHA512 {
    /// Relies on `sha2::Sha512` (`Digest::new`): a fresh context has hashed
    /// nothing.
    #[verifier::external_body]
    pub fn new() -> (h: SHA512)
        ensures
            sha512_state(h) == Seq::<u8>::empty(),
    {
        SHA512 { ctx: sha2::Digest::new() }
    }

    /// Relies on `Digest::reset` for `sha2::Sha512`: returns the context to
    /// its initial state.
    #[verifier::external_body]
    pub fn clear(&mut self)
        ensures
            sha512_state(*final(self)) == Seq::<u8>::empty(),
    {
        sha2::Digest::reset(&mut self.ctx)
    }

    /// Relies on `Digest::update` for `sha2::Sha512`: feeding bytes appends
    /// them to the hashed stream.
    #[verifier::external_body]
    pub fn update(&mut self, bytes: &[u8])
        ensures
            sha512_state(*final(self)) == sha512_state(*old(self)) + bytes@,
    {
        sha2::Digest::update(&mut self.ctx, bytes)
    }

    /// Relies on `Digest::finalize_reset` for `sha2::Sha512`: returns the
    /// SHA-512 digest of everything fed so far and resets the context.
    #[verifier::external_body]
    pub fn finalize(&mut self) -> (d: Hash<64>)
        ensures
            d.0@ == sha512_of(sha512_state(*old(self))),
            sha512_state(*final(self)) == Seq::<u8>::empty(),
    {
        let out = sha2::Digest::finalize_reset(&mut self.ctx);
        let mut d = Hash([0u8; 64]);
        d.0.copy_from_slice(&out);
        d
    }
}

/// A streaming BLAKE2b engine with 256-bit output.
#[verifier::external_body]
pub struct Blake2b {
    ctx: blake2::Blake2b256,
}

impl Blake2b {
    /// Relies on `blake2::Blake2b256` (`Digest::new`): a fresh context has
    /// hashed nothing.
    #[verifier::external_body]
    pub fn new() -> (h: Blake2b)
        ensures
            blake2b_state(h) == Seq::<u8>::empty(),
    {
        Blake2b { ctx: blake2::digest::Digest::new() }
    }

    /// Relies on `Digest::reset` for `blake2::Blake2b256`: returns the context
    /// to its initial state.
    #[verifier::external_body]
    pub fn clear(&mut self)
        ensures
            blake2b_state(*final(self)) == Seq::<u8>::empty(),
    {
        blake2::digest::Digest::reset(&mut self.ctx)
    }

    /// Relies on `Digest::update` for `blake2::Blake2b256`: feeding bytes
    /// appends them to the hashed stream.
    #[verifier::external_body]
    pub fn update(&mut self, bytes: &[u8])
        ensures
            blake2b_state(*final(self)) == blake2b_state(*old(self)) + bytes@,
    {
        blake2::digest::Digest::update(&mut self.ctx, bytes)
    }

    /// Relies on `Digest::finalize_reset` for `blake2::Blake2b256`: returns
    /// the BLAKE2b-256 digest of everything fed so far and resets the context.
    #[verifier::external_body]
    pub fn finalize(&mut self) -> (d: Hash<32>)
        ensures
            d.0@ == blake2b_of(blake2b_state(*old(self))),
            blake2b_state(*final(self)) == Seq::<u8>::empty(),
    {
        let out = blake2::digest::Digest::finalize_reset(&mut self.ctx);
        let mut d = Hash([0u8; 32]);
        d.0.copy_from_slice(&out);
        d
    }
}

impl Hasher<32> for SHA256 {
    open spec fn state(&self) -> Seq<u8> {
        sha256_state(*self)
    }

    open spec fn digest_of(input: Seq<u8>) -> Seq<u8> {
        sha256_of(input)
    }

    fn new() -> (h: Self) {
        SHA256::new()
    }

    fn update(&mut self, bytes: &[u8]) {
        SHA256::update(self, bytes)
    }

    fn finalize(&mut self) -> (d: Hash<32>) {
        SHA256::finalize(self)
    }

    fn clear(&mut self) {
        SHA256::clear(self)
    }
}

impl Hasher<64> for SHA512 {
    open spec fn state(&self) -> Seq<u8> {
        sha512_state(*self)
    }

    open spec fn digest_of(input: Seq<u8>) -> Seq<u8> {
        sha512_of(input)
    }

    fn new() -> (h: Self) {
        SHA512::new()
    }

    fn update(&mut self, bytes: &[u8]) {
        SHA512::update(self, bytes)
    }

    fn finalize(&mut self) -> (d: Hash<64>) {
        SHA512::finalize(self)
    }

    fn clear(&mut self) {
        SHA512::clear(self)
    }
}

impl Hasher<32> for Blake2b {
    open spec fn state(&self) -> Seq<u8> {
        blake2b_state(*self)
    }

    open spec fn digest_of(input: Seq<u8>) -> Seq<u8> {
        blake2b_of(input)
    }

    fn new() -> (h: Self) {
        Blake2b::new()
    }

    fn update(&mut self, bytes: &[u8]) {
        Blake2b::update(self, bytes)
    }

    fn finalize(&mut self) -> (d: Hash<32>) {
        Blake2b::finalize(self)
    }

    fn clear(&mut self) {
        Blake2b::clear(self)
    }
}

} // verus!
