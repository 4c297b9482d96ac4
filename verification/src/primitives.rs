//! The big-number unit: scalar arithmetic modulo the Ed25519 group order and
//! base-point multiplication, behind a scoped lock.
//!
//! On the target device these operations run on one shared scratch arena that
//! must be acquired before use and released afterwards. The software unit here
//! is stateless, so acquisition always succeeds, but every operation still
//! demands the guard, so the locking discipline — one lock around each
//! hardware-touching span — stays visible in the types and cannot be skipped.
//! Operands are plain little-endian byte strings; contracts speak of their
//! integer values.

use vstd::prelude::*;

use crate::bytes::le_val;
use crate::internal::SyscallError;

verus! {

/// The Ed25519 group order `l`: 2^252 + 27742317777372353535851937790883648493.
pub open spec fn group_order() -> nat {
    0x1000000000000000000000000000000014def9dea2f79cd65812631a5cf5d3ednat
}

/// The 32-byte compressed wire encoding (little-endian `y` with the sign of
/// `x` in bit 7 of the last byte) of `s · B`, for the Ed25519 base point `B`
/// and a canonical scalar `s`.
pub uninterp spec fn ed_base_wire(s: nat) -> Seq<u8>;

/// Scoped guard over the shared big-number scratch arena. Each of the
/// operations below can only be called while a guard is alive; the guard is
/// released when it goes out of scope. Release cannot fail here; a unit whose
/// release can fail leaves the arena in an unknown state, and a caller must
/// then abort rather than carry on with an ordinary error.
pub struct BnLock {}

impl BnLock {
    /// Acquires the arena. The software unit is always free, so acquisition
    /// always succeeds; the `Result` keeps the acquire-may-fail shape of the
    /// hardware interface.
    pub fn lock() -> (r: Result<BnLock, SyscallError>)
        ensures
            r is Ok,
    {
        Ok(BnLock {  })
    }
}

/// Relies on `curve25519_dalek::Scalar::from_bytes_mod_order_wide` (reduces a
/// 512-bit little-endian integer modulo the group order) and
/// `Scalar::to_bytes` (the canonical little-endian encoding).
#[verifier::external_body]
pub(crate) fn bn_reduce_wide(_lock: &BnLock, b: &[u8]) -> (r: [u8; 32])
    requires
        b@.len() == 64,
    ensures
        le_val(r@) == le_val(b@) % group_order(),
{
    let mut wide = [0u8; 64];
    wide.copy_from_slice(b);
    curve25519_dalek::scalar::Scalar::from_bytes_mod_order_wide(&wide).to_bytes()
}

/// Relies on `curve25519_dalek::Scalar::from_bytes_mod_order` (reduces a
/// 256-bit little-endian integer modulo the group order) and
/// `Scalar::to_bytes`.
#[verifier::external_body]
pub(crate) fn bn_reduce(_lock: &BnLock, b: &[u8]) -> (r: [u8; 32])
    requires
        b@.len() == 32,
    ensures
        le_val(r@) == le_val(b@) % group_order(),
{
    let mut buf = [0u8; 32];
    buf.copy_from_slice(b);
    curve25519_dalek::scalar::Scalar::from_bytes_mod_order(buf).to_bytes()
}

/// Relies on `curve25519_dalek::Scalar` multiplication: the product of two
/// canonical scalars, reduced modulo the group order.
#[verifier::external_body]
pub(crate) fn bn_mod_mul(_lock: &BnLock, a: &[u8; 32], b: &[u8; 32]) -> (r: [u8; 32])
    requires
        le_val(a@) < group_order(),
        le_val(b@) < group_order(),
    ensures
        le_val(r@) == (le_val(a@) * le_val(b@)) % group_order(),
{
    let x = curve25519_dalek::scalar::Scalar::from_bytes_mod_order(*a);
    let y = curve25519_dalek::scalar::Scalar::from_bytes_mod_order(*b);
    (x * y).to_bytes()
}

/// Relies on `curve25519_dalek::Scalar` addition: the sum of two canonical
/// scalars, reduced modulo the group order.
#[verifier::external_body]
pub(crate) fn bn_mod_add(_lock: &BnLock, a: &[u8; 32], b: &[u8; 32]) -> (r: [u8; 32])
    requires
        le_val(a@) < group_order(),
        le_val(b@) < group_order(),
    ensures
        le_val(r@) == (le_val(a@) + le_val(b@)) % group_order(),
{
    let x = curve25519_dalek::scalar::Scalar::from_bytes_mod_order(*a);
    let y = curve25519_dalek::scalar::Scalar::from_bytes_mod_order(*b);
    (x + y).to_bytes()
}

/// Relies on `curve25519_dalek::EdwardsPoint::mul_base` and
/// `EdwardsPoint::compress`: the compressed wire encoding of `s · B`.
#[verifier::external_body]
pub(crate) fn ed_base_mul_compress(_lock: &BnLock, s: &[u8; 32]) -> (r: [u8; 32])
    requires
        le_val(s@) < group_order(),
    ensures
        r@ == ed_base_wire(le_val(s@)),
{
    let scalar = curve25519_dalek::scalar::Scalar::from_bytes_mod_order(*s);
    curve25519_dalek::edwards::EdwardsPoint::mul_base(&scalar).compress().to_bytes()
}

} // verus!
