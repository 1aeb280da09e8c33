//! A Lagrange vector commitment with constant-size openings.
//!
//! A committer publishes one `G1` element binding a vector `a` of scalar
//! field elements, viewed as evaluations of a polynomial on a multiplicative
//! subgroup.  A prover later certifies the inner product `y = sum a_i * b_i`
//! against any public selector vector `b`, in constant size, and a verifier
//! checks the claim with two pairing equations over BLS12-381.

pub mod backend;
pub mod codec;
pub mod commit;
pub mod lvc;
pub mod setup;

use vstd::prelude::*;

verus! {

/// The error kinds the library surfaces.  Verification failure is opaque:
/// it does not reveal which pairing equation failed.
#[derive(Debug, Clone, Copy, PartialEq, Eq, Structural)]
pub enum LvcError {
    /// No FFT domain of the requested size exists in the scalar field.
    DomainUnavailable,
    /// A commit was asked for more elements than the public key holds.
    CommitLengthExceedsKey,
    /// The domain size had no inverse in the field (structurally impossible
    /// after a successful setup).
    InverseNonexistent,
    /// Vector lengths disagree with each other or with the domain size.
    LengthMismatch,
    /// One or both pairing checks did not hold.
    VerificationFailed,
    /// Malformed bytes, a bad envelope, or an off-curve point.
    SerializationInvalid,
}

/// Whether `n` is a power of two.
pub open spec fn is_pow2(n: int) -> bool
    decreases n,
{
    if n <= 0 {
        false
    } else if n == 1 {
        true
    } else {
        n % 2 == 0 && is_pow2(n / 2)
    }
}

} // verus!
