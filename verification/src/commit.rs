//! The commit primitive: multi-scalar multiplication under a public key.

use vstd::prelude::*;

use crate::backend::{
    interp_coeffs, interpolate_evals, msm_g1, msm_g1_points, msm_g2, msm_g2_points, domain_size,
    domain_size_of, Domain, G1Elem, G1Point, G2Elem, G2Point, Scalar,
};
use crate::setup::PublicKey;
use crate::LvcError;

verus! {

/// What a `G1` commit returns: the multi-scalar multiplication of `v` with
/// the first `|v|` key elements, or an error when the key is too short.
pub open spec fn commit_result_g1(pk: Seq<G1Elem>, v: Seq<Scalar>) -> Result<G1Point, LvcError> {
    if v.len() <= pk.len() {
        Ok(msm_g1(pk.take(v.len() as int), v))
    } else {
        Err(LvcError::CommitLengthExceedsKey)
    }
}

/// What a `G2` commit returns, as for `G1`.
pub open spec fn commit_result_g2(pk: Seq<G2Elem>, v: Seq<Scalar>) -> Result<G2Point, LvcError> {
    if v.len() <= pk.len() {
        Ok(msm_g2(pk.take(v.len() as int), v))
    } else {
        Err(LvcError::CommitLengthExceedsKey)
    }
}

/// Commits to `v` in `G1`: `sum v[i] * pk[i]`.  Fails exactly when `v` has
/// more entries than the key.
pub fn commit(pk: &PublicKey<G1Elem>, v: &[Scalar]) -> (r: Result<G1Point, LvcError>)
    ensures
        r == commit_result_g1(pk.pk@, v@),
{
    if v.len() <= pk.pk.len() {
        Ok(msm_g1_points(pk.pk.as_slice(), v))
    } else {
        Err(LvcError::CommitLengthExceedsKey)
    }
}

/// Commits to `v` in `G2`: `sum v[i] * pk[i]`.  Fails exactly when `v` has
/// more entries than the key.
pub fn commit_g2(pk: &PublicKey<G2Elem>, v: &[Scalar]) -> (r: Result<G2Point, LvcError>)
    ensures
        r == commit_result_g2(pk.pk@, v@),
{
    if v.len() <= pk.pk.len() {
        Ok(msm_g2_points(pk.pk.as_slice(), v))
    } else {
        Err(LvcError::CommitLengthExceedsKey)
    }
}

/// Interprets `a` as evaluations on the domain of a polynomial of degree
/// below the domain size, and commits to that polynomial's monomial
/// coefficients in `G1`; `a` must have exactly one evaluation per domain
/// point.
pub fn interpolate_and_commit(
    domain: &Domain,
    pk: &PublicKey<G1Elem>,
    a: &[Scalar],
) -> (r: Result<G1Point, LvcError>)
    ensures
        a@.len() != domain_size_of(*domain) ==> r == Err::<G1Point, LvcError>(
            LvcError::LengthMismatch,
        ),
        a@.len() == domain_size_of(*domain) ==> r == commit_result_g1(
            pk.pk@,
            interp_coeffs(*domain, a@),
        ),
{
    let m = domain_size(domain);
    if a.len() != m {
        return Err(LvcError::LengthMismatch);
    }
    let coeffs = interpolate_evals(domain, a);
    commit(pk, coeffs.as_slice())
}

} // verus!
