//! Trusted bindings to the BLS12-381 backend.
//!
//! Everything the library needs from the curve and polynomial arithmetic
//! crates enters through this module.  Each backend value is held opaquely in
//! a type of the library's own, and each call is wrapped in an
//! `external_body` function whose contract states what the called code is
//! shown to do by its source, mostly by naming the result with an
//! uninterpreted spec function.  Nothing else in the crate is taken on trust.

use vstd::prelude::*;

use ark_bls12_381::{Bls12_381, Fr, G1Affine, G1Projective, G2Affine, G2Projective};
use ark_ec::pairing::{Pairing, PairingOutput};
use ark_ec::{PrimeGroup, ScalarMul, VariableBaseMSM};
use ark_ff::Field;
use ark_poly::univariate::DensePolynomial;
use ark_poly::{DenseUVPolynomial, EvaluationDomain, Evaluations, GeneralEvaluationDomain};
use ark_serialize::{CanonicalDeserialize, CanonicalSerialize};
use ark_std::UniformRand;

use crate::is_pow2;

verus! {

// ----------------------------------------------------------------------------
// Opaque carriers for the backend's values.
// ----------------------------------------------------------------------------

/// An element of the scalar field `Fr` of BLS12-381.
#[verifier::external_body]
pub struct Scalar {
    inner: Fr,
}

/// A `G1` point in affine form, as held in a public key.
#[verifier::external_body]
pub struct G1Elem {
    inner: G1Affine,
}

/// A `G1` point in projective form: commitments and proof elements.
#[verifier::external_body]
pub struct G1Point {
    inner: G1Projective,
}

/// A `G2` point in affine form, as held in a public key.
#[verifier::external_body]
pub struct G2Elem {
    inner: G2Affine,
}

/// A `G2` point in projective form.
#[verifier::external_body]
pub struct G2Point {
    inner: G2Projective,
}

/// An element of the pairing's target group.
#[verifier::external_body]
pub struct GtElem {
    inner: PairingOutput<Bls12_381>,
}

/// A multiplicative-subgroup evaluation domain over `Fr`.
#[verifier::external_body]
pub struct Domain {
    inner: GeneralEvaluationDomain<Fr>,
}

// ----------------------------------------------------------------------------
// Names for what the backend computes.  Each is a deterministic function of
// its arguments alone; the wrappers below relate every call to these names.
// ----------------------------------------------------------------------------

/// The scalar field element a `u64` embeds to.
pub uninterp spec fn fr_of_u64(x: u64) -> Scalar;

/// The product of two scalar field elements.
pub uninterp spec fn fr_mul(a: Scalar, b: Scalar) -> Scalar;

/// The sum of two scalar field elements.
pub uninterp spec fn fr_add(a: Scalar, b: Scalar) -> Scalar;

/// The multiplicative inverse of a nonzero scalar field element.
pub uninterp spec fn fr_inv(a: Scalar) -> Scalar;

/// The evaluation domain of a given size.
pub uninterp spec fn domain_of(n: int) -> Domain;

/// The number of points of a domain.
pub uninterp spec fn domain_size_of(d: Domain) -> int;

/// The monomial coefficients of the polynomial whose evaluations on the
/// domain are the given sequence.
pub uninterp spec fn interp_coeffs(d: Domain, evals: Seq<Scalar>) -> Seq<Scalar>;

/// The coefficients of the product of two polynomials given by coefficients.
pub uninterp spec fn poly_mul_coeffs(a: Seq<Scalar>, b: Seq<Scalar>) -> Seq<Scalar>;

/// The coefficients of the difference of two polynomials given by coefficients.
pub uninterp spec fn poly_sub_coeffs(a: Seq<Scalar>, b: Seq<Scalar>) -> Seq<Scalar>;

/// The quotient of a polynomial by the vanishing polynomial of the domain.
pub uninterp spec fn van_quot(d: Domain, l: Seq<Scalar>) -> Seq<Scalar>;

/// The remainder of a polynomial modulo the vanishing polynomial of the domain.
pub uninterp spec fn van_rem(d: Domain, l: Seq<Scalar>) -> Seq<Scalar>;

/// The dense coefficients of the vanishing polynomial of the domain.
pub uninterp spec fn vanishing_coeffs(d: Domain) -> Seq<Scalar>;

/// The multi-scalar multiplication `sum scalars[i] * bases[i]` in `G1`.
pub uninterp spec fn msm_g1(bases: Seq<G1Elem>, scalars: Seq<Scalar>) -> G1Point;

/// The multi-scalar multiplication `sum scalars[i] * bases[i]` in `G2`.
pub uninterp spec fn msm_g2(bases: Seq<G2Elem>, scalars: Seq<Scalar>) -> G2Point;

/// The `G1` generator multiplied by a scalar, in affine form.
pub uninterp spec fn g1_gen_mul(s: Scalar) -> G1Elem;

/// The `G2` generator multiplied by a scalar, in affine form.
pub uninterp spec fn g2_gen_mul(s: Scalar) -> G2Elem;

/// An affine `G1` point multiplied by a scalar.
pub uninterp spec fn g1_aff_mul(p: G1Elem, s: Scalar) -> G1Point;

/// The sum of two `G1` points.
pub uninterp spec fn g1_add(p: G1Point, q: G1Point) -> G1Point;

/// The projective form of an affine `G2` point.
pub uninterp spec fn g2_proj_of(a: G2Elem) -> G2Point;

/// The bilinear pairing of a `G1` and a `G2` point.
pub uninterp spec fn pairing_of(p: G1Point, q: G2Point) -> GtElem;

/// The sum of two target-group elements.
pub uninterp spec fn gt_add(x: GtElem, y: GtElem) -> GtElem;

/// The difference of two target-group elements.
pub uninterp spec fn gt_sub(x: GtElem, y: GtElem) -> GtElem;

/// The canonical compressed encoding of a `G1` point (48 bytes).
pub uninterp spec fn g1_ser(p: G1Point) -> Seq<u8>;

/// The canonical compressed encoding of a scalar field element (32 bytes).
pub uninterp spec fn fr_ser(x: Scalar) -> Seq<u8>;

/// Two `G1` values represent the same curve point exactly when their
/// canonical encodings agree; a projective representation is not unique, so
/// this is the right notion of point equality.
pub open spec fn g1_same_point(p: G1Point, q: G1Point) -> bool {
    g1_ser(p) == g1_ser(q)
}

// ----------------------------------------------------------------------------
// Trusted wrappers: scalar field.
// ----------------------------------------------------------------------------

/// Relies on `From<u64>` for `ark_ff::Fp`: embeds a small integer into the
/// scalar field.  The field modulus exceeds `u64::MAX`, so the embedding is
/// injective and nonzero inputs land on nonzero field elements.
#[verifier::external_body]
pub fn scalar_from_u64(x: u64) -> (r: Scalar)
    ensures
        r == fr_of_u64(x),
        x != 0 ==> r != fr_of_u64(0),
{
    Scalar { inner: Fr::from(x) }
}

/// Relies on `Mul` for `ark_ff::Fp`: field multiplication.
#[verifier::external_body]
pub fn scalar_mul(a: &Scalar, b: &Scalar) -> (r: Scalar)
    ensures
        r == fr_mul(*a, *b),
{
    Scalar { inner: a.inner * b.inner }
}

/// Relies on `Add` for `ark_ff::Fp`: field addition.
#[verifier::external_body]
pub fn scalar_add(a: &Scalar, b: &Scalar) -> (r: Scalar)
    ensures
        r == fr_add(*a, *b),
{
    Scalar { inner: a.inner + b.inner }
}

/// Whether two byte vectors hold the same bytes.
pub(crate) fn bytes_eq(a: &Vec<u8>, b: &Vec<u8>) -> (r: bool)
    ensures
        r == (a@ == b@),
{
    if a.len() != b.len() {
        return false;
    }
    let mut i: usize = 0;
    while i < a.len()
        invariant
            i <= a@.len(),
            a@.len() == b@.len(),
            forall|j: int| 0 <= j < i ==> a@[j] == b@[j],
        decreases a@.len() - i,
    {
        if a[i] != b[i] {
            return false;
        }
        i = i + 1;
    }
    proof {
        assert(a@ =~= b@);
    }
    true
}

/// Whether two scalars have the same canonical encoding; the encoding is
/// injective, so this decides equality of the field elements.
pub fn scalar_eq(a: &Scalar, b: &Scalar) -> (r: bool)
    ensures
        r == (fr_ser(*a) == fr_ser(*b)),
        *a == *b ==> r,
{
    bytes_eq(&fr_serialize(a), &fr_serialize(b))
}

/// Whether two `G1` values are the same curve point, by comparing canonical
/// encodings; a projective representation is not unique, the encoding is.
pub fn g1_point_eq(p: &G1Point, q: &G1Point) -> (r: bool)
    ensures
        r == g1_same_point(*p, *q),
{
    bytes_eq(&g1_serialize(p), &g1_serialize(q))
}

/// Relies on `ark_ff::Field::inverse`: returns `None` exactly on the zero
/// element, and the multiplicative inverse otherwise.
#[verifier::external_body]
pub(crate) fn scalar_inverse(a: &Scalar) -> (r: Option<Scalar>)
    ensures
        *a == fr_of_u64(0) ==> r is None,
        *a != fr_of_u64(0) ==> r == Some(fr_inv(*a)),
{
    Field::inverse(&a.inner).map(|x| Scalar { inner: x })
}

/// Relies on `ark_std::UniformRand` with `rand::thread_rng`: a scalar drawn
/// uniformly from a cryptographically strong source.  Nothing is promised of
/// the value.
#[verifier::external_body]
pub(crate) fn scalar_random() -> Scalar {
    Scalar { inner: Fr::rand(&mut rand::thread_rng()) }
}

// ----------------------------------------------------------------------------
// Trusted wrappers: evaluation domain and polynomial arithmetic.
// ----------------------------------------------------------------------------

/// Relies on `ark_poly::GeneralEvaluationDomain::new`, a deterministic
/// function of the requested size.  For requests up to `2^32` (the scalar
/// field's two-adicity) the result is a radix-2 domain of the next power of
/// two; the field also carries a small subgroup of base 3, so larger
/// requests would fall back to a bigger mixed-radix domain — the precondition
/// keeps the size clauses below inside the radix-2 range.
#[verifier::external_body]
pub(crate) fn domain_new(n: usize) -> (r: Option<Domain>)
    requires
        n as int <= 0x1_0000_0000,
    ensures
        1 <= n as int <= 0x1_0000_0000 && is_pow2(n as int) ==> r is Some,
        r is Some ==> {
            &&& r == Some(domain_of(n as int))
            &&& 1 <= domain_size_of(domain_of(n as int)) <= 0x1_0000_0000
            &&& is_pow2(n as int) ==> domain_size_of(domain_of(n as int)) == n as int
        },
{
    GeneralEvaluationDomain::<Fr>::new(n).map(|d| Domain { inner: d })
}

/// Relies on `ark_poly::EvaluationDomain::size`.
#[verifier::external_body]
pub(crate) fn domain_size(d: &Domain) -> (r: usize)
    ensures
        r as int == domain_size_of(*d),
{
    d.inner.size()
}

/// Relies on `Evaluations::from_vec_and_domain` followed by
/// `Evaluations::interpolate`: the inverse FFT, i.e. the coefficients of the
/// unique polynomial of degree below the domain size with the given
/// evaluations on the domain (trailing zero coefficients trimmed).
#[verifier::external_body]
pub(crate) fn interpolate_evals(d: &Domain, evals: &[Scalar]) -> (r: Vec<Scalar>)
    requires
        evals@.len() == domain_size_of(*d),
    ensures
        r@ == interp_coeffs(*d, evals@),
        r@.len() <= domain_size_of(*d),
{
    let v: Vec<Fr> = evals.iter().map(|s| s.inner).collect();
    let coeffs = Evaluations::from_vec_and_domain(v, d.inner).interpolate().coeffs;
    coeffs.into_iter().map(|x| Scalar { inner: x }).collect()
}

/// Relies on `Mul` for `ark_poly::DensePolynomial`: polynomial
/// multiplication; the product's coefficient count is at most the sum of the
/// factors' counts.  The multiplication runs over an FFT domain for the
/// product's coefficients and aborts when none exists; the precondition
/// keeps the product within the field's largest domain, `3 * 2^32` points.
#[verifier::external_body]
pub(crate) fn poly_mul(a: &Vec<Scalar>, b: &Vec<Scalar>) -> (r: Vec<Scalar>)
    requires
        a@.len() + b@.len() <= 3 * 0x1_0000_0000 + 1,
    ensures
        r@ == poly_mul_coeffs(a@, b@),
        r@.len() <= a@.len() + b@.len(),
{
    let pa = DensePolynomial::from_coefficients_vec(a.iter().map(|s| s.inner).collect());
    let pb = DensePolynomial::from_coefficients_vec(b.iter().map(|s| s.inner).collect());
    (&pa * &pb).coeffs.into_iter().map(|x| Scalar { inner: x }).collect()
}

/// Relies on `Sub` for `ark_poly::DensePolynomial`: polynomial subtraction;
/// the difference has no more coefficients than the wider operand.
#[verifier::external_body]
pub(crate) fn poly_sub(a: &Vec<Scalar>, b: &Vec<Scalar>) -> (r: Vec<Scalar>)
    ensures
        r@ == poly_sub_coeffs(a@, b@),
        r@.len() <= if a@.len() >= b@.len() {
            a@.len()
        } else {
            b@.len()
        },
{
    let pa = DensePolynomial::from_coefficients_vec(a.iter().map(|s| s.inner).collect());
    let pb = DensePolynomial::from_coefficients_vec(b.iter().map(|s| s.inner).collect());
    (&pa - &pb).coeffs.into_iter().map(|x| Scalar { inner: x }).collect()
}

/// Relies on `DensePolynomial::divide_by_vanishing_poly`: division with
/// remainder by `X^m - 1` for the domain size `m`.  The remainder has fewer
/// than `m` coefficients; when the dividend has at most `2m` coefficients the
/// quotient has at most `m`.
#[verifier::external_body]
pub(crate) fn poly_divide_by_vanishing(d: &Domain, l: &Vec<Scalar>) -> (r: (
    Vec<Scalar>,
    Vec<Scalar>,
))
    ensures
        r.0@ == van_quot(*d, l@),
        r.1@ == van_rem(*d, l@),
        r.1@.len() <= domain_size_of(*d),
        l@.len() <= 2 * domain_size_of(*d) ==> r.0@.len() <= domain_size_of(*d),
{
    let p = DensePolynomial::from_coefficients_vec(l.iter().map(|s| s.inner).collect());
    let (q, rem) = p.divide_by_vanishing_poly(d.inner);
    (
        q.coeffs.into_iter().map(|x| Scalar { inner: x }).collect(),
        rem.coeffs.into_iter().map(|x| Scalar { inner: x }).collect(),
    )
}

/// Relies on `EvaluationDomain::vanishing_polynomial`: `X^m - 1` for a
/// domain of size `m`, hence exactly `m + 1` dense coefficients.
#[verifier::external_body]
pub(crate) fn domain_vanishing_coeffs(d: &Domain) -> (r: Vec<Scalar>)
    ensures
        r@ == vanishing_coeffs(*d),
        r@.len() == domain_size_of(*d) + 1,
{
    let coeffs = DensePolynomial::from(d.inner.vanishing_polynomial()).coeffs;
    coeffs.into_iter().map(|x| Scalar { inner: x }).collect()
}

// ----------------------------------------------------------------------------
// Trusted wrappers: groups and pairing.
// ----------------------------------------------------------------------------

/// Relies on `VariableBaseMSM::msm` for `G1`: with as many bases as scalars
/// it returns the multi-scalar multiplication and cannot fail.
#[verifier::external_body]
pub(crate) fn msm_g1_points(bases: &[G1Elem], scalars: &[Scalar]) -> (r: G1Point)
    requires
        scalars@.len() <= bases@.len(),
    ensures
        r == msm_g1(bases@.take(scalars@.len() as int), scalars@),
{
    let bs: Vec<G1Affine> = bases[..scalars.len()].iter().map(|p| p.inner).collect();
    let ss: Vec<Fr> = scalars.iter().map(|s| s.inner).collect();
    G1Point { inner: G1Projective::msm(&bs, &ss).unwrap() }
}

/// Relies on `VariableBaseMSM::msm` for `G2`: with as many bases as scalars
/// it returns the multi-scalar multiplication and cannot fail.
#[verifier::external_body]
pub(crate) fn msm_g2_points(bases: &[G2Elem], scalars: &[Scalar]) -> (r: G2Point)
    requires
        scalars@.len() <= bases@.len(),
    ensures
        r == msm_g2(bases@.take(scalars@.len() as int), scalars@),
{
    let bs: Vec<G2Affine> = bases[..scalars.len()].iter().map(|p| p.inner).collect();
    let ss: Vec<Fr> = scalars.iter().map(|s| s.inner).collect();
    G2Point { inner: G2Projective::msm(&bs, &ss).unwrap() }
}

/// Relies on `PrimeGroup::generator` and `ScalarMul::batch_mul` for `G1`:
/// one affine point per scalar, each the generator times that scalar.
#[verifier::external_body]
pub(crate) fn g1_generator_batch_mul(v: &Vec<Scalar>) -> (r: Vec<G1Elem>)
    ensures
        r@.len() == v@.len(),
        forall|i: int| 0 <= i < v@.len() ==> r@[i] == g1_gen_mul(v@[i]),
{
    let ss: Vec<Fr> = v.iter().map(|s| s.inner).collect();
    let pts = G1Projective::generator().batch_mul(&ss);
    pts.into_iter().map(|p| G1Elem { inner: p }).collect()
}

/// Relies on `PrimeGroup::generator` and `ScalarMul::batch_mul` for `G2`:
/// one affine point per scalar, each the generator times that scalar.
#[verifier::external_body]
pub(crate) fn g2_generator_batch_mul(v: &Vec<Scalar>) -> (r: Vec<G2Elem>)
    ensures
        r@.len() == v@.len(),
        forall|i: int| 0 <= i < v@.len() ==> r@[i] == g2_gen_mul(v@[i]),
{
    let ss: Vec<Fr> = v.iter().map(|s| s.inner).collect();
    let pts = G2Projective::generator().batch_mul(&ss);
    pts.into_iter().map(|p| G2Elem { inner: p }).collect()
}

/// Relies on `Mul<Fr>` for affine `G1` points: scalar multiplication.
#[verifier::external_body]
pub(crate) fn g1_affine_scale(p: &G1Elem, s: &Scalar) -> (r: G1Point)
    ensures
        r == g1_aff_mul(*p, *s),
{
    G1Point { inner: p.inner * s.inner }
}

/// Relies on `Add` for projective `G1` points: the group operation.
#[verifier::external_body]
pub fn g1_point_add(p: &G1Point, q: &G1Point) -> (r: G1Point)
    ensures
        r == g1_add(*p, *q),
{
    G1Point { inner: p.inner + q.inner }
}

/// Relies on `From<Affine>` for projective `G2` points: a change of
/// representation of the same point.
#[verifier::external_body]
pub(crate) fn g2_to_projective(a: &G2Elem) -> (r: G2Point)
    ensures
        r == g2_proj_of(*a),
{
    G2Point { inner: G2Projective::from(a.inner) }
}

/// Relies on `ark_ec::pairing::Pairing::pairing` for BLS12-381.
#[verifier::external_body]
pub(crate) fn compute_pairing(p: &G1Point, q: &G2Point) -> (r: GtElem)
    ensures
        r == pairing_of(*p, *q),
{
    GtElem { inner: Bls12_381::pairing(p.inner, q.inner) }
}

/// Relies on `Add` for `PairingOutput`: the target-group operation.
#[verifier::external_body]
pub(crate) fn gt_add_elems(x: &GtElem, y: &GtElem) -> (r: GtElem)
    ensures
        r == gt_add(*x, *y),
{
    GtElem { inner: x.inner + y.inner }
}

/// Relies on `Sub` for `PairingOutput`: the target-group operation.
#[verifier::external_body]
pub(crate) fn gt_sub_elems(x: &GtElem, y: &GtElem) -> (r: GtElem)
    ensures
        r == gt_sub(*x, *y),
{
    GtElem { inner: x.inner - y.inner }
}

/// Relies on `PartialEq` for `PairingOutput`: target-group elements are kept
/// in a canonical representation, so value equality is representation
/// equality.
#[verifier::external_body]
pub(crate) fn gt_eq(x: &GtElem, y: &GtElem) -> (r: bool)
    ensures
        r == (x == y),
{
    x.inner == y.inner
}

// ----------------------------------------------------------------------------
// Trusted wrappers: canonical serialization.
// ----------------------------------------------------------------------------

/// Relies on `CanonicalSerialize::serialize_compressed` for `G1`: the
/// canonical 48-byte compressed encoding; writing to a `Vec` cannot fail.
#[verifier::external_body]
pub(crate) fn g1_serialize(p: &G1Point) -> (r: Vec<u8>)
    ensures
        r@ == g1_ser(*p),
        r@.len() == 48,
{
    let mut out = Vec::new();
    p.inner.serialize_compressed(&mut out).unwrap();
    out
}

/// Relies on `CanonicalDeserialize::deserialize_compressed` for `G1`: the
/// canonical encoding of any point is accepted (with curve and subgroup
/// checks) and yields a value of that point, so its re-serialization is the
/// input.  Other inputs may be rejected.
#[verifier::external_body]
pub(crate) fn g1_deserialize(bytes: &[u8]) -> (r: Option<G1Point>)
    ensures
        forall|q: G1Point| bytes@ == #[trigger] g1_ser(q) ==> r is Some && g1_ser(r->0) == bytes@,
{
    match G1Projective::deserialize_compressed(bytes) {
        Ok(p) => Some(G1Point { inner: p }),
        Err(_) => None,
    }
}

/// Relies on `CanonicalSerialize::serialize_compressed` for the scalar
/// field: the canonical 32-byte little-endian encoding; writing to a `Vec`
/// cannot fail.
#[verifier::external_body]
pub(crate) fn fr_serialize(x: &Scalar) -> (r: Vec<u8>)
    ensures
        r@ == fr_ser(*x),
        r@.len() == 32,
{
    let mut out = Vec::new();
    x.inner.serialize_compressed(&mut out).unwrap();
    out
}

/// Relies on `CanonicalDeserialize::deserialize_compressed` for the scalar
/// field: encodings of values at or above the modulus are rejected, so the
/// encoding is a bijection between field elements and accepted byte strings,
/// and deserializing a canonical encoding returns exactly the encoded value.
#[verifier::external_body]
pub(crate) fn fr_deserialize(bytes: &[u8]) -> (r: Option<Scalar>)
    ensures
        forall|x: Scalar| bytes@ == #[trigger] fr_ser(x) ==> r == Some(x),
{
    match Fr::deserialize_compressed(bytes) {
        Ok(x) => Some(Scalar { inner: x }),
        Err(_) => None,
    }
}

} // verus!
