//! The opening prover and the pairing-equation verifier.

use vstd::prelude::*;

use crate::backend::{
    compute_pairing, domain_size, domain_size_of, fr_add, fr_inv, fr_mul, fr_of_u64,
    g1_aff_mul, g1_affine_scale, g2_proj_of, g2_to_projective, gt_add, gt_add_elems, gt_eq,
    gt_sub, gt_sub_elems, interp_coeffs, interpolate_evals, msm_g1, msm_g2, pairing_of,
    poly_divide_by_vanishing, poly_mul, poly_mul_coeffs, poly_sub, poly_sub_coeffs,
    scalar_add, scalar_from_u64, scalar_inverse, scalar_mul, van_quot, van_rem, G1Point,
    G2Point, Scalar,
};
use crate::commit::commit;
use crate::setup::{setup_wf, Setup};
use crate::LvcError;

verus! {

/// An opening proof: commitments to the shifted remainder `R`, the quotient
/// `H`, the degree-bound witness `X^2 * R`, and the claimed inner product
/// `y`.
pub struct Proof {
    pub r_tau: G1Point,
    pub h_tau: G1Point,
    pub r_hat_tau: G1Point,
    pub y: Scalar,
}

/// The inner product `sum a[i] * b[i]` over the scalar field.
pub open spec fn inner_product(a: Seq<Scalar>, b: Seq<Scalar>) -> Scalar
    decreases a.len(),
{
    if a.len() == 0 {
        fr_of_u64(0)
    } else {
        fr_add(inner_product(a.drop_last(), b.drop_last()), fr_mul(a.last(), b.last()))
    }
}

/// The proof `open` produces, written out over the backend's names: with
/// `A` and `B` the interpolations of `a` and `b` and `y` their inner
/// product, the polynomial `L = A * B - y/m` is divided by the vanishing
/// polynomial into quotient `H` and remainder `X * R`; the proof commits
/// `R`, `H` and `X^2 * R` in `G1` and carries `y`.
pub open spec fn proof_of(s: Setup, a: Seq<Scalar>, b: Seq<Scalar>) -> Proof {
    let m = domain_size_of(s.domain);
    let y = inner_product(a, b);
    let y_over_m = fr_mul(y, fr_inv(fr_of_u64(m as u64)));
    let l = poly_sub_coeffs(
        poly_mul_coeffs(interp_coeffs(s.domain, a), interp_coeffs(s.domain, b)),
        seq![y_over_m],
    );
    let h = van_quot(s.domain, l);
    let rem = van_rem(s.domain, l);
    let rr = if rem.len() == 0 {
        rem
    } else {
        rem.skip(1)
    };
    Proof {
        r_tau: msm_g1(s.pk_g1.pk@.take(rr.len() as int), rr),
        h_tau: msm_g1(s.pk_g1.pk@.take(h.len() as int), h),
        r_hat_tau: msm_g1(
            s.pk_g1.pk@.take(rr.len() as int + 2),
            seq![fr_of_u64(0), fr_of_u64(0)] + rr,
        ),
        y: y,
    }
}

/// The verifier's `G2` commitment to the interpolation of `b`.
pub open spec fn cb_of(s: Setup, b: Seq<Scalar>) -> G2Point {
    let coeffs = interp_coeffs(s.domain, b);
    msm_g2(s.pk_g2.pk@.take(coeffs.len() as int), coeffs)
}

/// The first pairing equation, the inner-product identity lifted to the
/// target group: `e(C, c_b) - e((y/m) * g1, g2) == e(r_tau, tau * g2) +
/// e(h_tau, t(tau) * g2)`.
pub open spec fn eq1_holds(s: Setup, c: G1Point, b: Seq<Scalar>, p: Proof) -> bool {
    let m = domain_size_of(s.domain);
    let ym = g1_aff_mul(s.pk_g1.pk@[0], fr_mul(p.y, fr_inv(fr_of_u64(m as u64))));
    gt_sub(pairing_of(c, cb_of(s, b)), pairing_of(ym, g2_proj_of(s.pk_g2.pk@[0]))) == gt_add(
        pairing_of(p.r_tau, g2_proj_of(s.pk_g2.pk@[1])),
        pairing_of(p.h_tau, s.vanishing_tau),
    )
}

/// The second pairing equation, the degree bound on `R`:
/// `e(r_tau, tau^2 * g2) == e(r_hat_tau, g2)`.
pub open spec fn eq2_holds(s: Setup, p: Proof) -> bool {
    pairing_of(p.r_tau, g2_proj_of(s.pk_g2.pk@[2])) == pairing_of(
        p.r_hat_tau,
        g2_proj_of(s.pk_g2.pk@[0]),
    )
}

/// A prover/verifier pair for inner-product openings of a committed vector.
pub trait Lvc {
    /// Proves the inner product of `a` and `b`, both given as evaluations on
    /// the setup's domain.  Returns the proof described by `proof_of`; in
    /// particular its `y` field is the inner product of `a` and `b`.  Fails
    /// exactly when the lengths do not both equal the domain size.
    fn open(setup: &Setup, a: &[Scalar], b: &[Scalar]) -> (r: Result<Proof, LvcError>)
        requires
            setup_wf(*setup),
        ensures
            r is Ok <==> (a@.len() == b@.len() && a@.len() as int == domain_size_of(
                setup.domain,
            )),
            r is Ok ==> r->Ok_0 == proof_of(*setup, a@, b@) && r->Ok_0.y == inner_product(
                a@,
                b@,
            ),
            r is Err ==> r == Err::<Proof, LvcError>(LvcError::LengthMismatch),
    ;

    /// Checks the proof against the commitment `c` and the selector `b`.
    /// Succeeds exactly when both pairing equations hold; a failure is the
    /// single opaque verification error, whichever equation failed.  Fails
    /// with a length error when `b` does not match the domain size.
    fn verify(setup: &Setup, c: &G1Point, b: &[Scalar], proof: &Proof) -> (r: Result<
        (),
        LvcError,
    >)
        requires
            setup_wf(*setup),
        ensures
            b@.len() as int != domain_size_of(setup.domain) ==> r == Err::<(), LvcError>(
                LvcError::LengthMismatch,
            ),
            b@.len() as int == domain_size_of(setup.domain) ==> {
                &&& (r is Ok <==> (eq1_holds(*setup, *c, b@, *proof) && eq2_holds(
                    *setup,
                    *proof,
                )))
                &&& (r is Err ==> r == Err::<(), LvcError>(LvcError::VerificationFailed))
            },
    ;
}

/// The inner product of two equally long scalar slices, as one left-to-right
/// accumulation.
fn inner_product_exec(a: &[Scalar], b: &[Scalar]) -> (r: Scalar)
    requires
        a@.len() == b@.len(),
    ensures
        r == inner_product(a@, b@),
{
    let mut acc = scalar_from_u64(0);
    let mut i: usize = 0;
    proof {
        assert(a@.take(0) =~= Seq::<Scalar>::empty());
        assert(b@.take(0) =~= Seq::<Scalar>::empty());
    }
    while i < a.len()
        invariant
            a@.len() == b@.len(),
            0 <= i <= a@.len(),
            acc == inner_product(a@.take(i as int), b@.take(i as int)),
        decreases a@.len() - i,
    {
        let prod = scalar_mul(&a[i], &b[i]);
        acc = scalar_add(&acc, &prod);
        proof {
            assert(a@.take(i + 1).drop_last() =~= a@.take(i as int));
            assert(b@.take(i + 1).drop_last() =~= b@.take(i as int));
            assert(a@.take(i + 1).last() == a@[i as int]);
            assert(b@.take(i + 1).last() == b@[i as int]);
        }
        i = i + 1;
    }
    proof {
        assert(a@.take(a@.len() as int) =~= a@);
        assert(b@.take(b@.len() as int) =~= b@);
    }
    acc
}

/// The Lagrange-basis instantiation: vectors are polynomial evaluations on a
/// multiplicative subgroup.
pub struct LagrangeLvc;

impl Lvc for LagrangeLvc {
    fn open(setup: &Setup, a: &[Scalar], b: &[Scalar]) -> (r: Result<Proof, LvcError>) {
        let m = domain_size(&setup.domain);
        if a.len() != m || b.len() != m {
            return Err(LvcError::LengthMismatch);
        }
        // A and B, by inverse FFT of the evaluations.
        let ca = interpolate_evals(&setup.domain, a);
        let cb = interpolate_evals(&setup.domain, b);
        // Q = A * B.
        let q = poly_mul(&ca, &cb);
        // y and the constant correction y / m.
        let y = inner_product_exec(a, b);
        let m_scalar = scalar_from_u64(m as u64);
        let m_inv = match scalar_inverse(&m_scalar) {
            Some(x) => x,
            None => {
                proof {
                    assert(false);
                }
                return Err(LvcError::InverseNonexistent);
            },
        };
        let y_over_m = scalar_mul(&y, &m_inv);
        let mut y_poly: Vec<Scalar> = Vec::new();
        y_poly.push(y_over_m);
        // L = Q - y/m.
        let l = poly_sub(&q, &y_poly);
        // L = H * t + X * R: drop the remainder's constant term, zero by
        // construction, and keep R.
        let (h, mut rem) = poly_divide_by_vanishing(&setup.domain, &l);
        let ghost rem0 = rem@;
        if rem.len() > 0 {
            rem.remove(0);
            proof {
                assert(rem@ =~= rem0.skip(1));
            }
        }
        let r_tau = match commit(&setup.pk_g1, rem.as_slice()) {
            Ok(p) => p,
            Err(_) => {
                proof {
                    assert(false);
                }
                return Err(LvcError::CommitLengthExceedsKey);
            },
        };
        let h_tau = match commit(&setup.pk_g1, h.as_slice()) {
            Ok(p) => p,
            Err(_) => {
                proof {
                    assert(false);
                }
                return Err(LvcError::CommitLengthExceedsKey);
            },
        };
        // X^2 * R: two zero coefficients in front of R.
        let mut shifted: Vec<Scalar> = Vec::new();
        shifted.push(scalar_from_u64(0));
        shifted.push(scalar_from_u64(0));
        let ghost rr = rem@;
        shifted.append(&mut rem);
        proof {
            assert(shifted@ =~= seq![fr_of_u64(0), fr_of_u64(0)] + rr);
        }
        let r_hat_tau = match commit(&setup.pk_g1, shifted.as_slice()) {
            Ok(p) => p,
            Err(_) => {
                proof {
                    assert(false);
                }
                return Err(LvcError::CommitLengthExceedsKey);
            },
        };
        Ok(Proof { r_tau, h_tau, r_hat_tau, y })
    }

    fn verify(setup: &Setup, c: &G1Point, b: &[Scalar], proof: &Proof) -> (r: Result<
        (),
        LvcError,
    >) {
        let m = domain_size(&setup.domain);
        if b.len() != m {
            return Err(LvcError::LengthMismatch);
        }
        // The G2 commitment to B.
        let cb_coeffs = interpolate_evals(&setup.domain, b);
        let c_b = match crate::commit::commit_g2(&setup.pk_g2, cb_coeffs.as_slice()) {
            Ok(p) => p,
            Err(_) => {
                proof {
                    assert(false);
                }
                return Err(LvcError::VerificationFailed);
            },
        };
        // (y / m) * g1, from pk_g1[0] = g1.
        let m_scalar = scalar_from_u64(m as u64);
        let m_inv = match scalar_inverse(&m_scalar) {
            Some(x) => x,
            None => {
                proof {
                    assert(false);
                }
                return Err(LvcError::InverseNonexistent);
            },
        };
        let y_over_m = scalar_mul(&proof.y, &m_inv);
        let ym = g1_affine_scale(&setup.pk_g1.pk[0], &y_over_m);
        // Equation 1: e(C, c_b) - e((y/m) g1, g2) == e(r, tau g2) + e(h, t(tau) g2).
        let g2_0 = g2_to_projective(&setup.pk_g2.pk[0]);
        let g2_1 = g2_to_projective(&setup.pk_g2.pk[1]);
        let g2_2 = g2_to_projective(&setup.pk_g2.pk[2]);
        let e1_left = gt_sub_elems(&compute_pairing(c, &c_b), &compute_pairing(&ym, &g2_0));
        let e1_right = gt_add_elems(
            &compute_pairing(&proof.r_tau, &g2_1),
            &compute_pairing(&proof.h_tau, &setup.vanishing_tau),
        );
        // Equation 2: e(r, tau^2 g2) == e(r_hat, g2).
        let e2_left = compute_pairing(&proof.r_tau, &g2_2);
        let e2_right = compute_pairing(&proof.r_hat_tau, &g2_0);
        // Both comparisons are made before the single branch, so the outcome
        // does not reveal which equation failed.
        let ok1 = gt_eq(&e1_left, &e1_right);
        let ok2 = gt_eq(&e2_left, &e2_right);
        if ok1 && ok2 {
            Ok(())
        } else {
            Err(LvcError::VerificationFailed)
        }
    }
}

} // verus!
