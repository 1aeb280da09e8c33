//! The structured reference string: powers of a secret `tau` in both source
//! groups, the evaluation domain, and the committed vanishing polynomial.

use vstd::prelude::*;

use crate::backend::{
    domain_new, domain_of, domain_size_of, domain_vanishing_coeffs, fr_mul, fr_of_u64,
    g1_gen_mul, g1_generator_batch_mul, g2_gen_mul, g2_generator_batch_mul, msm_g2,
    scalar_from_u64, scalar_mul, scalar_random, vanishing_coeffs, Domain, G1Elem, G2Elem,
    G2Point, Scalar,
};
use crate::commit::commit_g2;
use crate::{is_pow2, LvcError};

verus! {

/// An ordered sequence of group elements: the powers of `tau` times the
/// group's generator.
pub struct PublicKey<T> {
    pub pk: Vec<T>,
}

impl<T> PublicKey<T> {
    pub fn new(pk: Vec<T>) -> (r: Self)
        ensures
            r.pk == pk,
    {
        Self { pk }
    }
}

/// The public reference string.  `tau` itself lives only inside `build` and
/// is never stored.
pub struct Setup {
    pub pk_g1: PublicKey<G1Elem>,
    pub pk_g2: PublicKey<G2Elem>,
    pub vanishing_tau: G2Point,
    pub domain: Domain,
}

/// `tau` raised to the power `i`.
pub open spec fn pow_of(tau: Scalar, i: nat) -> Scalar
    decreases i,
{
    if i == 0 {
        fr_of_u64(1)
    } else {
        fr_mul(pow_of(tau, (i - 1) as nat), tau)
    }
}

/// The smallest power of two that is at least `c` and at least `n`, reached
/// by doubling `c`.
pub open spec fn pow2_from(n: int, c: int) -> int
    decreases 2 * n - c,
    when c >= 1
{
    if c >= n {
        c
    } else {
        pow2_from(n, 2 * c)
    }
}

/// The domain size used for a requested vector length `n`: the next power of
/// two, and at least two, so that the key always reaches the `tau^2` entry
/// the verifier needs.
pub open spec fn padded_size(n: int) -> int {
    pow2_from(n, 2)
}

proof fn lemma_pow2_from_bounds(n: int, c: int)
    requires
        1 <= c,
        is_pow2(c),
    ensures
        pow2_from(n, c) >= c,
        pow2_from(n, c) >= n,
        is_pow2(pow2_from(n, c)),
    decreases 2 * n - c,
{
    if c < n {
        lemma_pow2_from_bounds(n, 2 * c);
    }
}

/// Everything in a `Setup` is a function of the requested length and the
/// sampled `tau`: both keys hold the generator times the powers of `tau`,
/// the domain is the one of the padded size, and `vanishing_tau` commits the
/// vanishing polynomial's coefficients under the `G2` key.
pub open spec fn setup_matches(s: Setup, n: int, tau: Scalar) -> bool {
    let m = padded_size(n);
    &&& s.domain == domain_of(m)
    &&& domain_size_of(s.domain) == m
    &&& s.pk_g1.pk@.len() == m + 1
    &&& s.pk_g2.pk@.len() == m + 1
    &&& forall|i: int| 0 <= i <= m ==> s.pk_g1.pk@[i] == g1_gen_mul(pow_of(tau, i as nat))
    &&& forall|i: int| 0 <= i <= m ==> s.pk_g2.pk@[i] == g2_gen_mul(pow_of(tau, i as nat))
    &&& s.vanishing_tau == msm_g2(
        s.pk_g2.pk@.take(vanishing_coeffs(s.domain).len() as int),
        vanishing_coeffs(s.domain),
    )
}

/// The shape every built `Setup` has: a domain of at least two points, and
/// one key element per power of `tau` from `0` to the domain size.
pub open spec fn setup_wf(s: Setup) -> bool {
    &&& 2 <= domain_size_of(s.domain) <= 0x1_0000_0000
    &&& s.pk_g1.pk@.len() == domain_size_of(s.domain) + 1
    &&& s.pk_g2.pk@.len() == domain_size_of(s.domain) + 1
}

/// Two reference strings built from the same length and the same `tau` are
/// equal in every part.
pub proof fn lemma_setup_determinism(s1: Setup, s2: Setup, n: int, tau: Scalar)
    requires
        setup_matches(s1, n, tau),
        setup_matches(s2, n, tau),
    ensures
        s1.pk_g1.pk@ == s2.pk_g1.pk@,
        s1.pk_g2.pk@ == s2.pk_g2.pk@,
        s1.vanishing_tau == s2.vanishing_tau,
        s1.domain == s2.domain,
{
    assert(s1.pk_g1.pk@ =~= s2.pk_g1.pk@);
    assert(s1.pk_g2.pk@ =~= s2.pk_g2.pk@);
}

/// The first `count` powers of `tau`, starting from `tau^0 = 1`.
fn scalar_powers(tau: &Scalar, count: usize) -> (r: Vec<Scalar>)
    requires
        count >= 1,
    ensures
        r@.len() == count,
        forall|i: int| 0 <= i < count ==> r@[i] == pow_of(*tau, i as nat),
{
    let mut out: Vec<Scalar> = Vec::new();
    out.push(scalar_from_u64(1));
    let mut i: usize = 1;
    while i < count
        invariant
            1 <= i <= count,
            out@.len() == i,
            forall|j: int| 0 <= j < i ==> out@[j] == pow_of(*tau, j as nat),
        decreases count - i,
    {
        let next = scalar_mul(&out[i - 1], tau);
        out.push(next);
        i = i + 1;
    }
    out
}

/// The padded domain size as an executable value, or `None` when it does not
/// fit a `usize`.
fn padded_pow2(n: usize) -> (r: Option<usize>)
    ensures
        r is Some ==> r->0 as int == padded_size(n as int),
        r is None ==> padded_size(n as int) > usize::MAX as int,
{
    let mut c: usize = 2;
    proof {
        assert(is_pow2(1));
        assert(is_pow2(2));
    }
    while c < n
        invariant
            2 <= c,
            is_pow2(c as int),
            padded_size(n as int) == pow2_from(n as int, c as int),
        decreases 2 * (n as int) - c as int,
    {
        if c > usize::MAX / 2 {
            proof {
                assert(c as int % 2 == 0);
                assert(is_pow2(2 * c as int));
                lemma_pow2_from_bounds(n as int, 2 * c as int);
            }
            return None;
        }
        c = c * 2;
    }
    Some(c)
}

impl Setup {
    /// Builds the reference string for vectors of length `n` from a freshly
    /// sampled secret `tau`, which never leaves this call.  Fails exactly
    /// when no evaluation domain of the padded size exists in the field.
    pub fn build(n: usize) -> (r: Result<Self, LvcError>)
        ensures
            r is Ok <==> padded_size(n as int) <= 0x1_0000_0000 && padded_size(n as int) + 1
                <= usize::MAX as int,
            r is Ok ==> setup_wf(r->Ok_0) && exists|tau: Scalar|
                setup_matches(r->Ok_0, n as int, tau),
            r is Err ==> r == Err::<Setup, LvcError>(LvcError::DomainUnavailable),
    {
        let tau = scalar_random();
        let r = Self::build_with_tau(n, &tau);
        proof {
            if r is Ok {
                assert(setup_matches(r->Ok_0, n as int, tau));
            }
        }
        r
    }

    /// Builds the reference string deterministically from a given `tau`.
    /// Production deployments replace the in-process sampling in `build`
    /// with a `tau` from a distributed ceremony; the construction here is
    /// shared by both paths.
    pub fn build_with_tau(n: usize, tau: &Scalar) -> (r: Result<Self, LvcError>)
        ensures
            r is Ok <==> padded_size(n as int) <= 0x1_0000_0000 && padded_size(n as int) + 1
                <= usize::MAX as int,
            r is Ok ==> setup_matches(r->Ok_0, n as int, *tau) && setup_wf(r->Ok_0),
            r is Err ==> r == Err::<Setup, LvcError>(LvcError::DomainUnavailable),
    {
        let m = match padded_pow2(n) {
            Some(m) => m,
            None => {
                return Err(LvcError::DomainUnavailable);
            },
        };
        proof {
            assert(is_pow2(1));
            assert(is_pow2(2));
            lemma_pow2_from_bounds(n as int, 2);
        }
        if (m as u64) > 0x1_0000_0000u64 || m == usize::MAX {
            return Err(LvcError::DomainUnavailable);
        }
        let domain = match domain_new(m) {
            Some(d) => d,
            None => {
                return Err(LvcError::DomainUnavailable);
            },
        };
        let powers = scalar_powers(tau, m + 1);
        let pk_g1 = PublicKey::new(g1_generator_batch_mul(&powers));
        let pk_g2 = PublicKey::new(g2_generator_batch_mul(&powers));
        let vcoeffs = domain_vanishing_coeffs(&domain);
        let vanishing_tau = match commit_g2(&pk_g2, vcoeffs.as_slice()) {
            Ok(c) => c,
            Err(_) => {
                proof {
                    assert(false);
                }
                return Err(LvcError::DomainUnavailable);
            },
        };
        Ok(Self { pk_g1, pk_g2, vanishing_tau, domain })
    }
}

} // verus!
