use lvc::backend::{g1_point_add, g1_point_eq, scalar_add, scalar_eq, scalar_from_u64, Scalar};
use lvc::commit::{commit, interpolate_and_commit};
use lvc::lvc::{LagrangeLvc, Lvc, Proof};
use lvc::setup::Setup;
use lvc::LvcError;

fn scalars(vals: &[u64]) -> Vec<Scalar> {
    vals.iter().map(|v| scalar_from_u64(*v)).collect()
}

fn test_setup(n: usize) -> Setup {
    // A deterministic tau keeps the scenarios reproducible; completeness does
    // not depend on the sampled value.
    let tau = scalar_from_u64(42);
    Setup::build_with_tau(n, &tau).unwrap()
}

fn end_to_end(n: usize, a: &[u64], b: &[u64], expected_y: u64) {
    let setup = test_setup(n);
    let a = scalars(a);
    let b = scalars(b);
    let c = interpolate_and_commit(&setup.domain, &setup.pk_g1, &a).unwrap();
    let proof = LagrangeLvc::open(&setup, &a, &b).unwrap();
    assert!(scalar_eq(&proof.y, &scalar_from_u64(expected_y)));
    assert!(LagrangeLvc::verify(&setup, &c, &b, &proof).is_ok());
}

#[test]
fn s1_selects_first_entry() {
    end_to_end(2, &[1, 2], &[1, 0], 1);
}

#[test]
fn s2_selects_second_entry() {
    end_to_end(2, &[1, 2], &[0, 1], 2);
}

#[test]
fn s3_sums_all_entries() {
    end_to_end(4, &[3, 5, 7, 11], &[1, 1, 1, 1], 26);
}

#[test]
fn s4_sums_even_entries() {
    end_to_end(4, &[3, 5, 7, 11], &[1, 0, 1, 0], 10);
}

#[test]
fn s6_wrong_y_fails_verification() {
    let setup = test_setup(4);
    let a = scalars(&[3, 5, 7, 11]);
    let b = scalars(&[1, 0, 1, 0]);
    let c = interpolate_and_commit(&setup.domain, &setup.pk_g1, &a).unwrap();
    let mut proof = LagrangeLvc::open(&setup, &a, &b).unwrap();
    proof.y = scalar_from_u64(11);
    assert_eq!(
        LagrangeLvc::verify(&setup, &c, &b, &proof),
        Err(LvcError::VerificationFailed)
    );
}

#[test]
fn mutated_proof_points_fail_verification() {
    let setup = test_setup(4);
    let a = scalars(&[3, 5, 7, 11]);
    let b = scalars(&[1, 1, 0, 0]);
    let c = interpolate_and_commit(&setup.domain, &setup.pk_g1, &a).unwrap();
    let p1 = LagrangeLvc::open(&setup, &a, &b).unwrap();
    let p2 = LagrangeLvc::open(&setup, &a, &b).unwrap();
    // Swap the remainder and quotient commitments.
    let tampered = Proof {
        r_tau: p2.h_tau,
        h_tau: p2.r_tau,
        r_hat_tau: p2.r_hat_tau,
        y: p2.y,
    };
    assert_eq!(
        LagrangeLvc::verify(&setup, &c, &b, &tampered),
        Err(LvcError::VerificationFailed)
    );
    // Break the degree-bound witness.
    let p3 = LagrangeLvc::open(&setup, &a, &b).unwrap();
    let tampered2 = Proof {
        r_tau: p1.r_tau,
        h_tau: p1.h_tau,
        r_hat_tau: p3.r_tau,
        y: p1.y,
    };
    assert_eq!(
        LagrangeLvc::verify(&setup, &c, &b, &tampered2),
        Err(LvcError::VerificationFailed)
    );
}

#[test]
fn n_one_pads_to_two() {
    // n = 1 rounds up to a domain of two points; the caller zero-pads.
    let setup = test_setup(1);
    let a = scalars(&[5, 0]);
    let b = scalars(&[7, 0]);
    let c = interpolate_and_commit(&setup.domain, &setup.pk_g1, &a).unwrap();
    let proof = LagrangeLvc::open(&setup, &a, &b).unwrap();
    assert!(scalar_eq(&proof.y, &scalar_from_u64(35)));
    assert!(LagrangeLvc::verify(&setup, &c, &b, &proof).is_ok());
    // Unpadded length-1 vectors do not match the domain.
    let short = scalars(&[5]);
    assert!(matches!(
        LagrangeLvc::open(&setup, &short, &short),
        Err(LvcError::LengthMismatch)
    ));
}

#[test]
fn all_zero_selector_still_verifies() {
    end_to_end(4, &[9, 8, 7, 6], &[0, 0, 0, 0], 0);
}

#[test]
fn all_one_selector_sums_vector() {
    end_to_end(4, &[9, 8, 7, 6], &[1, 1, 1, 1], 30);
}

#[test]
fn completeness_on_padded_length() {
    // n = 3 rounds up to 4; vectors are zero-padded by the caller.
    end_to_end(3, &[2, 4, 8, 0], &[1, 1, 1, 0], 14);
    end_to_end(8, &[1, 2, 3, 4, 5, 6, 7, 8], &[0, 1, 0, 1, 0, 1, 0, 1], 20);
}

#[test]
fn length_mismatch_on_open() {
    let setup = test_setup(4);
    let a = scalars(&[3, 5, 7, 11]);
    let b = scalars(&[1, 0]);
    assert!(matches!(
        LagrangeLvc::open(&setup, &a, &b),
        Err(LvcError::LengthMismatch)
    ));
    let a3 = scalars(&[3, 5, 7]);
    let b3 = scalars(&[1, 0, 1]);
    assert!(matches!(
        LagrangeLvc::open(&setup, &a3, &b3),
        Err(LvcError::LengthMismatch)
    ));
}

#[test]
fn length_mismatch_on_verify() {
    let setup = test_setup(4);
    let a = scalars(&[3, 5, 7, 11]);
    let b = scalars(&[1, 0, 1, 0]);
    let c = interpolate_and_commit(&setup.domain, &setup.pk_g1, &a).unwrap();
    let proof = LagrangeLvc::open(&setup, &a, &b).unwrap();
    let short_b = scalars(&[1, 0]);
    assert_eq!(
        LagrangeLvc::verify(&setup, &c, &short_b, &proof),
        Err(LvcError::LengthMismatch)
    );
}

#[test]
fn wrong_selector_fails_verification() {
    let setup = test_setup(4);
    let a = scalars(&[3, 5, 7, 11]);
    let b = scalars(&[1, 0, 1, 0]);
    let other_b = scalars(&[0, 1, 0, 1]);
    let c = interpolate_and_commit(&setup.domain, &setup.pk_g1, &a).unwrap();
    let proof = LagrangeLvc::open(&setup, &a, &b).unwrap();
    assert_eq!(
        LagrangeLvc::verify(&setup, &c, &other_b, &proof),
        Err(LvcError::VerificationFailed)
    );
}

#[test]
fn setup_determinism_with_same_tau() {
    let tau = scalar_from_u64(987654321);
    let s1 = Setup::build_with_tau(4, &tau).unwrap();
    let s2 = Setup::build_with_tau(4, &tau).unwrap();
    assert_eq!(s1.pk_g1.pk.len(), s2.pk_g1.pk.len());
    assert_eq!(s1.pk_g2.pk.len(), s2.pk_g2.pk.len());
    let a = scalars(&[3, 5, 7, 11]);
    let b = scalars(&[1, 1, 1, 1]);
    let c1 = interpolate_and_commit(&s1.domain, &s1.pk_g1, &a).unwrap();
    let c2 = interpolate_and_commit(&s2.domain, &s2.pk_g1, &a).unwrap();
    assert_eq!(
        lvc::codec::commitment_to_bytes(&c1),
        lvc::codec::commitment_to_bytes(&c2)
    );
    let p1 = LagrangeLvc::open(&s1, &a, &b).unwrap();
    let p2 = LagrangeLvc::open(&s2, &a, &b).unwrap();
    assert_eq!(
        lvc::codec::proof_to_bytes(&p1),
        lvc::codec::proof_to_bytes(&p2)
    );
    // Proofs transfer between the two identical reference strings.
    assert!(LagrangeLvc::verify(&s2, &c1, &b, &p1).is_ok());
}

#[test]
fn fresh_setups_differ() {
    // Two calls of build sample different secrets, so the keys differ.
    let s1 = Setup::build(2).unwrap();
    let s2 = Setup::build(2).unwrap();
    let a = scalars(&[1, 2]);
    let c1 = interpolate_and_commit(&s1.domain, &s1.pk_g1, &a).unwrap();
    let c2 = interpolate_and_commit(&s2.domain, &s2.pk_g1, &a).unwrap();
    assert!(!g1_point_eq(&c1, &c2));
    // And a random-tau setup works end to end.
    let b = scalars(&[1, 1]);
    let p = LagrangeLvc::open(&s1, &a, &b).unwrap();
    assert!(scalar_eq(&p.y, &scalar_from_u64(3)));
    assert!(LagrangeLvc::verify(&s1, &c1, &b, &p).is_ok());
}

#[test]
fn commitment_homomorphism() {
    let setup = test_setup(4);
    let a = scalars(&[1, 2, 3, 4]);
    let a2 = scalars(&[5, 6, 7, 8]);
    let sum: Vec<Scalar> = a
        .iter()
        .zip(a2.iter())
        .map(|(x, y)| scalar_add(x, y))
        .collect();
    let ca = commit(&setup.pk_g1, &a).unwrap();
    let ca2 = commit(&setup.pk_g1, &a2).unwrap();
    let csum = commit(&setup.pk_g1, &sum).unwrap();
    assert!(g1_point_eq(&csum, &g1_point_add(&ca, &ca2)));
}

#[test]
fn open_y_matches_independent_inner_product() {
    let setup = test_setup(4);
    let a = scalars(&[13, 17, 19, 23]);
    let b = scalars(&[1, 0, 1, 1]);
    let proof = LagrangeLvc::open(&setup, &a, &b).unwrap();
    let expected = 13 + 19 + 23;
    assert!(scalar_eq(&proof.y, &scalar_from_u64(expected)));
}

#[test]
fn commit_length_exceeding_key_is_rejected() {
    let setup = test_setup(2);
    // The key holds three G1 elements; four scalars are too many.
    let v = scalars(&[1, 2, 3, 4]);
    assert!(matches!(
        commit(&setup.pk_g1, &v),
        Err(LvcError::CommitLengthExceedsKey)
    ));
}

#[test]
fn oversized_setup_is_domain_unavailable() {
    let tau = scalar_from_u64(7);
    assert!(matches!(
        Setup::build_with_tau(usize::MAX, &tau),
        Err(LvcError::DomainUnavailable)
    ));
}
