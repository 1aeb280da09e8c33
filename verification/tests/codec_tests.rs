use lvc::backend::{g1_point_eq, scalar_eq, scalar_from_u64, Scalar};
use lvc::codec::{
    commitment_from_bytes, commitment_to_bytes, proof_from_bytes, proof_to_bytes,
};
use lvc::commit::interpolate_and_commit;
use lvc::lvc::{LagrangeLvc, Lvc, Proof};
use ark_ff::Zero;
use ark_serialize::CanonicalSerialize;
use lvc::setup::Setup;
use lvc::LvcError;

fn scalars(vals: &[u64]) -> Vec<Scalar> {
    vals.iter().map(|v| scalar_from_u64(*v)).collect()
}

fn sample_proof() -> (Setup, lvc::backend::G1Point, Vec<Scalar>, Proof) {
    let tau = scalar_from_u64(42);
    let setup = Setup::build_with_tau(4, &tau).unwrap();
    let a = scalars(&[3, 5, 7, 11]);
    let b = scalars(&[1, 0, 1, 0]);
    let c = interpolate_and_commit(&setup.domain, &setup.pk_g1, &a).unwrap();
    let proof = LagrangeLvc::open(&setup, &a, &b).unwrap();
    (setup, c, b, proof)
}

#[test]
fn proof_round_trip() {
    let (setup, c, b, proof) = sample_proof();
    let bytes = proof_to_bytes(&proof);
    let back = proof_from_bytes(&bytes).unwrap();
    assert!(g1_point_eq(&back.r_tau, &proof.r_tau));
    assert!(g1_point_eq(&back.h_tau, &proof.h_tau));
    assert!(g1_point_eq(&back.r_hat_tau, &proof.r_hat_tau));
    assert!(scalar_eq(&back.y, &proof.y));
    // The decoded proof verifies just as the one that was written.
    assert!(LagrangeLvc::verify(&setup, &c, &b, &back).is_ok());
    // And re-encoding gives the same bytes.
    assert_eq!(proof_to_bytes(&back), bytes);
}

#[test]
fn commitment_round_trip() {
    let (_, c, _, _) = sample_proof();
    let bytes = commitment_to_bytes(&c);
    let back = commitment_from_bytes(&bytes).unwrap();
    assert!(g1_point_eq(&back, &c));
}

#[test]
fn s5_flipped_point_byte_is_rejected_or_fails_verification() {
    let (setup, c, b, proof) = sample_proof();
    let mut bytes = proof_to_bytes(&proof);
    // Offset 10 lies inside the value bytes of the r_tau frame.
    bytes[10] ^= 1;
    match proof_from_bytes(&bytes) {
        Ok(tampered) => {
            // Still a valid point, but not the committed one.
            assert_eq!(
                LagrangeLvc::verify(&setup, &c, &b, &tampered),
                Err(LvcError::VerificationFailed)
            );
        }
        Err(e) => assert_eq!(e, LvcError::SerializationInvalid),
    }
}

#[test]
fn every_flipped_bit_in_r_tau_is_caught() {
    // Whatever single bit of the r_tau encoding is flipped, the result
    // either fails to decode or fails to verify.
    let (setup, c, b, proof) = sample_proof();
    let bytes = proof_to_bytes(&proof);
    for pos in [7usize, 20, 37, 54] {
        for bit in 0..8 {
            let mut mutated = bytes.clone();
            mutated[pos] ^= 1u8 << bit;
            match proof_from_bytes(&mutated) {
                Ok(tampered) => {
                    assert_eq!(
                        LagrangeLvc::verify(&setup, &c, &b, &tampered),
                        Err(LvcError::VerificationFailed)
                    );
                }
                Err(e) => assert_eq!(e, LvcError::SerializationInvalid),
            }
        }
    }
}

#[test]
fn malformed_envelopes_are_rejected() {
    let (_, _, _, proof) = sample_proof();
    let bytes = proof_to_bytes(&proof);
    assert_eq!(bytes.len(), 204);
    // Truncated.
    assert!(matches!(
        proof_from_bytes(&bytes[..203]),
        Err(LvcError::SerializationInvalid)
    ));
    // Wrong key name.
    let mut wrong_key = bytes.clone();
    wrong_key[1] = b'q';
    assert!(matches!(
        proof_from_bytes(&wrong_key),
        Err(LvcError::SerializationInvalid)
    ));
    // Arbitrary garbage of the right length.
    let garbage = vec![0xabu8; 204];
    assert!(matches!(
        proof_from_bytes(&garbage),
        Err(LvcError::SerializationInvalid)
    ));
    // Garbage commitment envelope.
    assert!(matches!(
        commitment_from_bytes(&[0u8; 51]),
        Err(LvcError::SerializationInvalid)
    ));
}

#[test]
fn non_canonical_point_encoding_is_rejected() {
    let (_, _, _, proof) = sample_proof();
    let mut bytes = proof_to_bytes(&proof);
    let mut inf = Vec::new();
    ark_bls12_381::G1Projective::zero()
        .serialize_compressed(&mut inf)
        .unwrap();
    assert_eq!(inf.len(), 48);
    // A nonzero x with the infinity flag still set: the backend decodes such
    // bytes to the identity, so only a strict parser notices them.
    inf[0] ^= 1;
    bytes[7..55].copy_from_slice(&inf);
    assert!(matches!(
        proof_from_bytes(&bytes),
        Err(LvcError::SerializationInvalid)
    ));
}
