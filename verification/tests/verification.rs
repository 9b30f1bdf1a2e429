use groth16_verifier::byteorder::change_endianness;
use groth16_verifier::codec::decode_g1;
use groth16_verifier::codec::decode_g2;
use groth16_verifier::codec::decode_scalar;
use groth16_verifier::codec::g1_round_trip;
use groth16_verifier::codec::g2_round_trip;
use groth16_verifier::codec::MalformedKind;
use groth16_verifier::groth16::decode_proof_input;
use groth16_verifier::groth16::negation_consistency;
use groth16_verifier::groth16::verify;
use groth16_verifier::groth16::verify_proof_bytes;
use groth16_verifier::groth16::VerificationOutcome;
use groth16_verifier::vkey::embedded_verifying_key;
use groth16_verifier::vkey::VerifyingKey;
use groth16_verifier::vkey::EMBEDDED_PUBLIC_INPUTS;

use ark_serialize::{CanonicalDeserialize, CanonicalSerialize, Compress, Validate};

pub const PROOF: [u8; 256] = [
    12, 69, 221, 178, 220, 208, 17, 7, 234, 16, 51, 42, 50, 106, 219, 202, 78, 222, 119, 169,
    184, 211, 76, 131, 71, 57, 32, 171, 185, 117, 128, 16, 57, 21, 36, 112, 85, 59, 210, 62, 247,
    220, 209, 19, 143, 247, 78, 219, 32, 24, 110, 50, 216, 217, 187, 60, 168, 79, 131, 178, 173,
    42, 188, 0, 25, 120, 46, 12, 233, 167, 180, 171, 145, 195, 225, 117, 135, 14, 180, 12, 140,
    147, 2, 177, 137, 216, 241, 194, 23, 22, 61, 40, 28, 89, 230, 52, 25, 166, 27, 205, 124, 163,
    48, 98, 183, 127, 29, 181, 94, 14, 38, 62, 19, 187, 151, 60, 130, 14, 154, 120, 71, 160, 49,
    154, 34, 93, 156, 154, 7, 232, 14, 4, 178, 212, 38, 159, 87, 240, 3, 186, 93, 8, 66, 138,
    173, 169, 181, 153, 1, 193, 92, 226, 141, 99, 141, 28, 41, 157, 66, 46, 45, 51, 55, 253, 230,
    173, 224, 134, 91, 167, 50, 116, 115, 239, 241, 103, 242, 52, 169, 28, 148, 247, 27, 130, 63,
    238, 180, 195, 46, 57, 211, 248, 48, 35, 8, 20, 104, 100, 83, 77, 95, 105, 9, 233, 82, 245,
    216, 125, 126, 127, 220, 152, 182, 53, 9, 178, 58, 100, 117, 162, 132, 132, 15, 181, 1, 16,
    88, 217, 88, 119, 90, 130, 202, 73, 55, 198, 207, 73, 113, 38, 158, 182, 118, 210, 97, 57,
    149, 122, 179, 153, 7, 40, 189, 105, 54, 232,
];

pub const PUBLIC_INPUTS: [[u8; 32]; 1] = [[
    0, 0, 0, 0, 0, 0, 0, 0, 0, 0, 0, 0, 0, 0, 0, 0, 0, 0, 0, 0, 0, 0, 0, 0, 0, 0, 0, 0, 0, 0, 0,
    12,
]];

fn canonical_buffer() -> Vec<u8> {
    let mut instruction_data = Vec::new();
    instruction_data.extend_from_slice(&PROOF);
    for input in PUBLIC_INPUTS.iter() {
        instruction_data.extend_from_slice(input);
    }
    instruction_data
}

fn vk() -> VerifyingKey {
    embedded_verifying_key().expect("the embedded verifying key is well formed")
}

/// A buffer whose three proof windows all decode (the key's `alpha` point
/// standing in for `piA`) but which, not being a real proof, fails the
/// pairing equation.
fn decodable_buffer() -> Vec<u8> {
    let mut buffer = Vec::new();
    buffer.extend_from_slice(&vk().alpha_bytes());
    buffer.extend_from_slice(&PROOF[64..256]);
    buffer.extend_from_slice(&PUBLIC_INPUTS[0]);
    buffer
}

/// The same point with its y coordinate negated, computed through the curve
/// backend's field arithmetic.
fn negate_g1_window(w: &[u8; 64]) -> [u8; 64] {
    let mut y_le = w[32..64].to_vec();
    y_le.reverse();
    let y = ark_bn254::Fq::deserialize_with_mode(&y_le[..], Compress::No, Validate::Yes).unwrap();
    let mut y_neg = [0u8; 32];
    (-y).serialize_with_mode(&mut y_neg[..], Compress::No).unwrap();
    y_neg.reverse();
    let mut out = *w;
    out[32..64].copy_from_slice(&y_neg);
    out
}

/// A verifying key and 256-byte buffer built so that the pairing equation
/// telescopes to the identity: piA = alpha and gamma = delta = piB with
/// `ic[0] = -piC`, so `e(-piA,piB) e(alpha,beta) e(ic0,gamma) e(piC,delta)`
/// cancels pairwise.
fn valid_instance() -> (VerifyingKey, Vec<u8>) {
    let alpha = vk().alpha_bytes();
    let b_window: [u8; 128] = PROOF[64..192].try_into().unwrap();
    let c_window: [u8; 64] = PROOF[192..256].try_into().unwrap();
    let ic = vec![negate_g1_window(&c_window)];
    let key = VerifyingKey::new(&alpha, &b_window, &b_window, &b_window, &ic, 0).unwrap();
    let mut buffer = Vec::new();
    buffer.extend_from_slice(&alpha);
    buffer.extend_from_slice(&b_window);
    buffer.extend_from_slice(&c_window);
    (key, buffer)
}

#[test]
fn constructed_valid_instance_verifies() {
    let (key, buffer) = valid_instance();
    assert_eq!(verify_proof_bytes(&buffer, &key), VerificationOutcome::Valid);
}

#[test]
fn tampering_with_a_valid_instance_never_passes() {
    let (key, buffer) = valid_instance();
    // a flipped bit in each of piA, piB and piC
    for &position in [3usize, 130, 250].iter() {
        let mut tampered = buffer.clone();
        tampered[position] ^= 1;
        let outcome = verify_proof_bytes(&tampered, &key);
        assert_ne!(outcome, VerificationOutcome::Valid, "flip at {}", position);
    }
    // swapping piC for another valid point keeps the buffer decodable but
    // breaks the equation
    let mut wrong_c = buffer.clone();
    wrong_c[192..256].copy_from_slice(&key.alpha_bytes());
    assert_eq!(verify_proof_bytes(&wrong_c, &key), VerificationOutcome::Invalid);
}

#[test]
fn test_process_instruction() {
    let program_vk = vk();
    let mut instruction_data = Vec::new();
    instruction_data.extend_from_slice(&PROOF); // Valid proof
    for input in PUBLIC_INPUTS.iter() {
        instruction_data.extend_from_slice(input); // Valid public inputs
    }
    // the entry operation terminates with a reported outcome, never a fault,
    // and the buffer is long enough for the embedded key's input count
    let result = verify_proof_bytes(&instruction_data, &program_vk);
    assert!(result != VerificationOutcome::Malformed(MalformedKind::BufferTooShort));
}

#[test]
fn canonical_vector_is_reported_malformed() {
    // the recorded proof's piA window carries a y coordinate at or above the
    // base field's order, so decoding reports it; it is never accepted
    let outcome = verify_proof_bytes(&canonical_buffer(), &vk());
    assert_eq!(outcome, VerificationOutcome::Malformed(MalformedKind::InvalidG1));
    let pi_a: [u8; 64] = PROOF[0..64].try_into().unwrap();
    assert_eq!(decode_g1(&pi_a).unwrap_err(), MalformedKind::InvalidG1);
}

#[test]
fn decodable_but_wrong_proof_is_invalid() {
    // all windows decode, the pairing equation fails: rejected as Invalid,
    // distinct from Malformed
    let outcome = verify_proof_bytes(&decodable_buffer(), &vk());
    assert_eq!(outcome, VerificationOutcome::Invalid);
}

#[test]
fn changed_public_input_changes_nothing_but_the_scalar() {
    // same windows, public input 13 instead of 12: still decodes, still fails
    // the equation
    let mut buffer = decodable_buffer();
    buffer[287] = 13;
    let outcome = verify_proof_bytes(&buffer, &vk());
    assert_eq!(outcome, VerificationOutcome::Invalid);
}

#[test]
fn verify_is_deterministic() {
    let buffer = decodable_buffer();
    let key = vk();
    let first = verify_proof_bytes(&buffer, &key);
    let second = verify_proof_bytes(&buffer, &key);
    assert_eq!(first, second);
    let (proof, inputs) = decode_proof_input(&buffer, EMBEDDED_PUBLIC_INPUTS).unwrap();
    assert_eq!(verify(&proof, &inputs, &key), verify(&proof, &inputs, &key));
}

#[test]
fn tampered_input_never_valid() {
    let key = vk();
    // one flipped bit in piA, piB, piC and the public input respectively
    for &position in [0usize, 100, 200, 287].iter() {
        let mut buffer = decodable_buffer();
        buffer[position] ^= 1;
        let outcome = verify_proof_bytes(&buffer, &key);
        assert_ne!(outcome, VerificationOutcome::Valid, "flip at {}", position);
    }
    // a flip that pushes the scalar window out of range is reported as such
    let mut buffer = decodable_buffer();
    buffer[256] ^= 0x80;
    assert_eq!(
        verify_proof_bytes(&buffer, &key),
        VerificationOutcome::Malformed(MalformedKind::ScalarOutOfRange)
    );
}

#[test]
fn short_buffers_are_malformed() {
    let key = vk();
    let empty: Vec<u8> = Vec::new();
    assert_eq!(
        verify_proof_bytes(&empty, &key),
        VerificationOutcome::Malformed(MalformedKind::BufferTooShort)
    );
    let proof_one_short = vec![0u8; 255];
    assert_eq!(
        verify_proof_bytes(&proof_one_short, &key),
        VerificationOutcome::Malformed(MalformedKind::BufferTooShort)
    );
    let mut one_short = canonical_buffer();
    one_short.pop();
    assert_eq!(one_short.len(), 256 + 32 * EMBEDDED_PUBLIC_INPUTS - 1);
    assert_eq!(
        verify_proof_bytes(&one_short, &key),
        VerificationOutcome::Malformed(MalformedKind::BufferTooShort)
    );
}

#[test]
fn key_shape_is_checked_eagerly() {
    // two basis points for two public inputs: one entry short, rejected at
    // construction before any point is even looked at
    let ic = vec![[0u8; 64], [0u8; 64]];
    let shaped = VerifyingKey::new(&[0u8; 64], &[0u8; 128], &[0u8; 128], &[0u8; 128], &ic, 2);
    assert_eq!(shaped.unwrap_err(), MalformedKind::KeyShapeMismatch);
    // the embedded key's shape fits and loads
    assert!(embedded_verifying_key().is_ok());
}

#[test]
fn invalid_points_are_rejected() {
    assert_eq!(decode_g1(&[0xffu8; 64]).unwrap_err(), MalformedKind::InvalidG1);
    assert_eq!(decode_g2(&[0xffu8; 128]).unwrap_err(), MalformedKind::InvalidG2);
    // in-range coordinates that do not satisfy the curve equation
    let mut not_on_curve = [0u8; 64];
    not_on_curve[63] = 5;
    assert_eq!(decode_g1(&not_on_curve).unwrap_err(), MalformedKind::InvalidG1);
}

#[test]
fn infinity_encoding_is_reserved() {
    // an all-zero window is read as the point at infinity and decodes to the
    // reserved flagged encoding
    let inf_g1 = decode_g1(&[0u8; 64]).unwrap();
    let mut flagged_g1 = [0u8; 64];
    flagged_g1[32] = 0x40;
    assert_eq!(inf_g1.encode(), flagged_g1);
    // the reserved encoding decodes to the same element and round-trips
    assert_eq!(decode_g1(&flagged_g1).unwrap(), inf_g1);
    assert_eq!(g1_round_trip(&inf_g1), inf_g1);
    let inf_g2 = decode_g2(&[0u8; 128]).unwrap();
    let mut flagged_g2 = [0u8; 128];
    flagged_g2[64] = 0x40;
    assert_eq!(inf_g2.encode(), flagged_g2);
    assert_eq!(decode_g2(&flagged_g2).unwrap(), inf_g2);
    assert_eq!(g2_round_trip(&inf_g2), inf_g2);
}

#[test]
fn infinity_proof_point_is_decodable_not_a_fault() {
    // a piA window of all zeros decodes as the point at infinity; the
    // pairing equation is then evaluated and fails, so the outcome is
    // Invalid, not Malformed
    let mut buffer = decodable_buffer();
    buffer[0..64].copy_from_slice(&[0u8; 64]);
    assert_eq!(verify_proof_bytes(&buffer, &vk()), VerificationOutcome::Invalid);
}

#[test]
fn scalar_range_is_exact() {
    // the scalar field's order itself is out of range, order - 1 is fine
    let order: [u8; 32] = [
        0x30, 0x64, 0x4e, 0x72, 0xe1, 0x31, 0xa0, 0x29, 0xb8, 0x50, 0x45, 0xb6, 0x81, 0x81, 0x58,
        0x5d, 0x28, 0x33, 0xe8, 0x48, 0x79, 0xb9, 0x70, 0x91, 0x43, 0xe1, 0xf5, 0x93, 0xf0, 0x00,
        0x00, 0x01,
    ];
    assert_eq!(decode_scalar(&order).unwrap_err(), MalformedKind::ScalarOutOfRange);
    let mut below = order;
    below[31] = 0;
    let s = decode_scalar(&below).unwrap();
    assert_eq!(s.encode(), below);
}

#[test]
fn group_elements_round_trip() {
    let buffer = decodable_buffer();
    let (proof, _) = decode_proof_input(&buffer, EMBEDDED_PUBLIC_INPUTS).unwrap();
    let a_again = g1_round_trip(&proof.a);
    assert_eq!(a_again, proof.a);
    assert_eq!(a_again.encode().to_vec(), buffer[0..64].to_vec());
    let b_again = g2_round_trip(&proof.b);
    assert_eq!(b_again, proof.b);
    assert_eq!(b_again.encode().to_vec(), buffer[64..192].to_vec());
}

#[test]
fn pairing_negation_is_consistent() {
    let buffer = decodable_buffer();
    let (proof, _) = decode_proof_input(&buffer, EMBEDDED_PUBLIC_INPUTS).unwrap();
    assert!(negation_consistency(&proof.a, &proof.b));
    assert!(negation_consistency(&proof.c, &proof.b));
}

#[test]
fn change_endianness_reverses_chunks() {
    let input: Vec<u8> = (0u8..64).collect();
    let swapped = change_endianness(&input);
    assert_eq!(swapped.len(), 64);
    let mut expected: Vec<u8> = (0u8..32).rev().collect();
    expected.extend((32u8..64).rev());
    assert_eq!(swapped, expected);
    // swapping twice gives the input back
    assert_eq!(change_endianness(&swapped), input);
}
