//! Trusted boundary to the arkworks BN254 implementation.
//!
//! Every call into the curve arithmetic backend goes through one of the
//! wrappers in this module.  Group elements cross the boundary as byte
//! strings in the crate's big-endian convention (see [`crate::byteorder`]);
//! the wrappers swap the byte order, let arkworks deserialize, operate and
//! reserialize, and swap back.  The results of the backend's operations are
//! deterministic functions of the argument bytes alone, so each operation is
//! named by an uninterpreted spec function, and the verified code reasons
//! about the composition of those names.

use crate::byteorder::be_nat;
use crate::byteorder::change_endianness;
use crate::codec::scalar_field_order;
use ark_ec::pairing::Pairing;
use ark_ec::CurveGroup;
use ark_ff::Field;
use ark_ff::One;
use ark_serialize::CanonicalDeserialize;
use ark_serialize::CanonicalSerialize;
use ark_serialize::Compress;
use ark_serialize::Validate;
use vstd::prelude::*;

verus! {

/// Whether 64 bytes are a well-formed encoding of a point of the base-curve
/// group: canonical coordinates that satisfy the curve equation and lie in
/// the correct subgroup, or the reserved encoding of the point at infinity.
pub uninterp spec fn g1_check(s: Seq<u8>) -> bool;

/// Whether 128 bytes are a well-formed encoding of a point of the
/// quadratic-extension-curve group.
pub uninterp spec fn g2_check(s: Seq<u8>) -> bool;

/// The encoding of the additive inverse of the base-curve point encoded by
/// the argument.
pub uninterp spec fn g1_neg_of(p: Seq<u8>) -> Seq<u8>;

/// The encoding of the scalar multiple of the base-curve point `p` by the
/// scalar whose big-endian encoding is `s`.
pub uninterp spec fn g1_mul_of(p: Seq<u8>, s: Seq<u8>) -> Seq<u8>;

/// The encoding of the sum, in the base-curve group, of the points encoded
/// by the two arguments.
pub uninterp spec fn g1_add_of(p: Seq<u8>, q: Seq<u8>) -> Seq<u8>;

/// The serialized bilinear-pairing value of the two encoded points.
pub uninterp spec fn pairing_of(p: Seq<u8>, q: Seq<u8>) -> Seq<u8>;

/// Whether a byte string is the canonical serialization of a nonzero element
/// of the pairing target field, as the pairing wrappers produce it.
pub uninterp spec fn gt_valid(s: Seq<u8>) -> bool;

/// The serialization of the product, in the pairing target group, of the two
/// serialized elements.
pub uninterp spec fn gt_mul_of(a: Seq<u8>, b: Seq<u8>) -> Seq<u8>;

/// The serialization of the multiplicative inverse of the serialized
/// target-group element.
pub uninterp spec fn gt_inv_of(a: Seq<u8>) -> Seq<u8>;

/// Whether a byte string serializes the identity of the pairing target
/// group.
pub uninterp spec fn gt_is_one_of(a: Seq<u8>) -> bool;

/// Relies on `G1Affine::deserialize_with_mode` with `Validate::Yes`: it
/// returns `Ok` exactly when the coordinates are canonical field elements
/// and the point is on the curve and in the subgroup (or is the flagged
/// point at infinity).
#[verifier::external_body]
pub(crate) fn g1_bytes_valid(b: &[u8; 64]) -> (r: bool)
    ensures
        r == g1_check(b@),
{
    let le = change_endianness(b.as_slice());
    ark_bn254::G1Affine::deserialize_with_mode(&le[..], Compress::No, Validate::Yes).is_ok()
}

/// Relies on `G2Affine::deserialize_with_mode` with `Validate::Yes`, as
/// `g1_bytes_valid` does for the base curve.  An extension-curve encoding
/// lists, big-endian, the second extension component of each coordinate
/// before the first, so reversing each 64-byte coordinate block wholesale
/// yields the backend's little-endian component order.
#[verifier::external_body]
pub(crate) fn g2_bytes_valid(b: &[u8; 128]) -> (r: bool)
    ensures
        r == g2_check(b@),
{
    let mut le: Vec<u8> = Vec::new();
    le.extend(b[0..64].iter().rev());
    le.extend(b[64..128].iter().rev());
    ark_bn254::G2Affine::deserialize_with_mode(&le[..], Compress::No, Validate::Yes).is_ok()
}

/// Relies on `Neg for G1Affine`: negation of a valid point is a valid point,
/// and the result depends on the argument bytes alone.
#[verifier::external_body]
pub(crate) fn g1_negate(b: &[u8; 64]) -> (r: [u8; 64])
    requires
        g1_check(b@),
    ensures
        r@ == g1_neg_of(b@),
        g1_check(r@),
{
    let le = change_endianness(b.as_slice());
    let p = ark_bn254::G1Affine::deserialize_with_mode(&le[..], Compress::No, Validate::No)
        .unwrap();
    let mut out = [0u8; 64];
    (-p).serialize_with_mode(&mut out[..], Compress::No).unwrap();
    let be = change_endianness(&out[..]);
    be.try_into().unwrap()
}

/// Relies on `Mul<Fr> for G1Affine` (scalar multiplication): the product of
/// a valid point and a canonical scalar is a valid point, a function of the
/// argument bytes alone.  The scalar bound makes the backend's scalar
/// deserialization succeed.
#[verifier::external_body]
pub(crate) fn g1_scalar_mul(p: &[u8; 64], s: &[u8; 32]) -> (r: [u8; 64])
    requires
        g1_check(p@),
        be_nat(s@) < scalar_field_order(),
    ensures
        r@ == g1_mul_of(p@, s@),
        g1_check(r@),
{
    let le_p = change_endianness(p.as_slice());
    let pt = ark_bn254::G1Affine::deserialize_with_mode(&le_p[..], Compress::No, Validate::No)
        .unwrap();
    let le_s = change_endianness(s.as_slice());
    let sc = ark_bn254::Fr::deserialize_with_mode(&le_s[..], Compress::No, Validate::No).unwrap();
    let mut out = [0u8; 64];
    (pt * sc).into_affine().serialize_with_mode(&mut out[..], Compress::No).unwrap();
    change_endianness(&out[..]).try_into().unwrap()
}

/// Relies on `Add for G1Affine`: the sum of two valid points is a valid
/// point, a function of the argument bytes alone.
#[verifier::external_body]
pub(crate) fn g1_add_points(p: &[u8; 64], q: &[u8; 64]) -> (r: [u8; 64])
    requires
        g1_check(p@),
        g1_check(q@),
    ensures
        r@ == g1_add_of(p@, q@),
        g1_check(r@),
{
    let le_p = change_endianness(p.as_slice());
    let pt = ark_bn254::G1Affine::deserialize_with_mode(&le_p[..], Compress::No, Validate::No)
        .unwrap();
    let le_q = change_endianness(q.as_slice());
    let qt = ark_bn254::G1Affine::deserialize_with_mode(&le_q[..], Compress::No, Validate::No)
        .unwrap();
    let mut out = [0u8; 64];
    (pt + qt).into_affine().serialize_with_mode(&mut out[..], Compress::No).unwrap();
    change_endianness(&out[..]).try_into().unwrap()
}

/// Relies on `Bn254::pairing`: the bilinear pairing of two valid points,
/// serialized canonically; the output of the final exponentiation is a
/// nonzero element of the target field.
#[verifier::external_body]
pub(crate) fn pairing(a: &[u8; 64], b: &[u8; 128]) -> (r: Vec<u8>)
    requires
        g1_check(a@),
        g2_check(b@),
    ensures
        r@ == pairing_of(a@, b@),
        gt_valid(r@),
{
    let le_a = change_endianness(a.as_slice());
    let pa = ark_bn254::G1Affine::deserialize_with_mode(&le_a[..], Compress::No, Validate::No)
        .unwrap();
    let mut le_b: Vec<u8> = Vec::new();
    le_b.extend(b[0..64].iter().rev());
    le_b.extend(b[64..128].iter().rev());
    let pb = ark_bn254::G2Affine::deserialize_with_mode(&le_b[..], Compress::No, Validate::No)
        .unwrap();
    let mut out = Vec::new();
    ark_bn254::Bn254::pairing(pa, pb).0.serialize_with_mode(&mut out, Compress::No).unwrap();
    out
}

/// Relies on `Mul for Fq12` (the target group's operation is multiplication
/// in that field): the product of two nonzero elements is nonzero, a
/// function of the argument bytes alone.
#[verifier::external_body]
pub(crate) fn gt_mul(a: &Vec<u8>, b: &Vec<u8>) -> (r: Vec<u8>)
    requires
        gt_valid(a@),
        gt_valid(b@),
    ensures
        r@ == gt_mul_of(a@, b@),
        gt_valid(r@),
{
    let x = ark_bn254::Fq12::deserialize_with_mode(&a[..], Compress::No, Validate::No).unwrap();
    let y = ark_bn254::Fq12::deserialize_with_mode(&b[..], Compress::No, Validate::No).unwrap();
    let mut out = Vec::new();
    (x * y).serialize_with_mode(&mut out, Compress::No).unwrap();
    out
}

/// Relies on `Field::inverse for Fq12`: a nonzero element has a nonzero
/// multiplicative inverse, a function of the argument bytes alone.
#[verifier::external_body]
pub(crate) fn gt_inverse(a: &Vec<u8>) -> (r: Vec<u8>)
    requires
        gt_valid(a@),
    ensures
        r@ == gt_inv_of(a@),
        gt_valid(r@),
{
    let x = ark_bn254::Fq12::deserialize_with_mode(&a[..], Compress::No, Validate::No).unwrap();
    let mut out = Vec::new();
    x.inverse().unwrap().serialize_with_mode(&mut out, Compress::No).unwrap();
    out
}

/// Relies on `Fq12::one` and the injectivity of canonical serialization:
/// comparing against the serialized identity decides whether the argument
/// serializes the target group's identity.
#[verifier::external_body]
pub(crate) fn gt_is_identity(a: &Vec<u8>) -> (r: bool)
    ensures
        r == gt_is_one_of(a@),
{
    let mut one = Vec::new();
    ark_bn254::Fq12::one().serialize_with_mode(&mut one, Compress::No).unwrap();
    *a == one
}

} // verus!
