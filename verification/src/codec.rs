//! Fixed-width byte codecs for the group elements and scalars of the
//! BN254-based proof system.
//!
//! Every 32-byte window is read big-endian.  A base-curve group element is
//! 64 bytes (x then y), an extension-curve element is 128 bytes (four
//! base-field coordinates), a scalar is 32 bytes and must denote a value
//! strictly below the scalar field's order.  The point at infinity has a
//! reserved encoding — zero bytes with a flag bit leading the y coordinate —
//! and an all-zero window is accepted as its plain spelling.

use crate::byteorder::be_bytes_lt;
use crate::byteorder::be_nat;
use crate::curve::g1_bytes_valid;
use crate::curve::g1_check;
use crate::curve::g2_bytes_valid;
use crate::curve::g2_check;
use vstd::prelude::*;
use vstd::slice::slice_subrange;

verus! {

/// Why a byte buffer was rejected.
#[derive(Clone, Copy, Debug, PartialEq, Eq, Structural)]
pub enum MalformedKind {
    /// The input buffer is shorter than the layout demands.
    BufferTooShort,
    /// 64 bytes do not encode a valid base-curve group element.
    InvalidG1,
    /// 128 bytes do not encode a valid extension-curve group element.
    InvalidG2,
    /// 32 bytes denote a value at or above the scalar field's order.
    ScalarOutOfRange,
    /// The verifying key's commitment array does not have one entry more
    /// than the number of public inputs.
    KeyShapeMismatch,
}

/// The big-endian bytes of the base field's prime order.
pub open spec fn base_field_modulus_bytes() -> Seq<u8> {
    seq![
        0x30u8, 0x64, 0x4e, 0x72, 0xe1, 0x31, 0xa0, 0x29, 0xb8, 0x50, 0x45, 0xb6, 0x81, 0x81,
        0x58, 0x5d, 0x97, 0x81, 0x6a, 0x91, 0x68, 0x71, 0xca, 0x8d, 0x3c, 0x20, 0x8c, 0x16,
        0xd8, 0x7c, 0xfd, 0x47,
    ]
}

/// The big-endian bytes of the scalar field's prime order.
pub open spec fn scalar_field_modulus_bytes() -> Seq<u8> {
    seq![
        0x30u8, 0x64, 0x4e, 0x72, 0xe1, 0x31, 0xa0, 0x29, 0xb8, 0x50, 0x45, 0xb6, 0x81, 0x81,
        0x58, 0x5d, 0x28, 0x33, 0xe8, 0x48, 0x79, 0xb9, 0x70, 0x91, 0x43, 0xe1, 0xf5, 0x93,
        0xf0, 0x00, 0x00, 0x01,
    ]
}

/// The base field's prime order.
pub open spec fn base_field_order() -> nat {
    be_nat(base_field_modulus_bytes())
}

/// The scalar field's prime order.
pub open spec fn scalar_field_order() -> nat {
    be_nat(scalar_field_modulus_bytes())
}

fn base_field_modulus_be() -> (r: [u8; 32])
    ensures
        r@ == base_field_modulus_bytes(),
{
    let a: [u8; 32] = [
        0x30u8, 0x64, 0x4e, 0x72, 0xe1, 0x31, 0xa0, 0x29, 0xb8, 0x50, 0x45, 0xb6, 0x81, 0x81,
        0x58, 0x5d, 0x97, 0x81, 0x6a, 0x91, 0x68, 0x71, 0xca, 0x8d, 0x3c, 0x20, 0x8c, 0x16,
        0xd8, 0x7c, 0xfd, 0x47,
    ];
    proof {
        assert(a@ =~= base_field_modulus_bytes());
    }
    a
}

fn scalar_field_modulus_be() -> (r: [u8; 32])
    ensures
        r@ == scalar_field_modulus_bytes(),
{
    let a: [u8; 32] = [
        0x30u8, 0x64, 0x4e, 0x72, 0xe1, 0x31, 0xa0, 0x29, 0xb8, 0x50, 0x45, 0xb6, 0x81, 0x81,
        0x58, 0x5d, 0x28, 0x33, 0xe8, 0x48, 0x79, 0xb9, 0x70, 0x91, 0x43, 0xe1, 0xf5, 0x93,
        0xf0, 0x00, 0x00, 0x01,
    ];
    proof {
        assert(a@ =~= scalar_field_modulus_bytes());
    }
    a
}

/// A string of `n` zero bytes.
pub open spec fn zero_bytes(n: nat) -> Seq<u8> {
    Seq::new(n, |i: int| 0u8)
}

/// The reserved 64-byte encoding of the base-curve point at infinity: all
/// zero but for the flag bit that leads the y coordinate's window.
pub open spec fn g1_infinity_bytes() -> Seq<u8> {
    Seq::new(64, |i: int| if i == 32 { 0x40u8 } else { 0u8 })
}

/// The reserved 128-byte encoding of the extension-curve point at infinity:
/// all zero but for the flag bit that leads the y coordinate's block.
pub open spec fn g2_infinity_bytes() -> Seq<u8> {
    Seq::new(128, |i: int| if i == 64 { 0x40u8 } else { 0u8 })
}

/// An all-zero window is accepted as a plain spelling of the point at
/// infinity and is read as the reserved flagged form; every other window
/// stands for itself.
pub open spec fn g1_normalize(s: Seq<u8>) -> Seq<u8> {
    if s == zero_bytes(64) {
        g1_infinity_bytes()
    } else {
        s
    }
}

/// The extension-curve counterpart of [`g1_normalize`].
pub open spec fn g2_normalize(s: Seq<u8>) -> Seq<u8> {
    if s == zero_bytes(128) {
        g2_infinity_bytes()
    } else {
        s
    }
}

/// A well-formed 64-byte encoding of a base-curve group element: the
/// backend's point validation passes, and the bytes are either the reserved
/// infinity encoding or carry both coordinates below the base field's
/// order.
pub open spec fn g1_encoding_ok(s: Seq<u8>) -> bool {
    &&& s.len() == 64
    &&& s != zero_bytes(64)
    &&& g1_check(s)
    &&& (s == g1_infinity_bytes() || {
        &&& be_nat(s.subrange(0, 32)) < base_field_order()
        &&& be_nat(s.subrange(32, 64)) < base_field_order()
    })
}

/// A well-formed 128-byte encoding of an extension-curve group element: the
/// backend's point validation passes, and the bytes are either the reserved
/// infinity encoding or carry all four base-field coordinates below the
/// base field's order.
pub open spec fn g2_encoding_ok(s: Seq<u8>) -> bool {
    &&& s.len() == 128
    &&& s != zero_bytes(128)
    &&& g2_check(s)
    &&& (s == g2_infinity_bytes() || {
        &&& be_nat(s.subrange(0, 32)) < base_field_order()
        &&& be_nat(s.subrange(32, 64)) < base_field_order()
        &&& be_nat(s.subrange(64, 96)) < base_field_order()
        &&& be_nat(s.subrange(96, 128)) < base_field_order()
    })
}

/// Whether every byte of the slice is zero.
fn is_all_zero(s: &[u8]) -> (r: bool)
    ensures
        r == (s@ == zero_bytes(s@.len())),
{
    let n: usize = s.len();
    let mut i: usize = 0;
    while i < n
        invariant
            i <= n,
            n == s@.len(),
            forall|j: int| 0 <= j < i ==> s@[j] == 0,
        decreases n - i,
    {
        if s[i] != 0 {
            proof {
                assert(s@[i as int] != zero_bytes(s@.len())[i as int]);
            }
            return false;
        }
        i = i + 1;
    }
    proof {
        assert(s@ =~= zero_bytes(s@.len()));
    }
    true
}

/// Whether two slices hold the same bytes.
fn slice_eq(a: &[u8], b: &[u8]) -> (r: bool)
    ensures
        r == (a@ == b@),
{
    let n: usize = a.len();
    if b.len() != n {
        return false;
    }
    let mut i: usize = 0;
    while i < n
        invariant
            i <= n,
            n == a@.len(),
            n == b@.len(),
            forall|j: int| 0 <= j < i ==> a@[j] == b@[j],
        decreases n - i,
    {
        if a[i] != b[i] {
            return false;
        }
        i = i + 1;
    }
    proof {
        assert(a@ =~= b@);
    }
    true
}

/// The reserved infinity encoding for the base curve, as bytes.
fn g1_infinity_encoding() -> (r: [u8; 64])
    ensures
        r@ == g1_infinity_bytes(),
{
    let mut a: [u8; 64] = [0u8; 64];
    a[32] = 0x40;
    proof {
        assert(a@ =~= g1_infinity_bytes());
    }
    a
}

/// The reserved infinity encoding for the extension curve, as bytes.
fn g2_infinity_encoding() -> (r: [u8; 128])
    ensures
        r@ == g2_infinity_bytes(),
{
    let mut a: [u8; 128] = [0u8; 128];
    a[64] = 0x40;
    proof {
        assert(a@ =~= g2_infinity_bytes());
    }
    a
}

/// A well-formed 32-byte encoding of a scalar field element.
pub open spec fn scalar_encoding_ok(s: Seq<u8>) -> bool {
    &&& s.len() == 32
    &&& be_nat(s) < scalar_field_order()
}

/// A point of the base-curve group, held as its validated 64-byte encoding.
#[derive(Clone, Copy, Debug, PartialEq, Eq)]
pub struct GroupElementG1 {
    bytes: [u8; 64],
}

impl View for GroupElementG1 {
    type V = Seq<u8>;

    closed spec fn view(&self) -> Seq<u8> {
        self.bytes@
    }
}

impl GroupElementG1 {
    /// The element's encoding is well formed.
    pub open spec fn wf(&self) -> bool {
        g1_encoding_ok(self@)
    }

    /// Writes the element back out as the 64 bytes it was decoded from.
    pub fn encode(&self) -> (r: [u8; 64])
        ensures
            r@ == self@,
    {
        self.bytes
    }
}

/// A point of the quadratic-extension-curve group, held as its validated
/// 128-byte encoding.
#[derive(Clone, Copy, Debug, PartialEq, Eq)]
pub struct GroupElementG2 {
    bytes: [u8; 128],
}

impl View for GroupElementG2 {
    type V = Seq<u8>;

    closed spec fn view(&self) -> Seq<u8> {
        self.bytes@
    }
}

impl GroupElementG2 {
    /// The element's encoding is well formed.
    pub open spec fn wf(&self) -> bool {
        g2_encoding_ok(self@)
    }

    /// Writes the element back out as the 128 bytes it was decoded from.
    pub fn encode(&self) -> (r: [u8; 128])
        ensures
            r@ == self@,
    {
        self.bytes
    }
}

/// An element of the scalar field, held as its validated 32-byte big-endian
/// encoding.
#[derive(Clone, Copy, Debug, PartialEq, Eq)]
pub struct ScalarFieldElement {
    bytes: [u8; 32],
}

impl View for ScalarFieldElement {
    type V = Seq<u8>;

    closed spec fn view(&self) -> Seq<u8> {
        self.bytes@
    }
}

impl ScalarFieldElement {
    /// The element's encoding is well formed.
    pub open spec fn wf(&self) -> bool {
        scalar_encoding_ok(self@)
    }

    /// Writes the scalar back out as the 32 bytes it was decoded from.
    pub fn encode(&self) -> (r: [u8; 32])
        ensures
            r@ == self@,
    {
        self.bytes
    }
}

/// Decodes 64 bytes into a base-curve group element.  An all-zero window is
/// read as the reserved infinity encoding; every other window stands for
/// itself.  Succeeds exactly when the window so read is well formed, and
/// hands back the element carrying those bytes.
pub fn decode_g1(b: &[u8; 64]) -> (r: Result<GroupElementG1, MalformedKind>)
    ensures
        r is Ok <==> g1_encoding_ok(g1_normalize(b@)),
        r matches Ok(p) ==> p@ == g1_normalize(b@) && p.wf(),
        r is Err ==> r == Err::<GroupElementG1, MalformedKind>(MalformedKind::InvalidG1),
{
    let inf = g1_infinity_encoding();
    let bytes: [u8; 64] = if is_all_zero(b.as_slice()) {
        inf
    } else {
        *b
    };
    proof {
        assert(bytes@ == g1_normalize(b@));
    }
    if !slice_eq(bytes.as_slice(), inf.as_slice()) {
        let q = base_field_modulus_be();
        let xs = slice_subrange(bytes.as_slice(), 0, 32);
        if !be_bytes_lt(xs, q.as_slice()) {
            return Err(MalformedKind::InvalidG1);
        }
        let ys = slice_subrange(bytes.as_slice(), 32, 64);
        if !be_bytes_lt(ys, q.as_slice()) {
            return Err(MalformedKind::InvalidG1);
        }
    }
    if !g1_bytes_valid(&bytes) {
        return Err(MalformedKind::InvalidG1);
    }
    Ok(GroupElementG1 { bytes })
}

/// Decodes 128 bytes into an extension-curve group element.  An all-zero
/// window is read as the reserved infinity encoding; every other window
/// stands for itself.  Succeeds exactly when the window so read is well
/// formed, and hands back the element carrying those bytes.
pub fn decode_g2(b: &[u8; 128]) -> (r: Result<GroupElementG2, MalformedKind>)
    ensures
        r is Ok <==> g2_encoding_ok(g2_normalize(b@)),
        r matches Ok(p) ==> p@ == g2_normalize(b@) && p.wf(),
        r is Err ==> r == Err::<GroupElementG2, MalformedKind>(MalformedKind::InvalidG2),
{
    let inf = g2_infinity_encoding();
    let bytes: [u8; 128] = if is_all_zero(b.as_slice()) {
        inf
    } else {
        *b
    };
    proof {
        assert(bytes@ == g2_normalize(b@));
    }
    if !slice_eq(bytes.as_slice(), inf.as_slice()) {
        let q = base_field_modulus_be();
        if !be_bytes_lt(slice_subrange(bytes.as_slice(), 0, 32), q.as_slice()) {
            return Err(MalformedKind::InvalidG2);
        }
        if !be_bytes_lt(slice_subrange(bytes.as_slice(), 32, 64), q.as_slice()) {
            return Err(MalformedKind::InvalidG2);
        }
        if !be_bytes_lt(slice_subrange(bytes.as_slice(), 64, 96), q.as_slice()) {
            return Err(MalformedKind::InvalidG2);
        }
        if !be_bytes_lt(slice_subrange(bytes.as_slice(), 96, 128), q.as_slice()) {
            return Err(MalformedKind::InvalidG2);
        }
    }
    if !g2_bytes_valid(&bytes) {
        return Err(MalformedKind::InvalidG2);
    }
    Ok(GroupElementG2 { bytes })
}

/// Decodes 32 big-endian bytes into a scalar field element.  Succeeds
/// exactly when the denoted value is strictly below the scalar field's
/// order.
pub fn decode_scalar(b: &[u8; 32]) -> (r: Result<ScalarFieldElement, MalformedKind>)
    ensures
        r is Ok <==> scalar_encoding_ok(b@),
        r matches Ok(s) ==> s@ == b@ && s.wf(),
        r is Err ==> r == Err::<ScalarFieldElement, MalformedKind>(MalformedKind::ScalarOutOfRange),
{
    let m = scalar_field_modulus_be();
    if !be_bytes_lt(b.as_slice(), m.as_slice()) {
        return Err(MalformedKind::ScalarOutOfRange);
    }
    Ok(ScalarFieldElement { bytes: *b })
}

/// Round-trip law: decoding the encoding of a well-formed base-curve
/// element yields the element itself.
pub fn g1_round_trip(p: &GroupElementG1) -> (q: GroupElementG1)
    requires
        p.wf(),
    ensures
        q == *p,
{
    let bytes = p.encode();
    match decode_g1(&bytes) {
        Ok(q) => {
            proof {
                assert(q.bytes@ == p.bytes@);
                assert(q.bytes =~= p.bytes);
            }
            q
        },
        Err(_) => {
            proof {
                assert(false);
            }
            *p
        },
    }
}

/// Round-trip law: decoding the encoding of a well-formed extension-curve
/// element yields the element itself.
pub fn g2_round_trip(p: &GroupElementG2) -> (q: GroupElementG2)
    requires
        p.wf(),
    ensures
        q == *p,
{
    let bytes = p.encode();
    match decode_g2(&bytes) {
        Ok(q) => {
            proof {
                assert(q.bytes@ == p.bytes@);
                assert(q.bytes =~= p.bytes);
            }
            q
        },
        Err(_) => {
            proof {
                assert(false);
            }
            *p
        },
    }
}

} // verus!
