//! The Groth16 verification algorithm: the public-input accumulator, the
//! pairing equation, the instruction-buffer decoder and the three-way
//! outcome.
//!
//! The pairing equation follows the convention that the first proof point
//! `piA` is negated:
//! `e(-piA, piB) * e(alpha, beta) * e(vkX, gamma) * e(piC, delta) == 1`.

use crate::codec::decode_g1;
use crate::codec::decode_g2;
use crate::codec::decode_scalar;
use crate::codec::g1_encoding_ok;
use crate::codec::g1_normalize;
use crate::codec::g2_encoding_ok;
use crate::codec::g2_normalize;
use crate::codec::scalar_encoding_ok;
use crate::codec::GroupElementG1;
use crate::codec::GroupElementG2;
use crate::codec::MalformedKind;
use crate::codec::ScalarFieldElement;
use crate::curve::g1_add_of;
use crate::curve::g1_add_points;
use crate::curve::g1_check;
use crate::curve::g1_mul_of;
use crate::curve::g1_neg_of;
use crate::curve::g1_negate;
use crate::curve::g1_scalar_mul;
use crate::curve::gt_inv_of;
use crate::curve::gt_inverse;
use crate::curve::gt_is_identity;
use crate::curve::gt_is_one_of;
use crate::curve::gt_mul;
use crate::curve::gt_mul_of;
use crate::curve::pairing;
use crate::curve::pairing_of;
use crate::vkey::VerifyingKey;
use vstd::prelude::*;

verus! {

/// The three-way outcome of one verification call.
#[derive(Clone, Copy, Debug, PartialEq, Eq, Structural)]
pub enum VerificationOutcome {
    /// The pairing equation holds: the proof is accepted.
    Valid,
    /// The input decoded, but the pairing equation does not hold.
    Invalid,
    /// The input could not even be decoded.
    Malformed(MalformedKind),
}

/// A Groth16 proof: two base-curve points and one extension-curve point.
pub struct Proof {
    pub a: GroupElementG1,
    pub b: GroupElementG2,
    pub c: GroupElementG1,
}

impl Proof {
    /// All three components are well formed.
    pub open spec fn wf(&self) -> bool {
        self.a.wf() && self.b.wf() && self.c.wf()
    }
}

/// The encodings of a sequence of scalars.
pub open spec fn scalars_view(s: Seq<ScalarFieldElement>) -> Seq<Seq<u8>> {
    Seq::new(s.len(), |i: int| s[i]@)
}

/// The public-input accumulator after `k` terms:
/// `ic[0] + inputs[0] * ic[1] + ... + inputs[k-1] * ic[k]`.
pub open spec fn spec_vk_x(ic: Seq<Seq<u8>>, inputs: Seq<Seq<u8>>, k: int) -> Seq<u8>
    decreases k,
{
    if k <= 0 {
        ic[0]
    } else {
        g1_add_of(spec_vk_x(ic, inputs, k - 1), g1_mul_of(ic[k], inputs[k - 1]))
    }
}

/// Whether the Groth16 pairing equation holds for proof points `a`, `b`,
/// `c`, the key's fixed points, and the accumulator `vkx`:
/// `e(-a, b) * e(alpha, beta) * e(vkx, gamma) * e(c, delta) == 1`.
pub open spec fn spec_equation_holds(
    a: Seq<u8>,
    b: Seq<u8>,
    c: Seq<u8>,
    vk: VerifyingKey,
    vkx: Seq<u8>,
) -> bool {
    gt_is_one_of(
        gt_mul_of(
            gt_mul_of(
                gt_mul_of(
                    pairing_of(g1_neg_of(a), b),
                    pairing_of(vk.spec_alpha(), vk.spec_beta()),
                ),
                pairing_of(vkx, vk.spec_gamma()),
            ),
            pairing_of(c, vk.spec_delta()),
        ),
    )
}

/// Functional specification of [`verify`]: a total function of the proof,
/// the public inputs and the key.
pub open spec fn spec_verify(p: Proof, inputs: Seq<Seq<u8>>, vk: VerifyingKey) -> Result<
    bool,
    MalformedKind,
> {
    if inputs.len() + 1 != vk.spec_ic().len() {
        Err(MalformedKind::KeyShapeMismatch)
    } else {
        Ok(
            spec_equation_holds(
                p.a@,
                p.b@,
                p.c@,
                vk,
                spec_vk_x(vk.spec_ic(), inputs, inputs.len() as int),
            ),
        )
    }
}

/// Evaluates the Groth16 pairing equation for a proof against public inputs
/// and a verifying key.  Fails exactly when the number of public inputs does
/// not fit the key's commitment basis; otherwise tells whether the equation
/// holds.
pub fn verify(proof: &Proof, public_inputs: &Vec<ScalarFieldElement>, vk: &VerifyingKey) -> (r:
    Result<bool, MalformedKind>)
    requires
        proof.wf(),
        vk.wf(),
        forall|i: int| 0 <= i < public_inputs@.len() ==> (#[trigger] public_inputs@[i]).wf(),
    ensures
        r == spec_verify(*proof, scalars_view(public_inputs@), *vk),
{
    proof {
        vk.lemma_wf_components();
    }
    let ghost inputs = scalars_view(public_inputs@);
    let ghost ics = vk.spec_ic();
    let n: usize = public_inputs.len();
    if vk.ic_len() - 1 != n {
        return Err(MalformedKind::KeyShapeMismatch);
    }
    let mut acc: [u8; 64] = vk.ic_bytes(0);
    let mut i: usize = 0;
    while i < n
        invariant
            i <= n,
            n == public_inputs@.len(),
            inputs == scalars_view(public_inputs@),
            ics == vk.spec_ic(),
            ics.len() == n + 1,
            vk.wf(),
            forall|j: int| 0 <= j < public_inputs@.len() ==> (#[trigger] public_inputs@[j]).wf(),
            acc@ == spec_vk_x(ics, inputs, i as int),
            g1_check(acc@),
        decreases n - i,
    {
        proof {
            vk.lemma_wf_components();
        }
        let base = vk.ic_bytes(i + 1);
        let scalar = public_inputs[i].encode();
        let term = g1_scalar_mul(&base, &scalar);
        acc = g1_add_points(&acc, &term);
        proof {
            assert(acc@ == spec_vk_x(ics, inputs, i + 1));
        }
        i = i + 1;
    }
    let neg_a = g1_negate(&proof.a.encode());
    let t1 = pairing(&neg_a, &proof.b.encode());
    let t2 = pairing(&vk.alpha_bytes(), &vk.beta_bytes());
    let mut prod = gt_mul(&t1, &t2);
    let t3 = pairing(&acc, &vk.gamma_bytes());
    prod = gt_mul(&prod, &t3);
    let t4 = pairing(&proof.c.encode(), &vk.delta_bytes());
    prod = gt_mul(&prod, &t4);
    Ok(gt_is_identity(&prod))
}

/// Determinism law: the outcome of verification is a function of the proof,
/// the public inputs and the key alone, so two results for identical inputs
/// are identical.
pub proof fn lemma_verify_deterministic(
    p: Proof,
    inputs: Seq<Seq<u8>>,
    vk: VerifyingKey,
    r1: Result<bool, MalformedKind>,
    r2: Result<bool, MalformedKind>,
)
    requires
        r1 == spec_verify(p, inputs, vk),
        r2 == spec_verify(p, inputs, vk),
    ensures
        r1 == r2,
{
}

/// Compares two byte vectors.
fn bytes_eq(a: &Vec<u8>, b: &Vec<u8>) -> (r: bool)
    ensures
        r == (a@ == b@),
{
    if a.len() != b.len() {
        return false;
    }
    let n: usize = a.len();
    let mut i: usize = 0;
    while i < n
        invariant
            i <= n,
            n == a@.len(),
            n == b@.len(),
            forall|j: int| 0 <= j < i ==> a@[j] == b@[j],
        decreases n - i,
    {
        if a[i] != b[i] {
            return false;
        }
        i = i + 1;
    }
    proof {
        assert(a@ =~= b@);
    }
    true
}

/// Copies `N` bytes out of `src` starting at `start`.
fn read_block<const N: usize>(src: &[u8], start: usize) -> (r: [u8; N])
    requires
        start + N <= src@.len(),
    ensures
        r@ == src@.subrange(start as int, start as int + N as int),
{
    let slen: usize = src.len();
    let mut out: [u8; N] = [0u8; N];
    let mut i: usize = 0;
    while i < N
        invariant
            i <= N,
            slen == src@.len(),
            start + N <= slen,
            out@.len() == N,
            forall|j: int| 0 <= j < i ==> out@[j] == src@[start + j],
        decreases N - i,
    {
        out[i] = src[start + i];
        i = i + 1;
    }
    proof {
        assert(out@ =~= src@.subrange(start as int, start as int + N as int));
    }
    out
}

/// The length an instruction buffer must have for `n` public inputs.
pub open spec fn spec_required_len(n: int) -> int {
    256 + 32 * n
}

/// The 32-byte public-input windows of an instruction buffer.
pub open spec fn spec_input_scalars(s: Seq<u8>, n: int) -> Seq<Seq<u8>> {
    Seq::new(n as nat, |i: int| s.subrange(256 + 32 * i, 288 + 32 * i))
}

/// The `piA` window of an instruction buffer, with an all-zero window read
/// as the reserved infinity encoding.
pub open spec fn spec_window_a(s: Seq<u8>) -> Seq<u8> {
    g1_normalize(s.subrange(0, 64))
}

/// The `piB` window of an instruction buffer, read as `spec_window_a` is.
pub open spec fn spec_window_b(s: Seq<u8>) -> Seq<u8> {
    g2_normalize(s.subrange(64, 192))
}

/// The `piC` window of an instruction buffer, read as `spec_window_a` is.
pub open spec fn spec_window_c(s: Seq<u8>) -> Seq<u8> {
    g1_normalize(s.subrange(192, 256))
}

/// A well-formed instruction buffer for `n` public inputs: long enough, the
/// three proof windows encode valid group elements, and every public-input
/// window encodes a valid scalar.
pub open spec fn spec_input_ok(s: Seq<u8>, n: int) -> bool {
    &&& s.len() >= spec_required_len(n)
    &&& g1_encoding_ok(spec_window_a(s))
    &&& g2_encoding_ok(spec_window_b(s))
    &&& g1_encoding_ok(spec_window_c(s))
    &&& forall|i: int|
        0 <= i < n ==> scalar_encoding_ok(#[trigger] s.subrange(256 + 32 * i, 288 + 32 * i))
}

/// Parses a flat instruction buffer into the proof and the `n_public`
/// public-input scalars, by fixed offsets: `piA` at 0, `piB` at 64, `piC`
/// at 192, then the 32-byte scalars.  Succeeds exactly on well-formed
/// buffers; a short buffer and every failing window report which window
/// failed, never a fault.
pub fn decode_proof_input(buffer: &[u8], n_public: usize) -> (r: Result<
    (Proof, Vec<ScalarFieldElement>),
    MalformedKind,
>)
    ensures
        r is Ok <==> spec_input_ok(buffer@, n_public as int),
        r matches Ok((p, ins)) ==> {
            &&& p.a@ == spec_window_a(buffer@)
            &&& p.b@ == spec_window_b(buffer@)
            &&& p.c@ == spec_window_c(buffer@)
            &&& p.wf()
            &&& ins@.len() == n_public
            &&& scalars_view(ins@) == spec_input_scalars(buffer@, n_public as int)
            &&& forall|i: int| 0 <= i < n_public ==> (#[trigger] ins@[i]).wf()
        },
        buffer@.len() < spec_required_len(n_public as int) ==> r == Err::<
            (Proof, Vec<ScalarFieldElement>),
            MalformedKind,
        >(MalformedKind::BufferTooShort),
        buffer@.len() >= spec_required_len(n_public as int) && !g1_encoding_ok(
            spec_window_a(buffer@),
        ) ==> r == Err::<(Proof, Vec<ScalarFieldElement>), MalformedKind>(MalformedKind::InvalidG1),
        buffer@.len() >= spec_required_len(n_public as int) && g1_encoding_ok(
            spec_window_a(buffer@),
        ) && !g2_encoding_ok(spec_window_b(buffer@)) ==> r == Err::<
            (Proof, Vec<ScalarFieldElement>),
            MalformedKind,
        >(MalformedKind::InvalidG2),
        buffer@.len() >= spec_required_len(n_public as int) && g1_encoding_ok(
            spec_window_a(buffer@),
        ) && g2_encoding_ok(spec_window_b(buffer@)) && !g1_encoding_ok(
            spec_window_c(buffer@),
        ) ==> r == Err::<(Proof, Vec<ScalarFieldElement>), MalformedKind>(MalformedKind::InvalidG1),
        r is Err && buffer@.len() >= spec_required_len(n_public as int) && g1_encoding_ok(
            spec_window_a(buffer@),
        ) && g2_encoding_ok(spec_window_b(buffer@)) && g1_encoding_ok(
            spec_window_c(buffer@),
        ) ==> r == Err::<(Proof, Vec<ScalarFieldElement>), MalformedKind>(
            MalformedKind::ScalarOutOfRange,
        ),
{
    let blen: usize = buffer.len();
    if (blen as u128) < 256u128 + 32u128 * (n_public as u128) {
        return Err(MalformedKind::BufferTooShort);
    }
    let a_bytes: [u8; 64] = read_block::<64>(buffer, 0);
    let a = match decode_g1(&a_bytes) {
        Ok(p) => p,
        Err(e) => { return Err(e) },
    };
    let b_bytes: [u8; 128] = read_block::<128>(buffer, 64);
    let b = match decode_g2(&b_bytes) {
        Ok(p) => p,
        Err(e) => { return Err(e) },
    };
    let c_bytes: [u8; 64] = read_block::<64>(buffer, 192);
    let c = match decode_g1(&c_bytes) {
        Ok(p) => p,
        Err(e) => { return Err(e) },
    };
    let mut scalars: Vec<ScalarFieldElement> = Vec::new();
    let mut i: usize = 0;
    while i < n_public
        invariant
            i <= n_public,
            blen == buffer@.len(),
            256 + 32 * (n_public as int) <= blen,
            g1_encoding_ok(spec_window_a(buffer@)),
            g2_encoding_ok(spec_window_b(buffer@)),
            g1_encoding_ok(spec_window_c(buffer@)),
            scalars@.len() == i,
            forall|j: int|
                0 <= j < i ==> (#[trigger] scalars@[j])@ == buffer@.subrange(
                    256 + 32 * j,
                    288 + 32 * j,
                ) && scalars@[j].wf(),
        decreases n_public - i,
    {
        let w: [u8; 32] = read_block::<32>(buffer, 256 + 32 * i);
        let s = match decode_scalar(&w) {
            Ok(s) => s,
            Err(e) => {
                proof {
                    assert(w@ == buffer@.subrange(
                        256 + 32 * (i as int),
                        288 + 32 * (i as int),
                    ));
                }
                return Err(e)
            },
        };
        scalars.push(s);
        i = i + 1;
    }
    proof {
        assert(scalars_view(scalars@) =~= spec_input_scalars(buffer@, n_public as int));
        assert forall|j: int|
            0 <= j < n_public implies scalar_encoding_ok(
            #[trigger] buffer@.subrange(256 + 32 * j, 288 + 32 * j),
        ) by {
            assert(scalars@[j]@ == buffer@.subrange(256 + 32 * j, 288 + 32 * j));
            assert(scalars@[j].wf());
        }
    }
    Ok((Proof { a, b, c }, scalars))
}

/// Whether an instruction buffer decodes and its proof satisfies the
/// pairing equation under `vk`.
pub open spec fn spec_buffer_accepted(s: Seq<u8>, vk: VerifyingKey) -> bool {
    &&& spec_input_ok(s, vk.spec_n_public())
    &&& spec_equation_holds(
        spec_window_a(s),
        spec_window_b(s),
        spec_window_c(s),
        vk,
        spec_vk_x(vk.spec_ic(), spec_input_scalars(s, vk.spec_n_public()), vk.spec_n_public()),
    )
}

/// The single entry operation: decodes the instruction buffer against the
/// key's public-input count and reports the three-way outcome.  `Valid`
/// exactly when the buffer decodes and the pairing equation holds,
/// `Invalid` exactly when it decodes and the equation fails, `Malformed`
/// exactly when it does not decode — never a fault, whatever the buffer
/// holds.
pub fn verify_proof_bytes(buffer: &[u8], vk: &VerifyingKey) -> (r: VerificationOutcome)
    requires
        vk.wf(),
    ensures
        r == VerificationOutcome::Valid <==> spec_buffer_accepted(buffer@, *vk),
        r == VerificationOutcome::Invalid <==> spec_input_ok(buffer@, vk.spec_n_public())
            && !spec_buffer_accepted(buffer@, *vk),
        r is Malformed <==> !spec_input_ok(buffer@, vk.spec_n_public()),
        buffer@.len() < spec_required_len(vk.spec_n_public()) ==> r
            == VerificationOutcome::Malformed(MalformedKind::BufferTooShort),
        buffer@.len() >= spec_required_len(vk.spec_n_public()) && !g1_encoding_ok(
            spec_window_a(buffer@),
        ) ==> r == VerificationOutcome::Malformed(MalformedKind::InvalidG1),
        buffer@.len() >= spec_required_len(vk.spec_n_public()) && g1_encoding_ok(
            spec_window_a(buffer@),
        ) && !g2_encoding_ok(spec_window_b(buffer@)) ==> r == VerificationOutcome::Malformed(
            MalformedKind::InvalidG2,
        ),
        buffer@.len() >= spec_required_len(vk.spec_n_public()) && g1_encoding_ok(
            spec_window_a(buffer@),
        ) && g2_encoding_ok(spec_window_b(buffer@)) && !g1_encoding_ok(
            spec_window_c(buffer@),
        ) ==> r == VerificationOutcome::Malformed(MalformedKind::InvalidG1),
        r is Malformed && buffer@.len() >= spec_required_len(vk.spec_n_public())
            && g1_encoding_ok(spec_window_a(buffer@)) && g2_encoding_ok(
            spec_window_b(buffer@),
        ) && g1_encoding_ok(spec_window_c(buffer@)) ==> r == VerificationOutcome::Malformed(
            MalformedKind::ScalarOutOfRange,
        ),
{
    proof {
        vk.lemma_wf_components();
    }
    let n: usize = vk.ic_len() - 1;
    match decode_proof_input(buffer, n) {
        Err(k) => VerificationOutcome::Malformed(k),
        Ok((p, ins)) => match verify(&p, &ins, vk) {
            Ok(true) => VerificationOutcome::Valid,
            Ok(false) => VerificationOutcome::Invalid,
            Err(_) => {
                proof {
                    assert(false);
                }
                VerificationOutcome::Invalid
            },
        },
    }
}

/// Negation-consistency check for the pairing primitive: whether
/// `e(-P, Q)` equals `e(P, Q)^{-1}` for the given points.  The equality
/// itself is a property of the curve backend, so it is checked, not
/// assumed: the result states exactly what was compared.
pub fn negation_consistency(p: &GroupElementG1, q: &GroupElementG2) -> (r: bool)
    requires
        p.wf(),
        q.wf(),
    ensures
        r == (pairing_of(g1_neg_of(p@), q@) == gt_inv_of(pairing_of(p@, q@))),
{
    let neg = g1_negate(&p.encode());
    let lhs = pairing(&neg, &q.encode());
    let direct = pairing(&p.encode(), &q.encode());
    let rhs = gt_inverse(&direct);
    bytes_eq(&lhs, &rhs)
}

} // verus!
