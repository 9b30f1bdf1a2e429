//! The verifying key: the immutable configuration of the proof system.
//!
//! A key holds the four fixed points of the trusted setup and the
//! commitment basis `ic`, one base term plus one point per public input.
//! The shape constraint `ic.len() == n_public + 1` is checked eagerly when
//! the key is built, never deferred to verification time.

use crate::codec::decode_g1;
use crate::codec::decode_g2;
use crate::codec::g1_encoding_ok;
use crate::codec::g1_normalize;
use crate::codec::g2_encoding_ok;
use crate::codec::g2_normalize;
use crate::codec::GroupElementG1;
use crate::codec::GroupElementG2;
use crate::codec::zero_bytes;
use crate::codec::MalformedKind;
use vstd::prelude::*;

verus! {

/// The number of public inputs the embedded verifying key is built for.
pub const EMBEDDED_PUBLIC_INPUTS: usize = 1;

/// The verifying key of the proof system.
#[derive(Debug)]
pub struct VerifyingKey {
    alpha: GroupElementG1,
    beta: GroupElementG2,
    gamma: GroupElementG2,
    delta: GroupElementG2,
    ic: Vec<GroupElementG1>,
}

impl VerifyingKey {
    /// The encoding of the key's `alpha` point.
    pub closed spec fn spec_alpha(&self) -> Seq<u8> {
        self.alpha@
    }

    /// The encoding of the key's `beta` point.
    pub closed spec fn spec_beta(&self) -> Seq<u8> {
        self.beta@
    }

    /// The encoding of the key's `gamma` point.
    pub closed spec fn spec_gamma(&self) -> Seq<u8> {
        self.gamma@
    }

    /// The encoding of the key's `delta` point.
    pub closed spec fn spec_delta(&self) -> Seq<u8> {
        self.delta@
    }

    /// The encodings of the key's commitment basis points.
    pub closed spec fn spec_ic(&self) -> Seq<Seq<u8>> {
        self.ic@.map(|i: int, e: GroupElementG1| e@)
    }

    /// The number of public inputs the key is shaped for.
    pub open spec fn spec_n_public(&self) -> int {
        self.spec_ic().len() - 1
    }

    /// All five components are well-formed encodings and the commitment
    /// basis has at least its base term.
    pub closed spec fn wf(&self) -> bool {
        &&& g1_encoding_ok(self.alpha@)
        &&& g2_encoding_ok(self.beta@)
        &&& g2_encoding_ok(self.gamma@)
        &&& g2_encoding_ok(self.delta@)
        &&& self.ic@.len() >= 1
        &&& forall|i: int| 0 <= i < self.ic@.len() ==> g1_encoding_ok(#[trigger] self.ic@[i]@)
    }

    /// `wf` says of each component what the public spec accessors expose.
    pub proof fn lemma_wf_components(&self)
        requires
            self.wf(),
        ensures
            g1_encoding_ok(self.spec_alpha()),
            g2_encoding_ok(self.spec_beta()),
            g2_encoding_ok(self.spec_gamma()),
            g2_encoding_ok(self.spec_delta()),
            self.spec_ic().len() >= 1,
            forall|i: int| 0 <= i < self.spec_ic().len() ==> g1_encoding_ok(#[trigger] self.spec_ic()[i]),
    {
    }

    /// The number of commitment basis points.
    pub fn ic_len(&self) -> (r: usize)
        ensures
            r == self.spec_ic().len(),
    {
        self.ic.len()
    }

    /// The encoding of the `i`-th commitment basis point.
    pub fn ic_bytes(&self, i: usize) -> (r: [u8; 64])
        requires
            i < self.spec_ic().len(),
        ensures
            r@ == self.spec_ic()[i as int],
    {
        self.ic[i].encode()
    }

    /// The encoding of the key's `alpha` point.
    pub fn alpha_bytes(&self) -> (r: [u8; 64])
        ensures
            r@ == self.spec_alpha(),
    {
        self.alpha.encode()
    }

    /// The encoding of the key's `beta` point.
    pub fn beta_bytes(&self) -> (r: [u8; 128])
        ensures
            r@ == self.spec_beta(),
    {
        self.beta.encode()
    }

    /// The encoding of the key's `gamma` point.
    pub fn gamma_bytes(&self) -> (r: [u8; 128])
        ensures
            r@ == self.spec_gamma(),
    {
        self.gamma.encode()
    }

    /// The encoding of the key's `delta` point.
    pub fn delta_bytes(&self) -> (r: [u8; 128])
        ensures
            r@ == self.spec_delta(),
    {
        self.delta.encode()
    }

    /// Builds a verifying key from raw encodings, for `n_public` public
    /// inputs.  The shape of the commitment basis is checked first and
    /// eagerly; then every point encoding is validated.  Succeeds exactly
    /// when the shape fits and all encodings are well formed, and then the
    /// key's components carry exactly the given bytes.
    pub fn new(
        alpha: &[u8; 64],
        beta: &[u8; 128],
        gamma: &[u8; 128],
        delta: &[u8; 128],
        ic: &Vec<[u8; 64]>,
        n_public: usize,
    ) -> (r: Result<VerifyingKey, MalformedKind>)
        ensures
            r is Ok <==> {
                &&& ic@.len() == n_public + 1
                &&& g1_encoding_ok(g1_normalize(alpha@))
                &&& g2_encoding_ok(g2_normalize(beta@))
                &&& g2_encoding_ok(g2_normalize(gamma@))
                &&& g2_encoding_ok(g2_normalize(delta@))
                &&& forall|i: int| 0 <= i < ic@.len() ==> g1_encoding_ok(g1_normalize(#[trigger] ic@[i]@))
            },
            ic@.len() != n_public + 1 ==> r == Err::<VerifyingKey, MalformedKind>(
                MalformedKind::KeyShapeMismatch,
            ),
            ic@.len() == n_public + 1 && !g1_encoding_ok(g1_normalize(alpha@)) ==> r == Err::<
                VerifyingKey,
                MalformedKind,
            >(MalformedKind::InvalidG1),
            ic@.len() == n_public + 1 && g1_encoding_ok(g1_normalize(alpha@)) && !(g2_encoding_ok(g2_normalize(beta@))
                && g2_encoding_ok(g2_normalize(gamma@)) && g2_encoding_ok(g2_normalize(delta@))) ==> r == Err::<
                VerifyingKey,
                MalformedKind,
            >(MalformedKind::InvalidG2),
            ic@.len() == n_public + 1 && g1_encoding_ok(g1_normalize(alpha@)) && g2_encoding_ok(g2_normalize(beta@))
                && g2_encoding_ok(g2_normalize(gamma@)) && g2_encoding_ok(g2_normalize(delta@)) && !(forall|i: int|
                0 <= i < ic@.len() ==> g1_encoding_ok(g1_normalize(#[trigger] ic@[i]@))) ==> r == Err::<
                VerifyingKey,
                MalformedKind,
            >(MalformedKind::InvalidG1),
            r matches Ok(k) ==> {
                &&& k.wf()
                &&& k.spec_alpha() == g1_normalize(alpha@)
                &&& k.spec_beta() == g2_normalize(beta@)
                &&& k.spec_gamma() == g2_normalize(gamma@)
                &&& k.spec_delta() == g2_normalize(delta@)
                &&& k.spec_ic().len() == ic@.len()
                &&& k.spec_n_public() == n_public
                &&& forall|i: int| 0 <= i < ic@.len() ==> #[trigger] k.spec_ic()[i] == g1_normalize(ic@[i]@)
            },
    {
        let ic_len: usize = ic.len();
        if n_public == usize::MAX || ic_len != n_public + 1 {
            return Err(MalformedKind::KeyShapeMismatch);
        }
        let alpha_p = match decode_g1(alpha) {
            Ok(p) => p,
            Err(e) => { return Err(e) },
        };
        let beta_p = match decode_g2(beta) {
            Ok(p) => p,
            Err(e) => { return Err(e) },
        };
        let gamma_p = match decode_g2(gamma) {
            Ok(p) => p,
            Err(e) => { return Err(e) },
        };
        let delta_p = match decode_g2(delta) {
            Ok(p) => p,
            Err(e) => { return Err(e) },
        };
        let mut ic_points: Vec<GroupElementG1> = Vec::new();
        let mut i: usize = 0;
        while i < ic.len()
            invariant
                i <= ic@.len(),
                ic@.len() == n_public + 1,
                g1_encoding_ok(g1_normalize(alpha@)),
                g2_encoding_ok(g2_normalize(beta@)),
                g2_encoding_ok(g2_normalize(gamma@)),
                g2_encoding_ok(g2_normalize(delta@)),
                ic_points@.len() == i,
                forall|j: int| 0 <= j < i ==> g1_encoding_ok(#[trigger] ic_points@[j]@),
                forall|j: int| 0 <= j < i ==> #[trigger] ic_points@[j]@ == g1_normalize(ic@[j]@),
            decreases ic@.len() - i,
        {
            let p = match decode_g1(&ic[i]) {
                Ok(p) => p,
                Err(e) => { return Err(e) },
            };
            ic_points.push(p);
            i = i + 1;
        }
        proof {
            assert forall|j: int| 0 <= j < ic@.len() implies g1_encoding_ok(
                g1_normalize(#[trigger] ic@[j]@),
            ) by {
                assert(ic_points@[j]@ == g1_normalize(ic@[j]@));
                assert(g1_encoding_ok(ic_points@[j]@));
            }
        }
        let k = VerifyingKey {
            alpha: alpha_p,
            beta: beta_p,
            gamma: gamma_p,
            delta: delta_p,
            ic: ic_points,
        };
        proof {
            assert forall|j: int| 0 <= j < ic@.len() implies #[trigger] k.spec_ic()[j]
                == g1_normalize(ic@[j]@) by {
                assert(k.spec_ic()[j] == k.ic@[j]@);
            }
        }
        Ok(k)
    }
}

/// The compiled-in `alpha` point of this deployment's trusted setup.
pub open spec fn embedded_alpha() -> Seq<u8> {
    seq![
        46u8, 198, 28, 80, 85, 219, 64, 95, 16, 86, 37, 55, 105, 174, 107, 82, 67, 212, 66,
        53, 189, 244, 65, 129, 153, 249, 14, 192, 208, 23, 189, 255, 46, 213, 140, 248, 251,
        76, 224, 235, 78, 79, 47, 37, 11, 253, 131, 73, 220, 6, 86, 57, 31, 37, 150, 116,
        245, 62, 83, 76, 46, 234, 4, 132,
    ]
}

/// The compiled-in `beta` point of this deployment's trusted setup.
pub open spec fn embedded_beta() -> Seq<u8> {
    seq![
        40u8, 239, 114, 219, 169, 186, 198, 208, 56, 242, 155, 131, 18, 151, 60, 17, 8, 209,
        95, 232, 155, 207, 165, 191, 9, 240, 203, 222, 208, 254, 251, 118, 23, 244, 194,
        167, 148, 204, 162, 27, 134, 119, 235, 184, 191, 212, 15, 40, 60, 80, 108, 153, 207,
        223, 171, 38, 222, 36, 166, 12, 84, 109, 176, 64, 14, 48, 121, 113, 255, 10, 248,
        201, 22, 70, 211, 61, 239, 180, 243, 240, 193, 117, 248, 132, 92, 108, 103, 68, 96,
        104, 143, 249, 30, 26, 84, 65, 6, 82, 118, 185, 31, 130, 171, 49, 7, 175, 0, 68,
        128, 209, 81, 253, 68, 111, 106, 183, 12, 127, 60, 70, 105, 211, 9, 21, 170, 72, 70,
        58,
    ]
}

/// The compiled-in `gamma` point of this deployment's trusted setup.
pub open spec fn embedded_gamma() -> Seq<u8> {
    seq![
        25u8, 142, 147, 147, 146, 13, 72, 58, 114, 96, 191, 183, 49, 251, 93, 37, 241, 170,
        73, 51, 53, 169, 231, 18, 151, 228, 133, 183, 174, 243, 18, 194, 24, 0, 222, 239,
        18, 31, 30, 118, 66, 106, 0, 102, 94, 92, 68, 121, 103, 67, 34, 212, 247, 94, 218,
        221, 70, 222, 189, 92, 217, 146, 246, 237, 9, 6, 137, 208, 88, 95, 240, 117, 236,
        158, 153, 173, 105, 12, 51, 149, 188, 75, 49, 51, 112, 179, 142, 243, 85, 172, 218,
        220, 209, 34, 151, 91, 18, 200, 94, 165, 219, 140, 109, 235, 74, 171, 113, 128, 141,
        203, 64, 143, 227, 209, 231, 105, 12, 67, 211, 123, 76, 230, 204, 1, 102, 250, 125,
        170,
    ]
}

/// The compiled-in `delta` point of this deployment's trusted setup.
pub open spec fn embedded_delta() -> Seq<u8> {
    seq![
        24u8, 192, 59, 38, 123, 253, 143, 209, 31, 2, 6, 232, 161, 211, 127, 130, 243, 195,
        167, 30, 70, 1, 188, 224, 50, 84, 152, 107, 192, 21, 180, 237, 28, 114, 45, 187, 38,
        122, 20, 254, 202, 71, 245, 235, 178, 126, 211, 179, 176, 61, 10, 103, 34, 65, 197,
        118, 5, 27, 150, 189, 46, 60, 94, 185, 35, 207, 37, 209, 197, 84, 87, 106, 62, 27,
        41, 116, 198, 235, 14, 90, 222, 127, 26, 30, 171, 63, 255, 141, 41, 53, 206, 215,
        237, 66, 117, 12, 27, 178, 142, 201, 231, 67, 82, 137, 245, 78, 19, 88, 40, 84, 123,
        79, 2, 191, 80, 218, 78, 125, 94, 231, 178, 101, 121, 12, 31, 4, 17, 239,
    ]
}

/// The compiled-in base term of the commitment basis.
pub open spec fn embedded_ic_base() -> Seq<u8> {
    seq![
        26u8, 117, 81, 38, 33, 231, 103, 28, 33, 207, 192, 9, 40, 163, 239, 213, 143, 75,
        215, 83, 82, 99, 239, 43, 187, 29, 215, 94, 171, 232, 109, 97, 1, 34, 199, 15, 152,
        146, 18, 109, 191, 206, 154, 14, 65, 233, 113, 21, 117, 171, 39, 197, 154, 75, 176,
        199, 151, 75, 117, 63, 170, 66, 13, 98,
    ]
}

/// The compiled-in commitment basis point of the single public input.
pub open spec fn embedded_ic_input() -> Seq<u8> {
    seq![
        26u8, 34, 168, 154, 124, 160, 104, 241, 73, 142, 20, 231, 181, 8, 8, 182, 0, 225,
        51, 233, 173, 217, 93, 237, 166, 202, 87, 151, 55, 51, 87, 197, 43, 145, 207, 212,
        5, 45, 208, 198, 22, 238, 212, 232, 126, 17, 37, 125, 180, 176, 67, 75, 207, 58,
        102, 122, 182, 244, 89, 209, 133, 253, 4, 255,
    ]
}

/// Builds the compiled-in verifying key of this deployment: the four fixed
/// points of its trusted setup and a commitment basis for one public input.
/// The encodings are validated eagerly.  Succeeds exactly when every
/// embedded encoding is well formed, and then the key's components carry
/// exactly the embedded bytes.
pub fn embedded_verifying_key() -> (r: Result<VerifyingKey, MalformedKind>)
    ensures
        r is Ok <==> {
            &&& g1_encoding_ok(embedded_alpha())
            &&& g2_encoding_ok(embedded_beta())
            &&& g2_encoding_ok(embedded_gamma())
            &&& g2_encoding_ok(embedded_delta())
            &&& g1_encoding_ok(embedded_ic_base())
            &&& g1_encoding_ok(embedded_ic_input())
        },
        r matches Ok(k) ==> {
            &&& k.wf()
            &&& k.spec_alpha() == embedded_alpha()
            &&& k.spec_beta() == embedded_beta()
            &&& k.spec_gamma() == embedded_gamma()
            &&& k.spec_delta() == embedded_delta()
            &&& k.spec_ic() == seq![embedded_ic_base(), embedded_ic_input()]
            &&& k.spec_n_public() == EMBEDDED_PUBLIC_INPUTS
        },
{
    let alpha: [u8; 64] = [
        46, 198, 28, 80, 85, 219, 64, 95, 16, 86, 37, 55, 105, 174, 107, 82, 67, 212, 66, 53,
        189, 244, 65, 129, 153, 249, 14, 192, 208, 23, 189, 255, 46, 213, 140, 248, 251, 76, 224,
        235, 78, 79, 47, 37, 11, 253, 131, 73, 220, 6, 86, 57, 31, 37, 150, 116, 245, 62, 83, 76,
        46, 234, 4, 132,
    ];
    let beta: [u8; 128] = [
        40, 239, 114, 219, 169, 186, 198, 208, 56, 242, 155, 131, 18, 151, 60, 17, 8, 209, 95,
        232, 155, 207, 165, 191, 9, 240, 203, 222, 208, 254, 251, 118, 23, 244, 194, 167, 148,
        204, 162, 27, 134, 119, 235, 184, 191, 212, 15, 40, 60, 80, 108, 153, 207, 223, 171, 38,
        222, 36, 166, 12, 84, 109, 176, 64, 14, 48, 121, 113, 255, 10, 248, 201, 22, 70, 211, 61,
        239, 180, 243, 240, 193, 117, 248, 132, 92, 108, 103, 68, 96, 104, 143, 249, 30, 26, 84,
        65, 6, 82, 118, 185, 31, 130, 171, 49, 7, 175, 0, 68, 128, 209, 81, 253, 68, 111, 106,
        183, 12, 127, 60, 70, 105, 211, 9, 21, 170, 72, 70, 58,
    ];
    let gamma: [u8; 128] = [
        25, 142, 147, 147, 146, 13, 72, 58, 114, 96, 191, 183, 49, 251, 93, 37, 241, 170, 73, 51,
        53, 169, 231, 18, 151, 228, 133, 183, 174, 243, 18, 194, 24, 0, 222, 239, 18, 31, 30,
        118, 66, 106, 0, 102, 94, 92, 68, 121, 103, 67, 34, 212, 247, 94, 218, 221, 70, 222, 189,
        92, 217, 146, 246, 237, 9, 6, 137, 208, 88, 95, 240, 117, 236, 158, 153, 173, 105, 12,
        51, 149, 188, 75, 49, 51, 112, 179, 142, 243, 85, 172, 218, 220, 209, 34, 151, 91, 18,
        200, 94, 165, 219, 140, 109, 235, 74, 171, 113, 128, 141, 203, 64, 143, 227, 209, 231,
        105, 12, 67, 211, 123, 76, 230, 204, 1, 102, 250, 125, 170,
    ];
    let delta: [u8; 128] = [
        24, 192, 59, 38, 123, 253, 143, 209, 31, 2, 6, 232, 161, 211, 127, 130, 243, 195, 167,
        30, 70, 1, 188, 224, 50, 84, 152, 107, 192, 21, 180, 237, 28, 114, 45, 187, 38, 122, 20,
        254, 202, 71, 245, 235, 178, 126, 211, 179, 176, 61, 10, 103, 34, 65, 197, 118, 5, 27,
        150, 189, 46, 60, 94, 185, 35, 207, 37, 209, 197, 84, 87, 106, 62, 27, 41, 116, 198, 235,
        14, 90, 222, 127, 26, 30, 171, 63, 255, 141, 41, 53, 206, 215, 237, 66, 117, 12, 27, 178,
        142, 201, 231, 67, 82, 137, 245, 78, 19, 88, 40, 84, 123, 79, 2, 191, 80, 218, 78, 125,
        94, 231, 178, 101, 121, 12, 31, 4, 17, 239,
    ];
    let ic0: [u8; 64] = [
        26, 117, 81, 38, 33, 231, 103, 28, 33, 207, 192, 9, 40, 163, 239, 213, 143, 75, 215, 83,
        82, 99, 239, 43, 187, 29, 215, 94, 171, 232, 109, 97, 1, 34, 199, 15, 152, 146, 18, 109,
        191, 206, 154, 14, 65, 233, 113, 21, 117, 171, 39, 197, 154, 75, 176, 199, 151, 75, 117,
        63, 170, 66, 13, 98,
    ];
    let ic1: [u8; 64] = [
        26, 34, 168, 154, 124, 160, 104, 241, 73, 142, 20, 231, 181, 8, 8, 182, 0, 225, 51, 233,
        173, 217, 93, 237, 166, 202, 87, 151, 55, 51, 87, 197, 43, 145, 207, 212, 5, 45, 208,
        198, 22, 238, 212, 232, 126, 17, 37, 125, 180, 176, 67, 75, 207, 58, 102, 122, 182, 244,
        89, 209, 133, 253, 4, 255,
    ];
    proof {
        assert(alpha@ =~= embedded_alpha());
        assert(beta@ =~= embedded_beta());
        assert(gamma@ =~= embedded_gamma());
        assert(delta@ =~= embedded_delta());
        assert(ic0@ =~= embedded_ic_base());
        assert(ic1@ =~= embedded_ic_input());
        assert(embedded_alpha() != zero_bytes(64)) by {
            assert(embedded_alpha()[0] == 46 && zero_bytes(64)[0] == 0);
        }
        assert(embedded_beta() != zero_bytes(128)) by {
            assert(embedded_beta()[0] == 40 && zero_bytes(128)[0] == 0);
        }
        assert(embedded_gamma() != zero_bytes(128)) by {
            assert(embedded_gamma()[0] == 25 && zero_bytes(128)[0] == 0);
        }
        assert(embedded_delta() != zero_bytes(128)) by {
            assert(embedded_delta()[0] == 24 && zero_bytes(128)[0] == 0);
        }
        assert(embedded_ic_base() != zero_bytes(64)) by {
            assert(embedded_ic_base()[0] == 26 && zero_bytes(64)[0] == 0);
        }
        assert(embedded_ic_input() != zero_bytes(64)) by {
            assert(embedded_ic_input()[0] == 26 && zero_bytes(64)[0] == 0);
        }
    }
    let mut ic: Vec<[u8; 64]> = Vec::new();
    ic.push(ic0);
    ic.push(ic1);
    proof {
        assert(ic@[0] == ic0 && ic@[1] == ic1);
    }
    let r = VerifyingKey::new(&alpha, &beta, &gamma, &delta, &ic, EMBEDDED_PUBLIC_INPUTS);
    proof {
        if let Ok(k) = &r {
            assert(k.spec_ic()[0] == g1_normalize(ic@[0]@));
            assert(k.spec_ic()[1] == g1_normalize(ic@[1]@));
            assert(k.spec_ic() =~= seq![embedded_ic_base(), embedded_ic_input()]);
        }
    }
    r
}

} // verus!
