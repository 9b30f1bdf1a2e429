//! Big-endian interpretation of byte strings and the 32-byte-chunk
//! byte-order swap used to move between the crate's big-endian convention
//! and the little-endian convention of the curve arithmetic backend.

use vstd::prelude::*;

verus! {

/// `256^n`.
pub open spec fn pow256(n: nat) -> nat
    decreases n,
{
    if n == 0 {
        1
    } else {
        256 * pow256((n - 1) as nat)
    }
}

/// The natural number a byte string denotes when read in big-endian order:
/// the first byte is the most significant.
pub open spec fn be_nat(s: Seq<u8>) -> nat
    decreases s.len(),
{
    if s.len() == 0 {
        0
    } else {
        (s[0] as nat) * pow256((s.len() - 1) as nat) + be_nat(s.skip(1))
    }
}

pub proof fn lemma_pow256_pos(n: nat)
    ensures
        pow256(n) >= 1,
    decreases n,
{
    if n > 0 {
        lemma_pow256_pos((n - 1) as nat);
    }
}

/// A string of `n` bytes denotes a value below `256^n`.
pub proof fn lemma_be_nat_bound(s: Seq<u8>)
    ensures
        be_nat(s) < pow256(s.len()),
    decreases s.len(),
{
    if s.len() == 0 {
    } else {
        let p = pow256((s.len() - 1) as nat);
        lemma_be_nat_bound(s.skip(1));
        lemma_pow256_pos((s.len() - 1) as nat);
        assert(be_nat(s) < (s[0] as nat) * p + p);
        assert((s[0] as nat) * p + p == ((s[0] as nat) + 1) * p) by {
            vstd::arithmetic::mul::lemma_mul_is_distributive_add_other_way(
                p as int,
                s[0] as int,
                1,
            );
        }
        assert(((s[0] as nat) + 1) * p <= 256 * p) by {
            vstd::arithmetic::mul::lemma_mul_inequality((s[0] as int) + 1, 256, p as int);
        }
    }
}

/// Big-endian strings of equal length compare numerically as they compare
/// lexicographically: if the two agree up to position `i` and differ there,
/// the one with the smaller byte at `i` denotes the smaller number.
pub proof fn lemma_be_nat_lt(a: Seq<u8>, b: Seq<u8>, i: int)
    requires
        a.len() == b.len(),
        0 <= i < a.len(),
        a.subrange(0, i) == b.subrange(0, i),
        a[i] < b[i],
    ensures
        be_nat(a) < be_nat(b),
    decreases i,
{
    let p = pow256((a.len() - 1) as nat);
    if i == 0 {
        lemma_be_nat_bound(a.skip(1));
        assert(be_nat(a) < (a[0] as nat) * p + p);
        assert((a[0] as nat) * p + p == ((a[0] as nat) + 1) * p) by {
            vstd::arithmetic::mul::lemma_mul_is_distributive_add_other_way(
                p as int,
                a[0] as int,
                1,
            );
        }
        assert(((a[0] as nat) + 1) * p <= (b[0] as nat) * p) by {
            vstd::arithmetic::mul::lemma_mul_inequality((a[0] as int) + 1, b[0] as int, p as int);
        }
        assert((b[0] as nat) * p <= be_nat(b));
    } else {
        assert(a[0] == a.subrange(0, i)[0]);
        assert(b[0] == b.subrange(0, i)[0]);
        assert(a.skip(1).subrange(0, i - 1) =~= b.skip(1).subrange(0, i - 1)) by {
            assert forall|j: int| 0 <= j < i - 1 implies a.skip(1)[j] == b.skip(1)[j] by {
                assert(a.skip(1)[j] == a.subrange(0, i)[j + 1]);
                assert(b.skip(1)[j] == b.subrange(0, i)[j + 1]);
            }
        }
        assert(a.skip(1)[i - 1] == a[i]);
        assert(b.skip(1)[i - 1] == b[i]);
        lemma_be_nat_lt(a.skip(1), b.skip(1), i - 1);
    }
}

/// Compares two byte strings of equal length as big-endian numbers.
pub fn be_bytes_lt(a: &[u8], b: &[u8]) -> (r: bool)
    requires
        a@.len() == b@.len(),
    ensures
        r == (be_nat(a@) < be_nat(b@)),
{
    let n: usize = a.len();
    let mut i: usize = 0;
    while i < n
        invariant
            i <= n,
            n == a@.len(),
            n == b@.len(),
            a@.subrange(0, i as int) == b@.subrange(0, i as int),
        decreases n - i,
    {
        if a[i] < b[i] {
            proof {
                lemma_be_nat_lt(a@, b@, i as int);
            }
            return true;
        }
        if a[i] > b[i] {
            proof {
                lemma_be_nat_lt(b@, a@, i as int);
            }
            return false;
        }
        proof {
            assert(a@.subrange(0, i + 1) =~= b@.subrange(0, i + 1));
        }
        i = i + 1;
    }
    proof {
        assert(a@ =~= a@.subrange(0, n as int));
        assert(b@ =~= b@.subrange(0, n as int));
    }
    false
}

/// The byte string with each 32-byte chunk reversed; a final chunk shorter
/// than 32 bytes is reversed as well.  Applied to a string of 32-byte
/// big-endian field-element windows this yields the same field elements in
/// little-endian order, and vice versa.
pub open spec fn chunk_swap(s: Seq<u8>) -> Seq<u8>
    decreases s.len(),
{
    if s.len() == 0 {
        Seq::empty()
    } else if s.len() < 32 {
        s.reverse()
    } else {
        s.subrange(0, 32).reverse() + chunk_swap(s.subrange(32, s.len() as int))
    }
}

/// Reverses each 32-byte chunk of `bytes`, converting a buffer of big-endian
/// field-element windows to little-endian ones and back.
pub fn change_endianness(bytes: &[u8]) -> (r: Vec<u8>)
    ensures
        r@ == chunk_swap(bytes@),
{
    let n: usize = bytes.len();
    let mut out: Vec<u8> = Vec::new();
    let mut c: usize = 0;
    while c < n
        invariant
            c <= n,
            n == bytes@.len(),
            c % 32 == 0 || c == n,
            out@ == chunk_swap(bytes@.subrange(0, c as int)),
        decreases n - c,
    {
        let m: usize = if n - c < 32 {
            n - c
        } else {
            32
        };
        let ghost prev = out@;
        let ghost chunk = bytes@.subrange(c as int, (c + m) as int);
        let mut j: usize = 0;
        while j < m
            invariant
                j <= m,
                c + m <= n,
                n == bytes@.len(),
                m >= 1,
                chunk == bytes@.subrange(c as int, (c + m) as int),
                out@ == prev + chunk.reverse().subrange(0, j as int),
            decreases m - j,
        {
            out.push(bytes[c + m - 1 - j]);
            proof {
                assert(chunk.reverse()[j as int] == chunk[m - 1 - j]);
                assert(chunk[m - 1 - j] == bytes@[c + m - 1 - j]);
                assert(out@ =~= prev + chunk.reverse().subrange(0, j + 1));
            }
            j = j + 1;
        }
        proof {
            assert(chunk.reverse().subrange(0, m as int) =~= chunk.reverse());
            lemma_chunk_swap_extend(bytes@, c as int, m as int);
        }
        c = c + m;
    }
    proof {
        assert(bytes@.subrange(0, n as int) =~= bytes@);
    }
    out
}

/// Extending a chunk-aligned prefix by one chunk appends that chunk,
/// reversed, to the swapped prefix.
proof fn lemma_chunk_swap_extend(s: Seq<u8>, c: int, m: int)
    requires
        0 <= c,
        c % 32 == 0,
        1 <= m <= 32,
        c + m <= s.len(),
        m == 32 || c + m == s.len(),
    ensures
        chunk_swap(s.subrange(0, c + m)) == chunk_swap(s.subrange(0, c)) + s.subrange(
            c,
            c + m,
        ).reverse(),
    decreases c,
{
    if c == 0 {
        if m == 32 {
            let t = s.subrange(0, 32);
            assert(t.subrange(0, 32) =~= t);
            assert(t.subrange(32, t.len() as int) =~= Seq::<u8>::empty());
            assert(chunk_swap(Seq::<u8>::empty()) =~= Seq::<u8>::empty());
            assert(chunk_swap(t) == t.subrange(0, 32).reverse() + chunk_swap(
                t.subrange(32, t.len() as int),
            ));
            assert(chunk_swap(t) =~= t.reverse());
            assert(chunk_swap(s.subrange(0, 0)) =~= Seq::<u8>::empty());
            assert(chunk_swap(t) =~= chunk_swap(s.subrange(0, 0)) + s.subrange(0, 32).reverse());
        } else {
            let t = s.subrange(0, m);
            assert(chunk_swap(t) == t.reverse());
            assert(chunk_swap(s.subrange(0, 0)) =~= Seq::<u8>::empty());
            assert(chunk_swap(t) =~= chunk_swap(s.subrange(0, 0)) + s.subrange(0, m).reverse());
        }
    } else {
        let tail = s.subrange(32, s.len() as int);
        lemma_chunk_swap_extend(tail, c - 32, m);
        let whole = s.subrange(0, c + m);
        let prefix = s.subrange(0, c);
        assert(whole.subrange(0, 32) =~= s.subrange(0, 32));
        assert(prefix.subrange(0, 32) =~= s.subrange(0, 32));
        assert(whole.subrange(32, whole.len() as int) =~= tail.subrange(0, c + m - 32));
        assert(prefix.subrange(32, prefix.len() as int) =~= tail.subrange(0, c - 32));
        assert(tail.subrange(c - 32, c + m - 32) =~= s.subrange(c, c + m));
        assert(chunk_swap(whole) == s.subrange(0, 32).reverse() + chunk_swap(
            tail.subrange(0, c + m - 32),
        ));
        assert(chunk_swap(prefix) == s.subrange(0, 32).reverse() + chunk_swap(
            tail.subrange(0, c - 32),
        ));
        assert(chunk_swap(whole) =~= chunk_swap(prefix) + s.subrange(c, c + m).reverse());
    }
}

} // verus!
