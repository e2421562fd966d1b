//! Big-endian two's-complement encoding of integers, as the wire protocol
//! uses it for its numeric cells.
//!
//! A cell holding a fixed-width integer carries exactly its width in bytes,
//! most significant first; a varint cell carries any number of bytes, the
//! first bit giving the sign. `be_uint` and `be_sint` are the mathematical
//! readings of such byte strings; the exec functions decode them and are
//! proved against those readings.

use vstd::prelude::*;

verus! {

/// 256 to the power `n`: the number of byte strings of length `n`.
pub open spec fn pow256(n: nat) -> nat
    decreases n,
{
    if n == 0 {
        1
    } else {
        256 * pow256((n - 1) as nat)
    }
}

/// The unsigned reading of a big-endian byte string.
pub open spec fn be_uint(s: Seq<u8>) -> nat
    decreases s.len(),
{
    if s.len() == 0 {
        0
    } else {
        be_uint(s.drop_last()) * 256 + s.last() as nat
    }
}

/// The signed (two's-complement) reading of a big-endian byte string:
/// the first bit set means a negative value. The empty string reads as 0.
pub open spec fn be_sint(s: Seq<u8>) -> int {
    if s.len() > 0 && s[0] >= 0x80 {
        be_uint(s) - pow256(s.len())
    } else {
        be_uint(s) as int
    }
}

/// The `len`-byte big-endian encoding of `n`, truncated to `len` bytes.
pub open spec fn be_bytes_of_uint(n: nat, len: nat) -> Seq<u8>
    decreases len,
{
    if len == 0 {
        Seq::empty()
    } else {
        be_bytes_of_uint(n / 256, (len - 1) as nat).push((n % 256) as u8)
    }
}

/// The `len`-byte big-endian two's-complement encoding of `v`,
/// meaningful for `-pow256(len)/2 <= v < pow256(len)/2`.
pub open spec fn be_bytes_of_int(v: int, len: nat) -> Seq<u8> {
    if v >= 0 {
        be_bytes_of_uint(v as nat, len)
    } else {
        be_bytes_of_uint((v + pow256(len)) as nat, len)
    }
}

pub proof fn lemma_pow256_pos(n: nat)
    ensures
        pow256(n) >= 1,
    decreases n,
{
    if n > 0 {
        lemma_pow256_pos((n - 1) as nat);
    }
}

/// The value a byte string holds stays under the count of strings of its length.
pub proof fn lemma_be_uint_bound(s: Seq<u8>)
    ensures
        be_uint(s) < pow256(s.len()),
    decreases s.len(),
{
    if s.len() > 0 {
        lemma_be_uint_bound(s.drop_last());
        assert(be_uint(s.drop_last()) * 256 + s.last() < pow256((s.len() - 1) as nat) * 256) by (nonlinear_arith)
            requires
                be_uint(s.drop_last()) < pow256((s.len() - 1) as nat),
                s.last() < 256,
        ;
    }
}

/// The first byte fixes the value to within a `pow256(len - 1)`-wide band.
pub proof fn lemma_be_uint_first_byte(s: Seq<u8>)
    requires
        s.len() >= 1,
    ensures
        s[0] * pow256((s.len() - 1) as nat) <= be_uint(s),
        be_uint(s) < (s[0] + 1) * pow256((s.len() - 1) as nat),
    decreases s.len(),
{
    lemma_pow256_pos((s.len() - 1) as nat);
    if s.len() == 1 {
        assert(s.drop_last().len() == 0);
        assert(be_uint(s.drop_last()) == 0);
        assert(be_uint(s) == s[0]);
    } else {
        let d = s.drop_last();
        lemma_be_uint_first_byte(d);
        let p = pow256((d.len() - 1) as nat);
        lemma_pow256_pos((d.len() - 1) as nat);
        assert(s[0] * (256 * p) <= be_uint(d) * 256 && be_uint(d) * 256 + s.last() < (s[0] + 1) * (256 * p)) by (nonlinear_arith)
            requires
                s[0] * p <= be_uint(d),
                be_uint(d) < (s[0] + 1) * p,
                s.last() < 256,
                p >= 1,
        ;
        assert(pow256((s.len() - 1) as nat) == 256 * p);
    }
}

/// A nonempty string reads as at least half the range exactly when its
/// first bit is set.
pub proof fn lemma_be_uint_half(s: Seq<u8>)
    requires
        s.len() >= 1,
    ensures
        s[0] >= 0x80 <==> be_uint(s) >= 128 * pow256((s.len() - 1) as nat),
{
    lemma_be_uint_first_byte(s);
    let p = pow256((s.len() - 1) as nat);
    lemma_pow256_pos((s.len() - 1) as nat);
    if s[0] >= 0x80 {
        assert(128 * p <= s[0] * p) by (nonlinear_arith)
            requires
                p >= 1,
                s[0] >= 128,
        ;
    } else {
        assert((s[0] + 1) * p <= 128 * p) by (nonlinear_arith)
            requires
                p >= 1,
                s[0] < 128,
        ;
    }
}

/// The signed reading of `len` bytes lies in the two's-complement range.
pub proof fn lemma_be_sint_bounds(s: Seq<u8>)
    requires
        s.len() >= 1,
    ensures
        -128 * pow256((s.len() - 1) as nat) <= be_sint(s),
        be_sint(s) < 128 * pow256((s.len() - 1) as nat),
{
    lemma_be_uint_bound(s);
    lemma_be_uint_half(s);
    assert(pow256(s.len()) == 256 * pow256((s.len() - 1) as nat));
}

/// Reading one more byte shifts the value up by that byte.
pub proof fn lemma_be_uint_take_step(s: Seq<u8>, i: int)
    requires
        0 <= i < s.len(),
    ensures
        be_uint(s.take(i + 1)) == be_uint(s.take(i)) * 256 + s[i],
{
    assert(s.take(i + 1).drop_last() =~= s.take(i));
    assert(s.take(i + 1).last() == s[i]);
}

/// Concatenation reads as the left part shifted past the right part.
pub proof fn lemma_be_uint_concat(a: Seq<u8>, b: Seq<u8>)
    ensures
        be_uint(a + b) == be_uint(a) * pow256(b.len()) + be_uint(b),
    decreases b.len(),
{
    if b.len() == 0 {
        assert(a + b =~= a);
        assert(be_uint(b) == 0);
        assert(pow256(0) == 1);
    } else {
        lemma_be_uint_concat(a, b.drop_last());
        assert((a + b).drop_last() =~= a + b.drop_last());
        assert((a + b).last() == b.last());
        assert((a + b).len() == a.len() + b.len());
        assert(be_uint(a + b) == be_uint(a + b.drop_last()) * 256 + b.last() as nat);
        assert(be_uint(b) == be_uint(b.drop_last()) * 256 + b.last() as nat);
        let p = pow256((b.len() - 1) as nat);
        assert((be_uint(a) * p + be_uint(b.drop_last())) * 256 == be_uint(a) * (256 * p) + be_uint(
            b.drop_last(),
        ) * 256) by (nonlinear_arith);
        assert(pow256(b.len()) == 256 * p);
    }
}

/// Prepending the fill byte that matches the sign does not change the
/// signed reading: sign-extended encodings of one value all agree.
pub proof fn lemma_be_sint_sign_extend(s: Seq<u8>, fill: u8)
    requires
        s.len() >= 1,
        fill == (if s[0] >= 0x80 {
            0xffu8
        } else {
            0u8
        }),
    ensures
        be_sint(seq![fill] + s) == be_sint(s),
{
    let one = seq![fill];
    let e = one + s;
    lemma_be_uint_concat(one, s);
    assert(be_uint(one) == fill) by {
        assert(one.drop_last() =~= Seq::<u8>::empty());
        assert(be_uint(one.drop_last()) == 0);
        assert(one.last() == fill);
    }
    assert(be_uint(e) == fill * pow256(s.len()) + be_uint(s));
    assert(e[0] == fill);
    assert(e.len() == s.len() + 1);
    assert(pow256(e.len()) == 256 * pow256(s.len()));
    if s[0] >= 0x80 {
        assert(be_sint(e) == 255 * pow256(s.len()) + be_uint(s) - 256 * pow256(s.len()));
    } else {
        assert(be_uint(e) == be_uint(s));
        lemma_be_uint_bound(s);
        lemma_pow256_pos(s.len());
    }
}

/// Encoding yields the asked-for number of bytes.
pub proof fn lemma_be_bytes_of_uint_len(n: nat, len: nat)
    ensures
        be_bytes_of_uint(n, len).len() == len,
    decreases len,
{
    if len > 0 {
        lemma_be_bytes_of_uint_len(n / 256, (len - 1) as nat);
    }
}

/// Decoding an unsigned encoding gives the value back.
pub proof fn lemma_be_uint_of_bytes(n: nat, len: nat)
    requires
        n < pow256(len),
    ensures
        be_uint(be_bytes_of_uint(n, len)) == n,
    decreases len,
{
    if len == 0 {
    } else {
        let q = n / 256;
        let r = n % 256;
        vstd::arithmetic::div_mod::lemma_fundamental_div_mod(n as int, 256);
        vstd::arithmetic::div_mod::lemma_mod_bound(n as int, 256);
        assert(n == 256 * q + r && r < 256);
        assert(q < pow256((len - 1) as nat));
        lemma_be_uint_of_bytes(q, (len - 1) as nat);
        let prefix = be_bytes_of_uint(q, (len - 1) as nat);
        assert(be_bytes_of_uint(n, len) == prefix.push(r as u8));
        assert(prefix.push(r as u8).drop_last() =~= prefix);
        assert(prefix.push(r as u8).last() == r as u8);
    }
}

/// Round trip for fixed-width signed values: the two's-complement encoding
/// of a value in range reads back as that value.
pub proof fn lemma_be_sint_of_bytes(v: int, len: nat)
    requires
        len >= 1,
        -128 * pow256((len - 1) as nat) <= v < 128 * pow256((len - 1) as nat),
    ensures
        be_bytes_of_int(v, len).len() == len,
        be_sint(be_bytes_of_int(v, len)) == v,
{
    let h = pow256((len - 1) as nat);
    lemma_pow256_pos((len - 1) as nat);
    assert(pow256(len) == 256 * h);
    let s = be_bytes_of_int(v, len);
    if v >= 0 {
        lemma_be_bytes_of_uint_len(v as nat, len);
        lemma_be_uint_of_bytes(v as nat, len);
        lemma_be_uint_half(s);
        assert(be_uint(s) < 128 * h);
        assert(s[0] < 0x80);
    } else {
        let n = (v + pow256(len)) as nat;
        assert(n >= 128 * h && n < 256 * h);
        lemma_be_bytes_of_uint_len(n, len);
        lemma_be_uint_of_bytes(n, len);
        lemma_be_uint_half(s);
        assert(s[0] >= 0x80);
        assert(be_sint(s) == n - pow256(len));
    }
}

/// The powers of 256 that fit a machine word, written out.
pub proof fn lemma_pow256_words()
    ensures
        pow256(0) == 1,
        pow256(1) == 0x100,
        pow256(2) == 0x1_0000,
        pow256(3) == 0x100_0000,
        pow256(4) == 0x1_0000_0000,
        pow256(5) == 0x100_0000_0000,
        pow256(6) == 0x1_0000_0000_0000,
        pow256(7) == 0x100_0000_0000_0000,
        pow256(8) == 0x1_0000_0000_0000_0000,
{
    reveal_with_fuel(pow256, 9);
}

/// Reads up to eight big-endian bytes as an unsigned integer.
pub fn be_read_uint(s: &[u8]) -> (r: u64)
    requires
        s@.len() <= 8,
    ensures
        r == be_uint(s@),
{
    proof {
        lemma_pow256_words();
    }
    let n = s.len();
    let mut acc: u64 = 0;
    let mut i: usize = 0;
    proof {
        assert(s@.take(0) =~= Seq::<u8>::empty());
    }
    while i < n
        invariant
            i <= n == s@.len() <= 8,
            acc == be_uint(s@.take(i as int)),
        decreases n - i,
    {
        proof {
            lemma_pow256_words();
            lemma_be_uint_take_step(s@, i as int);
            lemma_be_uint_bound(s@.take(i + 1));
            lemma_pow256_monotone(s@.take(i + 1).len(), 8);
        }
        acc = acc * 256 + (s[i] as u64);
        i = i + 1;
    }
    proof {
        assert(s@.take(n as int) =~= s@);
    }
    acc
}

pub proof fn lemma_pow256_monotone(m: nat, n: nat)
    requires
        m <= n,
    ensures
        pow256(m) <= pow256(n),
    decreases n,
{
    if m < n {
        lemma_pow256_monotone(m, (n - 1) as nat);
        lemma_pow256_pos((n - 1) as nat);
    }
}

/// Reads one to eight big-endian bytes as a signed (two's-complement) integer.
pub fn be_read_sint(s: &[u8]) -> (r: i128)
    requires
        1 <= s@.len() <= 8,
    ensures
        r == be_sint(s@),
{
    let n = s.len();
    let u = be_read_uint(s);
    proof {
        lemma_be_uint_bound(s@);
        lemma_be_uint_half(s@);
        lemma_pow256_monotone(s@.len(), 8);
        lemma_pow256_monotone((s@.len() - 1) as nat, 7);
        lemma_pow256_words();
    }
    if s[0] >= 0x80 {
        let ghost len = s@.len();
        proof {
            assert(pow256(len) == 256 * pow256((len - 1) as nat));
        }
        let mut p: i128 = 1;
        let mut i: usize = 0;
        while i < n
            invariant
                i <= n <= 8,
                p == pow256(i as nat),
            decreases n - i,
        {
            proof {
                lemma_pow256_words();
                lemma_pow256_monotone((i + 1) as nat, 8);
                assert(pow256((i + 1) as nat) == 256 * pow256(i as nat));
            }
            p = p * 256;
            i = i + 1;
        }
        (u as i128) - p
    } else {
        u as i128
    }
}

} // verus!
