//! Byte-order arithmetic: what a run of bytes means as an integer.
//!
//! The contracts of the checked integer reads are stated over [`be_val`] and
//! [`le_val`]; the round-trip lemmas relate them to the matching encodings,
//! and the executable decoders compute them.

use vstd::arithmetic::div_mod::lemma_fundamental_div_mod;
use vstd::prelude::*;

verus! {

/// `256^n`.
pub open spec fn pow256(n: nat) -> nat
    decreases n,
{
    if n == 0 {
        1
    } else {
        256 * pow256((n - 1) as nat)
    }
}

/// The unsigned value of `s` read in big-endian byte order.
pub open spec fn be_val(s: Seq<u8>) -> nat
    decreases s.len(),
{
    if s.len() == 0 {
        0
    } else {
        be_val(s.drop_last()) * 256 + s.last() as nat
    }
}

/// The unsigned value of `s` read in little-endian byte order.
pub open spec fn le_val(s: Seq<u8>) -> nat
    decreases s.len(),
{
    if s.len() == 0 {
        0
    } else {
        s[0] as nat + 256 * le_val(s.skip(1))
    }
}

/// The signed reading of an unsigned value `v` of `w` bytes: two's
/// complement, so values at or above half the range wrap around to negative.
pub open spec fn signed_val(v: nat, w: nat) -> int {
    if v < pow256(w) / 2 {
        v as int
    } else {
        v as int - pow256(w)
    }
}

/// The `w`-byte big-endian encoding of `v % 256^w`.
pub open spec fn be_bytes_of(v: nat, w: nat) -> Seq<u8>
    decreases w,
{
    if w == 0 {
        Seq::empty()
    } else {
        be_bytes_of(v / 256, (w - 1) as nat).push((v % 256) as u8)
    }
}

/// The `w`-byte little-endian encoding of `v % 256^w`.
pub open spec fn le_bytes_of(v: nat, w: nat) -> Seq<u8>
    decreases w,
{
    if w == 0 {
        Seq::empty()
    } else {
        seq![(v % 256) as u8] + le_bytes_of(v / 256, (w - 1) as nat)
    }
}

/// `256^n` never shrinks as `n` grows.
pub proof fn lemma_pow256_le(a: nat, b: nat)
    requires
        a <= b,
    ensures
        pow256(a) <= pow256(b),
        pow256(a) >= 1,
    decreases b,
{
    if b > 0 {
        if a == b {
            lemma_pow256_le((a - 1) as nat, (b - 1) as nat);
        } else {
            lemma_pow256_le(a, (b - 1) as nat);
        }
    }
}

/// A run of `n` bytes holds an unsigned value below `256^n`.
pub proof fn lemma_be_val_bound(s: Seq<u8>)
    ensures
        be_val(s) < pow256(s.len()),
    decreases s.len(),
{
    if s.len() > 0 {
        lemma_be_val_bound(s.drop_last());
    }
}

/// A run of `n` bytes holds an unsigned little-endian value below `256^n`.
pub proof fn lemma_le_val_bound(s: Seq<u8>)
    ensures
        le_val(s) < pow256(s.len()),
    decreases s.len(),
{
    if s.len() > 0 {
        lemma_le_val_bound(s.skip(1));
    }
}

/// Extending a big-endian prefix by one byte multiplies its value by 256 and
/// adds that byte.
pub proof fn lemma_be_val_take_step(s: Seq<u8>, i: int)
    requires
        0 <= i < s.len(),
    ensures
        be_val(s.take(i + 1)) == be_val(s.take(i)) * 256 + s[i],
{
    assert(s.take(i + 1).drop_last() =~= s.take(i));
    assert(s.take(i + 1).last() == s[i]);
}

/// Reading one more low byte of a little-endian run scales the rest by 256.
pub proof fn lemma_le_val_skip_step(s: Seq<u8>, i: int)
    requires
        0 <= i < s.len(),
    ensures
        le_val(s.skip(i)) == s[i] + 256 * le_val(s.skip(i + 1)),
{
    assert(s.skip(i).skip(1) =~= s.skip(i + 1));
    assert(s.skip(i)[0] == s[i]);
}

/// Law: encoding a value `v < 256^w` on `w` bytes in big-endian order and
/// reading those bytes back in big-endian order yields exactly `v`.
pub proof fn lemma_be_round_trip(v: nat, w: nat)
    requires
        v < pow256(w),
    ensures
        be_bytes_of(v, w).len() == w,
        be_val(be_bytes_of(v, w)) == v,
    decreases w,
{
    if w > 0 {
        lemma_fundamental_div_mod(v as int, 256);
        lemma_be_round_trip(v / 256, (w - 1) as nat);
        let inner = be_bytes_of(v / 256, (w - 1) as nat);
        assert(inner.push((v % 256) as u8).drop_last() =~= inner);
    }
}

/// Law: encoding a value `v < 256^w` on `w` bytes in little-endian order and
/// reading those bytes back in little-endian order yields exactly `v`.
pub proof fn lemma_le_round_trip(v: nat, w: nat)
    requires
        v < pow256(w),
    ensures
        le_bytes_of(v, w).len() == w,
        le_val(le_bytes_of(v, w)) == v,
    decreases w,
{
    if w > 0 {
        lemma_fundamental_div_mod(v as int, 256);
        lemma_le_round_trip(v / 256, (w - 1) as nat);
        let rest = le_bytes_of(v / 256, (w - 1) as nat);
        let whole = seq![(v % 256) as u8] + rest;
        assert(whole.skip(1) =~= rest);
        assert(whole[0] == (v % 256) as u8);
    }
}

/// Law: a signed value of `w` bytes survives the trip through its two's
/// complement unsigned representation.
pub proof fn lemma_signed_round_trip(v: int, w: nat)
    requires
        w >= 1,
        -(pow256(w) / 2) <= v < pow256(w) / 2,
    ensures
        0 <= (if v >= 0 {
            v
        } else {
            v + pow256(w)
        }) < pow256(w),
        signed_val(
            (if v >= 0 {
                v
            } else {
                v + pow256(w)
            }) as nat,
            w,
        ) == v,
{
    lemma_pow256_le(1, w);
    assert(pow256(w) % 2 == 0) by {
        if w >= 1 {
            assert(pow256(w) == 256 * pow256((w - 1) as nat));
        }
    }
}

/// Reinterpret a one-byte unsigned value in two's complement.
pub fn to_i8(v: u8) -> (r: i8)
    ensures
        r as int == signed_val(v as nat, 1),
{
    proof {
        reveal_with_fuel(pow256, 2);
    }
    if v < 0x80 {
        v as i8
    } else {
        -((0xFFu8 - v) as i8) - 1
    }
}

/// Reinterpret a two-byte unsigned value in two's complement.
pub fn to_i16(v: u16) -> (r: i16)
    ensures
        r as int == signed_val(v as nat, 2),
{
    proof {
        reveal_with_fuel(pow256, 3);
    }
    if v < 0x8000 {
        v as i16
    } else {
        -((0xFFFFu16 - v) as i16) - 1
    }
}

/// Reinterpret a four-byte unsigned value in two's complement.
pub fn to_i32(v: u32) -> (r: i32)
    ensures
        r as int == signed_val(v as nat, 4),
{
    proof {
        reveal_with_fuel(pow256, 5);
    }
    if v < 0x80000000 {
        v as i32
    } else {
        -((0xFFFFFFFFu32 - v) as i32) - 1
    }
}

/// Reinterpret an eight-byte unsigned value in two's complement.
pub fn to_i64(v: u64) -> (r: i64)
    ensures
        r as int == signed_val(v as nat, 8),
{
    proof {
        reveal_with_fuel(pow256, 9);
    }
    if v < 0x8000000000000000 {
        v as i64
    } else {
        -((0xFFFFFFFFFFFFFFFFu64 - v) as i64) - 1
    }
}

/// Reinterpret a sixteen-byte unsigned value in two's complement.
pub fn to_i128(v: u128) -> (r: i128)
    ensures
        r as int == signed_val(v as nat, 16),
{
    proof {
        reveal_with_fuel(pow256, 17);
    }
    if v < 0x80000000000000000000000000000000 {
        v as i128
    } else {
        -((0xFFFFFFFFFFFFFFFFFFFFFFFFFFFFFFFFu128 - v) as i128) - 1
    }
}

/// Compute the big-endian value of an array of at most 16 bytes.
pub fn be_val_of_array<const N: usize>(b: &[u8; N]) -> (r: u128)
    requires
        N <= 16,
    ensures
        r == be_val(b@),
{
    let mut acc: u128 = 0;
    let mut i: usize = 0;
    proof {
        assert(b@.take(0) =~= Seq::<u8>::empty());
    }
    while i < N
        invariant
            i <= N <= 16,
            b@.len() == N,
            acc == be_val(b@.take(i as int)),
            acc < pow256(i as nat),
        decreases N - i,
    {
        proof {
            lemma_pow256_le((i + 1) as nat, 16);
            reveal_with_fuel(pow256, 17);
            assert(pow256(16) == 0x100000000000000000000000000000000);
            lemma_be_val_take_step(b@, i as int);
        }
        acc = acc * 256 + (b[i] as u128);
        i = i + 1;
    }
    proof {
        assert(b@.take(N as int) =~= b@);
    }
    acc
}

/// Compute the little-endian value of an array of at most 16 bytes.
pub fn le_val_of_array<const N: usize>(b: &[u8; N]) -> (r: u128)
    requires
        N <= 16,
    ensures
        r == le_val(b@),
{
    let mut acc: u128 = 0;
    let mut i: usize = N;
    proof {
        assert(b@.skip(N as int) =~= Seq::<u8>::empty());
    }
    while i > 0
        invariant
            i <= N <= 16,
            b@.len() == N,
            acc == le_val(b@.skip(i as int)),
            acc < pow256((N - i) as nat),
        decreases i,
    {
        proof {
            lemma_pow256_le((N - i + 1) as nat, 16);
            reveal_with_fuel(pow256, 17);
            assert(pow256(16) == 0x100000000000000000000000000000000);
            lemma_le_val_skip_step(b@, i - 1);
        }
        i = i - 1;
        acc = acc * 256 + (b[i] as u128);
    }
    proof {
        assert(b@.skip(0) =~= b@);
    }
    acc
}

} // verus!
