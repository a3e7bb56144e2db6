//! Big-endian encoding of unsigned integers, as a mathematical model.

use vstd::prelude::*;

verus! {

/// The `n` low-order bytes of `x`, most significant first.
pub open spec fn be_bytes(x: nat, n: nat) -> Seq<u8>
    decreases n,
{
    if n == 0 {
        Seq::empty()
    } else {
        be_bytes(x / 256, (n - 1) as nat).push((x % 256) as u8)
    }
}

/// The unsigned integer that `s` encodes, most significant byte first.
pub open spec fn be_value(s: Seq<u8>) -> nat
    decreases s.len(),
{
    if s.len() == 0 {
        0
    } else {
        be_value(s.drop_last()) * 256 + s.last() as nat
    }
}


/// `256` raised to the power `n`.
pub open spec fn pow256(n: nat) -> nat
    decreases n,
{
    if n == 0 {
        1
    } else {
        256 * pow256((n - 1) as nat)
    }
}

/// An encoding of `n` bytes holds exactly `n` bytes.
pub proof fn lemma_be_bytes_len(x: nat, n: nat)
    ensures
        be_bytes(x, n).len() == n,
    decreases n,
{
    if n > 0 {
        lemma_be_bytes_len(x / 256, (n - 1) as nat);
    }
}

/// Every sequence of `n` bytes reads as a number below `256^n`.
pub proof fn lemma_be_value_bound(s: Seq<u8>)
    ensures
        be_value(s) < pow256(s.len()),
    decreases s.len(),
{
    if s.len() > 0 {
        lemma_be_value_bound(s.drop_last());
    }
}

/// Reading back an `n`-byte encoding of a number below `256^n` gives the
/// number.
pub proof fn lemma_be_value_of_bytes(x: nat, n: nat)
    requires
        x < pow256(n),
    ensures
        be_value(be_bytes(x, n)) == x,
    decreases n,
{
    if n > 0 {
        lemma_be_value_of_bytes(x / 256, (n - 1) as nat);
        let s = be_bytes(x, n);
        assert(s.drop_last() =~= be_bytes(x / 256, (n - 1) as nat));
    }
}

/// Encoding what a byte sequence reads as, in as many bytes, gives the
/// sequence back.
pub proof fn lemma_be_bytes_of_value(s: Seq<u8>)
    ensures
        be_bytes(be_value(s), s.len()) == s,
    decreases s.len(),
{
    if s.len() > 0 {
        lemma_be_bytes_of_value(s.drop_last());
        let v = be_value(s);
        assert(v / 256 == be_value(s.drop_last()));
        assert(v % 256 == s.last() as nat);
        assert(be_bytes(v, s.len()) =~= s);
    }
}

/// Two numbers below `256^n` with the same `n`-byte encoding are equal.
pub proof fn lemma_be_bytes_injective(x: nat, y: nat, n: nat)
    requires
        x < pow256(n),
        y < pow256(n),
        be_bytes(x, n) == be_bytes(y, n),
    ensures
        x == y,
{
    lemma_be_value_of_bytes(x, n);
    lemma_be_value_of_bytes(y, n);
}

/// The powers of 256 for the widths of `u16`, `u32` and `u64`.
pub proof fn lemma_pow256_widths()
    ensures
        pow256(2) == 0x10000,
        pow256(4) == 0x1_0000_0000,
        pow256(8) == 0x1_0000_0000_0000_0000,
{
    reveal_with_fuel(pow256, 9);
}

/// Appends `x` as two big-endian bytes.
pub fn push_u16_be(out: &mut Vec<u8>, x: u16)
    ensures
        final(out)@ == old(out)@ + be_bytes(x as nat, 2),
{
    let hi = (x >> 8u16) as u8;
    let lo = (x & 0xffu16) as u8;
    assert(hi == ((x / 256) % 256) as u8 && lo == (x % 256) as u8) by (bit_vector)
        requires hi == (x >> 8u16) as u8, lo == (x & 0xffu16) as u8;
    out.push(hi);
    out.push(lo);
    assert(be_bytes(x as nat, 2) =~= seq![hi, lo]) by {
        reveal_with_fuel(be_bytes, 3);
    }
}

/// Appends `x` as four big-endian bytes.
pub fn push_u32_be(out: &mut Vec<u8>, x: u32)
    ensures
        final(out)@ == old(out)@ + be_bytes(x as nat, 4),
{
    let b0 = (x >> 24u32) as u8;
    let b1 = ((x >> 16u32) & 0xffu32) as u8;
    let b2 = ((x >> 8u32) & 0xffu32) as u8;
    let b3 = (x & 0xffu32) as u8;
    assert(b0 == ((x / 0x1000000) % 256) as u8 && b1 == ((x / 0x10000) % 256) as u8
        && b2 == ((x / 0x100) % 256) as u8 && b3 == (x % 256) as u8) by (bit_vector)
        requires
            b0 == (x >> 24u32) as u8,
            b1 == ((x >> 16u32) & 0xffu32) as u8,
            b2 == ((x >> 8u32) & 0xffu32) as u8,
            b3 == (x & 0xffu32) as u8;
    out.push(b0);
    out.push(b1);
    out.push(b2);
    out.push(b3);
    let ghost n = x as nat;
    assert(n / 256 / 256 == n / 0x10000);
    assert(n / 256 / 256 / 256 == n / 0x1000000);
    assert(be_bytes(n, 4) =~= seq![b0, b1, b2, b3]) by {
        reveal_with_fuel(be_bytes, 5);
    }
}


/// Appends `x` as eight big-endian bytes.
pub fn push_u64_be(out: &mut Vec<u8>, x: u64)
    ensures
        final(out)@ == old(out)@ + be_bytes(x as nat, 8),
{
    let b0 = (x >> 56u64) as u8;
    let b1 = ((x >> 48u64) & 0xffu64) as u8;
    let b2 = ((x >> 40u64) & 0xffu64) as u8;
    let b3 = ((x >> 32u64) & 0xffu64) as u8;
    let b4 = ((x >> 24u64) & 0xffu64) as u8;
    let b5 = ((x >> 16u64) & 0xffu64) as u8;
    let b6 = ((x >> 8u64) & 0xffu64) as u8;
    let b7 = (x & 0xffu64) as u8;
    assert(b0 == ((x / 0x100000000000000) % 256) as u8 && b1 == ((x / 0x1000000000000) % 256) as u8
        && b2 == ((x / 0x10000000000) % 256) as u8 && b3 == ((x / 0x100000000) % 256) as u8
        && b4 == ((x / 0x1000000) % 256) as u8 && b5 == ((x / 0x10000) % 256) as u8
        && b6 == ((x / 0x100) % 256) as u8 && b7 == (x % 256) as u8) by (bit_vector)
        requires
            b0 == (x >> 56u64) as u8,
            b1 == ((x >> 48u64) & 0xffu64) as u8,
            b2 == ((x >> 40u64) & 0xffu64) as u8,
            b3 == ((x >> 32u64) & 0xffu64) as u8,
            b4 == ((x >> 24u64) & 0xffu64) as u8,
            b5 == ((x >> 16u64) & 0xffu64) as u8,
            b6 == ((x >> 8u64) & 0xffu64) as u8,
            b7 == (x & 0xffu64) as u8;
    out.push(b0);
    out.push(b1);
    out.push(b2);
    out.push(b3);
    out.push(b4);
    out.push(b5);
    out.push(b6);
    out.push(b7);
    let ghost n = x as nat;
    assert(n / 256 / 256 == n / 0x10000);
    assert(n / 256 / 256 / 256 == n / 0x1000000);
    assert(n / 256 / 256 / 256 / 256 == n / 0x100000000);
    assert(n / 256 / 256 / 256 / 256 / 256 == n / 0x10000000000);
    assert(n / 256 / 256 / 256 / 256 / 256 / 256 == n / 0x1000000000000);
    assert(n / 256 / 256 / 256 / 256 / 256 / 256 / 256 == n / 0x100000000000000);
    assert(be_bytes(n, 8) =~= seq![b0, b1, b2, b3, b4, b5, b6, b7]) by {
        reveal_with_fuel(be_bytes, 9);
    }
}


/// The number that two big-endian bytes encode.
pub fn u16_from_be(bytes: [u8; 2]) -> (v: u16)
    ensures
        v == be_value(bytes@),
{
    let v = (bytes[0] as u16) * 256 + (bytes[1] as u16);
    assert(be_value(bytes@) == bytes@[0] * 256 + bytes@[1]) by {
        reveal_with_fuel(be_value, 3);
        assert(bytes@.drop_last().drop_last() =~= Seq::<u8>::empty());
    }
    v
}

/// The number that eight big-endian bytes encode.
pub fn u64_from_be(bytes: [u8; 8]) -> (v: u64)
    ensures
        v == be_value(bytes@),
{
    let mut v: u64 = 0;
    let mut i: usize = 0;
    while i < 8
        invariant
            i <= 8,
            v == be_value(bytes@.subrange(0, i as int)),
        decreases 8 - i,
    {
        proof {
            lemma_be_value_bound(bytes@.subrange(0, i as int));
            lemma_pow256_widths();
            lemma_pow256_monotone(i as nat, 7);
            assert(bytes@.subrange(0, i + 1).drop_last() =~= bytes@.subrange(0, i as int));
        }
        v = v * 256 + bytes[i] as u64;
        i = i + 1;
    }
    assert(bytes@.subrange(0, 8) =~= bytes@);
    v
}

/// Powers of 256 grow with the exponent.
pub proof fn lemma_pow256_monotone(a: nat, b: nat)
    requires
        a <= b,
    ensures
        pow256(a) <= pow256(b),
    decreases b,
{
    if a < b {
        lemma_pow256_monotone(a, (b - 1) as nat);
    }
}

} // verus!
