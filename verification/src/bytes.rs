//! Byte strings and register values. Both backends move registers as byte
//! strings in the host's byte order; on the x86 hosts the CAM port pair
//! exists on, that order is little-endian, and these functions fix it.

use vstd::prelude::*;

verus! {

/// The value of `s` read as a little-endian byte string.
pub open spec fn le_value(s: Seq<u8>) -> int
    decreases s.len(),
{
    if s.len() == 0 {
        0
    } else {
        s[0] + 0x100 * le_value(s.drop_first())
    }
}

proof fn lemma_le_value2(s: Seq<u8>)
    requires
        s.len() == 2,
    ensures
        le_value(s) == s[0] + 0x100 * s[1],
{
    let s1 = s.drop_first();
    let s2 = s1.drop_first();
    assert(s1[0] == s[1]);
    assert(le_value(s2) == 0);
    assert(le_value(s1) == s1[0] + 0x100 * le_value(s2));
    assert(le_value(s) == s[0] + 0x100 * le_value(s1));
}

proof fn lemma_le_value4(s: Seq<u8>)
    requires
        s.len() == 4,
    ensures
        le_value(s) == s[0] + 0x100 * s[1] + 0x10000 * s[2] + 0x1000000 * s[3],
{
    let s1 = s.drop_first();
    let s2 = s1.drop_first();
    let s3 = s2.drop_first();
    let s4 = s3.drop_first();
    assert(s1[0] == s[1] && s2[0] == s[2] && s3[0] == s[3]);
    assert(le_value(s4) == 0);
    assert(le_value(s3) == s3[0] + 0x100 * le_value(s4));
    assert(le_value(s2) == s2[0] + 0x100 * le_value(s3));
    assert(le_value(s1) == s1[0] + 0x100 * le_value(s2));
    assert(le_value(s) == s[0] + 0x100 * le_value(s1));
}

proof fn lemma_le_value8(s: Seq<u8>)
    requires
        s.len() == 8,
    ensures
        le_value(s) == s[0] + 0x100 * s[1] + 0x10000 * s[2] + 0x1000000 * s[3]
            + 0x1_0000_0000 * s[4] + 0x100_0000_0000 * s[5] + 0x1_0000_0000_0000 * s[6]
            + 0x100_0000_0000_0000 * s[7],
{
    let s1 = s.drop_first();
    let s2 = s1.drop_first();
    let s3 = s2.drop_first();
    let s4 = s3.drop_first();
    let s5 = s4.drop_first();
    let s6 = s5.drop_first();
    let s7 = s6.drop_first();
    let s8 = s7.drop_first();
    assert(s1[0] == s[1] && s2[0] == s[2] && s3[0] == s[3] && s4[0] == s[4] && s5[0] == s[5]
        && s6[0] == s[6] && s7[0] == s[7]);
    assert(le_value(s8) == 0);
    assert(le_value(s7) == s7[0] + 0x100 * le_value(s8));
    assert(le_value(s6) == s6[0] + 0x100 * le_value(s7));
    assert(le_value(s5) == s5[0] + 0x100 * le_value(s6));
    assert(le_value(s4) == s4[0] + 0x100 * le_value(s5));
    assert(le_value(s3) == s3[0] + 0x100 * le_value(s4));
    assert(le_value(s2) == s2[0] + 0x100 * le_value(s3));
    assert(le_value(s1) == s1[0] + 0x100 * le_value(s2));
    assert(le_value(s) == s[0] + 0x100 * le_value(s1));
}

/// Reads a 16-bit value from its two little-endian bytes.
pub fn u16_from_le(v: &Vec<u8>) -> (r: u16)
    requires
        v@.len() == 2,
    ensures
        r == le_value(v@),
{
    proof {
        lemma_le_value2(v@);
    }
    v[0] as u16 + v[1] as u16 * 0x100
}

/// Reads a 32-bit value from its four little-endian bytes.
pub fn u32_from_le(v: &Vec<u8>) -> (r: u32)
    requires
        v@.len() == 4,
    ensures
        r == le_value(v@),
{
    proof {
        lemma_le_value4(v@);
    }
    v[0] as u32 + v[1] as u32 * 0x100 + v[2] as u32 * 0x10000 + v[3] as u32 * 0x1000000
}

/// Reads a 64-bit value from its eight little-endian bytes.
pub fn u64_from_le(v: &Vec<u8>) -> (r: u64)
    requires
        v@.len() == 8,
    ensures
        r == le_value(v@),
{
    proof {
        lemma_le_value8(v@);
    }
    v[0] as u64 + v[1] as u64 * 0x100 + v[2] as u64 * 0x10000 + v[3] as u64 * 0x1000000
        + v[4] as u64 * 0x1_0000_0000 + v[5] as u64 * 0x100_0000_0000
        + v[6] as u64 * 0x1_0000_0000_0000 + v[7] as u64 * 0x100_0000_0000_0000
}

/// Writes a 16-bit value as its two little-endian bytes.
pub fn u16_to_le(x: u16) -> (v: Vec<u8>)
    ensures
        v@.len() == 2,
        le_value(v@) == x,
{
    let b0 = (x & 0xff) as u8;
    let b1 = ((x >> 8) & 0xff) as u8;
    let mut v: Vec<u8> = Vec::new();
    v.push(b0);
    v.push(b1);
    proof {
        lemma_le_value2(v@);
        assert((x & 0xff) < 0x100 && ((x >> 8) & 0xff) < 0x100) by (bit_vector);
        assert(x == (x & 0xff) + 0x100 * ((x >> 8) & 0xff)) by (bit_vector);
    }
    v
}

/// Writes a 32-bit value as its four little-endian bytes.
pub fn u32_to_le(x: u32) -> (v: Vec<u8>)
    ensures
        v@.len() == 4,
        le_value(v@) == x,
{
    let b0 = (x & 0xff) as u8;
    let b1 = ((x >> 8) & 0xff) as u8;
    let b2 = ((x >> 16) & 0xff) as u8;
    let b3 = ((x >> 24) & 0xff) as u8;
    let mut v: Vec<u8> = Vec::new();
    v.push(b0);
    v.push(b1);
    v.push(b2);
    v.push(b3);
    proof {
        lemma_le_value4(v@);
        assert((x & 0xff) < 0x100 && ((x >> 8) & 0xff) < 0x100 && ((x >> 16) & 0xff) < 0x100
            && ((x >> 24) & 0xff) < 0x100) by (bit_vector);
        assert(x == (x & 0xff) + 0x100 * ((x >> 8) & 0xff) + 0x10000 * ((x >> 16) & 0xff)
            + 0x1000000 * ((x >> 24) & 0xff)) by (bit_vector);
    }
    v
}

/// Writes a 64-bit value as its eight little-endian bytes.
pub fn u64_to_le(x: u64) -> (v: Vec<u8>)
    ensures
        v@.len() == 8,
        le_value(v@) == x,
{
    let b0 = (x & 0xff) as u8;
    let b1 = ((x >> 8) & 0xff) as u8;
    let b2 = ((x >> 16) & 0xff) as u8;
    let b3 = ((x >> 24) & 0xff) as u8;
    let b4 = ((x >> 32) & 0xff) as u8;
    let b5 = ((x >> 40) & 0xff) as u8;
    let b6 = ((x >> 48) & 0xff) as u8;
    let b7 = ((x >> 56) & 0xff) as u8;
    let mut v: Vec<u8> = Vec::new();
    v.push(b0);
    v.push(b1);
    v.push(b2);
    v.push(b3);
    v.push(b4);
    v.push(b5);
    v.push(b6);
    v.push(b7);
    proof {
        lemma_le_value8(v@);
        assert((x & 0xff) < 0x100 && ((x >> 8) & 0xff) < 0x100 && ((x >> 16) & 0xff) < 0x100
            && ((x >> 24) & 0xff) < 0x100 && ((x >> 32) & 0xff) < 0x100
            && ((x >> 40) & 0xff) < 0x100 && ((x >> 48) & 0xff) < 0x100
            && ((x >> 56) & 0xff) < 0x100) by (bit_vector);
        assert(x == (x & 0xff) + 0x100 * ((x >> 8) & 0xff) + 0x10000 * ((x >> 16) & 0xff)
            + 0x1000000 * ((x >> 24) & 0xff) + 0x1_0000_0000 * ((x >> 32) & 0xff)
            + 0x100_0000_0000 * ((x >> 40) & 0xff) + 0x1_0000_0000_0000 * ((x >> 48) & 0xff)
            + 0x100_0000_0000_0000 * ((x >> 56) & 0xff)) by (bit_vector);
    }
    v
}

/// A zeroed buffer of `n` bytes, ready for a positional read.
pub fn byte_buffer(n: usize) -> (v: Vec<u8>)
    ensures
        v@.len() == n,
{
    let mut v: Vec<u8> = Vec::new();
    let mut i: usize = 0;
    while i < n
        invariant
            i <= n,
            v@.len() == i,
        decreases n - i,
    {
        v.push(0);
        i = i + 1;
    }
    v
}

/// The 64-bit value whose low word is `lo` and whose high word is `hi`.
pub open spec fn spec_combine64(lo: u32, hi: u32) -> u64 {
    ((hi as u64) << 32) | (lo as u64)
}

/// The low 32-bit word of `x`.
pub open spec fn spec_low32(x: u64) -> u32 {
    (x & 0xffff_ffff) as u32
}

/// The high 32-bit word of `x`.
pub open spec fn spec_high32(x: u64) -> u32 {
    (x >> 32) as u32
}

/// Combines the two 32-bit words read at `offset` and `offset + 4` into one
/// 64-bit register value, low word first.
pub fn combine64(lo: u32, hi: u32) -> (r: u64)
    ensures
        r == spec_combine64(lo, hi),
{
    ((hi as u64) << 32) | (lo as u64)
}

/// The low word of a 64-bit register value, written at `offset`.
pub fn low32(x: u64) -> (r: u32)
    ensures
        r == spec_low32(x),
{
    (x & 0xffff_ffff) as u32
}

/// The high word of a 64-bit register value, written at `offset + 4`.
pub fn high32(x: u64) -> (r: u32)
    ensures
        r == spec_high32(x),
{
    (x >> 32) as u32
}

/// A 64-bit access decomposes into two 32-bit accesses: the value combined
/// from the words `lo` and `hi` is `(hi << 32) | lo`, its low word is `lo`
/// and its high word is `hi`.
pub proof fn lemma_combine64_halves(lo: u32, hi: u32)
    by (bit_vector)
    ensures
        spec_combine64(lo, hi) == ((hi as u64) << 32) | (lo as u64),
        spec_low32(spec_combine64(lo, hi)) == lo,
        spec_high32(spec_combine64(lo, hi)) == hi,
{
}

/// Splitting a 64-bit value into its two words and combining them again
/// yields the value: a 64-bit write moves exactly the bits of its argument.
pub proof fn lemma_split64_combine(x: u64)
    by (bit_vector)
    ensures
        spec_combine64(spec_low32(x), spec_high32(x)) == x,
{
}

/// An eight-byte little-endian string holds the combination of its two
/// four-byte words: a 64-bit read at `offset` observes exactly what 32-bit
/// reads at `offset` and `offset + 4` observe, absent concurrent mutation.
pub proof fn lemma_le_split64(s: Seq<u8>)
    requires
        s.len() == 8,
    ensures
        0 <= le_value(s) <= u64::MAX,
        0 <= le_value(s.take(4)) <= u32::MAX,
        0 <= le_value(s.skip(4)) <= u32::MAX,
        le_value(s) == spec_combine64(le_value(s.take(4)) as u32, le_value(s.skip(4)) as u32),
{
    let a = s.take(4);
    let b = s.skip(4);
    lemma_le_value8(s);
    lemma_le_value4(a);
    lemma_le_value4(b);
    let lo = le_value(a) as u32;
    let hi = le_value(b) as u32;
    assert(spec_combine64(lo, hi) == (hi as u64) * 0x1_0000_0000 + (lo as u64)) by (bit_vector);
}

} // verus!
