//! Little-endian numbers as byte sequences.

use vstd::prelude::*;

verus! {

/// The two low bytes of `n`, least significant first.
pub open spec fn le16(n: int) -> Seq<u8> {
    seq![(n % 256) as u8, ((n / 256) % 256) as u8]
}

/// The four low bytes of `n`, least significant first.
pub open spec fn le32(n: int) -> Seq<u8> {
    seq![
        (n % 256) as u8,
        ((n / 256) % 256) as u8,
        ((n / 0x1_0000) % 256) as u8,
        ((n / 0x100_0000) % 256) as u8,
    ]
}

/// The eight low bytes of `n`, least significant first.
pub open spec fn le64(n: int) -> Seq<u8> {
    le32(n) + le32(n / 0x1_0000_0000)
}

/// The number that the two bytes at `at` stand for.
pub open spec fn num16(s: Seq<u8>, at: int) -> int {
    s[at] + 256 * s[at + 1]
}

/// The number that the four bytes at `at` stand for.
pub open spec fn num32(s: Seq<u8>, at: int) -> int {
    s[at] + 256 * s[at + 1] + 0x1_0000 * s[at + 2] + 0x100_0000 * s[at + 3]
}

/// The number that the eight bytes at `at` stand for.
pub open spec fn num64(s: Seq<u8>, at: int) -> int {
    num32(s, at) + 0x1_0000_0000 * num32(s, at + 4)
}

/// Two's complement reading of a 16-bit pattern.
pub open spec fn signed16(n: int) -> int {
    if n < 0x8000 {
        n
    } else {
        n - 0x1_0000
    }
}

pub fn read_u16(s: &[u8], at: usize) -> (n: u16)
    requires
        at + 2 <= s@.len(),
    ensures
        n == num16(s@, at as int),
{
    s[at] as u16 + 256 * (s[at + 1] as u16)
}

pub fn read_u32(s: &[u8], at: usize) -> (n: u32)
    requires
        at + 4 <= s@.len(),
    ensures
        n == num32(s@, at as int),
{
    s[at] as u32 + 256 * (s[at + 1] as u32) + 0x1_0000 * (s[at + 2] as u32) + 0x100_0000 * (s[at
        + 3] as u32)
}

pub fn read_u64(s: &[u8], at: usize) -> (n: u64)
    requires
        at + 8 <= s@.len(),
    ensures
        n == num64(s@, at as int),
{
    assert(at + 8 <= s.len());
    let low: u32 = read_u32(s, at);
    let high: u32 = read_u32(s, at + 4);
    low as u64 + 0x1_0000_0000 * (high as u64)
}

pub fn read_i16(s: &[u8], at: usize) -> (n: i16)
    requires
        at + 2 <= s@.len(),
    ensures
        n == signed16(num16(s@, at as int)),
{
    let raw: u16 = read_u16(s, at);
    if raw < 0x8000 {
        raw as i16
    } else {
        (raw as i32 - 0x1_0000) as i16
    }
}

/// Reading back what `le16` wrote.
pub proof fn lemma_num16_le16(n: int, before: Seq<u8>, after: Seq<u8>)
    requires
        0 <= n < 0x1_0000,
    ensures
        num16(before + le16(n) + after, before.len() as int) == n,
{
    let s = before + le16(n) + after;
    let at = before.len() as int;
    assert(s[at] == le16(n)[0]);
    assert(s[at + 1] == le16(n)[1]);
}

/// Reading back what `le32` wrote.
pub proof fn lemma_num32_le32(n: int, before: Seq<u8>, after: Seq<u8>)
    requires
        0 <= n < 0x1_0000_0000,
    ensures
        num32(before + le32(n) + after, before.len() as int) == n,
{
    let s = before + le32(n) + after;
    let at = before.len() as int;
    assert(s[at] == le32(n)[0]);
    assert(s[at + 1] == le32(n)[1]);
    assert(s[at + 2] == le32(n)[2]);
    assert(s[at + 3] == le32(n)[3]);
}

/// The base-256 digits of a number built from four bytes.
proof fn lemma_digits(b0: int, b1: int, b2: int, b3: int)
    requires
        0 <= b0 < 256,
        0 <= b1 < 256,
        0 <= b2 < 256,
        0 <= b3 < 256,
    ensures
        ({
            let n = b0 + 256 * b1 + 0x1_0000 * b2 + 0x100_0000 * b3;
            &&& n % 256 == b0
            &&& (n / 256) % 256 == b1
            &&& (n / 0x1_0000) % 256 == b2
            &&& (n / 0x100_0000) % 256 == b3
        }),
{
    let n = b0 + 256 * b1 + 0x1_0000 * b2 + 0x100_0000 * b3;
    assert(n / 256 == b1 + 256 * b2 + 0x1_0000 * b3);
    assert(n / 0x1_0000 == b2 + 256 * b3);
    assert(n / 0x100_0000 == b3);
}

/// Writing back what `num32` read.
pub proof fn lemma_le32_num32(s: Seq<u8>, at: int)
    requires
        0 <= at,
        at + 4 <= s.len(),
    ensures
        le32(num32(s, at)) == s.subrange(at, at + 4),
        0 <= num32(s, at) < 0x1_0000_0000,
{
    lemma_digits(s[at] as int, s[at + 1] as int, s[at + 2] as int, s[at + 3] as int);
    assert(le32(num32(s, at)) =~= s.subrange(at, at + 4));
}

/// Writing back what `num16` read.
pub proof fn lemma_le16_num16(s: Seq<u8>, at: int)
    requires
        0 <= at,
        at + 2 <= s.len(),
    ensures
        le16(num16(s, at)) == s.subrange(at, at + 2),
        0 <= num16(s, at) < 0x1_0000,
{
    assert(le16(num16(s, at)) =~= s.subrange(at, at + 2));
}

/// The low half does not see what is added above it.
pub proof fn lemma_le32_low(lo: int, hi: int)
    requires
        0 <= lo < 0x1_0000_0000,
        0 <= hi,
    ensures
        le32(lo + 0x1_0000_0000 * hi) == le32(lo),
        (lo + 0x1_0000_0000 * hi) / 0x1_0000_0000 == hi,
{
    let n = lo + 0x1_0000_0000 * hi;
    assert(n / 256 == lo / 256 + 0x100_0000 * hi);
    assert(n / 0x1_0000 == lo / 0x1_0000 + 0x1_0000 * hi);
    assert(n / 0x100_0000 == lo / 0x100_0000 + 256 * hi);
    assert(n % 256 == lo % 256);
    assert((n / 256) % 256 == (lo / 256) % 256);
    assert((n / 0x1_0000) % 256 == (lo / 0x1_0000) % 256);
    assert((n / 0x100_0000) % 256 == (lo / 0x100_0000) % 256);
}

/// Two bytes do not see what lies above them.
pub proof fn lemma_le16_low(n: int)
    requires
        0 <= n,
    ensures
        le16(n % 0x1_0000) == le16(n),
{
    let lo = n % 0x1_0000;
    let hi = n / 0x1_0000;
    assert(n == lo + 0x1_0000 * hi);
    assert(n / 256 == lo / 256 + 256 * hi);
    assert(n % 256 == lo % 256);
    assert((n / 256) % 256 == (lo / 256) % 256);
}

/// Writing back what `num64` read.
pub proof fn lemma_le64_num64(s: Seq<u8>, at: int)
    requires
        0 <= at,
        at + 8 <= s.len(),
    ensures
        le64(num64(s, at)) == s.subrange(at, at + 8),
        0 <= num64(s, at) < 0x1_0000_0000_0000_0000,
{
    lemma_le32_num32(s, at);
    lemma_le32_num32(s, at + 4);
    lemma_le32_low(num32(s, at), num32(s, at + 4));
    assert(s.subrange(at, at + 4) + s.subrange(at + 4, at + 8) =~= s.subrange(at, at + 8));
}

/// Reading back what `le64` wrote.
pub proof fn lemma_num64_le64(n: int, before: Seq<u8>, after: Seq<u8>)
    requires
        0 <= n < 0x1_0000_0000_0000_0000,
    ensures
        num64(before + le64(n) + after, before.len() as int) == n,
{
    let lo = n % 0x1_0000_0000;
    let hi = n / 0x1_0000_0000;
    let s = before + le64(n) + after;
    lemma_le32_low(lo, hi);
    lemma_num32_le32(lo, before, le32(hi) + after);
    assert(before + le32(lo) + (le32(hi) + after) =~= s);
    lemma_num32_le32(hi, before + le32(lo), after);
    assert(before + le32(lo) + le32(hi) + after =~= s);
}

} // verus!
