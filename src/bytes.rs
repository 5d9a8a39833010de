//! Fixed-width integers on the wire: big- and little-endian byte layouts.
use vstd::prelude::*;

verus! {

/// The four bytes of `n`, most significant first.
pub open spec fn u32_be(n: u32) -> Seq<u8> {
    seq![(n >> 24) as u8, (n >> 16) as u8, (n >> 8) as u8, n as u8]
}

/// The four bytes of `n`, least significant first.
pub open spec fn u32_le(n: u32) -> Seq<u8> {
    seq![n as u8, (n >> 8) as u8, (n >> 16) as u8, (n >> 24) as u8]
}

/// The eight bytes of `n`, least significant first.
pub open spec fn u64_le(n: u64) -> Seq<u8> {
    seq![
        n as u8,
        (n >> 8) as u8,
        (n >> 16) as u8,
        (n >> 24) as u8,
        (n >> 32) as u8,
        (n >> 40) as u8,
        (n >> 48) as u8,
        (n >> 56) as u8,
    ]
}

/// The 32-bit number whose big-endian bytes start `s` at `at`.
pub open spec fn be_u32_at(s: Seq<u8>, at: int) -> u32 {
    ((s[at] as u32) << 24) | ((s[at + 1] as u32) << 16) | ((s[at + 2] as u32) << 8) | (s[at
        + 3] as u32)
}

/// The 32-bit number whose little-endian bytes start `s` at `at`.
pub open spec fn le_u32_at(s: Seq<u8>, at: int) -> u32 {
    let b0 = s[at] as u32;
    ((s[at + 3] as u32) << 24) | ((s[at + 2] as u32) << 16) | ((s[at + 1] as u32) << 8) | b0
}

/// The 64-bit number whose little-endian bytes start `s` at `at`.
pub open spec fn le_u64_at(s: Seq<u8>, at: int) -> u64 {
    ((s[at + 7] as u64) << 56) | ((s[at + 6] as u64) << 48) | ((s[at + 5] as u64) << 40) | ((s[at
        + 4] as u64) << 32) | ((s[at + 3] as u64) << 24) | ((s[at + 2] as u64) << 16) | ((s[at
        + 1] as u64) << 8) | (s[at] as u64)
}

pub proof fn lemma_u32_be_round_trip(n: u32)
    ensures
        be_u32_at(u32_be(n), 0) == n,
{
    let s = u32_be(n);
    let (a, b, c, d) = (s[0], s[1], s[2], s[3]);
    assert(a == (n >> 24) as u8 && b == (n >> 16) as u8 && c == (n >> 8) as u8 && d == n as u8);
    assert(((((n >> 24) as u8) as u32) << 24) | ((((n >> 16) as u8) as u32) << 16) | ((((n
        >> 8) as u8) as u32) << 8) | ((n as u8) as u32) == n) by (bit_vector);
}

pub proof fn lemma_u32_le_round_trip(n: u32)
    ensures
        le_u32_at(u32_le(n), 0) == n,
{
    let s = u32_le(n);
    assert(s[0] == n as u8 && s[1] == (n >> 8) as u8 && s[2] == (n >> 16) as u8 && s[3] == (n
        >> 24) as u8);
    assert(((((n >> 24) as u8) as u32) << 24) | ((((n >> 16) as u8) as u32) << 16) | ((((n
        >> 8) as u8) as u32) << 8) | ((n as u8) as u32) == n) by (bit_vector);
}

pub proof fn lemma_u64_le_round_trip(n: u64)
    ensures
        le_u64_at(u64_le(n), 0) == n,
{
    let s = u64_le(n);
    assert(s[0] == n as u8 && s[1] == (n >> 8) as u8 && s[2] == (n >> 16) as u8 && s[3] == (n
        >> 24) as u8 && s[4] == (n >> 32) as u8 && s[5] == (n >> 40) as u8 && s[6] == (n
        >> 48) as u8 && s[7] == (n >> 56) as u8);
    assert(((((n >> 56) as u8) as u64) << 56) | ((((n >> 48) as u8) as u64) << 48) | ((((n
        >> 40) as u8) as u64) << 40) | ((((n >> 32) as u8) as u64) << 32) | ((((n
        >> 24) as u8) as u64) << 24) | ((((n >> 16) as u8) as u64) << 16) | ((((n
        >> 8) as u8) as u64) << 8) | ((n as u8) as u64) == n) by (bit_vector);
}

/// A value at `at` reads the same in any sequence that holds its bytes there.
pub proof fn lemma_read_within(s: Seq<u8>, t: Seq<u8>, at: int, width: int)
    requires
        0 <= at,
        at + width <= s.len(),
        width <= t.len(),
        forall|i: int| 0 <= i < width ==> s[at + i] == t[i],
    ensures
        width >= 4 ==> be_u32_at(s, at) == be_u32_at(t, 0),
        width >= 4 ==> le_u32_at(s, at) == le_u32_at(t, 0),
        width >= 8 ==> le_u64_at(s, at) == le_u64_at(t, 0),
{
    if width >= 4 {
        assert(s[at] == t[0] && s[at + 1] == t[1] && s[at + 2] == t[2] && s[at + 3] == t[3]);
    }
    if width >= 8 {
        assert(s[at + 4] == t[4] && s[at + 5] == t[5] && s[at + 6] == t[6] && s[at + 7] == t[7]);
    }
}

pub fn push_u32_be(out: &mut Vec<u8>, n: u32)
    ensures
        final(out)@ == old(out)@ + u32_be(n),
{
    out.push((n >> 24) as u8);
    out.push((n >> 16) as u8);
    out.push((n >> 8) as u8);
    out.push(n as u8);
    assert(final(out)@ =~= old(out)@ + u32_be(n));
}

pub fn push_u32_le(out: &mut Vec<u8>, n: u32)
    ensures
        final(out)@ == old(out)@ + u32_le(n),
{
    out.push(n as u8);
    out.push((n >> 8) as u8);
    out.push((n >> 16) as u8);
    out.push((n >> 24) as u8);
    assert(final(out)@ =~= old(out)@ + u32_le(n));
}

pub fn push_u64_le(out: &mut Vec<u8>, n: u64)
    ensures
        final(out)@ == old(out)@ + u64_le(n),
{
    out.push(n as u8);
    out.push((n >> 8) as u8);
    out.push((n >> 16) as u8);
    out.push((n >> 24) as u8);
    out.push((n >> 32) as u8);
    out.push((n >> 40) as u8);
    out.push((n >> 48) as u8);
    out.push((n >> 56) as u8);
    assert(final(out)@ =~= old(out)@ + u64_le(n));
}

pub fn read_u32_be(s: &[u8], at: usize) -> (r: u32)
    requires
        at + 4 <= s@.len(),
    ensures
        r == be_u32_at(s@, at as int),
{
    ((s[at] as u32) << 24) | ((s[at + 1] as u32) << 16) | ((s[at + 2] as u32) << 8) | (s[at
        + 3] as u32)
}

pub fn read_u32_le(s: &[u8], at: usize) -> (r: u32)
    requires
        at + 4 <= s@.len(),
    ensures
        r == le_u32_at(s@, at as int),
{
    let b0 = s[at] as u32;
    ((s[at + 3] as u32) << 24) | ((s[at + 2] as u32) << 16) | ((s[at + 1] as u32) << 8) | b0
}

pub fn read_u64_le(s: &[u8], at: usize) -> (r: u64)
    requires
        at + 8 <= s@.len(),
    ensures
        r == le_u64_at(s@, at as int),
{
    let b0 = s[at] as u64;
    ((s[at + 7] as u64) << 56) | ((s[at + 6] as u64) << 48) | ((s[at + 5] as u64) << 40) | ((s[at
        + 4] as u64) << 32) | ((s[at + 3] as u64) << 24) | ((s[at + 2] as u64) << 16) | ((s[at
        + 1] as u64) << 8) | b0
}

/// Appends every byte of `src` to `out`.
pub fn append_bytes(out: &mut Vec<u8>, src: &[u8])
    ensures
        final(out)@ == old(out)@ + src@,
{
    let mut i: usize = 0;
    while i < src.len()
        invariant
            0 <= i <= src@.len(),
            out@ == old(out)@ + src@.subrange(0, i as int),
        decreases src@.len() - i,
    {
        out.push(src[i]);
        i = i + 1;
        assert(out@ =~= old(out)@ + src@.subrange(0, i as int));
    }
    assert(src@.subrange(0, src@.len() as int) =~= src@);
}

/// The bytes of `src` from `start` up to `end`.
pub fn copy_range(src: &[u8], start: usize, end: usize) -> (r: Vec<u8>)
    requires
        start <= end <= src@.len(),
    ensures
        r@ == src@.subrange(start as int, end as int),
{
    let mut r: Vec<u8> = Vec::new();
    let mut i: usize = start;
    while i < end
        invariant
            start <= i <= end,
            end <= src@.len(),
            r@ == src@.subrange(start as int, i as int),
        decreases end - i,
    {
        r.push(src[i]);
        i = i + 1;
        assert(r@ =~= src@.subrange(start as int, i as int));
    }
    r
}

} // verus!
