//! Little-endian integers in byte records.
use vstd::prelude::*;

verus! {

/// The `u32` whose little-endian bytes are the first four of `s`.
pub open spec fn u32_from_le(s: Seq<u8>) -> u32 {
    (s[0] as u32) | ((s[1] as u32) << 8u32) | ((s[2] as u32) << 16u32) | ((s[3] as u32) << 24u32)
}

/// The four little-endian bytes of `x`.
pub open spec fn u32_to_le(x: u32) -> Seq<u8> {
    seq![
        (x & 0xff) as u8,
        ((x >> 8u32) & 0xff) as u8,
        ((x >> 16u32) & 0xff) as u8,
        ((x >> 24u32) & 0xff) as u8,
    ]
}

/// The `u64` whose little-endian bytes are the first eight of `s`.
pub open spec fn u64_from_le(s: Seq<u8>) -> u64 {
    (s[0] as u64) | ((s[1] as u64) << 8u64) | ((s[2] as u64) << 16u64) | ((s[3] as u64) << 24u64)
        | ((s[4] as u64) << 32u64) | ((s[5] as u64) << 40u64) | ((s[6] as u64) << 48u64) | ((
    s[7] as u64) << 56u64)
}

/// The eight little-endian bytes of `x`.
pub open spec fn u64_to_le(x: u64) -> Seq<u8> {
    seq![
        (x & 0xff) as u8,
        ((x >> 8u64) & 0xff) as u8,
        ((x >> 16u64) & 0xff) as u8,
        ((x >> 24u64) & 0xff) as u8,
        ((x >> 32u64) & 0xff) as u8,
        ((x >> 40u64) & 0xff) as u8,
        ((x >> 48u64) & 0xff) as u8,
        ((x >> 56u64) & 0xff) as u8,
    ]
}

pub proof fn lemma_u32_le_round_trip(x: u32)
    ensures
        u32_to_le(x).len() == 4,
        u32_from_le(u32_to_le(x)) == x,
{
    assert(((((x & 0xff) as u8) as u32) | ((((x >> 8u32) & 0xff) as u8) as u32) << 8u32 | ((((x
        >> 16u32) & 0xff) as u8) as u32) << 16u32 | ((((x >> 24u32) & 0xff) as u8) as u32)
        << 24u32) == x) by (bit_vector);
}

pub proof fn lemma_u64_le_round_trip(x: u64)
    ensures
        u64_to_le(x).len() == 8,
        u64_from_le(u64_to_le(x)) == x,
{
    assert(((((x & 0xff) as u8) as u64) | ((((x >> 8u64) & 0xff) as u8) as u64) << 8u64 | ((((x
        >> 16u64) & 0xff) as u8) as u64) << 16u64 | ((((x >> 24u64) & 0xff) as u8) as u64)
        << 24u64 | ((((x >> 32u64) & 0xff) as u8) as u64) << 32u64 | ((((x >> 40u64) & 0xff) as u8)
        as u64) << 40u64 | ((((x >> 48u64) & 0xff) as u8) as u64) << 48u64 | ((((x >> 56u64)
        & 0xff) as u8) as u64) << 56u64) == x) by (bit_vector);
}

pub proof fn lemma_zero_u32(s: Seq<u8>)
    requires
        s.len() >= 4,
        forall|i: int| 0 <= i < 4 ==> s[i] == 0,
    ensures
        u32_from_le(s) == 0,
{
    let z: u8 = 0;
    assert(((z as u32) | ((z as u32) << 8u32) | ((z as u32) << 16u32) | ((z as u32) << 24u32))
        == 0) by (bit_vector)
        requires
            z == 0,
    ;
}

pub proof fn lemma_zero_u64(s: Seq<u8>)
    requires
        s.len() >= 8,
        forall|i: int| 0 <= i < 8 ==> s[i] == 0,
    ensures
        u64_from_le(s) == 0,
{
    let z: u8 = 0;
    assert(((z as u64) | ((z as u64) << 8u64) | ((z as u64) << 16u64) | ((z as u64) << 24u64)
        | ((z as u64) << 32u64) | ((z as u64) << 40u64) | ((z as u64) << 48u64) | ((z as u64)
        << 56u64)) == 0) by (bit_vector)
        requires
            z == 0,
    ;
}

/// Reads the little-endian `u32` at `at` in `src`.
pub fn read_u32_le(src: &[u8], at: usize) -> (r: u32)
    requires
        at + 4 <= src@.len(),
    ensures
        r == u32_from_le(src@.subrange(at as int, at + 4)),
{
    (src[at] as u32) | ((src[at + 1] as u32) << 8u32) | ((src[at + 2] as u32) << 16u32) | ((src[at
        + 3] as u32) << 24u32)
}

/// Reads the little-endian `u64` at `at` in `src`.
pub fn read_u64_le(src: &[u8], at: usize) -> (r: u64)
    requires
        at + 8 <= src@.len(),
    ensures
        r == u64_from_le(src@.subrange(at as int, at + 8)),
{
    (src[at] as u64) | ((src[at + 1] as u64) << 8u64) | ((src[at + 2] as u64) << 16u64) | ((src[at
        + 3] as u64) << 24u64) | ((src[at + 4] as u64) << 32u64) | ((src[at + 5] as u64) << 40u64)
        | ((src[at + 6] as u64) << 48u64) | ((src[at + 7] as u64) << 56u64)
}

/// Appends the little-endian bytes of `x` to `out`.
pub fn push_u32_le(out: &mut Vec<u8>, x: u32)
    ensures
        final(out)@ == old(out)@ + u32_to_le(x),
{
    out.push((x & 0xff) as u8);
    out.push(((x >> 8u32) & 0xff) as u8);
    out.push(((x >> 16u32) & 0xff) as u8);
    out.push(((x >> 24u32) & 0xff) as u8);
    assert(final(out)@ =~= old(out)@ + u32_to_le(x));
}

/// Appends the little-endian bytes of `x` to `out`.
pub fn push_u64_le(out: &mut Vec<u8>, x: u64)
    ensures
        final(out)@ == old(out)@ + u64_to_le(x),
{
    out.push((x & 0xff) as u8);
    out.push(((x >> 8u64) & 0xff) as u8);
    out.push(((x >> 16u64) & 0xff) as u8);
    out.push(((x >> 24u64) & 0xff) as u8);
    out.push(((x >> 32u64) & 0xff) as u8);
    out.push(((x >> 40u64) & 0xff) as u8);
    out.push(((x >> 48u64) & 0xff) as u8);
    out.push(((x >> 56u64) & 0xff) as u8);
    assert(final(out)@ =~= old(out)@ + u64_to_le(x));
}

} // verus!
