//! Little-endian integers and byte-string assembly.
use vstd::prelude::*;

verus! {

/// The little-endian encoding of `x`.
pub open spec fn le16(x: u16) -> Seq<u8> {
    seq![(x % 256) as u8, (x / 256) as u8]
}

/// The integer whose little-endian encoding is `lo, hi`.
pub open spec fn from_le16(lo: u8, hi: u8) -> u16 {
    (lo + 256 * hi) as u16
}

/// Decoding an encoded integer gives it back, and the other way round.
pub proof fn lemma_le16_round_trip(x: u16, lo: u8, hi: u8)
    ensures
        from_le16(le16(x)[0], le16(x)[1]) == x,
        le16(from_le16(lo, hi)) == seq![lo, hi],
{
    assert(le16(from_le16(lo, hi)) =~= seq![lo, hi]);
}

/// Appends the bytes of `s` to `v`.
pub(crate) fn append_bytes(v: &mut Vec<u8>, s: &[u8])
    ensures
        final(v)@ == old(v)@ + s@,
{
    let ghost start = v@;
    let mut i: usize = 0;
    while i < s.len()
        invariant
            i <= s@.len(),
            v@ == start + s@.subrange(0, i as int),
        decreases s@.len() - i,
    {
        v.push(s[i]);
        i = i + 1;
        assert(v@ =~= start + s@.subrange(0, i as int));
    }
    assert(s@.subrange(0, i as int) =~= s@);
}

/// Appends the little-endian encoding of `x` to `v`.
pub(crate) fn append_le16(v: &mut Vec<u8>, x: u16)
    ensures
        final(v)@ == old(v)@ + le16(x),
{
    v.push((x % 256) as u8);
    v.push((x / 256) as u8);
    assert(v@ =~= old(v)@ + le16(x));
}

/// Reads the little-endian integer at `b[at]`, `b[at + 1]`.
pub(crate) fn read_le16(b: &[u8], at: usize) -> (r: u16)
    requires
        at + 2 <= b@.len(),
    ensures
        r == from_le16(b@[at as int], b@[at + 1]),
{
    b[at] as u16 + 256 * (b[at + 1] as u16)
}

/// Copies `b[at..at + 32]` into an array.
pub(crate) fn read_32_bytes(b: &[u8], at: usize) -> (r: [u8; 32])
    requires
        at + 32 <= b@.len(),
    ensures
        r@ == b@.subrange(at as int, at + 32),
{
    let mut r = [0u8; 32];
    let len = b.len();
    let mut i: usize = 0;
    while i < 32
        invariant
            i <= 32,
            len == b@.len(),
            at + 32 <= b@.len(),
            forall|k: int| 0 <= k < i ==> r@[k] == b@[at + k],
        decreases 32 - i,
    {
        r[i] = b[at + i];
        i = i + 1;
    }
    assert(r@ =~= b@.subrange(at as int, at + 32));
    r
}

/// Copies `b[at..at + 64]` into an array.
pub(crate) fn read_64_bytes(b: &[u8], at: usize) -> (r: [u8; 64])
    requires
        at + 64 <= b@.len(),
    ensures
        r@ == b@.subrange(at as int, at + 64),
{
    let mut r = [0u8; 64];
    let len = b.len();
    let mut i: usize = 0;
    while i < 64
        invariant
            i <= 64,
            len == b@.len(),
            at + 64 <= b@.len(),
            forall|k: int| 0 <= k < i ==> r@[k] == b@[at + k],
        decreases 64 - i,
    {
        r[i] = b[at + i];
        i = i + 1;
    }
    assert(r@ =~= b@.subrange(at as int, at + 64));
    r
}

/// Copies `b[start..end]` into a vector.
pub(crate) fn copy_range(b: &[u8], start: usize, end: usize) -> (r: Vec<u8>)
    requires
        start <= end <= b@.len(),
    ensures
        r@ == b@.subrange(start as int, end as int),
{
    let mut r: Vec<u8> = Vec::new();
    let mut i: usize = start;
    while i < end
        invariant
            start <= i <= end,
            end <= b@.len(),
            r@ == b@.subrange(start as int, i as int),
        decreases end - i,
    {
        r.push(b[i]);
        i = i + 1;
        assert(r@ =~= b@.subrange(start as int, i as int));
    }
    r
}

} // verus!
