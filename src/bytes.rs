//! Little- and big-endian integers as byte sequences.

use vstd::prelude::*;

verus! {

/// The four bytes of `x`, least significant first.
pub open spec fn le32(x: u32) -> Seq<u8> {
    seq![(x % 256) as u8, ((x / 256) % 256) as u8, ((x / 65536) % 256) as u8, (x / 16777216) as u8]
}

/// The two bytes of `x`, least significant first.
pub open spec fn le16(x: u16) -> Seq<u8> {
    seq![(x % 256) as u8, (x / 256) as u8]
}

/// The four bytes of `x`, most significant first.
pub open spec fn be32(x: u32) -> Seq<u8> {
    le32(x).reverse()
}

/// The two bytes of `x`, most significant first.
pub open spec fn be16(x: u16) -> Seq<u8> {
    seq![(x / 256) as u8, (x % 256) as u8]
}

/// The little-endian `u32` stored at `s[i..i + 4]`.
pub open spec fn read_le32(s: Seq<u8>, i: int) -> u32 {
    (s[i] as int + 256 * s[i + 1] as int + 65536 * s[i + 2] as int + 16777216 * s[i + 3] as int) as u32
}

/// The little-endian `u16` stored at `s[i..i + 2]`.
pub open spec fn read_le16(s: Seq<u8>, i: int) -> u16 {
    (s[i] as int + 256 * s[i + 1] as int) as u16
}

/// The big-endian `u32` stored at `s[i..i + 4]`.
pub open spec fn read_be32(s: Seq<u8>, i: int) -> u32 {
    (16777216 * s[i] as int + 65536 * s[i + 1] as int + 256 * s[i + 2] as int + s[i + 3] as int) as u32
}

/// The big-endian `u16` stored at `s[i..i + 2]`.
pub open spec fn read_be16(s: Seq<u8>, i: int) -> u16 {
    (256 * s[i] as int + s[i + 1] as int) as u16
}

pub proof fn lemma_le32_read(x: u32)
    ensures
        read_le32(le32(x), 0) == x,
        read_be32(be32(x), 0) == x,
{
    let b0 = x % 256;
    let b1 = (x / 256) % 256;
    let b2 = (x / 65536) % 256;
    let b3 = x / 16777216;
    assert(b0 + 256 * b1 + 65536 * b2 + 16777216 * b3 == x && b3 < 256) by (nonlinear_arith)
        requires
            b0 == x % 256,
            b1 == (x / 256) % 256,
            b2 == (x / 65536) % 256,
            b3 == x / 16777216,
            0 <= x < 0x1_0000_0000,
    ;
    assert(be32(x) =~= seq![b3 as u8, b2 as u8, b1 as u8, b0 as u8]);
}

pub proof fn lemma_le16_read(x: u16)
    ensures
        read_le16(le16(x), 0) == x,
        read_be16(be16(x), 0) == x,
{
    assert((x % 256) + 256 * (x / 256) == x) by (nonlinear_arith);
    assert(x / 256 < 256) by (nonlinear_arith);
}

pub proof fn lemma_read_le32_at(s: Seq<u8>, i: int, x: u32)
    requires
        0 <= i,
        i + 4 <= s.len(),
        s.subrange(i, i + 4) == le32(x),
    ensures
        read_le32(s, i) == x,
{
    lemma_le32_read(x);
    let t = s.subrange(i, i + 4);
    assert(s[i] == t[0] && s[i + 1] == t[1] && s[i + 2] == t[2] && s[i + 3] == t[3]);
}

pub proof fn lemma_read_be32_at(s: Seq<u8>, i: int, x: u32)
    requires
        0 <= i,
        i + 4 <= s.len(),
        s.subrange(i, i + 4) == be32(x),
    ensures
        read_be32(s, i) == x,
{
    lemma_le32_read(x);
    let t = s.subrange(i, i + 4);
    assert(s[i] == t[0] && s[i + 1] == t[1] && s[i + 2] == t[2] && s[i + 3] == t[3]);
}

pub proof fn lemma_read_le16_at(s: Seq<u8>, i: int, x: u16)
    requires
        0 <= i,
        i + 2 <= s.len(),
        s.subrange(i, i + 2) == le16(x),
    ensures
        read_le16(s, i) == x,
{
    lemma_le16_read(x);
    let t = s.subrange(i, i + 2);
    assert(s[i] == t[0] && s[i + 1] == t[1]);
}

pub proof fn lemma_read_be16_at(s: Seq<u8>, i: int, x: u16)
    requires
        0 <= i,
        i + 2 <= s.len(),
        s.subrange(i, i + 2) == be16(x),
    ensures
        read_be16(s, i) == x,
{
    lemma_le16_read(x);
    let t = s.subrange(i, i + 2);
    assert(s[i] == t[0] && s[i + 1] == t[1]);
}

/// Appends `x` to `out`, least significant byte first.
pub fn push_le32(out: &mut Vec<u8>, x: u32)
    ensures
        final(out)@ == old(out)@ + le32(x),
{
    out.push((x % 256) as u8);
    out.push(((x / 256) % 256) as u8);
    out.push(((x / 65536) % 256) as u8);
    out.push((x / 16777216) as u8);
    assert(final(out)@ =~= old(out)@ + le32(x));
}

/// Appends `x` to `out`, least significant byte first.
pub fn push_le16(out: &mut Vec<u8>, x: u16)
    ensures
        final(out)@ == old(out)@ + le16(x),
{
    out.push((x % 256) as u8);
    out.push((x / 256) as u8);
    assert(final(out)@ =~= old(out)@ + le16(x));
}

/// Appends `x` to `out`, most significant byte first.
pub fn push_be32(out: &mut Vec<u8>, x: u32)
    ensures
        final(out)@ == old(out)@ + be32(x),
{
    out.push((x / 16777216) as u8);
    out.push(((x / 65536) % 256) as u8);
    out.push(((x / 256) % 256) as u8);
    out.push((x % 256) as u8);
    assert(final(out)@ =~= old(out)@ + be32(x));
}

/// Appends `x` to `out`, most significant byte first.
pub fn push_be16(out: &mut Vec<u8>, x: u16)
    ensures
        final(out)@ == old(out)@ + be16(x),
{
    out.push((x / 256) as u8);
    out.push((x % 256) as u8);
    assert(final(out)@ =~= old(out)@ + be16(x));
}

/// Reads the little-endian `u32` at `s[i..i + 4]`.
pub fn get_le32(s: &[u8], i: usize) -> (r: u32)
    requires
        i + 4 <= s@.len(),
    ensures
        r == read_le32(s@, i as int),
{
    let v: u64 = s[i] as u64 + 256 * (s[i + 1] as u64) + 65536 * (s[i + 2] as u64) + 16777216 * (
    s[i + 3] as u64);
    v as u32
}

/// Reads the little-endian `u16` at `s[i..i + 2]`.
pub fn get_le16(s: &[u8], i: usize) -> (r: u16)
    requires
        i + 2 <= s@.len(),
    ensures
        r == read_le16(s@, i as int),
{
    let v: u32 = s[i] as u32 + 256 * (s[i + 1] as u32);
    v as u16
}

/// Reads the big-endian `u32` at `s[i..i + 4]`.
pub fn get_be32(s: &[u8], i: usize) -> (r: u32)
    requires
        i + 4 <= s@.len(),
    ensures
        r == read_be32(s@, i as int),
{
    let v: u64 = 16777216 * (s[i] as u64) + 65536 * (s[i + 1] as u64) + 256 * (s[i + 2] as u64) + (
    s[i + 3] as u64);
    v as u32
}

/// Reads the big-endian `u16` at `s[i..i + 2]`.
pub fn get_be16(s: &[u8], i: usize) -> (r: u16)
    requires
        i + 2 <= s@.len(),
    ensures
        r == read_be16(s@, i as int),
{
    let v: u32 = 256 * (s[i] as u32) + s[i + 1] as u32;
    v as u16
}

/// `n` zero bytes.
pub open spec fn zeros(n: nat) -> Seq<u8> {
    Seq::new(n, |i: int| 0u8)
}

/// A fixed field of `cap` bytes holding `b`, zero-filled after it.
pub open spec fn fixed(b: Seq<u8>, cap: nat) -> Seq<u8> {
    b + zeros((cap - b.len()) as nat)
}

/// Appends `n` zero bytes to `out`.
pub fn push_zeros(out: &mut Vec<u8>, n: usize)
    ensures
        final(out)@ == old(out)@ + zeros(n as nat),
{
    let ghost start = out@;
    let mut i: usize = 0;
    while i < n
        invariant
            i <= n,
            out@ == start + zeros(i as nat),
        decreases n - i,
    {
        out.push(0u8);
        i = i + 1;
        assert(out@ =~= start + zeros(i as nat));
    }
}

/// Appends `b` as a field of `cap` bytes, zero-filled after it.
pub fn push_fixed(out: &mut Vec<u8>, b: &[u8], cap: usize)
    requires
        b@.len() <= cap,
    ensures
        final(out)@ == old(out)@ + fixed(b@, cap as nat),
{
    let ghost start = out@;
    let mut i: usize = 0;
    while i < b.len()
        invariant
            i <= b@.len() <= cap,
            out@ == start + b@.subrange(0, i as int),
        decreases b@.len() - i,
    {
        out.push(b[i]);
        i = i + 1;
        assert(out@ =~= start + b@.subrange(0, i as int));
    }
    assert(b@.subrange(0, b@.len() as int) =~= b@);
    push_zeros(out, cap - b.len());
    assert(final(out)@ =~= start + fixed(b@, cap as nat));
}

/// The bytes `s[start..start + n]`, copied out.
pub fn copy_range(s: &[u8], start: usize, n: usize) -> (r: Vec<u8>)
    requires
        start + n <= s@.len(),
    ensures
        r@ == s@.subrange(start as int, start + n),
{
    let mut r: Vec<u8> = Vec::new();
    let len: usize = s.len();
    let mut i: usize = 0;
    while i < n
        invariant
            i <= n,
            len == s@.len(),
            start + n <= s@.len(),
            r@ == s@.subrange(start as int, start + i),
        decreases n - i,
    {
        r.push(s[start + i]);
        i = i + 1;
        assert(r@ =~= s@.subrange(start as int, start + i));
    }
    r
}

} // verus!
