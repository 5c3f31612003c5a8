//! Little-endian integer layout and byte-sequence helpers shared by the
//! packet builders and parsers.

use vstd::prelude::*;

verus! {

/// The two little-endian bytes of `v` taken modulo 2^16.
pub open spec fn le16(v: int) -> Seq<u8> {
    seq![(v % 256) as u8, ((v / 256) % 256) as u8]
}

/// The four little-endian bytes of a 32-bit value.
pub open spec fn le32(v: u32) -> Seq<u8> {
    seq![
        (v % 256) as u8,
        ((v / 256) % 256) as u8,
        ((v / 65536) % 256) as u8,
        ((v / 16777216) % 256) as u8,
    ]
}

/// The value of two little-endian bytes.
pub open spec fn le16_value(b0: u8, b1: u8) -> int {
    b0 + 256 * b1
}

/// The value of four little-endian bytes.
pub open spec fn le32_value(b0: u8, b1: u8, b2: u8, b3: u8) -> int {
    b0 + 256 * b1 + 65536 * b2 + 16777216 * b3
}

/// `n` copies of the byte `b`.
pub open spec fn repeat_byte(b: u8, n: nat) -> Seq<u8> {
    Seq::new(n, |i: int| b)
}

/// Appends the two little-endian bytes of `x`.
pub fn push_le16(v: &mut Vec<u8>, x: u16)
    ensures
        final(v)@ == old(v)@ + le16(x as int),
{
    v.push((x % 256) as u8);
    v.push((x / 256) as u8);
}

/// Appends the four little-endian bytes of `x`.
pub fn push_le32(v: &mut Vec<u8>, x: u32)
    ensures
        final(v)@ == old(v)@ + le32(x),
{
    v.push((x % 256) as u8);
    v.push(((x / 256) % 256) as u8);
    v.push(((x / 65536) % 256) as u8);
    v.push((x / 16777216) as u8);
}

/// Reads a little-endian 16-bit value.
pub fn read_le16(b0: u8, b1: u8) -> (r: u16)
    ensures
        r == le16_value(b0, b1),
{
    b0 as u16 + (b1 as u16) * 256
}

/// Reads a little-endian 32-bit value.
pub fn read_le32(b0: u8, b1: u8, b2: u8, b3: u8) -> (r: u32)
    ensures
        r == le32_value(b0, b1, b2, b3),
{
    b0 as u32 + (b1 as u32) * 256 + (b2 as u32) * 65536 + (b3 as u32) * 16777216
}

/// Appends every byte of `s`.
pub fn extend_bytes(v: &mut Vec<u8>, s: &[u8])
    ensures
        final(v)@ == old(v)@ + s@,
{
    let mut i: usize = 0;
    while i < s.len()
        invariant
            i <= s@.len(),
            v@ == old(v)@ + s@.subrange(0, i as int),
        decreases s@.len() - i,
    {
        v.push(s[i]);
        i = i + 1;
        assert(s@.subrange(0, i as int) == s@.subrange(0, (i - 1) as int).push(s@[i - 1]));
    }
    assert(s@.subrange(0, s@.len() as int) == s@);
}

/// Appends `n` copies of the byte `b`.
pub fn push_repeated(v: &mut Vec<u8>, b: u8, n: usize)
    ensures
        final(v)@ == old(v)@ + repeat_byte(b, n as nat),
{
    let mut i: usize = 0;
    while i < n
        invariant
            i <= n,
            v@ == old(v)@ + repeat_byte(b, i as nat),
        decreases n - i,
    {
        v.push(b);
        i = i + 1;
        assert(repeat_byte(b, i as nat) == repeat_byte(b, (i - 1) as nat).push(b));
    }
}

/// Whether two byte slices hold the same bytes.
pub fn bytes_eq(a: &[u8], b: &[u8]) -> (r: bool)
    ensures
        r == (a@ == b@),
{
    if a.len() != b.len() {
        return false;
    }
    let mut i: usize = 0;
    while i < a.len()
        invariant
            i <= a@.len(),
            a@.len() == b@.len(),
            forall|k: int| 0 <= k < i ==> a@[k] == b@[k],
        decreases a@.len() - i,
    {
        if a[i] != b[i] {
            return false;
        }
        i = i + 1;
    }
    assert(a@ =~= b@);
    true
}

/// The bytes of a 16-bit field depend only on the value modulo 2^16.
pub proof fn lemma_le16_mod(x: int)
    requires
        x >= 0,
    ensures
        le16(x % 65536) == le16(x),
{
    assert((x % 65536) % 256 == x % 256) by (nonlinear_arith)
        requires x >= 0;
    assert(((x % 65536) / 256) % 256 == (x / 256) % 256) by (nonlinear_arith)
        requires x >= 0;
}

/// Reading back the bytes written for a 32-bit value gives the value.
pub proof fn lemma_le32_roundtrip(x: u32)
    ensures
        le32_value(le32(x)[0], le32(x)[1], le32(x)[2], le32(x)[3]) == x,
{
}

/// Reading back the bytes written for a 16-bit value gives the value.
pub proof fn lemma_le16_roundtrip(x: u16)
    ensures
        le16_value(le16(x as int)[0], le16(x as int)[1]) == x,
{
}

} // verus!
