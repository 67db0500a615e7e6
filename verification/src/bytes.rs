//! Little- and big-endian integer fields, and the helpers shared by the
//! type-length-value decoders for reading them out of a byte sequence.
use vstd::prelude::*;

verus! {

/// The value of a little-endian `u16` field with the given two bytes.
pub open spec fn u16_le(lo: u8, hi: u8) -> u16 {
    (lo + hi * 256) as u16
}

/// The two bytes of `x` as a little-endian `u16` field.
pub open spec fn u16_le_bytes(x: u16) -> Seq<u8> {
    seq![(x % 256) as u8, (x / 256) as u8]
}

/// The value of a big-endian `u16` field with the given two bytes.
pub open spec fn u16_be(hi: u8, lo: u8) -> u16 {
    (hi * 256 + lo) as u16
}

/// The two bytes of `x` as a big-endian `u16` field.
pub open spec fn u16_be_bytes(x: u16) -> Seq<u8> {
    seq![(x / 256) as u8, (x % 256) as u8]
}

/// The value of a little-endian `u32` field with the given four bytes.
pub open spec fn u32_le(b0: u8, b1: u8, b2: u8, b3: u8) -> u32 {
    (b0 + b1 * 0x100 + b2 * 0x1_0000 + b3 * 0x100_0000) as u32
}

/// The four bytes of `x` as a little-endian `u32` field.
pub open spec fn u32_le_bytes(x: u32) -> Seq<u8> {
    seq![
        (x % 256) as u8,
        ((x / 0x100) % 256) as u8,
        ((x / 0x1_0000) % 256) as u8,
        (x / 0x100_0000) as u8,
    ]
}

/// Reading back the two little-endian bytes of `x` recovers `x`.
pub proof fn lemma_u16_le_round_trip(x: u16)
    ensures
        u16_le(u16_le_bytes(x)[0], u16_le_bytes(x)[1]) == x,
{
}

/// Serializing the value read from two little-endian bytes recovers them.
pub proof fn lemma_u16_le_bytes_round_trip(lo: u8, hi: u8)
    ensures
        u16_le_bytes(u16_le(lo, hi)) =~= seq![lo, hi],
{
    assert((lo + hi * 256) % 256 == lo) by (nonlinear_arith)
        requires
            lo < 256,
    ;
    assert((lo + hi * 256) / 256 == hi) by (nonlinear_arith)
        requires
            lo < 256,
    ;
}

/// Reading back the two big-endian bytes of `x` recovers `x`.
pub proof fn lemma_u16_be_round_trip(x: u16)
    ensures
        u16_be(u16_be_bytes(x)[0], u16_be_bytes(x)[1]) == x,
{
}

/// Serializing the value read from two big-endian bytes recovers them.
pub proof fn lemma_u16_be_bytes_round_trip(hi: u8, lo: u8)
    ensures
        u16_be_bytes(u16_be(hi, lo)) =~= seq![hi, lo],
{
    assert((hi * 256 + lo) % 256 == lo) by (nonlinear_arith)
        requires
            lo < 256,
    ;
    assert((hi * 256 + lo) / 256 == hi) by (nonlinear_arith)
        requires
            lo < 256,
    ;
}

/// Reading back the four little-endian bytes of `x` recovers `x`.
pub proof fn lemma_u32_le_round_trip(x: u32)
    ensures
        u32_le(
            u32_le_bytes(x)[0],
            u32_le_bytes(x)[1],
            u32_le_bytes(x)[2],
            u32_le_bytes(x)[3],
        ) == x,
{
    assert(x % 256 + ((x / 0x100) % 256) * 0x100 + ((x / 0x1_0000) % 256) * 0x1_0000 + (x
        / 0x100_0000) * 0x100_0000 == x) by (bit_vector);
}

/// Serializing the value read from four little-endian bytes recovers them.
pub proof fn lemma_u32_le_bytes_round_trip(b0: u8, b1: u8, b2: u8, b3: u8)
    ensures
        u32_le_bytes(u32_le(b0, b1, b2, b3)) =~= seq![b0, b1, b2, b3],
{
    let x = u32_le(b0, b1, b2, b3);
    assert(x == b0 + b1 * 0x100 + b2 * 0x1_0000 + b3 * 0x100_0000 ==> x % 256 == b0 && (x / 0x100)
        % 256 == b1 && (x / 0x1_0000) % 256 == b2 && x / 0x100_0000 == b3) by (bit_vector);
}

/// Reads the little-endian `u16` field at `at`.
pub fn read_u16_le(b: &[u8], at: usize) -> (r: u16)
    requires
        at + 2 <= b@.len(),
    ensures
        r == u16_le(b[at as int], b[at + 1]),
{
    b[at] as u16 + b[at + 1] as u16 * 256
}

/// Reads the big-endian `u16` field at `at`.
pub fn read_u16_be(b: &[u8], at: usize) -> (r: u16)
    requires
        at + 2 <= b@.len(),
    ensures
        r == u16_be(b[at as int], b[at + 1]),
{
    b[at] as u16 * 256 + b[at + 1] as u16
}

/// Reads the little-endian `u32` field at `at`.
pub fn read_u32_le(b: &[u8], at: usize) -> (r: u32)
    requires
        at + 4 <= b@.len(),
    ensures
        r == u32_le(b[at as int], b[at + 1], b[at + 2], b[at + 3]),
{
    b[at] as u32 + b[at + 1] as u32 * 0x100 + b[at + 2] as u32 * 0x1_0000 + b[at + 3] as u32
        * 0x100_0000
}

/// Appends the two little-endian bytes of `x`.
pub fn write_u16_le(out: &mut Vec<u8>, x: u16)
    ensures
        final(out)@ == old(out)@ + u16_le_bytes(x),
{
    out.push((x % 256) as u8);
    out.push((x / 256) as u8);
    assert(out@ =~= old(out)@ + u16_le_bytes(x));
}

/// Appends the two big-endian bytes of `x`.
pub fn write_u16_be(out: &mut Vec<u8>, x: u16)
    ensures
        final(out)@ == old(out)@ + u16_be_bytes(x),
{
    out.push((x / 256) as u8);
    out.push((x % 256) as u8);
    assert(out@ =~= old(out)@ + u16_be_bytes(x));
}

/// Appends the four little-endian bytes of `x`.
pub fn write_u32_le(out: &mut Vec<u8>, x: u32)
    ensures
        final(out)@ == old(out)@ + u32_le_bytes(x),
{
    out.push((x % 256) as u8);
    out.push(((x / 0x100) % 256) as u8);
    out.push(((x / 0x1_0000) % 256) as u8);
    out.push((x / 0x100_0000) as u8);
    assert(out@ =~= old(out)@ + u32_le_bytes(x));
}

/// Appends `count` copies of `byte`.
pub fn write_repeated(out: &mut Vec<u8>, byte: u8, count: usize)
    ensures
        final(out)@ == old(out)@ + Seq::new(count as nat, |i: int| byte),
{
    let mut i: usize = 0;
    while i < count
        invariant
            i <= count,
            out@ == old(out)@ + Seq::new(i as nat, |j: int| byte),
        decreases count - i,
    {
        out.push(byte);
        assert(out@ =~= old(out)@ + Seq::new((i + 1) as nat, |j: int| byte));
        i = i + 1;
    }
}

/// Appends the bytes of the slice region `b[from..to]`.
pub fn write_slice_range(out: &mut Vec<u8>, b: &[u8], from: usize, to: usize)
    requires
        from <= to <= b@.len(),
    ensures
        final(out)@ == old(out)@ + b@.subrange(from as int, to as int),
{
    let mut i: usize = from;
    while i < to
        invariant
            from <= i <= to <= b@.len(),
            out@ == old(out)@ + b@.subrange(from as int, i as int),
        decreases to - i,
    {
        out.push(b[i]);
        assert(out@ =~= old(out)@ + b@.subrange(from as int, (i + 1) as int));
        i = i + 1;
    }
}

/// The value `v` if the flag is set, zero otherwise; bitfield words are
/// assembled by or-ing these together.
pub open spec fn flag16(b: bool, v: u16) -> u16 {
    if b {
        v
    } else {
        0
    }
}

/// Exec twin of [`flag16`].
pub fn flag16_val(b: bool, v: u16) -> (r: u16)
    ensures
        r == flag16(b, v),
{
    if b {
        v
    } else {
        0
    }
}

/// The value `v` if the flag is set, zero otherwise, for 32-bit words.
pub open spec fn flag32(b: bool, v: u32) -> u32 {
    if b {
        v
    } else {
        0
    }
}

/// Exec twin of [`flag32`].
pub fn flag32_val(b: bool, v: u32) -> (r: u32)
    ensures
        r == flag32(b, v),
{
    if b {
        v
    } else {
        0
    }
}

/// The value `v` if the flag is set, zero otherwise, for single bytes.
pub open spec fn flag8(b: bool, v: u8) -> u8 {
    if b {
        v
    } else {
        0
    }
}

/// Exec twin of [`flag8`].
pub fn flag8_val(b: bool, v: u8) -> (r: u8)
    ensures
        r == flag8(b, v),
{
    if b {
        v
    } else {
        0
    }
}

} // verus!
