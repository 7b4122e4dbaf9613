//! Little-endian encoding of the integers in the Multiboot2 structures, the
//! 8-byte alignment of tags, and the byte sums used by ACPI checksums.
use vstd::prelude::*;

verus! {

/// The little-endian `u16` stored at `off` in `b`.
pub open spec fn spec_u16_le(b: Seq<u8>, off: int) -> int {
    b[off] as int + 256 * b[off + 1] as int
}

/// The little-endian `u32` stored at `off` in `b`.
pub open spec fn spec_u32_le(b: Seq<u8>, off: int) -> int {
    spec_u16_le(b, off) + 65536 * spec_u16_le(b, off + 2)
}

/// The little-endian `u64` stored at `off` in `b`.
pub open spec fn spec_u64_le(b: Seq<u8>, off: int) -> int {
    spec_u32_le(b, off) + 4294967296 * spec_u32_le(b, off + 4)
}

/// The two little-endian bytes of `v`.
pub open spec fn u16_le_bytes(v: int) -> Seq<u8> {
    seq![(v % 256) as u8, ((v / 256) % 256) as u8]
}

/// The four little-endian bytes of `v`.
pub open spec fn u32_le_bytes(v: int) -> Seq<u8> {
    u16_le_bytes(v % 65536) + u16_le_bytes(v / 65536)
}

/// The eight little-endian bytes of `v`.
pub open spec fn u64_le_bytes(v: int) -> Seq<u8> {
    u32_le_bytes(v % 4294967296) + u32_le_bytes(v / 4294967296)
}

/// `n` zero bytes.
pub open spec fn zeros(n: nat) -> Seq<u8> {
    Seq::new(n, |i: int| 0u8)
}

/// The smallest multiple of 8 that is not below `n`.
pub open spec fn align8(n: int) -> int {
    if n % 8 == 0 {
        n
    } else {
        n + 8 - n % 8
    }
}

/// `b` followed by the zero bytes that pad it to a multiple of 8.
pub open spec fn pad8(b: Seq<u8>) -> Seq<u8> {
    b + zeros((align8(b.len() as int) - b.len()) as nat)
}

/// The sum of the bytes of `b`, as a mathematical integer.
pub open spec fn byte_sum(b: Seq<u8>) -> int
    decreases b.len(),
{
    if b.len() == 0 {
        0
    } else {
        byte_sum(b.drop_last()) + b.last() as int
    }
}

pub proof fn lemma_u16_le(s: Seq<u8>, off: int, v: int)
    requires
        0 <= off,
        off + 2 <= s.len(),
        0 <= v < 65536,
        s.subrange(off, off + 2) == u16_le_bytes(v),
    ensures
        spec_u16_le(s, off) == v,
{
    assert(s[off] == s.subrange(off, off + 2)[0]);
    assert(s[off + 1] == s.subrange(off, off + 2)[1]);
}

pub proof fn lemma_u32_le(s: Seq<u8>, off: int, v: int)
    requires
        0 <= off,
        off + 4 <= s.len(),
        0 <= v < 4294967296,
        s.subrange(off, off + 4) == u32_le_bytes(v),
    ensures
        spec_u32_le(s, off) == v,
{
    assert(s.subrange(off, off + 2) =~= s.subrange(off, off + 4).subrange(0, 2));
    assert(s.subrange(off + 2, off + 4) =~= s.subrange(off, off + 4).subrange(2, 4));
    assert(u32_le_bytes(v).subrange(0, 2) =~= u16_le_bytes(v % 65536));
    assert(u32_le_bytes(v).subrange(2, 4) =~= u16_le_bytes(v / 65536));
    lemma_u16_le(s, off, v % 65536);
    lemma_u16_le(s, off + 2, v / 65536);
}

pub proof fn lemma_u64_le(s: Seq<u8>, off: int, v: int)
    requires
        0 <= off,
        off + 8 <= s.len(),
        0 <= v < 0x1_0000_0000_0000_0000,
        s.subrange(off, off + 8) == u64_le_bytes(v),
    ensures
        spec_u64_le(s, off) == v,
{
    assert(s.subrange(off, off + 4) =~= s.subrange(off, off + 8).subrange(0, 4));
    assert(s.subrange(off + 4, off + 8) =~= s.subrange(off, off + 8).subrange(4, 8));
    assert(u64_le_bytes(v).subrange(0, 4) =~= u32_le_bytes(v % 4294967296));
    assert(u64_le_bytes(v).subrange(4, 8) =~= u32_le_bytes(v / 4294967296));
    lemma_u32_le(s, off, v % 4294967296);
    lemma_u32_le(s, off + 4, v / 4294967296);
}

/// A read at `off` only sees the four bytes there.
pub proof fn lemma_u32_le_same(a: Seq<u8>, aoff: int, b: Seq<u8>, boff: int)
    requires
        0 <= aoff,
        aoff + 4 <= a.len(),
        0 <= boff,
        boff + 4 <= b.len(),
        a.subrange(aoff, aoff + 4) == b.subrange(boff, boff + 4),
    ensures
        spec_u32_le(a, aoff) == spec_u32_le(b, boff),
{
    assert(a[aoff] == a.subrange(aoff, aoff + 4)[0]);
    assert(a[aoff + 1] == a.subrange(aoff, aoff + 4)[1]);
    assert(a[aoff + 2] == a.subrange(aoff, aoff + 4)[2]);
    assert(a[aoff + 3] == a.subrange(aoff, aoff + 4)[3]);
    assert(b[boff] == b.subrange(boff, boff + 4)[0]);
    assert(b[boff + 1] == b.subrange(boff, boff + 4)[1]);
    assert(b[boff + 2] == b.subrange(boff, boff + 4)[2]);
    assert(b[boff + 3] == b.subrange(boff, boff + 4)[3]);
}

pub proof fn lemma_u32_range(b: Seq<u8>, off: int)
    requires
        0 <= off,
        off + 4 <= b.len(),
    ensures
        0 <= spec_u32_le(b, off) < 4294967296,
{
}

pub proof fn lemma_align8(n: int)
    requires
        0 <= n,
    ensures
        n <= align8(n) < n + 8,
        align8(n) % 8 == 0,
{
}

/// Reads the little-endian `u16` at `off`.
pub fn read_u16_le(b: &[u8], off: usize) -> (r: u16)
    requires
        off + 2 <= b@.len(),
    ensures
        r as int == spec_u16_le(b@, off as int),
{
    b[off] as u16 + 256 * (b[off + 1] as u16)
}

/// Reads the little-endian `u32` at `off`.
pub fn read_u32_le(b: &[u8], off: usize) -> (r: u32)
    requires
        off + 4 <= b@.len(),
    ensures
        r as int == spec_u32_le(b@, off as int),
{
    let _len = b.len();
    let lo = read_u16_le(b, off) as u32;
    let hi = read_u16_le(b, off + 2) as u32;
    lo + 65536 * hi
}

/// Reads the little-endian `u64` at `off`.
pub fn read_u64_le(b: &[u8], off: usize) -> (r: u64)
    requires
        off + 8 <= b@.len(),
    ensures
        r as int == spec_u64_le(b@, off as int),
{
    let _len = b.len();
    let lo = read_u32_le(b, off) as u64;
    let hi = read_u32_le(b, off + 4) as u64;
    lo + 4294967296 * hi
}

/// Appends the two little-endian bytes of `v`.
pub fn push_u16_le(out: &mut Vec<u8>, v: u16)
    ensures
        final(out)@ == old(out)@ + u16_le_bytes(v as int),
{
    out.push((v % 256) as u8);
    out.push((v / 256) as u8);
    assert(final(out)@ =~= old(out)@ + u16_le_bytes(v as int));
}

/// Appends the four little-endian bytes of `v`.
pub fn push_u32_le(out: &mut Vec<u8>, v: u32)
    ensures
        final(out)@ == old(out)@ + u32_le_bytes(v as int),
{
    push_u16_le(out, (v % 65536) as u16);
    push_u16_le(out, (v / 65536) as u16);
    assert(final(out)@ =~= old(out)@ + u32_le_bytes(v as int));
}

/// Appends the eight little-endian bytes of `v`.
pub fn push_u64_le(out: &mut Vec<u8>, v: u64)
    ensures
        final(out)@ == old(out)@ + u64_le_bytes(v as int),
{
    push_u32_le(out, (v % 4294967296) as u32);
    push_u32_le(out, (v / 4294967296) as u32);
    assert(final(out)@ =~= old(out)@ + u64_le_bytes(v as int));
}

/// Appends all bytes of `b`.
pub fn push_bytes(out: &mut Vec<u8>, b: &[u8])
    ensures
        final(out)@ == old(out)@ + b@,
{
    let mut i: usize = 0;
    while i < b.len()
        invariant
            i <= b@.len(),
            out@ == old(out)@ + b@.subrange(0, i as int),
        decreases b@.len() - i,
    {
        out.push(b[i]);
        i = i + 1;
        assert(out@ =~= old(out)@ + b@.subrange(0, i as int));
    }
    assert(b@.subrange(0, b@.len() as int) =~= b@);
}

/// Appends `n` zero bytes.
pub fn push_zeros(out: &mut Vec<u8>, n: usize)
    ensures
        final(out)@ == old(out)@ + zeros(n as nat),
{
    let mut i: usize = 0;
    while i < n
        invariant
            i <= n,
            out@ == old(out)@ + zeros(i as nat),
        decreases n - i,
    {
        out.push(0);
        i = i + 1;
        assert(out@ =~= old(out)@ + zeros(i as nat));
    }
}

/// Returns the provided number or the next multiple of 8.
pub fn align8_usize(n: usize) -> (r: usize)
    requires
        n + 7 <= usize::MAX,
    ensures
        r as int == align8(n as int),
{
    if n % 8 == 0 {
        n
    } else {
        n + 8 - n % 8
    }
}

/// Returns the provided number or the next multiple of 8.
pub fn align8_u64(n: u64) -> (r: u64)
    requires
        n + 7 <= u64::MAX,
    ensures
        r as int == align8(n as int),
{
    if n % 8 == 0 {
        n
    } else {
        n + 8 - n % 8
    }
}

/// Copies the bytes `b[start..end]` into a new vector.
pub fn copy_range(b: &[u8], start: usize, end: usize) -> (r: Vec<u8>)
    requires
        start <= end <= b@.len(),
    ensures
        r@ == b@.subrange(start as int, end as int),
{
    let mut r: Vec<u8> = Vec::new();
    let mut i: usize = start;
    while i < end
        invariant
            start <= i <= end,
            end <= b@.len(),
            r@ == b@.subrange(start as int, i as int),
        decreases end - i,
    {
        r.push(b[i]);
        i = i + 1;
        assert(r@ =~= b@.subrange(start as int, i as int));
    }
    r
}

pub proof fn lemma_byte_sum_append(a: Seq<u8>, b: Seq<u8>)
    ensures
        byte_sum(a + b) == byte_sum(a) + byte_sum(b),
    decreases b.len(),
{
    if b.len() == 0 {
        assert(a + b =~= a);
    } else {
        lemma_byte_sum_append(a, b.drop_last());
        assert((a + b).drop_last() =~= a + b.drop_last());
    }
}

/// The sum of the bytes of `b`, wrapped to a byte, as ACPI checksums use it.
pub fn sum_bytes(b: &[u8]) -> (r: u8)
    ensures
        r as int == byte_sum(b@) % 256,
{
    let mut acc: u8 = 0;
    let mut i: usize = 0;
    while i < b.len()
        invariant
            i <= b@.len(),
            acc as int == byte_sum(b@.subrange(0, i as int)) % 256,
        decreases b@.len() - i,
    {
        assert(b@.subrange(0, i + 1).drop_last() =~= b@.subrange(0, i as int));
        acc = acc.wrapping_add(b[i]);
        i = i + 1;
    }
    assert(b@.subrange(0, b@.len() as int) =~= b@);
    acc
}

/// The byte that makes the wrapped sum of `b` and itself zero.
pub fn compute_checksum(b: &[u8]) -> (r: u8)
    ensures
        (byte_sum(b@) + r as int) % 256 == 0,
{
    let s = sum_bytes(b);
    0u8.wrapping_sub(s)
}

/// Bytes that hold `a` followed by `c` hold `a`, and then `c`.
pub proof fn lemma_split(s: Seq<u8>, off: int, a: Seq<u8>, c: Seq<u8>)
    requires
        0 <= off,
        off + a.len() + c.len() <= s.len(),
        s.subrange(off, off + a.len() + c.len()) == a + c,
    ensures
        s.subrange(off, off + a.len()) == a,
        s.subrange(off + a.len(), off + a.len() + c.len()) == c,
{
    assert(s.subrange(off, off + a.len()) =~= (a + c).subrange(0, a.len() as int));
    assert(s.subrange(off + a.len(), off + a.len() + c.len()) =~= (a + c).subrange(
        a.len() as int,
        (a.len() + c.len()) as int,
    ));
}

} // verus!
