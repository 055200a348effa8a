//! Small byte-level helpers shared by the wire formats: copying fixed-size
//! fields out of a byte slice and little-endian integer encoding.

use vstd::prelude::*;

verus! {

/// The little-endian four-byte encoding of a 32-bit integer.
pub open spec fn le32_of(n: u32) -> Seq<u8> {
    seq![
        (n % 256) as u8,
        ((n / 256) % 256) as u8,
        ((n / 65536) % 256) as u8,
        ((n / 16777216) % 256) as u8,
    ]
}

/// The 32-bit integer read little-endian from four bytes.
pub open spec fn u32_of_le(s: Seq<u8>) -> u32
    recommends
        s.len() == 4,
{
    (s[0] + s[1] * 0x100 + s[2] * 0x10000 + s[3] * 0x1000000) as u32
}

/// Reading back the little-endian encoding of an integer yields the integer.
pub proof fn lemma_le32_round_trip(n: u32)
    ensures
        u32_of_le(le32_of(n)) == n,
{
    assert(n % 256 + ((n / 256) % 256) * 0x100 + ((n / 65536) % 256) * 0x10000 + ((n / 16777216)
        % 256) * 0x1000000 == n) by (bit_vector);
}

/// The little-endian eight-byte encoding of a 64-bit integer.
pub open spec fn le64_of(n: u64) -> Seq<u8> {
    seq![
        (n % 256) as u8,
        ((n / 256) % 256) as u8,
        ((n / 0x10000) % 256) as u8,
        ((n / 0x1000000) % 256) as u8,
        ((n / 0x100000000) % 256) as u8,
        ((n / 0x10000000000) % 256) as u8,
        ((n / 0x1000000000000) % 256) as u8,
        ((n / 0x100000000000000) % 256) as u8,
    ]
}

/// Decode a 32-bit integer from four little-endian bytes of a slice.
pub fn u32_from_le(src: &[u8], start: usize) -> (r: u32)
    requires
        start + 4 <= src@.len(),
    ensures
        r == u32_of_le(src@.subrange(start as int, start as int + 4)),
{
    let b0 = src[start] as u32;
    let b1 = src[start + 1] as u32;
    let b2 = src[start + 2] as u32;
    let b3 = src[start + 3] as u32;
    b0 + b1 * 0x100 + b2 * 0x10000 + b3 * 0x1000000
}

/// Append the little-endian four-byte encoding of an integer to a buffer.
pub fn push_u32_le(out: &mut Vec<u8>, n: u32)
    ensures
        final(out)@ == old(out)@ + le32_of(n),
{
    out.push((n % 256) as u8);
    out.push(((n / 256) % 256) as u8);
    out.push(((n / 65536) % 256) as u8);
    out.push(((n / 16777216) % 256) as u8);
    assert(out@ =~= old(out)@ + le32_of(n));
}

/// Copy 32 bytes out of a slice, starting at the given offset.
pub fn copy_bytes_32(src: &[u8], start: usize) -> (r: [u8; 32])
    requires
        start + 32 <= src@.len(),
    ensures
        r@ == src@.subrange(start as int, start as int + 32),
{
    let mut r = [0u8; 32];
    let slen = src.len();
    let mut i: usize = 0;
    while i < 32
        invariant
            start + 32 <= slen == src@.len(),
            i <= 32,
            r@.len() == 32,
            forall|j: int| 0 <= j < i ==> r@[j] == src@[start + j],
        decreases 32 - i,
    {
        r[i] = src[start + i];
        i = i + 1;
    }
    assert(r@ =~= src@.subrange(start as int, start as int + 32));
    r
}

/// Copy 64 bytes out of a slice, starting at the given offset.
pub fn copy_bytes_64(src: &[u8], start: usize) -> (r: [u8; 64])
    requires
        start + 64 <= src@.len(),
    ensures
        r@ == src@.subrange(start as int, start as int + 64),
{
    let mut r = [0u8; 64];
    let slen = src.len();
    let mut i: usize = 0;
    while i < 64
        invariant
            start + 64 <= slen == src@.len(),
            i <= 64,
            r@.len() == 64,
            forall|j: int| 0 <= j < i ==> r@[j] == src@[start + j],
        decreases 64 - i,
    {
        r[i] = src[start + i];
        i = i + 1;
    }
    assert(r@ =~= src@.subrange(start as int, start as int + 64));
    r
}

/// Copy 128 bytes out of a slice, starting at the given offset.
pub fn copy_bytes_128(src: &[u8], start: usize) -> (r: [u8; 128])
    requires
        start + 128 <= src@.len(),
    ensures
        r@ == src@.subrange(start as int, start as int + 128),
{
    let mut r = [0u8; 128];
    let slen = src.len();
    let mut i: usize = 0;
    while i < 128
        invariant
            start + 128 <= slen == src@.len(),
            i <= 128,
            r@.len() == 128,
            forall|j: int| 0 <= j < i ==> r@[j] == src@[start + j],
        decreases 128 - i,
    {
        r[i] = src[start + i];
        i = i + 1;
    }
    assert(r@ =~= src@.subrange(start as int, start as int + 128));
    r
}

/// Copy an arbitrary range of a slice into a fresh vector.
pub fn copy_range(src: &[u8], start: usize, end: usize) -> (r: Vec<u8>)
    requires
        start <= end,
        end <= src@.len(),
    ensures
        r@ == src@.subrange(start as int, end as int),
{
    let mut r: Vec<u8> = Vec::new();
    let mut i: usize = start;
    while i < end
        invariant
            start <= i <= end,
            end <= src@.len(),
            r@ == src@.subrange(start as int, i as int),
        decreases end - i,
    {
        r.push(src[i]);
        assert(r@ =~= src@.subrange(start as int, i + 1));
        i = i + 1;
    }
    r
}

/// Append every byte of a slice to a buffer.
pub fn push_bytes(out: &mut Vec<u8>, src: &[u8])
    ensures
        final(out)@ == old(out)@ + src@,
{
    let mut i: usize = 0;
    while i < src.len()
        invariant
            i <= src@.len(),
            out@ == old(out)@ + src@.subrange(0, i as int),
        decreases src@.len() - i,
    {
        out.push(src[i]);
        assert(out@ =~= old(out)@ + src@.subrange(0, i + 1));
        i = i + 1;
    }
    assert(out@ =~= old(out)@ + src@);
}


/// Encode a 64-bit integer as its eight little-endian bytes.
pub fn u64_to_le(n: u64) -> (r: [u8; 8])
    ensures
        r@ == le64_of(n),
{
    let r: [u8; 8] = [
        (n % 256) as u8,
        ((n / 256) % 256) as u8,
        ((n / 0x10000) % 256) as u8,
        ((n / 0x1000000) % 256) as u8,
        ((n / 0x100000000) % 256) as u8,
        ((n / 0x10000000000) % 256) as u8,
        ((n / 0x1000000000000) % 256) as u8,
        ((n / 0x100000000000000) % 256) as u8,
    ];
    assert(r@ =~= le64_of(n));
    r
}


/// Copy 8 bytes out of a slice, starting at the given offset.
pub fn copy_bytes_8(src: &[u8], start: usize) -> (r: [u8; 8])
    requires
        start + 8 <= src@.len(),
    ensures
        r@ == src@.subrange(start as int, start as int + 8),
{
    let mut r = [0u8; 8];
    let slen = src.len();
    let mut i: usize = 0;
    while i < 8
        invariant
            start + 8 <= slen == src@.len(),
            i <= 8,
            r@.len() == 8,
            forall|j: int| 0 <= j < i ==> r@[j] == src@[start + j],
        decreases 8 - i,
    {
        r[i] = src[start + i];
        i = i + 1;
    }
    assert(r@ =~= src@.subrange(start as int, start as int + 8));
    r
}


/// Two different 64-bit integers have different little-endian encodings.
pub proof fn lemma_le64_injective(a: u64, b: u64)
    requires
        le64_of(a) == le64_of(b),
    ensures
        a == b,
{
    assert(le64_of(a)[0] == le64_of(b)[0]);
    assert(le64_of(a)[1] == le64_of(b)[1]);
    assert(le64_of(a)[2] == le64_of(b)[2]);
    assert(le64_of(a)[3] == le64_of(b)[3]);
    assert(le64_of(a)[4] == le64_of(b)[4]);
    assert(le64_of(a)[5] == le64_of(b)[5]);
    assert(le64_of(a)[6] == le64_of(b)[6]);
    assert(le64_of(a)[7] == le64_of(b)[7]);
    assert(a % 256 == b % 256 && (a / 256) % 256 == (b / 256) % 256 && (a / 0x10000) % 256 == (b
        / 0x10000) % 256 && (a / 0x1000000) % 256 == (b / 0x1000000) % 256 && (a / 0x100000000)
        % 256 == (b / 0x100000000) % 256 && (a / 0x10000000000) % 256 == (b / 0x10000000000) % 256
        && (a / 0x1000000000000) % 256 == (b / 0x1000000000000) % 256 && (a / 0x100000000000000)
        % 256 == (b / 0x100000000000000) % 256 ==> a == b) by (bit_vector);
}

} // verus!
