//! Big-endian integers as they appear on the monitor sockets, and the
//! UTF-8 check that turns a byte range into text.
use vstd::prelude::*;
use vstd::utf8::valid_utf8;
use vstd::string::StringSliceAdditionalSpecFns;

verus! {

/// The unsigned number that the first four bytes of `b` encode, most significant first.
pub open spec fn be_u32(b: Seq<u8>) -> u32 {
    (b[0] as int * 0x100_0000 + b[1] as int * 0x1_0000 + b[2] as int * 0x100 + b[3] as int) as u32
}

/// The two's-complement number that the first four bytes of `b` encode, most significant first.
pub open spec fn be_i32(b: Seq<u8>) -> i32 {
    let u = be_u32(b) as int;
    if u < 0x8000_0000 {
        u as i32
    } else {
        (u - 0x1_0000_0000) as i32
    }
}

/// The unsigned number that the first eight bytes of `b` encode, most significant first.
pub open spec fn be_u64(b: Seq<u8>) -> u64 {
    (b[0] as int * 0x100_0000_0000_0000 + b[1] as int * 0x1_0000_0000_0000
        + b[2] as int * 0x100_0000_0000 + b[3] as int * 0x1_0000_0000 + b[4] as int * 0x100_0000
        + b[5] as int * 0x1_0000 + b[6] as int * 0x100 + b[7] as int) as u64
}

/// The two's-complement number that the first eight bytes of `b` encode, most significant first.
pub open spec fn be_i64(b: Seq<u8>) -> i64 {
    let u = be_u64(b) as int;
    if u < 0x8000_0000_0000_0000 {
        u as i64
    } else {
        (u - 0x1_0000_0000_0000_0000) as i64
    }
}

/// The four bytes that encode `v`, most significant first.
pub open spec fn be_bytes_u32(v: u32) -> Seq<u8> {
    seq![
        (v / 0x100_0000) as u8,
        ((v / 0x1_0000) % 0x100) as u8,
        ((v / 0x100) % 0x100) as u8,
        (v % 0x100) as u8,
    ]
}

/// The four bytes of the two's-complement encoding of `v`, most significant first.
pub open spec fn be_bytes_i32(v: i32) -> Seq<u8> {
    if v >= 0 {
        be_bytes_u32(v as u32)
    } else {
        be_bytes_u32((v + 0x1_0000_0000) as u32)
    }
}

/// Reads the big-endian `u32` that starts at `off`.
pub fn be_u32_at(b: &[u8], off: usize) -> (v: u32)
    requires
        off + 4 <= b@.len(),
    ensures
        v == be_u32(b@.subrange(off as int, off + 4)),
{
    let b0 = b[off] as u32;
    let b1 = b[off + 1] as u32;
    let b2 = b[off + 2] as u32;
    let b3 = b[off + 3] as u32;
    b0 * 0x100_0000 + b1 * 0x1_0000 + b2 * 0x100 + b3
}

/// Reads the big-endian two's-complement `i32` that starts at `off`.
pub fn be_i32_at(b: &[u8], off: usize) -> (v: i32)
    requires
        off + 4 <= b@.len(),
    ensures
        v == be_i32(b@.subrange(off as int, off + 4)),
{
    let u = be_u32_at(b, off);
    if u < 0x8000_0000 {
        u as i32
    } else {
        let low = (u - 0x8000_0000) as i32;
        low - 0x7fff_ffff - 1
    }
}

/// Reads the big-endian `u64` that starts at `off`.
pub fn be_u64_at(b: &[u8], off: usize) -> (v: u64)
    requires
        off + 8 <= b@.len(),
    ensures
        v == be_u64(b@.subrange(off as int, off + 8)),
{
    let b0 = b[off] as u64;
    let b1 = b[off + 1] as u64;
    let b2 = b[off + 2] as u64;
    let b3 = b[off + 3] as u64;
    let b4 = b[off + 4] as u64;
    let b5 = b[off + 5] as u64;
    let b6 = b[off + 6] as u64;
    let b7 = b[off + 7] as u64;
    b0 * 0x100_0000_0000_0000 + b1 * 0x1_0000_0000_0000 + b2 * 0x100_0000_0000 + b3
        * 0x1_0000_0000 + b4 * 0x100_0000 + b5 * 0x1_0000 + b6 * 0x100 + b7
}

/// Reads the big-endian two's-complement `i64` that starts at `off`.
pub fn be_i64_at(b: &[u8], off: usize) -> (v: i64)
    requires
        off + 8 <= b@.len(),
    ensures
        v == be_i64(b@.subrange(off as int, off + 8)),
{
    let u = be_u64_at(b, off);
    if u < 0x8000_0000_0000_0000 {
        u as i64
    } else {
        let low = (u - 0x8000_0000_0000_0000) as i64;
        low - 0x7fff_ffff_ffff_ffff - 1
    }
}

/// Writes `v` at `off`, most significant byte first.
pub fn put_be_u32(buf: &mut [u8; 8], off: usize, v: u32)
    requires
        off + 4 <= 8,
    ensures
        final(buf)@ == old(buf)@.subrange(0, off as int) + be_bytes_u32(v) + old(buf)@.subrange(
            off + 4,
            8,
        ),
{
    buf[off] = (v / 0x100_0000) as u8;
    buf[off + 1] = ((v / 0x1_0000) % 0x100) as u8;
    buf[off + 2] = ((v / 0x100) % 0x100) as u8;
    buf[off + 3] = (v % 0x100) as u8;
    assert(buf@ =~= old(buf)@.subrange(0, off as int) + be_bytes_u32(v) + old(buf)@.subrange(
        off + 4,
        8,
    ));
}

/// Reading back the four bytes of an unsigned number gives the number.
pub proof fn lemma_be_u32_roundtrip(v: u32)
    ensures
        be_u32(be_bytes_u32(v)) == v,
{
}

/// Reading back the four bytes of a two's-complement number gives the number.
pub proof fn lemma_be_i32_roundtrip(v: i32)
    ensures
        be_i32(be_bytes_i32(v)) == v,
{
}

/// The eight bytes that encode `v`, most significant first.
pub open spec fn be_bytes_u64(v: u64) -> Seq<u8> {
    seq![
        (v / 0x100_0000_0000_0000) as u8,
        ((v / 0x1_0000_0000_0000) % 0x100) as u8,
        ((v / 0x100_0000_0000) % 0x100) as u8,
        ((v / 0x1_0000_0000) % 0x100) as u8,
        ((v / 0x100_0000) % 0x100) as u8,
        ((v / 0x1_0000) % 0x100) as u8,
        ((v / 0x100) % 0x100) as u8,
        (v % 0x100) as u8,
    ]
}

/// Reading back the eight bytes of an unsigned number gives the number.
pub proof fn lemma_be_u64_roundtrip(v: u64)
    ensures
        be_u64(be_bytes_u64(v)) == v,
{
    assert(v == (v / 0x100_0000_0000_0000) * 0x100_0000_0000_0000 + ((v / 0x1_0000_0000_0000) % 0x100)
        * 0x1_0000_0000_0000 + ((v / 0x100_0000_0000) % 0x100) * 0x100_0000_0000 + ((v / 0x1_0000_0000) % 0x100)
        * 0x1_0000_0000 + ((v / 0x100_0000) % 0x100) * 0x100_0000 + ((v / 0x1_0000) % 0x100) * 0x1_0000 + ((v
        / 0x100) % 0x100) * 0x100 + v % 0x100) by (bit_vector);
    assert(v / 0x100_0000_0000_0000 < 0x100) by (bit_vector);
}

/// The numbers read from the start of two byte sequences agree when their
/// first bytes do.
pub proof fn lemma_be_prefix(a: Seq<u8>, b: Seq<u8>, n: int)
    requires
        n == 4 || n == 8,
        a.len() >= n,
        b.len() >= n,
        a.subrange(0, n) == b.subrange(0, n),
    ensures
        be_u32(a) == be_u32(b),
        be_i32(a) == be_i32(b),
        n == 8 ==> be_u64(a) == be_u64(b),
{
    assert forall|i: int| 0 <= i < n implies a[i] == b[i] by {
        assert(a[i] == a.subrange(0, n)[i]);
        assert(b[i] == b.subrange(0, n)[i]);
    }
}

/// How a frame of `size` bytes fills up: `filled` bytes were there and
/// `count` more were read into the rest. A full frame is complete and the
/// next one starts empty; otherwise the frame waits for more.
pub fn frame_written(filled: usize, count: usize, size: usize) -> (r: (usize, bool))
    requires
        filled + count <= size,
    ensures
        filled + count == size ==> r == (0usize, true),
        filled + count < size ==> r == ((filled + count) as usize, false),
{
    let now = filled + count;
    if now == size {
        (0, true)
    } else {
        (now, false)
    }
}

/// Turns a byte range into text when it is well-formed UTF-8.
///
/// Calls `core::str::from_utf8`. The contract claims what the standard
/// library documents: the call succeeds exactly on valid UTF-8 and the text
/// it returns is made of the same bytes.
#[verifier::external_body]
pub(crate) fn utf8_str(bytes: &[u8]) -> (r: Option<&str>)
    ensures
        r is Some <==> valid_utf8(bytes@),
        r matches Some(s) ==> s.spec_bytes() == bytes@,
{
    core::str::from_utf8(bytes).ok()
}

} // verus!
