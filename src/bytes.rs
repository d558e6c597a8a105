use vstd::prelude::*;
use vstd::slice::slice_subrange;

use crate::error::Error;

verus! {

/// The little-endian unsigned integer held in the four bytes of `s` at `p`.
pub open spec fn le_u32(s: Seq<u8>, p: int) -> int {
    s[p] as int + s[p + 1] as int * 0x100 + s[p + 2] as int * 0x1_0000 + s[p + 3] as int
        * 0x100_0000
}

/// The little-endian unsigned integer held in the eight bytes of `s` at `p`.
pub open spec fn le_u64(s: Seq<u8>, p: int) -> int {
    le_u32(s, p) + le_u32(s, p + 4) * 0x1_0000_0000
}

/// Reads the little-endian `u32` at `p`.
pub fn read_u32(s: &[u8], p: usize) -> (r: u32)
    requires
        p + 4 <= s@.len(),
    ensures
        r as int == le_u32(s@, p as int),
{
    let b0 = s[p] as u32;
    let b1 = s[p + 1] as u32;
    let b2 = s[p + 2] as u32;
    let b3 = s[p + 3] as u32;
    b0 + b1 * 0x100 + b2 * 0x1_0000 + b3 * 0x100_0000
}

/// Reads the little-endian `u64` at `p`.
pub fn read_u64(s: &[u8], p: usize) -> (r: u64)
    requires
        p + 8 <= s@.len(),
    ensures
        r as int == le_u64(s@, p as int),
{
    let n = s.len();
    let lo = read_u32(s, p) as u64;
    let hi = read_u32(s, p + 4) as u64;
    lo + hi * 0x1_0000_0000
}

/// Whether `offset .. offset + len` lies inside a buffer of `buf_len` bytes.
pub open spec fn range_in_bounds(buf_len: int, offset: int, len: int) -> bool {
    0 <= offset && 0 <= len && offset + len <= buf_len
}

/// What `get_bytes` returns on a buffer holding `s`.
pub open spec fn bytes_result(s: Seq<u8>, offset: int, len: int) -> Result<Seq<u8>, Error> {
    if range_in_bounds(s.len() as int, offset, len) {
        Ok(s.subrange(offset, offset + len))
    } else {
        Err(Error::OutOfBounds)
    }
}

/// Whether a table of `count` records of `size` bytes at `offset` is aligned to `align`
/// and lies inside a buffer of `buf_len` bytes.
pub open spec fn table_in_bounds(buf_len: int, offset: int, count: int, size: int, align: int) -> bool {
    offset % align == 0 && range_in_bounds(buf_len, offset, count * size)
}

/// What `get_record_slice` returns on a buffer holding `s`.
pub open spec fn record_slice_result(s: Seq<u8>, offset: int, count: int, size: int, align: int)
    -> Result<Seq<u8>, Error>
{
    if offset % align != 0 {
        Err(Error::BufferNotAligned)
    } else {
        bytes_result(s, offset, count * size)
    }
}

/// The sub-slice `offset .. offset + len` of `buf`; fails with `OutOfBounds` where
/// the end overflows or passes the end of the buffer.
pub fn get_bytes(buf: &[u8], offset: usize, len: usize) -> (r: Result<&[u8], Error>)
    ensures
        match r {
            Ok(v) => bytes_result(buf@, offset as int, len as int) == Ok::<Seq<u8>, Error>(v@),
            Err(e) => bytes_result(buf@, offset as int, len as int) == Err::<Seq<u8>, Error>(e),
        },
{
    let n = buf.len();
    match offset.checked_add(len) {
        Some(end) => {
            if end > n {
                Err(Error::OutOfBounds)
            } else {
                Ok(slice_subrange(buf, offset, end))
            }
        },
        None => Err(Error::OutOfBounds),
    }
}

/// The bytes of `count` fixed-size records of `size` bytes starting at `offset`.
/// Fails with `BufferNotAligned` where `offset` is not a multiple of `align`, and
/// with `OutOfBounds` where the records do not fit in the buffer.
pub fn get_record_slice(buf: &[u8], offset: usize, count: usize, size: usize, align: usize) -> (r:
    Result<&[u8], Error>)
    requires
        align > 0,
    ensures
        match r {
            Ok(v) => record_slice_result(buf@, offset as int, count as int, size as int, align as int)
                == Ok::<Seq<u8>, Error>(v@),
            Err(e) => record_slice_result(buf@, offset as int, count as int, size as int, align as int)
                == Err::<Seq<u8>, Error>(e),
        },
{
    let n = buf.len();
    if offset % align != 0 {
        return Err(Error::BufferNotAligned);
    }
    match count.checked_mul(size) {
        Some(len) => get_bytes(buf, offset, len),
        None => {
            assert(count * size > buf@.len()) by (nonlinear_arith)
                requires count * size > usize::MAX, n as int == buf@.len();
            Err(Error::OutOfBounds)
        },
    }
}

/// What `std::str::from_utf8` makes of some bytes: the characters they encode,
/// or nothing where they are not valid UTF-8.
pub uninterp spec fn utf8_decode(b: Seq<u8>) -> Option<Seq<char>>;

/// Relies on `std::str::from_utf8`: the bytes are accepted as a string exactly when
/// they are valid UTF-8, and then the string holds the characters they encode.
/// The empty byte sequence is the empty string.
#[verifier::external_body]
pub(crate) fn decode_utf8(b: &[u8]) -> (r: Result<&str, std::str::Utf8Error>)
    ensures
        match r {
            Ok(s) => utf8_decode(b@) == Some(s@),
            Err(_) => utf8_decode(b@) is None,
        },
        b@.len() == 0 ==> r is Ok,
{
    std::str::from_utf8(b)
}

} // verus!
