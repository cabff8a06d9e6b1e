//! Little-endian integer readers over byte buffers, and the error type shared
//! by the decoders.

use vstd::prelude::*;

verus! {

/// Failure to decode an on-disk structure: the buffer ends before the
/// structure does.  Every read error of a well-formed image file shows up to
/// the decoders as a buffer that is too short.
#[derive(Debug, Clone, Copy, PartialEq, Eq, Structural)]
pub enum DiskError {
    Truncated,
}

/// The 16-bit little-endian integer at byte offset `off` of `s`.
pub open spec fn le16(s: Seq<u8>, off: int) -> u16
    recommends
        0 <= off,
        off + 2 <= s.len(),
{
    (s[off] + s[off + 1] * 0x100) as u16
}

/// The 32-bit little-endian integer at byte offset `off` of `s`.
pub open spec fn le32(s: Seq<u8>, off: int) -> u32
    recommends
        0 <= off,
        off + 4 <= s.len(),
{
    (s[off] + s[off + 1] * 0x100 + s[off + 2] * 0x10000 + s[off + 3] * 0x1000000) as u32
}

/// The 64-bit little-endian integer at byte offset `off` of `s`.
pub open spec fn le64(s: Seq<u8>, off: int) -> u64
    recommends
        0 <= off,
        off + 8 <= s.len(),
{
    (s[off] + s[off + 1] * 0x100 + s[off + 2] * 0x10000 + s[off + 3] * 0x1000000
        + s[off + 4] * 0x100000000 + s[off + 5] * 0x10000000000
        + s[off + 6] * 0x1000000000000 + s[off + 7] * 0x100000000000000) as u64
}

/// Reads the 16-bit little-endian integer at `off`.
pub fn read_le16(v: &Vec<u8>, off: usize) -> (r: u16)
    requires
        off + 2 <= v.len(),
    ensures
        r == le16(v@, off as int),
{
    let b0 = v[off] as u16;
    let b1 = v[off + 1] as u16;
    b0 + b1 * 0x100
}

/// Reads the 32-bit little-endian integer at `off`.
pub fn read_le32(v: &Vec<u8>, off: usize) -> (r: u32)
    requires
        off + 4 <= v.len(),
    ensures
        r == le32(v@, off as int),
{
    let b0 = v[off] as u32;
    let b1 = v[off + 1] as u32;
    let b2 = v[off + 2] as u32;
    let b3 = v[off + 3] as u32;
    b0 + b1 * 0x100 + b2 * 0x10000 + b3 * 0x1000000
}

/// Reads the 64-bit little-endian integer at `off`.
pub fn read_le64(v: &Vec<u8>, off: usize) -> (r: u64)
    requires
        off + 8 <= v.len(),
    ensures
        r == le64(v@, off as int),
{
    let b0 = v[off] as u64;
    let b1 = v[off + 1] as u64;
    let b2 = v[off + 2] as u64;
    let b3 = v[off + 3] as u64;
    let b4 = v[off + 4] as u64;
    let b5 = v[off + 5] as u64;
    let b6 = v[off + 6] as u64;
    let b7 = v[off + 7] as u64;
    b0 + b1 * 0x100 + b2 * 0x10000 + b3 * 0x1000000 + b4 * 0x100000000 + b5 * 0x10000000000
        + b6 * 0x1000000000000 + b7 * 0x100000000000000
}

/// Copies the byte range `off .. off + len` of `v` into a fresh vector.
pub fn copy_range(v: &Vec<u8>, off: usize, len: usize) -> (r: Vec<u8>)
    requires
        off + len <= v.len(),
    ensures
        r@ == v@.subrange(off as int, off as int + len as int),
{
    let mut r: Vec<u8> = Vec::new();
    let mut i: usize = 0;
    while i < len
        invariant
            i <= len,
            off + len <= v.len(),
            r@ == v@.subrange(off as int, off as int + i as int),
        decreases len - i,
    {
        r.push(v[off + i]);
        assert(r@ =~= v@.subrange(off as int, off as int + (i + 1) as int));
        i = i + 1;
    }
    r
}

/// Relies on `String`'s `FromIterator<char>` impl: collecting characters
/// yields a string of exactly those characters, in order.
#[verifier::external_body]
pub(crate) fn chars_to_string(chars: &Vec<char>) -> (s: String)
    ensures
        s@ == chars@,
{
    chars.iter().collect()
}

} // verus!

