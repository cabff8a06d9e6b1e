//! UTF-16LE decoding for GPT partition names: code units read from bytes,
//! truncation at the first NUL unit, and scalar decoding with surrogate
//! pairs.  An unpaired surrogate decodes to the replacement character.

use vstd::prelude::*;
use crate::codec::le16;
use crate::codec::read_le16;

verus! {

/// Relies on `char::from_u32`: it succeeds exactly on Unicode scalar values
/// and returns the character with that value.
pub assume_specification[ char::from_u32 ](i: u32) -> (r: Option<char>)
    ensures
        r is Some <==> vstd::utf8::is_scalar(i),
        r is Some ==> r.unwrap() as u32 == i,
;

/// Whether `u` is a UTF-16 high (leading) surrogate.
pub open spec fn is_high_surrogate(u: u16) -> bool {
    0xD800 <= u && u < 0xDC00
}

/// Whether `u` is a UTF-16 low (trailing) surrogate.
pub open spec fn is_low_surrogate(u: u16) -> bool {
    0xDC00 <= u && u < 0xE000
}

/// The scalar value encoded by a surrogate pair.
pub open spec fn pair_scalar(hi: u16, lo: u16) -> u32
    recommends
        is_high_surrogate(hi),
        is_low_surrogate(lo),
{
    (0x10000 + (hi - 0xD800) * 0x400 + (lo - 0xDC00)) as u32
}

/// The characters decoded from the code units of `u` starting at position
/// `k`: basic-plane units directly, surrogate pairs through their scalar,
/// an unpaired surrogate as U+FFFD.
pub open spec fn decode_utf16_from(u: Seq<u16>, k: int) -> Seq<char>
    decreases u.len() - k,
{
    if k < 0 || k >= u.len() {
        Seq::empty()
    } else if !is_high_surrogate(u[k]) && !is_low_surrogate(u[k]) {
        seq![(u[k] as u32) as char] + decode_utf16_from(u, k + 1)
    } else if is_high_surrogate(u[k]) && k + 1 < u.len() && is_low_surrogate(u[k + 1]) {
        seq![pair_scalar(u[k], u[k + 1]) as char] + decode_utf16_from(u, k + 2)
    } else {
        seq!['\u{FFFD}'] + decode_utf16_from(u, k + 1)
    }
}

/// The characters decoded from all code units of `u`.
pub open spec fn decode_utf16(u: Seq<u16>) -> Seq<char> {
    decode_utf16_from(u, 0)
}

/// The position of the first NUL unit at or after `k`, or the length of `u`
/// when there is none.
pub open spec fn first_nul_from(u: Seq<u16>, k: int) -> int
    decreases u.len() - k,
{
    if k < 0 || k >= u.len() {
        k
    } else if u[k] == 0 {
        k
    } else {
        first_nul_from(u, k + 1)
    }
}

/// The position of the first NUL unit of `u`, or its length.
pub open spec fn first_nul(u: Seq<u16>) -> int {
    first_nul_from(u, 0)
}

/// The 16-bit little-endian code units stored at byte offset `off` of `s`,
/// `n` of them.
pub open spec fn utf16_units(s: Seq<u8>, off: int, n: int) -> Seq<u16> {
    Seq::new(n as nat, |i: int| le16(s, off + 2 * i))
}

/// Reads `n` little-endian code units starting at byte offset `off`.
pub fn read_utf16_units(v: &Vec<u8>, off: usize, n: usize) -> (r: Vec<u16>)
    requires
        off + 2 * n <= v.len(),
    ensures
        r@ == utf16_units(v@, off as int, n as int),
{
    let mut r: Vec<u16> = Vec::new();
    let mut i: usize = 0;
    while i < n
        invariant
            i <= n,
            off + 2 * n <= v.len(),
            r@ == utf16_units(v@, off as int, n as int).take(i as int),
        decreases n - i,
    {
        r.push(read_le16(v, off + 2 * i));
        assert(r@ =~= utf16_units(v@, off as int, n as int).take(i as int + 1));
        i = i + 1;
    }
    assert(r@ =~= utf16_units(v@, off as int, n as int));
    r
}

/// Keeps the code units before the first NUL and drops the rest.
pub fn truncate_at_nul(units: &Vec<u16>) -> (r: Vec<u16>)
    ensures
        r@ == units@.take(first_nul(units@)),
        0 <= first_nul(units@) <= units@.len(),
{
    let mut r: Vec<u16> = Vec::new();
    let mut k: usize = 0;
    while k < units.len() && units[k] != 0
        invariant
            k <= units@.len(),
            r@ == units@.take(k as int),
            first_nul_from(units@, k as int) == first_nul(units@),
        decreases units@.len() - k,
    {
        r.push(units[k]);
        assert(r@ =~= units@.take(k as int + 1));
        k = k + 1;
    }
    proof {
        assert(first_nul(units@) == k as int);
    }
    r
}

/// Decodes a sequence of UTF-16 code units into characters, replacing
/// unpaired surrogates with U+FFFD.
pub fn decode_units(units: &Vec<u16>) -> (r: Vec<char>)
    ensures
        r@ == decode_utf16(units@),
{
    let mut out: Vec<char> = Vec::new();
    let mut k: usize = 0;
    while k < units.len()
        invariant
            k <= units@.len(),
            out@ + decode_utf16_from(units@, k as int) == decode_utf16(units@),
        decreases units@.len() - k,
    {
        let ghost prev = out@;
        let u = units[k];
        if u < 0xD800 || u >= 0xE000 {
            match char::from_u32(u as u32) {
                Some(c) => {
                    out.push(c);
                    proof {
                        vstd::utf8::char_u32_cast(c, u as u32);
                        assert(out@ + decode_utf16_from(units@, k as int + 1) =~= prev
                            + decode_utf16_from(units@, k as int));
                    }
                },
                None => {
                    proof {
                        assert(false);
                    }
                },
            }
            k = k + 1;
        } else if u < 0xDC00 && k + 1 < units.len() && units[k + 1] >= 0xDC00 && units[k + 1]
            < 0xE000 {
            let lo = units[k + 1];
            let scalar: u32 = 0x10000 + (u as u32 - 0xD800) * 0x400 + (lo as u32 - 0xDC00);
            match char::from_u32(scalar) {
                Some(c) => {
                    out.push(c);
                    proof {
                        vstd::utf8::char_u32_cast(c, scalar);
                        assert(out@ + decode_utf16_from(units@, k as int + 2) =~= prev
                            + decode_utf16_from(units@, k as int));
                    }
                },
                None => {
                    proof {
                        assert(false);
                    }
                },
            }
            k = k + 2;
        } else {
            out.push('\u{FFFD}');
            proof {
                assert(out@ + decode_utf16_from(units@, k as int + 1) =~= prev
                    + decode_utf16_from(units@, k as int));
            }
            k = k + 1;
        }
    }
    assert(out@ =~= decode_utf16(units@));
    out
}

} // verus!
