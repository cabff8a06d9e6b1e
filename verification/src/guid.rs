//! The 128-bit GUID value: mixed-endian construction from raw bytes and the
//! canonical uppercase-hexadecimal text form.

use vstd::prelude::*;
use crate::codec::chars_to_string;
use crate::codec::le16;
use crate::codec::le32;
use crate::codec::read_le16;
use crate::codec::read_le32;

verus! {

broadcast use vstd::array::group_array_axioms;

/// A GUID: a 32-bit word, two 16-bit words, and an 8-byte tail.
#[derive(Debug, Clone, Copy, PartialEq, Eq, PartialOrd, Ord, Hash)]
pub struct Guid {
    pub data1: u32,
    pub data2: u16,
    pub data3: u16,
    pub data4: [u8; 8],
}

/// The GUID stored at byte offset `off` of `s`: the three words little-endian,
/// the tail verbatim.
pub open spec fn spec_guid(s: Seq<u8>, off: int) -> Guid
    recommends
        0 <= off,
        off + 16 <= s.len(),
{
    Guid {
        data1: le32(s, off),
        data2: le16(s, off + 4),
        data3: le16(s, off + 6),
        data4: [
            s[off + 8],
            s[off + 9],
            s[off + 10],
            s[off + 11],
            s[off + 12],
            s[off + 13],
            s[off + 14],
            s[off + 15],
        ],
    }
}

/// `16^k` for the nibble positions of the text form.
pub open spec fn pow16(k: int) -> int {
    if k <= 0 {
        1
    } else if k == 1 {
        0x10
    } else if k == 2 {
        0x100
    } else if k == 3 {
        0x1000
    } else if k == 4 {
        0x10000
    } else if k == 5 {
        0x100000
    } else if k == 6 {
        0x1000000
    } else {
        0x10000000
    }
}

/// The uppercase hexadecimal digit for `n`.
pub open spec fn hex_char(n: int) -> char
    recommends
        0 <= n < 16,
{
    if n == 0 {
        '0'
    } else if n == 1 {
        '1'
    } else if n == 2 {
        '2'
    } else if n == 3 {
        '3'
    } else if n == 4 {
        '4'
    } else if n == 5 {
        '5'
    } else if n == 6 {
        '6'
    } else if n == 7 {
        '7'
    } else if n == 8 {
        '8'
    } else if n == 9 {
        '9'
    } else if n == 10 {
        'A'
    } else if n == 11 {
        'B'
    } else if n == 12 {
        'C'
    } else if n == 13 {
        'D'
    } else if n == 14 {
        'E'
    } else {
        'F'
    }
}

/// `v` written as `n` uppercase hexadecimal digits, most significant first.
pub open spec fn hex_text(v: int, n: int) -> Seq<char> {
    Seq::new(n as nat, |i: int| hex_char(v / pow16(n - 1 - i) % 16))
}

/// The canonical text of a GUID: the four fields in uppercase hexadecimal,
/// zero padded, the tail split two bytes after its start.
pub open spec fn spec_guid_text(g: Guid) -> Seq<char> {
    hex_text(g.data1 as int, 8) + seq!['-'] + hex_text(g.data2 as int, 4) + seq!['-']
        + hex_text(g.data3 as int, 4) + seq!['-'] + hex_text(g.data4@[0] as int, 2)
        + hex_text(g.data4@[1] as int, 2) + seq!['-'] + hex_text(g.data4@[2] as int, 2)
        + hex_text(g.data4@[3] as int, 2) + hex_text(g.data4@[4] as int, 2)
        + hex_text(g.data4@[5] as int, 2) + hex_text(g.data4@[6] as int, 2)
        + hex_text(g.data4@[7] as int, 2)
}

/// Whether `c` is an uppercase hexadecimal digit.
pub open spec fn is_hex_digit(c: char) -> bool {
    ('0' as u32 <= c as u32 && c as u32 <= '9' as u32) || ('A' as u32 <= c as u32 && c as u32
        <= 'F' as u32)
}

/// Whether `s` has the canonical GUID shape: 36 characters, dashes at
/// positions 8, 13, 18 and 23, uppercase hexadecimal digits everywhere else.
pub open spec fn is_canonical_guid_text(s: Seq<char>) -> bool {
    &&& s.len() == 36
    &&& forall|i: int|
        0 <= i < 36 ==> (if i == 8 || i == 13 || i == 18 || i == 23 {
            s[i] == '-'
        } else {
            is_hex_digit(#[trigger] s[i])
        })
}

/// Every hexadecimal digit the text form uses is an uppercase hexadecimal
/// character.
proof fn lemma_hex_char_is_digit()
    ensures
        forall|n: int| 0 <= n < 16 ==> is_hex_digit(#[trigger] hex_char(n)),
{
}

/// Law: the canonical text of any GUID is 36 characters long, with dashes at
/// positions 8, 13, 18 and 23 and uppercase hexadecimal digits elsewhere.
pub proof fn lemma_guid_text_canonical(g: Guid)
    ensures
        is_canonical_guid_text(spec_guid_text(g)),
{
    lemma_hex_char_is_digit();
    let s = spec_guid_text(g);
    assert(s.len() == 36);
    assert(s[8] == '-');
    assert(s[13] == '-');
    assert(s[18] == '-');
    assert(s[23] == '-');
    assert forall|i: int| 0 <= i < 36 && i != 8 && i != 13 && i != 18 && i != 23 implies is_hex_digit(
        s[i],
    ) by {
        assert(0 <= g.data1 as int && 0 <= g.data2 as int && 0 <= g.data3 as int);
    }
}

/// Law: decoding any 16-byte buffer as a GUID and rendering the result yields
/// text of the canonical 36-character shape.
pub proof fn lemma_guid_round_trip(b: Seq<u8>)
    requires
        b.len() == 16,
    ensures
        is_canonical_guid_text(spec_guid_text(spec_guid(b, 0))),
{
    lemma_guid_text_canonical(spec_guid(b, 0));
}

/// Maps a nibble to its uppercase hexadecimal character.
fn hex_char_of(n: u8) -> (c: char)
    requires
        n < 16,
    ensures
        c == hex_char(n as int),
{
    match n {
        0 => '0',
        1 => '1',
        2 => '2',
        3 => '3',
        4 => '4',
        5 => '5',
        6 => '6',
        7 => '7',
        8 => '8',
        9 => '9',
        10 => 'A',
        11 => 'B',
        12 => 'C',
        13 => 'D',
        14 => 'E',
        _ => 'F',
    }
}

impl Guid {
    /// Builds a GUID from its four fields; construction is total.
    pub fn new(data1: u32, data2: u16, data3: u16, data4: [u8; 8]) -> (g: Self)
        ensures
            g.data1 == data1,
            g.data2 == data2,
            g.data3 == data3,
            g.data4 == data4,
    {
        Guid { data1, data2, data3, data4 }
    }

    /// Decodes the GUID stored at byte offset `off` of `v`: the first three
    /// fields little-endian, the tail in byte order.
    pub fn from_bytes(v: &Vec<u8>, off: usize) -> (g: Self)
        requires
            off + 16 <= v.len(),
        ensures
            g == spec_guid(v@, off as int),
    {
        let data1 = read_le32(v, off);
        let data2 = read_le16(v, off + 4);
        let data3 = read_le16(v, off + 6);
        let data4 = [
            v[off + 8],
            v[off + 9],
            v[off + 10],
            v[off + 11],
            v[off + 12],
            v[off + 13],
            v[off + 14],
            v[off + 15],
        ];
        let g = Guid { data1, data2, data3, data4 };
        proof {
            assert(g.data4@ =~= spec_guid(v@, off as int).data4@);
        }
        g
    }

    /// Renders the canonical text form, uppercase and zero padded.
    #[verifier::rlimit(100)]
    pub fn to_string(&self) -> (s: String)
        ensures
            s@ == spec_guid_text(*self),
    {
        let mut out: Vec<char> = Vec::new();
        out.push(hex_char_of((self.data1 / 0x10000000 % 16) as u8));
        out.push(hex_char_of((self.data1 / 0x1000000 % 16) as u8));
        out.push(hex_char_of((self.data1 / 0x100000 % 16) as u8));
        out.push(hex_char_of((self.data1 / 0x10000 % 16) as u8));
        out.push(hex_char_of((self.data1 / 0x1000 % 16) as u8));
        out.push(hex_char_of((self.data1 / 0x100 % 16) as u8));
        out.push(hex_char_of((self.data1 / 0x10 % 16) as u8));
        out.push(hex_char_of((self.data1 % 16) as u8));
        let ghost t1 = out@;
        proof {
            assert(t1 =~= hex_text(self.data1 as int, 8));
        }
        out.push('-');
        out.push(hex_char_of((self.data2 / 0x1000 % 16) as u8));
        out.push(hex_char_of((self.data2 / 0x100 % 16) as u8));
        out.push(hex_char_of((self.data2 / 0x10 % 16) as u8));
        out.push(hex_char_of((self.data2 % 16) as u8));
        let ghost t2 = out@;
        proof {
            assert(t2 =~= t1 + seq!['-'] + hex_text(self.data2 as int, 4));
        }
        out.push('-');
        out.push(hex_char_of((self.data3 / 0x1000 % 16) as u8));
        out.push(hex_char_of((self.data3 / 0x100 % 16) as u8));
        out.push(hex_char_of((self.data3 / 0x10 % 16) as u8));
        out.push(hex_char_of((self.data3 % 16) as u8));
        let ghost t3 = out@;
        proof {
            assert(t3 =~= t2 + seq!['-'] + hex_text(self.data3 as int, 4));
        }
        out.push('-');
        out.push(hex_char_of(self.data4[0] / 16));
        out.push(hex_char_of(self.data4[0] % 16));
        out.push(hex_char_of(self.data4[1] / 16));
        out.push(hex_char_of(self.data4[1] % 16));
        let ghost t4 = out@;
        proof {
            assert(t4 =~= t3 + seq!['-'] + hex_text(self.data4@[0] as int, 2) + hex_text(
                self.data4@[1] as int,
                2,
            ));
        }
        out.push('-');
        out.push(hex_char_of(self.data4[2] / 16));
        out.push(hex_char_of(self.data4[2] % 16));
        out.push(hex_char_of(self.data4[3] / 16));
        out.push(hex_char_of(self.data4[3] % 16));
        let ghost t5 = out@;
        proof {
            assert(t5 =~= t4 + seq!['-'] + hex_text(self.data4@[2] as int, 2) + hex_text(
                self.data4@[3] as int,
                2,
            ));
        }
        out.push(hex_char_of(self.data4[4] / 16));
        out.push(hex_char_of(self.data4[4] % 16));
        out.push(hex_char_of(self.data4[5] / 16));
        out.push(hex_char_of(self.data4[5] % 16));
        out.push(hex_char_of(self.data4[6] / 16));
        out.push(hex_char_of(self.data4[6] % 16));
        out.push(hex_char_of(self.data4[7] / 16));
        out.push(hex_char_of(self.data4[7] % 16));
        proof {
            assert(out@ =~= t5 + hex_text(self.data4@[4] as int, 2) + hex_text(
                self.data4@[5] as int,
                2,
            ) + hex_text(self.data4@[6] as int, 2) + hex_text(self.data4@[7] as int, 2));
            assert(out@ =~= spec_guid_text(*self));
        }
        chars_to_string(&out)
    }
}

} // verus!

