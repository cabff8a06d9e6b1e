//! The GUID Partition Table: the header decoded from the sector at LBA 1 and
//! the partition entry array it points to, including the mixed-endian GUIDs
//! and the UTF-16LE partition names.

use vstd::prelude::*;
use crate::codec::chars_to_string;
use crate::codec::le32;
use crate::codec::le64;
use crate::codec::read_le32;
use crate::codec::read_le64;
use crate::codec::DiskError;
use crate::guid::spec_guid;
use crate::guid::Guid;
use crate::utf16::decode_units;
use crate::utf16::decode_utf16;
use crate::utf16::first_nul;
use crate::utf16::read_utf16_units;
use crate::utf16::truncate_at_nul;
use crate::utf16::utf16_units;

verus! {

/// One partition entry, decoded from the first 128 bytes of its record.
#[derive(Debug)]
pub struct GptPartition {
    pub partition_type_guid: Guid,
    pub unique_partition_guid: Guid,
    pub starting_lba: u64,
    pub ending_lba: u64,
    pub attributes: u64,
    pub partition_name: String,
}

/// Whether `a` carries the same partition entry as `b`: every field equal,
/// the name character for character.
pub open spec fn gpt_partition_like(a: GptPartition, b: GptPartition) -> bool {
    &&& a.partition_type_guid == b.partition_type_guid
    &&& a.unique_partition_guid == b.unique_partition_guid
    &&& a.starting_lba == b.starting_lba
    &&& a.ending_lba == b.ending_lba
    &&& a.attributes == b.attributes
    &&& a.partition_name@ == b.partition_name@
}

/// The partition name stored in the entry at byte offset `off` of `s`:
/// 36 UTF-16LE code units, cut at the first NUL, decoded to characters.
pub open spec fn spec_gpt_name(s: Seq<u8>, off: int) -> Seq<char> {
    let units = utf16_units(s, off + 56, 36);
    decode_utf16(units.take(first_nul(units)))
}

/// Whether `p` is exactly the decoding of the entry at byte offset `off` of
/// `s`: the two GUIDs mixed-endian, the three 64-bit words little-endian,
/// and the name as [`spec_gpt_name`].
pub open spec fn spec_gpt_partition(p: GptPartition, s: Seq<u8>, off: int) -> bool
    recommends
        0 <= off,
        off + 128 <= s.len(),
{
    &&& p.partition_type_guid == spec_guid(s, off)
    &&& p.unique_partition_guid == spec_guid(s, off + 16)
    &&& p.starting_lba == le64(s, off + 32)
    &&& p.ending_lba == le64(s, off + 40)
    &&& p.attributes == le64(s, off + 48)
    &&& p.partition_name@ == spec_gpt_name(s, off)
}

impl Clone for GptPartition {
    /// Copies the entry; the name is cloned character for character.
    fn clone(&self) -> (r: Self)
        ensures
            gpt_partition_like(r, *self),
    {
        GptPartition {
            partition_type_guid: self.partition_type_guid,
            unique_partition_guid: self.unique_partition_guid,
            starting_lba: self.starting_lba,
            ending_lba: self.ending_lba,
            attributes: self.attributes,
            partition_name: self.partition_name.clone(),
        }
    }
}

impl GptPartition {
    /// Decodes the partition entry stored at byte offset `off` of `v`.
    pub fn from_bytes(v: &Vec<u8>, off: usize) -> (p: Self)
        requires
            off + 128 <= v.len(),
        ensures
            spec_gpt_partition(p, v@, off as int),
    {
        let units = read_utf16_units(v, off + 56, 36);
        let trimmed = truncate_at_nul(&units);
        let chars = decode_units(&trimmed);
        GptPartition {
            partition_type_guid: Guid::from_bytes(v, off),
            unique_partition_guid: Guid::from_bytes(v, off + 16),
            starting_lba: read_le64(v, off + 32),
            ending_lba: read_le64(v, off + 40),
            attributes: read_le64(v, off + 48),
            partition_name: chars_to_string(&chars),
        }
    }
}

/// A decoded GUID Partition Table: the header fields in their on-disk order
/// and the materialized partition entry array.
pub struct GuidPartitionTable {
    pub signature: u64,
    pub revision: u32,
    pub header_size: u32,
    pub header_crc32: u32,
    pub reserved: u32,
    pub my_lba: u64,
    pub alternate_lba: u64,
    pub first_usable_lba: u64,
    pub last_usable_lba: u64,
    pub disk_guid: Guid,
    pub partition_entries_lba: u64,
    pub number_of_partition_entries: u32,
    pub size_of_partition_entry: u32,
    pub partition_entry_array_crc32: u32,
    pub partitions: Vec<GptPartition>,
}

/// The number of partition entries the header at byte offset `l` declares.
pub open spec fn spec_gpt_entry_count(s: Seq<u8>, l: int) -> u32 {
    le32(s, l + 80)
}

/// The byte offset of partition entry `i`: the entry-array LBA times the
/// block size, plus `i` strides of the declared entry size.
pub open spec fn spec_gpt_entry_offset(s: Seq<u8>, l: int, i: int) -> int {
    le64(s, l + 72) * l + i * le32(s, l + 84)
}

/// Whether the sector holding the header lies inside the image: the decoder
/// reads one full 512-byte sector at byte offset `l`.
pub open spec fn spec_gpt_header_fits(s: Seq<u8>, l: int) -> bool {
    l + 512 <= s.len()
}

/// Whether every declared partition entry lies inside the image.
pub open spec fn spec_gpt_entries_fit(s: Seq<u8>, l: int) -> bool {
    forall|i: int|
        0 <= i < spec_gpt_entry_count(s, l) ==> spec_gpt_entry_offset(s, l, i) + 128 <= s.len()
}

/// Whether a GPT can be decoded from `s` with logical block size `l`: the
/// header sector and every declared entry lie inside the image.  Signatures
/// and checksums play no part; a malformed table still decodes.
pub open spec fn spec_gpt_decodable(s: Seq<u8>, l: int) -> bool {
    spec_gpt_header_fits(s, l) && spec_gpt_entries_fit(s, l)
}

/// Whether `t` is exactly the decoding of the GPT of `s` at logical block
/// size `l`: each header field from its offset, and one materialized entry
/// per declared entry, zero-typed ones included.
pub open spec fn spec_gpt_decodes(s: Seq<u8>, l: int, t: GuidPartitionTable) -> bool
    recommends
        spec_gpt_decodable(s, l),
{
    &&& t.signature == le64(s, l)
    &&& t.revision == le32(s, l + 8)
    &&& t.header_size == le32(s, l + 12)
    &&& t.header_crc32 == le32(s, l + 16)
    &&& t.reserved == le32(s, l + 20)
    &&& t.my_lba == le64(s, l + 24)
    &&& t.alternate_lba == le64(s, l + 32)
    &&& t.first_usable_lba == le64(s, l + 40)
    &&& t.last_usable_lba == le64(s, l + 48)
    &&& t.disk_guid == spec_guid(s, l + 56)
    &&& t.partition_entries_lba == le64(s, l + 72)
    &&& t.number_of_partition_entries == spec_gpt_entry_count(s, l)
    &&& t.size_of_partition_entry == le32(s, l + 84)
    &&& t.partition_entry_array_crc32 == le32(s, l + 88)
    &&& t.partitions@.len() == spec_gpt_entry_count(s, l)
    &&& forall|i: int|
        0 <= i < t.partitions@.len() ==> spec_gpt_partition(
            #[trigger] t.partitions@[i],
            s,
            spec_gpt_entry_offset(s, l, i),
        )
}

impl GuidPartitionTable {
    /// Decodes the GPT header from the sector at byte offset `lba_size` and
    /// the partition entry array it points to.  Decoding fails exactly when
    /// the header sector or some declared entry runs past the end of the
    /// image; neither signature nor checksums are verified.
    pub fn new(image: &Vec<u8>, lba_size: u32) -> (r: Result<Self, DiskError>)
        ensures
            r is Ok <==> spec_gpt_decodable(image@, lba_size as int),
            match r {
                Ok(t) => spec_gpt_decodes(image@, lba_size as int, t),
                Err(e) => e == DiskError::Truncated,
            },
    {
        if (image.len() as u64) < lba_size as u64 + 512 {
            return Err(DiskError::Truncated);
        }
        let l = lba_size as usize;
        let entries_lba = read_le64(image, l + 72);
        let n = read_le32(image, l + 80);
        let entry_size = read_le32(image, l + 84);
        let mut partitions: Vec<GptPartition> = Vec::new();
        let mut i: u32 = 0;
        while i < n
            invariant
                i <= n,
                spec_gpt_header_fits(image@, lba_size as int),
                entries_lba == le64(image@, lba_size as int + 72),
                n == spec_gpt_entry_count(image@, lba_size as int),
                entry_size == le32(image@, lba_size as int + 84),
                partitions@.len() == i,
                forall|j: int|
                    0 <= j < i ==> spec_gpt_partition(
                        #[trigger] partitions@[j],
                        image@,
                        spec_gpt_entry_offset(image@, lba_size as int, j),
                    ),
                forall|j: int|
                    0 <= j < i ==> spec_gpt_entry_offset(image@, lba_size as int, j) + 128
                        <= image@.len(),
            decreases n - i,
        {
            proof {
                assert(entries_lba as int * lba_size as int <= 0xFFFFFFFFFFFFFFFFint
                    * 0xFFFFFFFFint) by (nonlinear_arith)
                    requires
                        0 <= entries_lba as int <= 0xFFFFFFFFFFFFFFFFint,
                        0 <= lba_size as int <= 0xFFFFFFFFint,
                ;
                assert(i as int * entry_size as int <= 0xFFFFFFFFint * 0xFFFFFFFFint)
                    by (nonlinear_arith)
                    requires
                        0 <= i as int <= 0xFFFFFFFFint,
                        0 <= entry_size as int <= 0xFFFFFFFFint,
                ;
                assert(0 <= entries_lba as int * lba_size as int) by (nonlinear_arith)
                    requires
                        0 <= entries_lba as int,
                        0 <= lba_size as int,
                ;
                assert(0 <= i as int * entry_size as int) by (nonlinear_arith)
                    requires
                        0 <= i as int,
                        0 <= entry_size as int,
                ;
            }
            let off128: u128 = entries_lba as u128 * lba_size as u128 + i as u128
                * entry_size as u128;
            proof {
                assert(entries_lba as u128 * lba_size as u128 == le64(
                    image@,
                    lba_size as int + 72,
                ) * lba_size as int);
                assert(i as u128 * entry_size as u128 == i * le32(
                    image@,
                    lba_size as int + 84,
                ));
            }
            proof {
                assert(off128 as int == spec_gpt_entry_offset(image@, lba_size as int, i as int));
            }
            if (image.len() as u128) < (off128 + 128) {
                proof {
                    assert(spec_gpt_entry_offset(image@, lba_size as int, i as int) + 128
                        > image@.len());
                    assert(!spec_gpt_entries_fit(image@, lba_size as int));
                }
                return Err(DiskError::Truncated);
            }
            let off = off128 as usize;
            proof {
                assert(off as int == spec_gpt_entry_offset(image@, lba_size as int, i as int));
            }
            let p = GptPartition::from_bytes(image, off);
            partitions.push(p);
            i = i + 1;
        }
        Ok(
            GuidPartitionTable {
                signature: read_le64(image, l),
                revision: read_le32(image, l + 8),
                header_size: read_le32(image, l + 12),
                header_crc32: read_le32(image, l + 16),
                reserved: read_le32(image, l + 20),
                my_lba: read_le64(image, l + 24),
                alternate_lba: read_le64(image, l + 32),
                first_usable_lba: read_le64(image, l + 40),
                last_usable_lba: read_le64(image, l + 48),
                disk_guid: Guid::from_bytes(image, l + 56),
                partition_entries_lba: entries_lba,
                number_of_partition_entries: n,
                size_of_partition_entry: entry_size,
                partition_entry_array_crc32: read_le32(image, l + 88),
                partitions,
            },
        )
    }

    /// The number of materialized partition entries: the header's declared
    /// count, zero-typed entries included.
    pub fn get_partition_count(&self) -> (r: usize)
        ensures
            r == self.partitions@.len(),
    {
        self.partitions.len()
    }

    /// A copy of the materialized partition entry array, entry for entry.
    pub fn get_partitions(&self) -> (r: Vec<GptPartition>)
        ensures
            r@.len() == self.partitions@.len(),
            forall|i: int|
                0 <= i < r@.len() ==> gpt_partition_like(r@[i], self.partitions@[i]),
    {
        let r = self.partitions.clone();
        proof {
            assert forall|i: int| 0 <= i < r@.len() implies gpt_partition_like(
                r@[i],
                self.partitions@[i],
            ) by {
                assert(cloned::<GptPartition>(self.partitions@[i], r@[i]));
            }
        }
        r
    }
}

} // verus!
