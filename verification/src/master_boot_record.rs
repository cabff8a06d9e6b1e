//! The legacy Master Boot Record: the 512-byte boot sector split into its
//! bootstrap area, disk signature, four partition records and boot signature,
//! with the protective-record marker that announces a GPT.

use vstd::prelude::*;
use crate::codec::copy_range;
use crate::codec::le16;
use crate::codec::le32;
use crate::codec::read_le16;
use crate::codec::read_le32;
use crate::codec::DiskError;
use vstd::string::StringExecFns;

verus! {

broadcast use vstd::array::group_array_axioms;

/// A cylinder/head/sector triple, kept verbatim as the three bytes stored in
/// a partition record.
#[derive(Debug, Clone, Copy, PartialEq, Eq, Structural)]
pub struct Chs {
    pub cylinders: u8,
    pub head: u8,
    pub sectors: u8,
}

/// The logical block address for `chs` under a geometry of `heads` heads per
/// cylinder and `sectors` sectors per track.
pub open spec fn spec_chs_lba(chs: Chs, heads: u8, sectors: u8) -> int {
    (chs.cylinders * heads + chs.head) * sectors + chs.sectors - 1
}

impl Chs {
    /// Builds a triple from its three raw bytes.
    pub fn new(cylinders: u8, head: u8, sectors: u8) -> (r: Self)
        ensures
            r == (Chs { cylinders, head, sectors }),
    {
        Chs { cylinders, head, sectors }
    }

    /// Translates the triple to a logical block address for the given
    /// geometry.  The sector count of the formula is one-based, so the whole
    /// expression must not fall below zero.
    pub fn to_lba(&self, heads: u8, sectors: u8) -> (r: u32)
        requires
            spec_chs_lba(*self, heads, sectors) >= 0,
        ensures
            r == spec_chs_lba(*self, heads, sectors),
    {
        let c = self.cylinders as u32;
        let h = self.head as u32;
        let s = self.sectors as u32;
        let hd = heads as u32;
        let sc = sectors as u32;
        proof {
            assert(c * hd <= 255 * 255) by (nonlinear_arith)
                requires
                    c <= 255,
                    hd <= 255,
            ;
            assert((c * hd + h) * sc <= 65280 * 255) by (nonlinear_arith)
                requires
                    c * hd + h <= 65280,
                    sc <= 255,
            ;
        }
        (c * hd + h) * sc + s - 1
    }
}

/// The boot flag of a partition record: `0x80` marks a bootable partition,
/// and every other value counts as non-bootable.
#[derive(Debug, Clone, Copy, PartialEq, Eq, Structural)]
pub enum MbrAttributes {
    Bootable,
    NonBootable,
}

/// The boot flag decoded from its byte.
pub open spec fn spec_mbr_attributes(b: u8) -> MbrAttributes {
    if b == 0x80 {
        MbrAttributes::Bootable
    } else {
        MbrAttributes::NonBootable
    }
}

/// One 16-byte MBR partition record.
#[derive(Debug, Clone, Copy, PartialEq, Eq, Structural)]
pub struct MbrPartition {
    pub attributes: MbrAttributes,
    pub chs_start: Chs,
    pub p_type: u8,
    pub chs_end: Chs,
    pub lba_start: u32,
    pub total_sectors: u32,
}

/// The partition record stored at byte offset `off` of `s`: the boot flag,
/// both CHS triples byte for byte, and the two 32-bit words little-endian.
pub open spec fn spec_mbr_partition(s: Seq<u8>, off: int) -> MbrPartition
    recommends
        0 <= off,
        off + 16 <= s.len(),
{
    MbrPartition {
        attributes: spec_mbr_attributes(s[off]),
        chs_start: Chs { cylinders: s[off + 1], head: s[off + 2], sectors: s[off + 3] },
        p_type: s[off + 4],
        chs_end: Chs { cylinders: s[off + 5], head: s[off + 6], sectors: s[off + 7] },
        lba_start: le32(s, off + 8),
        total_sectors: le32(s, off + 12),
    }
}

impl MbrPartition {
    /// Decodes the partition record stored at byte offset `off` of `v`.
    pub fn from_bytes(v: &Vec<u8>, off: usize) -> (p: Self)
        requires
            off + 16 <= v.len(),
        ensures
            p == spec_mbr_partition(v@, off as int),
    {
        let attributes = if v[off] == 0x80 {
            MbrAttributes::Bootable
        } else {
            MbrAttributes::NonBootable
        };
        MbrPartition {
            attributes,
            chs_start: Chs { cylinders: v[off + 1], head: v[off + 2], sectors: v[off + 3] },
            p_type: v[off + 4],
            chs_end: Chs { cylinders: v[off + 5], head: v[off + 6], sectors: v[off + 7] },
            lba_start: read_le32(v, off + 8),
            total_sectors: read_le32(v, off + 12),
        }
    }

    /// Decodes a partition record from its 16 raw bytes.
    pub fn new(data: [u8; 16]) -> (p: Self)
        ensures
            p == spec_mbr_partition(data@, 0),
    {
        let v = vstd::slice::slice_to_vec(data.as_slice());
        Self::from_bytes(&v, 0)
    }

    /// The boot flag, described in words.
    pub fn get_attributes_string(&self) -> (s: String)
        ensures
            self.attributes == MbrAttributes::Bootable ==> s@ == "Bootable"@,
            self.attributes == MbrAttributes::NonBootable ==> s@ == "Non-Bootable"@,
    {
        match self.attributes {
            MbrAttributes::Bootable => String::from_str("Bootable"),
            MbrAttributes::NonBootable => String::from_str("Non-Bootable"),
        }
    }
}

/// The number of records among the first `n` of `parts` whose type byte is
/// not zero.
pub open spec fn count_nonzero(parts: Seq<MbrPartition>, n: int) -> int
    decreases n,
{
    if n <= 0 {
        0
    } else {
        count_nonzero(parts, n - 1) + if parts[n - 1].p_type != 0 {
            1int
        } else {
            0int
        }
    }
}

/// A decoded Master Boot Record.  The original 512-byte sector is retained
/// verbatim so the boot record can be re-emitted byte for byte.
pub struct MasterBootRecord {
    pub bootstrap: Vec<u8>,
    pub disk_sig: u32,
    pub reserved: u16,
    pub partitions: [MbrPartition; 4],
    pub bootsector: u16,
    pub has_gpt: bool,
    pub data: Vec<u8>,
}

/// Whether `m` is exactly the decoding of the 512-byte prefix of `s`.
pub open spec fn spec_mbr_decodes(s: Seq<u8>, m: MasterBootRecord) -> bool
    recommends
        s.len() >= 512,
{
    &&& m.bootstrap@ == s.subrange(0, 440)
    &&& m.disk_sig == le32(s, 440)
    &&& m.reserved == le16(s, 444)
    &&& forall|i: int| 0 <= i < 4 ==> m.partitions@[i] == spec_mbr_partition(s, 446 + 16 * i)
    &&& m.bootsector == le16(s, 510)
    &&& m.has_gpt == (spec_mbr_partition(s, 446).p_type == 0xEE)
    &&& m.data@ == s.subrange(0, 512)
}

/// The number of non-empty partition records of `m`.
pub open spec fn spec_mbr_partition_count(m: MasterBootRecord) -> int {
    count_nonzero(m.partitions@, 4)
}

impl MasterBootRecord {
    /// Decodes the Master Boot Record from the first 512 bytes of `image`.
    /// An image shorter than one sector is rejected; nothing else is
    /// validated, so a malformed record still decodes.
    pub fn new(image: &Vec<u8>) -> (r: Result<Self, DiskError>)
        ensures
            r is Ok <==> image@.len() >= 512,
            match r {
                Ok(m) => spec_mbr_decodes(image@, m),
                Err(e) => e == DiskError::Truncated,
            },
    {
        if image.len() < 512 {
            return Err(DiskError::Truncated);
        }
        let p0 = MbrPartition::from_bytes(image, 446);
        let p1 = MbrPartition::from_bytes(image, 462);
        let p2 = MbrPartition::from_bytes(image, 478);
        let p3 = MbrPartition::from_bytes(image, 494);
        let partitions = [p0, p1, p2, p3];
        Ok(
            MasterBootRecord {
                bootstrap: copy_range(image, 0, 440),
                disk_sig: read_le32(image, 440),
                reserved: read_le16(image, 444),
                partitions,
                bootsector: read_le16(image, 510),
                has_gpt: p0.p_type == 0xEE,
                data: copy_range(image, 0, 512),
            },
        )
    }

    /// Hands back the retained boot sector, byte-identical to the first 512
    /// bytes of the image it was decoded from.  Writing the bytes to a file
    /// is the caller's part.
    pub fn read_boot_record_to_file(&self) -> (r: Vec<u8>)
        ensures
            r@ == self.data@,
    {
        let r = copy_range(&self.data, 0, self.data.len());
        assert(r@ =~= self.data@);
        r
    }

    /// Counts the partition records whose type byte is not zero; the count
    /// never exceeds the four slots.
    pub fn get_partition_count(&self) -> (r: usize)
        ensures
            r == spec_mbr_partition_count(*self),
            0 <= r <= 4,
    {
        let mut count: usize = 0;
        let mut i: usize = 0;
        while i < 4
            invariant
                i <= 4,
                count == count_nonzero(self.partitions@, i as int),
                count <= i,
            decreases 4 - i,
        {
            if self.partitions[i].p_type != 0 {
                count = count + 1;
            }
            i = i + 1;
        }
        count
    }

    /// The record in slot `index`, even when its type byte is zero; a slot
    /// index past the four slots is absent.
    pub fn get_partition(&self, index: usize) -> (r: Option<MbrPartition>)
        ensures
            index < 4 ==> r == Some(self.partitions@[index as int]),
            index >= 4 ==> r is None,
    {
        if index < 4 {
            Some(self.partitions[index])
        } else {
            None
        }
    }

    /// The starting logical block address of the record in slot `index`, or
    /// absent past the four slots.
    pub fn get_lba(&self, index: usize) -> (r: Option<u32>)
        ensures
            index < 4 ==> r == Some(self.partitions@[index as int].lba_start),
            index >= 4 ==> r is None,
    {
        if index < 4 {
            Some(self.partitions[index].lba_start)
        } else {
            None
        }
    }
}

} // verus!
