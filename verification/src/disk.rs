//! The disk facade: opening an image always decodes the Master Boot Record,
//! decodes the GUID Partition Table when the protective record announces
//! one, and answers partition queries for whichever scheme is active.

use vstd::prelude::*;
use crate::codec::DiskError;
use crate::guid_partition_table::gpt_partition_like;
use crate::guid_partition_table::spec_gpt_decodable;
use crate::guid_partition_table::spec_gpt_decodes;
use crate::guid_partition_table::GptPartition;
use crate::guid_partition_table::GuidPartitionTable;
use crate::master_boot_record::spec_mbr_decodes;
use crate::master_boot_record::spec_mbr_partition;
use crate::master_boot_record::spec_mbr_partition_count;
use crate::master_boot_record::MasterBootRecord;
use crate::master_boot_record::MbrPartition;

verus! {

/// An unopened disk: the raw bytes of the backing image, as read from the
/// file.
pub struct Disk {
    pub image: Vec<u8>,
}

/// The partitioning scheme in effect for an opened disk.
#[derive(Debug, Clone, Copy, PartialEq, Eq, Structural)]
pub enum PartitionScheme {
    Mbr,
    Gpt,
}

/// A partition under either scheme; callers discriminate at use.
#[derive(Debug)]
pub enum Partition {
    Mbr(MbrPartition),
    Gpt(GptPartition),
}

/// An opened disk: the decoded Master Boot Record and, exactly when the
/// record announces one, the decoded GUID Partition Table.
pub struct OpenedDisk {
    pub scheme: PartitionScheme,
    pub mbr: MasterBootRecord,
    pub gpt: Option<GuidPartitionTable>,
}

/// Whether an image opens: it holds a full boot sector and, when that sector
/// carries the protective record, a decodable GPT at block size 512.
pub open spec fn spec_open_ok(s: Seq<u8>) -> bool {
    &&& s.len() >= 512
    &&& (spec_mbr_partition(s, 446).p_type == 0xEE ==> spec_gpt_decodable(s, 512))
}

impl OpenedDisk {
    /// The facade invariant: the scheme is GPT exactly when a decoded table
    /// is present, and a table is present exactly when the boot record
    /// announces one.
    pub open spec fn wf(self) -> bool {
        &&& (self.scheme == PartitionScheme::Gpt <==> self.gpt is Some)
        &&& (self.mbr.has_gpt <==> self.gpt is Some)
    }

    /// Pairs a decoded boot record with the table it announced, picking the
    /// scheme from the table's presence.
    pub fn new(mbr: MasterBootRecord, gpt: Option<GuidPartitionTable>) -> (d: Self)
        requires
            mbr.has_gpt <==> gpt is Some,
        ensures
            d.mbr == mbr,
            d.gpt == gpt,
            d.wf(),
    {
        let scheme = if gpt.is_some() {
            PartitionScheme::Gpt
        } else {
            PartitionScheme::Mbr
        };
        OpenedDisk { scheme, mbr, gpt }
    }

    /// Hands back the 512-byte boot sector verbatim, under either scheme;
    /// the GPT is never exported.  Writing the bytes to a file is the
    /// caller's part.
    pub fn read_boot_record_to_file(&self) -> (r: Vec<u8>)
        ensures
            r@ == self.mbr.data@,
    {
        self.mbr.read_boot_record_to_file()
    }

    /// The partition count of the active scheme: non-empty boot-record slots
    /// under MBR, the declared entry count under GPT.
    pub fn get_partition_count(&self) -> (r: usize)
        requires
            self.wf(),
        ensures
            self.scheme == PartitionScheme::Mbr ==> r == spec_mbr_partition_count(self.mbr),
            self.scheme == PartitionScheme::Gpt ==> r == self.gpt.unwrap().partitions@.len(),
    {
        match self.scheme {
            PartitionScheme::Mbr => self.mbr.get_partition_count(),
            PartitionScheme::Gpt => self.gpt.as_ref().unwrap().get_partition_count(),
        }
    }

    /// The partition at `index` under the active scheme, or absent when the
    /// index is at or past the partition count.
    pub fn get_partition(&self, index: usize) -> (r: Option<Partition>)
        requires
            self.wf(),
        ensures
            self.scheme == PartitionScheme::Mbr && index < spec_mbr_partition_count(self.mbr)
                ==> (r matches Some(Partition::Mbr(p)) && p == self.mbr.partitions@[index as int]),
            self.scheme == PartitionScheme::Mbr && index >= spec_mbr_partition_count(self.mbr)
                ==> r is None,
            self.scheme == PartitionScheme::Gpt && index < self.gpt.unwrap().partitions@.len()
                ==> (r matches Some(Partition::Gpt(p)) && gpt_partition_like(
                p,
                self.gpt.unwrap().partitions@[index as int],
            )),
            self.scheme == PartitionScheme::Gpt && index >= self.gpt.unwrap().partitions@.len()
                ==> r is None,
    {
        match self.scheme {
            PartitionScheme::Mbr => {
                if index < self.mbr.get_partition_count() {
                    Some(Partition::Mbr(self.mbr.get_partition(index).unwrap()))
                } else {
                    None
                }
            },
            PartitionScheme::Gpt => {
                let gpt = self.gpt.as_ref().unwrap();
                if index < gpt.get_partition_count() {
                    Some(Partition::Gpt(gpt.partitions[index].clone()))
                } else {
                    None
                }
            },
        }
    }

    /// The raw 64-bit attributes of the partition at `index`: absent under
    /// MBR, absent past the entry count under GPT.
    pub fn get_attributes(&self, index: usize) -> (r: Option<u64>)
        requires
            self.wf(),
        ensures
            self.scheme == PartitionScheme::Mbr ==> r is None,
            self.scheme == PartitionScheme::Gpt && index < self.gpt.unwrap().partitions@.len()
                ==> r == Some(self.gpt.unwrap().partitions@[index as int].attributes),
            self.scheme == PartitionScheme::Gpt && index >= self.gpt.unwrap().partitions@.len()
                ==> r is None,
    {
        match self.scheme {
            PartitionScheme::Mbr => None,
            PartitionScheme::Gpt => {
                let gpt = self.gpt.as_ref().unwrap();
                if index < gpt.get_partition_count() {
                    Some(gpt.partitions[index].attributes)
                } else {
                    None
                }
            },
        }
    }
}

impl Disk {
    /// Wraps the raw bytes of a disk image, read from the backing file by
    /// the caller.
    pub fn new(image: Vec<u8>) -> (d: Self)
        ensures
            d.image == image,
    {
        Disk { image }
    }

    /// Opens the image: always decodes the boot record, and decodes the GPT
    /// at a fixed logical block size of 512 exactly when the boot record
    /// announces one.  Fails exactly when a needed structure runs past the
    /// end of the image.
    pub fn open(&self) -> (r: Result<OpenedDisk, DiskError>)
        ensures
            r is Ok <==> spec_open_ok(self.image@),
            match r {
                Ok(d) => {
                    &&& d.wf()
                    &&& spec_mbr_decodes(self.image@, d.mbr)
                    &&& (d.gpt matches Some(t) ==> spec_gpt_decodes(self.image@, 512, t))
                },
                Err(e) => e == DiskError::Truncated,
            },
    {
        let mbr = match MasterBootRecord::new(&self.image) {
            Ok(m) => m,
            Err(e) => {
                return Err(e);
            },
        };
        if mbr.has_gpt {
            match GuidPartitionTable::new(&self.image, 512) {
                Ok(gpt) => Ok(OpenedDisk::new(mbr, Some(gpt))),
                Err(e) => Err(e),
            }
        } else {
            Ok(OpenedDisk::new(mbr, None))
        }
    }
}

/// Law: the boot record of an opened disk announces a GPT exactly when slot
/// 0 of the image's partition table has the protective type `0xEE`, and a
/// decoded table is present exactly when it does.
pub proof fn lemma_scheme_coherence(s: Seq<u8>, d: OpenedDisk)
    requires
        spec_mbr_decodes(s, d.mbr),
        d.wf(),
    ensures
        d.mbr.has_gpt <==> spec_mbr_partition(s, 446).p_type == 0xEE,
        d.mbr.has_gpt <==> d.gpt is Some,
{
}

/// Law: the boot sector an opened disk hands back for export is
/// byte-identical to the first 512 bytes of the image it was opened from.
pub proof fn lemma_export_fidelity(s: Seq<u8>, d: OpenedDisk)
    requires
        spec_mbr_decodes(s, d.mbr),
    ensures
        d.mbr.data@ == s.subrange(0, 512),
{
}

} // verus!
