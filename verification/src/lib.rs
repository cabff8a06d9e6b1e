//! Read-only inspection of the partitioning metadata of a raw disk image.
//!
//! The crate decodes the legacy Master Boot Record from the first sector of an
//! image, detects the protective record that announces a GUID Partition Table,
//! decodes that table when present, and answers partition queries through a
//! scheme-agnostic facade.  All decoding works on in-memory byte buffers; the
//! caller reads the image file and hands the bytes over.

pub mod codec;
pub mod disk;
pub mod guid;
pub mod guid_partition_table;
pub mod master_boot_record;
pub mod utf16;
