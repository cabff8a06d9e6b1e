use diskpart::codec::DiskError;
use diskpart::disk::Disk;
use diskpart::disk::Partition;
use diskpart::guid::Guid;
use diskpart::guid_partition_table::GuidPartitionTable;
use diskpart::master_boot_record::Chs;
use diskpart::master_boot_record::MasterBootRecord;
use diskpart::master_boot_record::MbrAttributes;
use diskpart::master_boot_record::MbrPartition;

/// A 1 MiB image with an empty partition table and a valid boot signature.
fn blank_image() -> Vec<u8> {
    let mut image = vec![0u8; 1024 * 1024];
    image[510] = 0x55;
    image[511] = 0xAA;
    image
}

/// Fills MBR slot `slot` with a record of the given type byte and
/// little-endian start/count words.
fn set_mbr_slot(image: &mut Vec<u8>, slot: usize, p_type: u8, lba_start: u32, total: u32) {
    let base = 446 + slot * 16;
    image[base + 4] = p_type;
    image[base + 8..base + 12].copy_from_slice(&lba_start.to_le_bytes());
    image[base + 12..base + 16].copy_from_slice(&total.to_le_bytes());
}

/// Writes a UTF-16LE name into a GPT entry at `base` (byte offset of the
/// entry), NUL-terminated when shorter than 36 code units.
fn set_gpt_name(image: &mut Vec<u8>, base: usize, units: &[u16]) {
    for (i, u) in units.iter().enumerate() {
        let off = base + 56 + 2 * i;
        image[off..off + 2].copy_from_slice(&u.to_le_bytes());
    }
}

/// A 1 MiB image with a protective MBR and a GPT of `n` entries at LBA 2.
fn gpt_image(n: u32) -> Vec<u8> {
    let mut image = blank_image();
    set_mbr_slot(&mut image, 0, 0xEE, 1, 0xFFFF_FFFF);
    image[512..520].copy_from_slice(b"EFI PART");
    image[520..524].copy_from_slice(&0x0001_0000u32.to_le_bytes()); // revision
    image[524..528].copy_from_slice(&92u32.to_le_bytes()); // header size
    image[536..544].copy_from_slice(&1u64.to_le_bytes()); // my LBA
    image[584..592].copy_from_slice(&2u64.to_le_bytes()); // entries LBA
    image[592..596].copy_from_slice(&n.to_le_bytes()); // entry count
    image[596..600].copy_from_slice(&128u32.to_le_bytes()); // entry size
    for i in 0..n as usize {
        let base = 1024 + 128 * i;
        image[base] = (i + 1) as u8; // type GUID differs per entry
        image[base + 32..base + 40].copy_from_slice(&(2048 + 2048 * i as u64).to_le_bytes());
        image[base + 40..base + 48].copy_from_slice(&(4095 + 2048 * i as u64).to_le_bytes());
        image[base + 48..base + 56].copy_from_slice(&(0x10u64 * (i as u64 + 1)).to_le_bytes());
    }
    image
}

#[test]
fn test_guid() {
    let guid = Guid::new(
        0x12345678,
        0x9ABC,
        0xDEF0,
        [0x12, 0x34, 0x56, 0x78, 0x90, 0xAB, 0xCD, 0xEF],
    );
    assert_eq!(guid.to_string(), "12345678-9ABC-DEF0-1234-567890ABCDEF");
}

#[test]
fn guid_all_zero_pads() {
    let guid = Guid::new(0, 0, 0, [0; 8]);
    assert_eq!(guid.to_string(), "00000000-0000-0000-0000-000000000000");
}

#[test]
fn guid_from_bytes_mixed_endian() {
    let mut bytes = vec![0u8; 16];
    bytes[0..4].copy_from_slice(&[0x78, 0x56, 0x34, 0x12]);
    bytes[4..6].copy_from_slice(&[0xBC, 0x9A]);
    bytes[6..8].copy_from_slice(&[0xF0, 0xDE]);
    bytes[8..16].copy_from_slice(&[0x12, 0x34, 0x56, 0x78, 0x90, 0xAB, 0xCD, 0xEF]);
    let guid = Guid::from_bytes(&bytes, 0);
    assert_eq!(guid, Guid::new(
        0x12345678,
        0x9ABC,
        0xDEF0,
        [0x12, 0x34, 0x56, 0x78, 0x90, 0xAB, 0xCD, 0xEF],
    ));
    assert_eq!(guid.to_string(), "12345678-9ABC-DEF0-1234-567890ABCDEF");
}

#[test]
fn chs_to_lba_formula() {
    let chs = Chs::new(0, 1, 1);
    assert_eq!(chs.to_lba(16, 63), 63);
    let chs = Chs::new(2, 3, 4);
    assert_eq!(chs.to_lba(255, 63), (2 * 255 + 3) * 63 + 4 - 1);
}

#[test]
fn mbr_partition_new_decodes_little_endian() {
    let mut data = [0u8; 16];
    data[0] = 0x80;
    data[1] = 9;
    data[2] = 8;
    data[3] = 7;
    data[4] = 0x83;
    data[5] = 6;
    data[6] = 5;
    data[7] = 4;
    data[8..12].copy_from_slice(&[0x01, 0x02, 0x03, 0x04]);
    data[12..16].copy_from_slice(&[0x05, 0x06, 0x07, 0x08]);
    let p = MbrPartition::new(data);
    assert_eq!(p.attributes, MbrAttributes::Bootable);
    assert_eq!(p.chs_start, Chs::new(9, 8, 7));
    assert_eq!(p.p_type, 0x83);
    assert_eq!(p.chs_end, Chs::new(6, 5, 4));
    assert_eq!(p.lba_start, 0x04030201);
    assert_eq!(p.total_sectors, 0x08070605);
    assert_eq!(p.get_attributes_string(), "Bootable");
    let q = MbrPartition::new([0u8; 16]);
    assert_eq!(q.attributes, MbrAttributes::NonBootable);
    assert_eq!(q.get_attributes_string(), "Non-Bootable");
}

#[test]
fn master_boot_record_test_mbr() {
    let mut image = blank_image();
    image[440..444].copy_from_slice(&[0x0D, 0x0C, 0x0B, 0x0A]);
    set_mbr_slot(&mut image, 0, 0x83, 2048, 100_000);
    set_mbr_slot(&mut image, 1, 0x05, 204_800, 50_000);
    let mbr = MasterBootRecord::new(&image).unwrap();
    assert_eq!(mbr.disk_sig, 0x0A0B0C0D);
    assert_eq!(mbr.bootsector, 0xAA55);
    assert!(!mbr.has_gpt);
    assert_eq!(mbr.get_partition_count(), 2);
    let p0 = mbr.get_partition(0).unwrap();
    assert_eq!(p0.p_type, 0x83);
    assert_eq!(p0.lba_start, 2048);
    assert_eq!(p0.total_sectors, 100_000);
    assert_eq!(mbr.get_lba(1), Some(204_800));
    assert_eq!(mbr.get_lba(4), None);
    assert_eq!(mbr.get_partition(4), None);
}

#[test]
fn mbr_counts_skip_empty_slots() {
    let mut image = blank_image();
    set_mbr_slot(&mut image, 1, 0x07, 63, 1000);
    set_mbr_slot(&mut image, 3, 0x0B, 2000, 1000);
    let mbr = MasterBootRecord::new(&image).unwrap();
    assert_eq!(mbr.get_partition_count(), 2);
    // Slot 0 is empty but still reported by index.
    assert_eq!(mbr.get_partition(0).unwrap().p_type, 0);
}

#[test]
fn disk_test_mbr() {
    let mut image = blank_image();
    set_mbr_slot(&mut image, 0, 0x83, 2048, 100_000);
    set_mbr_slot(&mut image, 1, 0x05, 204_800, 50_000);
    let disk = Disk::new(image);
    let opened = disk.open().unwrap();
    assert!(opened.gpt.is_none());
    assert_eq!(opened.get_partition_count(), 2);
    match opened.get_partition(0) {
        Some(Partition::Mbr(p)) => assert_eq!(p.p_type, 0x83),
        _ => panic!("expected an MBR partition"),
    }
    assert!(opened.get_partition(2).is_none());
    assert_eq!(opened.get_attributes(0), None);
    assert_eq!(opened.get_attributes(1), None);
}

#[test]
fn disk_test_gpt() {
    let disk = Disk::new(gpt_image(3));
    let opened = disk.open().unwrap();
    assert!(opened.gpt.is_some());
    assert_eq!(opened.get_partition_count(), 3);
    assert_eq!(opened.get_attributes(0), Some(0x10));
    assert_eq!(opened.get_attributes(2), Some(0x30));
    match opened.get_partition(1) {
        Some(Partition::Gpt(p)) => {
            assert_eq!(p.starting_lba, 4096);
            assert_eq!(p.ending_lba, 6143);
            assert_eq!(p.attributes, 0x20);
        }
        _ => panic!("expected a GPT partition"),
    }
}

#[test]
fn gpt_out_of_range_is_absent() {
    let disk = Disk::new(gpt_image(3));
    let opened = disk.open().unwrap();
    assert!(opened.get_partition(3).is_none());
    assert!(opened.get_attributes(3).is_none());
    assert!(opened.get_partition(1000).is_none());
}

#[test]
fn guid_partition_table_test_gpt() {
    let mut image = gpt_image(3);
    set_gpt_name(&mut image, 1024, &[0x45, 0x46, 0x49, 0]); // "EFI"
    set_gpt_name(&mut image, 1024 + 128, &[0x53, 0x77, 0x61, 0x70, 0]); // "Swap"
    let gpt = GuidPartitionTable::new(&image, 512).unwrap();
    assert_eq!(gpt.signature, 0x5452_4150_2049_4645); // "EFI PART"
    assert_eq!(gpt.partition_entries_lba, 2);
    assert_eq!(gpt.number_of_partition_entries, 3);
    assert_eq!(gpt.size_of_partition_entry, 128);
    assert_eq!(gpt.get_partition_count(), 3);
    let partitions = gpt.get_partitions();
    assert_eq!(partitions[0].partition_name, "EFI");
    assert_eq!(partitions[1].partition_name, "Swap");
    assert_eq!(partitions[2].partition_name, "");
    assert_eq!(&partitions[0].partition_type_guid.to_string()[0..8], "00000001");
}

#[test]
fn gpt_name_stops_at_first_nul() {
    let mut image = gpt_image(1);
    set_gpt_name(&mut image, 1024, &[0x41, 0x42, 0, 0x43]); // "AB\0C"
    let gpt = GuidPartitionTable::new(&image, 512).unwrap();
    assert_eq!(gpt.partitions[0].partition_name, "AB");
}

#[test]
fn gpt_name_decodes_surrogate_pairs() {
    let mut image = gpt_image(1);
    set_gpt_name(&mut image, 1024, &[0x41, 0xD83D, 0xDE00, 0]); // "A" + U+1F600
    let gpt = GuidPartitionTable::new(&image, 512).unwrap();
    assert_eq!(gpt.partitions[0].partition_name, "A\u{1F600}");
}

#[test]
fn gpt_name_replaces_unpaired_surrogate() {
    let mut image = gpt_image(1);
    set_gpt_name(&mut image, 1024, &[0xD83D, 0x41, 0]); // high surrogate alone
    let gpt = GuidPartitionTable::new(&image, 512).unwrap();
    assert_eq!(gpt.partitions[0].partition_name, "\u{FFFD}A");
}

#[test]
fn export_round_trip() {
    let mut image = blank_image();
    set_mbr_slot(&mut image, 0, 0x83, 2048, 100_000);
    set_mbr_slot(&mut image, 2, 0x82, 204_800, 50_000);
    let disk = Disk::new(image.clone());
    let opened = disk.open().unwrap();
    let exported = opened.read_boot_record_to_file();
    assert_eq!(exported, image[0..512].to_vec());
    let reopened = MasterBootRecord::new(&exported).unwrap();
    assert_eq!(reopened.partitions, opened.mbr.partitions);
    assert_eq!(reopened.has_gpt, opened.mbr.has_gpt);
}

#[test]
fn short_image_is_an_error() {
    let disk = Disk::new(vec![0u8; 511]);
    assert_eq!(disk.open().err(), Some(DiskError::Truncated));
    assert_eq!(MasterBootRecord::new(&vec![0u8; 100]).err(), Some(DiskError::Truncated));
}

#[test]
fn truncated_gpt_is_an_error() {
    // Protective MBR but nothing after the boot sector.
    let mut image = vec![0u8; 512];
    image[446 + 4] = 0xEE;
    image[510] = 0x55;
    image[511] = 0xAA;
    let disk = Disk::new(image);
    assert_eq!(disk.open().err(), Some(DiskError::Truncated));
    // Header present but the entry array runs past the end of the image.
    let mut image = gpt_image(3);
    image.truncate(1024 + 200);
    let disk = Disk::new(image);
    assert_eq!(disk.open().err(), Some(DiskError::Truncated));
}

#[test]
fn protective_mbr_still_counts_one_slot() {
    let image = gpt_image(2);
    let mbr = MasterBootRecord::new(&image).unwrap();
    assert!(mbr.has_gpt);
    assert_eq!(mbr.get_partition_count(), 1);
    assert_eq!(mbr.get_partition(0).unwrap().p_type, 0xEE);
}

#[test]
fn gpt_entry_stride_is_honored() {
    // Entry size 256: entries step by 256 bytes, only 128 are decoded.
    let mut image = gpt_image(2);
    image[596..600].copy_from_slice(&256u32.to_le_bytes());
    let second = 1024 + 256;
    image[second] = 0x77;
    image[second + 48..second + 56].copy_from_slice(&0xABCDu64.to_le_bytes());
    let gpt = GuidPartitionTable::new(&image, 512).unwrap();
    assert_eq!(gpt.get_partition_count(), 2);
    assert_eq!(gpt.partitions[1].partition_type_guid, Guid::new(0x77, 0, 0, [0; 8]));
    assert_eq!(gpt.partitions[1].attributes, 0xABCD);
}

#[test]
fn gpt_with_no_entries() {
    let disk = Disk::new(gpt_image(0));
    let opened = disk.open().unwrap();
    assert!(opened.gpt.is_some());
    assert_eq!(opened.get_partition_count(), 0);
    assert!(opened.get_partition(0).is_none());
    assert!(opened.get_attributes(0).is_none());
}

#[test]
fn gpt_decodes_at_larger_block_size() {
    // Header at byte 4096, entries at LBA 2 of 4096-byte blocks.
    let mut image = vec![0u8; 1024 * 1024];
    image[4096..4104].copy_from_slice(b"EFI PART");
    image[4096 + 72..4096 + 80].copy_from_slice(&2u64.to_le_bytes());
    image[4096 + 80..4096 + 84].copy_from_slice(&1u32.to_le_bytes());
    image[4096 + 84..4096 + 88].copy_from_slice(&128u32.to_le_bytes());
    let base = 8192;
    image[base + 32..base + 40].copy_from_slice(&42u64.to_le_bytes());
    let gpt = GuidPartitionTable::new(&image, 4096).unwrap();
    assert_eq!(gpt.signature, 0x5452_4150_2049_4645);
    assert_eq!(gpt.get_partition_count(), 1);
    assert_eq!(gpt.partitions[0].starting_lba, 42);
}
