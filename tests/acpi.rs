use std::collections::HashMap;

use seraphine::acpi::{find_and_print_rsdp, find_and_print_rsdt, find_hpet_in_rsdt, read_hpet_table, ACPISDTHeader};
use seraphine::frame::EmptyFrameAllocator;

fn rsdp_bytes(revision: u8, rsdt: u32) -> Vec<u8> {
    let mut b = Vec::new();
    b.extend_from_slice(b"RSD PTR ");
    b.push(0x5A);
    b.extend_from_slice(b"BOCHS ");
    b.push(revision);
    b.extend_from_slice(&rsdt.to_le_bytes());
    b.extend_from_slice(&36u32.to_le_bytes());
    b.extend_from_slice(&0x0000_0000_07FE_1000u64.to_le_bytes());
    b.push(0xA5);
    b.extend_from_slice(&[0, 0, 0]);
    b
}

fn header_bytes(sig: &[u8; 4], length: u32) -> Vec<u8> {
    let mut b = Vec::new();
    b.extend_from_slice(sig);
    b.extend_from_slice(&length.to_le_bytes());
    b.push(1);
    b.push(0x77);
    b.extend_from_slice(b"BOCHS ");
    b.extend_from_slice(b"BXPCRSDT");
    b.extend_from_slice(&1u32.to_le_bytes());
    b.extend_from_slice(&0x4358_5042u32.to_le_bytes());
    b.extend_from_slice(&1u32.to_le_bytes());
    b
}

fn hpet_bytes() -> Vec<u8> {
    let mut b = header_bytes(b"HPET", 56);
    b.extend_from_slice(&0x8086_A201u32.to_le_bytes());
    b.extend_from_slice(&[0, 64, 0, 0]);
    b.extend_from_slice(&0xFED0_0000u64.to_le_bytes());
    b.push(0);
    b.extend_from_slice(&0x0080u16.to_le_bytes());
    b.push(0);
    b
}

#[test]
fn rsdp_found_at_aligned_offset() {
    let mut area = vec![0u8; 0x100];
    // a signature off the 16-byte grid is not a pointer
    area[0x05..0x0D].copy_from_slice(b"RSD PTR ");
    let p = rsdp_bytes(2, 0x07FE_2000);
    area[0x40..0x40 + 36].copy_from_slice(&p);
    let r = find_and_print_rsdp(&area).unwrap();
    assert_eq!(r.signature, b"RSD PTR ".to_vec());
    assert_eq!(r.checksum, 0x5A);
    assert_eq!(r.oem_id, b"BOCHS ".to_vec());
    assert_eq!(r.revision, 2);
    assert_eq!(r.rsdt_address, 0x07FE_2000);
    assert_eq!(r.length, 36);
    assert_eq!(r.xsdt_address, 0x07FE_1000);
    assert_eq!(r.extended_checksum, 0xA5);
    assert!(r.has_extended_fields());
}

#[test]
fn rsdp_absent() {
    assert!(find_and_print_rsdp(&vec![0u8; 0x1000]).is_none());
    assert!(find_and_print_rsdp(&[]).is_none());
    let mut area = vec![0u8; 0x30];
    area[0x10..0x18].copy_from_slice(b"RSD PTR ");
    // the whole pointer would run past the end of the area
    assert!(find_and_print_rsdp(&area).is_none());
}

#[test]
fn acpi_one_pointer_has_no_extended_fields() {
    let mut area = vec![0u8; 0x40];
    area[..36].copy_from_slice(&rsdp_bytes(0, 0x1000));
    assert!(!find_and_print_rsdp(&area).unwrap().has_extended_fields());
}

#[test]
fn rsdt_header_read_through_pointer() {
    let mut area = vec![0u8; 0x40];
    area[0x10..0x10 + 36].copy_from_slice(&rsdp_bytes(0, 0x07FE_2000));
    let read = |a: u32| if a == 0x07FE_2000 { header_bytes(b"RSDT", 0x34) } else { Vec::new() };
    let h = find_and_print_rsdt(&area, &read).unwrap();
    assert_eq!(h.signature, b"RSDT".to_vec());
    assert_eq!(h.length, 0x34);
    assert_eq!(h.revision, 1);
    assert_eq!(h.checksum, 0x77);
    assert_eq!(h.oem_id, b"BOCHS ".to_vec());
    assert_eq!(h.oem_table_id, b"BXPCRSDT".to_vec());
    assert_eq!(h.oem_revision, 1);
    assert_eq!(h.creator_id, 0x4358_5042);
    assert_eq!(h.creator_revision, 1);
    let unreadable = |_a: u32| vec![0u8; 10];
    assert!(find_and_print_rsdt(&area, &unreadable).is_none());
    assert!(find_and_print_rsdt(&vec![0u8; 0x40], &read).is_none());
}

#[test]
fn header_needs_full_length() {
    assert!(ACPISDTHeader::parse(&header_bytes(b"FACP", 36)[..35]).is_none());
    assert!(ACPISDTHeader::parse(&header_bytes(b"FACP", 36)).is_some());
}

#[test]
fn hpet_table_fields() {
    let t = read_hpet_table(&hpet_bytes()).unwrap();
    assert_eq!(t.header.signature, b"HPET".to_vec());
    assert_eq!(t.event_timer_block_id, 0x8086_A201);
    assert_eq!(t.base_address, 0xFED0_0000);
    assert_eq!(t.hpet_number, 0);
    assert_eq!(t.minimum_tick, 0x80);
    assert_eq!(t.page_protection, 0);
    let mut other = hpet_bytes();
    other[0] = b'X';
    assert!(read_hpet_table(&other).is_none());
    assert!(read_hpet_table(&hpet_bytes()[..55]).is_none());
}

#[test]
fn hpet_found_among_rsdt_entries() {
    let tables: HashMap<u32, Vec<u8>> = [
        (0x1000, header_bytes(b"FACP", 36)),
        (0x2000, hpet_bytes()),
        (0x3000, header_bytes(b"APIC", 36)),
    ]
    .into_iter()
    .collect();
    let read = |a: u32| tables.get(&a).cloned().unwrap_or_default();
    let mut rsdt = header_bytes(b"RSDT", 36 + 12);
    for a in [0x1000u32, 0x2000, 0x3000] {
        rsdt.extend_from_slice(&a.to_le_bytes());
    }
    assert_eq!(find_hpet_in_rsdt(&rsdt, &read), Some(0x2000));
    // entries past the stated length are not looked at
    let mut short = header_bytes(b"RSDT", 36 + 4);
    for a in [0x1000u32, 0x2000] {
        short.extend_from_slice(&a.to_le_bytes());
    }
    assert_eq!(find_hpet_in_rsdt(&short, &read), None);
    assert_eq!(find_hpet_in_rsdt(&[], &read), None);
}

#[test]
fn empty_allocator_has_no_frames() {
    let mut a = EmptyFrameAllocator;
    assert_eq!(a.allocate_frame(), None);
    assert_eq!(a.allocate_frame(), None);
}
