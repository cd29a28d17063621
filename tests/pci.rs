use std::collections::HashMap;

use seraphine::addr::is_canonical;
use seraphine::pci::{
    config_byte, config_word, debug_storage_scan, find_first_nvme, get_nvme_base_addr, get_pci_device, pci_config_address, read_pci_bar,
    resolve_mmio_base, PciDevice, StorageCodes,
};

/// A configuration space made of a few present functions; every other
/// address reads as all ones.
struct ConfigSpace {
    dwords: HashMap<u32, u32>,
}

impl ConfigSpace {
    fn new() -> Self {
        ConfigSpace { dwords: HashMap::new() }
    }

    fn add(&mut self, bus: u8, device: u8, function: u8, vendor: u16, device_id: u16, class: u8, subclass: u8) {
        let base = pci_config_address(bus, device, function, 0);
        self.dwords.insert(base, vendor as u32 | (device_id as u32) << 16);
        let class_dword = 0x02 | (0x01 << 8) | ((subclass as u32) << 16) | ((class as u32) << 24);
        self.dwords.insert(base + 8, class_dword);
    }

    fn set(&mut self, address: u32, value: u32) {
        self.dwords.insert(address, value);
    }

    fn read(&self, address: u32) -> u32 {
        *self.dwords.get(&address).unwrap_or(&0xFFFF_FFFF)
    }
}

#[test]
fn config_address_encoding() {
    assert_eq!(pci_config_address(1, 2, 0, 0x08), 0x8001_1008);
    assert_eq!(pci_config_address(0, 0, 0, 0x00), 0x8000_0000);
    assert_eq!(pci_config_address(255, 31, 7, 0xFF), 0x80FF_FFFC);
    assert_eq!(pci_config_address(0, 0, 0, 0x0B), 0x8000_0008);
}

#[test]
fn bar_combination() {
    assert_eq!(resolve_mmio_base(0x1234_5604, 0x0000_0002), 0x0000_0002_1234_5600);
    assert_eq!(resolve_mmio_base(0xFEBF_000F, 0), 0xFEBF_0000);
    assert_eq!(resolve_mmio_base(0xFFFF_FFFF, 0xFFFF_FFFF), 0xFFFF_FFFF_FFFF_FFF0);
}

#[test]
fn word_and_byte_extraction() {
    let dword = 0x0108_0201;
    assert_eq!(config_byte(dword, 0x08), 0x01);
    assert_eq!(config_byte(dword, 0x09), 0x02);
    assert_eq!(config_byte(dword, 0x0A), 0x08);
    assert_eq!(config_byte(dword, 0x0B), 0x01);
    assert_eq!(config_word(0x5845_8086, 0x00), 0x8086);
    assert_eq!(config_word(0x5845_8086, 0x02), 0x5845);
}

#[test]
fn empty_slot_is_absent() {
    let space = ConfigSpace::new();
    let read = |a: u32| space.read(a);
    assert_eq!(get_pci_device(&read, 0, 3, 0), None);
}

#[test]
fn present_slot_is_decoded() {
    let mut space = ConfigSpace::new();
    space.add(0, 4, 1, 0x1B36, 0x0010, 0x01, 0x08);
    let read = |a: u32| space.read(a);
    let d = get_pci_device(&read, 0, 4, 1).unwrap();
    assert_eq!(
        d,
        PciDevice {
            bus: 0,
            device: 4,
            function: 1,
            vendor_id: 0x1B36,
            device_id: 0x0010,
            class_code: 0x01,
            subclass_code: 0x08,
            prog_if: 0x01,
            revision_id: 0x02,
        }
    );
}

#[test]
fn scan_finds_nothing_on_empty_bus() {
    let space = ConfigSpace::new();
    let read = |a: u32| space.read(a);
    assert_eq!(find_first_nvme(&read), None);
}

#[test]
fn scan_skips_other_storage_and_returns_first_nvme() {
    let mut space = ConfigSpace::new();
    space.add(0, 1, 0, 0x8086, 0x2922, 0x01, 0x06);
    space.add(0, 2, 0, 0x8086, 0x1234, 0x02, 0x08);
    space.add(1, 2, 0, 0x1B36, 0x0010, 0x01, 0x08);
    space.add(3, 0, 0, 0x144D, 0xA808, 0x01, 0x08);
    let read = |a: u32| space.read(a);
    let d = find_first_nvme(&read).unwrap();
    assert_eq!((d.bus, d.device, d.function), (1, 2, 0));
    assert_eq!(d.vendor_id, 0x1B36);
}

#[test]
fn scan_reaches_last_device_and_function() {
    let mut space = ConfigSpace::new();
    space.add(255, 31, 7, 0x1B36, 0x0010, 0x01, 0x08);
    let read = |a: u32| space.read(a);
    let d = find_first_nvme(&read).unwrap();
    assert_eq!((d.bus, d.device, d.function), (255, 31, 7));
}

#[test]
fn scan_stops_at_first_match() {
    let mut space = ConfigSpace::new();
    space.add(0, 3, 0, 0x1B36, 0x0010, 0x01, 0x08);
    let reads = std::cell::Cell::new(0u32);
    let read = |a: u32| {
        reads.set(reads.get() + 1);
        space.read(a)
    };
    let d = find_first_nvme(&read).unwrap();
    assert_eq!(d.device, 3);
    // three empty device slots of eight functions, then the two header reads
    assert_eq!(reads.get(), 3 * 8 + 2);
}

#[test]
fn bars_are_read_and_combined() {
    let mut space = ConfigSpace::new();
    space.add(0, 4, 0, 0x1B36, 0x0010, 0x01, 0x08);
    let base = pci_config_address(0, 4, 0, 0);
    space.set(base + 0x10, 0x1234_5604);
    space.set(base + 0x14, 0x0000_0002);
    let read = |a: u32| space.read(a);
    assert_eq!(read_pci_bar(&read, 0, 4, 0, 0), 0x1234_5604);
    assert_eq!(read_pci_bar(&read, 0, 4, 0, 1), 0x0000_0002);
    assert_eq!(get_nvme_base_addr(&read, 0, 4, 0), 0x0000_0002_1234_5600);
    // the last register whose offset fits in a byte: 0x10 + 4 * 59 = 0xFC
    space.set(base + 0xFC, 0xCAFE_F00D);
    let read = |a: u32| space.read(a);
    assert_eq!(read_pci_bar(&read, 0, 4, 0, 59), 0xCAFE_F00D);
}

#[test]
fn storage_kinds() {
    assert_eq!(StorageCodes::from_subclass(0x01), StorageCodes::IDE);
    assert_eq!(StorageCodes::from_subclass(0x06), StorageCodes::SATA);
    assert_eq!(StorageCodes::from_subclass(0x08), StorageCodes::NVMe);
    assert_eq!(StorageCodes::from_subclass(0x05), StorageCodes::Unknown);
    assert_eq!(StorageCodes::NVMe.to_string(), "NVMe");
    assert_eq!(StorageCodes::IDE.to_string(), "IDE");
    assert_eq!(StorageCodes::SATA.to_string(), "SATA");
    assert_eq!(StorageCodes::Unknown.to_string(), "Unknown");
}

#[test]
fn canonical_addresses() {
    assert!(is_canonical(0));
    assert!(is_canonical(0x0000_7FFF_FFFF_FFFF));
    assert!(is_canonical(0xFFFF_8000_0000_0000));
    assert!(is_canonical(0xFFFF_FFFF_FFFF_FFFF));
    assert!(!is_canonical(0x0000_8000_0000_0000));
    assert!(!is_canonical(0xFFFF_7FFF_FFFF_FFFF));
}

#[test]
fn storage_scan_lists_every_storage_controller_in_order() {
    let mut space = ConfigSpace::new();
    space.add(2, 0, 0, 0x144D, 0xA808, 0x01, 0x08);
    space.add(0, 1, 0, 0x8086, 0x2922, 0x01, 0x06);
    space.add(0, 2, 0, 0x8086, 0x100E, 0x02, 0x00);
    space.add(0, 1, 3, 0x8086, 0x7010, 0x01, 0x01);
    let read = |a: u32| space.read(a);
    let found = debug_storage_scan(&read);
    let places: Vec<(u8, u8, u8)> = found.iter().map(|d| (d.bus, d.device, d.function)).collect();
    assert_eq!(places, vec![(0, 1, 0), (0, 1, 3), (2, 0, 0)]);
    assert_eq!(StorageCodes::from_subclass(found[1].subclass_code), StorageCodes::IDE);
    assert!(debug_storage_scan(&|_a: u32| 0xFFFF_FFFF).is_empty());
}
