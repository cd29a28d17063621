//! Discovery of ACPI tables: the root system description pointer in the BIOS
//! area, system description table headers, and the HPET table.
//!
//! Memory is handed in as bytes: the BIOS area as one buffer, and other
//! tables through a function value that returns the bytes of the table at a
//! physical address.
use vstd::prelude::*;
use crate::bytes::{
    bytes_match, copy_range, holds_at, read_le16, read_le32, read_le64, spec_le16, spec_le32, spec_le64,
};

verus! {

/// Size of an ACPI 2.0 root system description pointer.
pub const RSDP_SIZE: usize = 36;
/// Size of a system description table header.
pub const SDT_HEADER_SIZE: usize = 36;
/// Size of the HPET description table.
pub const HPET_TABLE_SIZE: usize = 56;
/// Alignment of the root system description pointer in the BIOS area.
pub const RSDP_ALIGN: usize = 16;

/// "RSD PTR "
pub open spec fn rsdp_signature() -> Seq<u8> {
    seq![0x52u8, 0x53u8, 0x44u8, 0x20u8, 0x50u8, 0x54u8, 0x52u8, 0x20u8]
}

/// "HPET"
pub open spec fn hpet_signature() -> Seq<u8> {
    seq![0x48u8, 0x50u8, 0x45u8, 0x54u8]
}

/// The root system description pointer.
#[derive(Clone, Debug)]
pub struct Rsdp {
    pub signature: Vec<u8>,
    pub checksum: u8,
    pub oem_id: Vec<u8>,
    /// 0 for ACPI 1.0; 2 and above carry the extended fields.
    pub revision: u8,
    pub rsdt_address: u32,
    pub length: u32,
    pub xsdt_address: u64,
    pub extended_checksum: u8,
}

/// `r` is the pointer whose 36 bytes start at `off` in `b`.
pub open spec fn rsdp_at(b: Seq<u8>, off: int, r: Rsdp) -> bool {
    &&& r.signature@ == b.subrange(off, off + 8)
    &&& r.checksum == b[off + 8]
    &&& r.oem_id@ == b.subrange(off + 9, off + 15)
    &&& r.revision == b[off + 15]
    &&& r.rsdt_address == spec_le32(b, off + 16)
    &&& r.length == spec_le32(b, off + 20)
    &&& r.xsdt_address == spec_le64(b, off + 24)
    &&& r.extended_checksum == b[off + 32]
}

impl Rsdp {
    fn parse(b: &[u8], off: usize) -> (r: Rsdp)
        requires
            off + RSDP_SIZE <= b@.len(),
        ensures
            rsdp_at(b@, off as int, r),
    {
        assert(off + RSDP_SIZE <= b.len());
        Rsdp {
            signature: copy_range(b, off, off + 8),
            checksum: b[off + 8],
            oem_id: copy_range(b, off + 9, off + 15),
            revision: b[off + 15],
            rsdt_address: read_le32(b, off + 16),
            length: read_le32(b, off + 20),
            xsdt_address: read_le64(b, off + 24),
            extended_checksum: b[off + 32],
        }
    }

    /// Whether the length, extended table address and extended checksum are
    /// present (ACPI 2.0 and later).
    pub fn has_extended_fields(&self) -> (r: bool)
        ensures
            r == (self.revision >= 2),
    {
        self.revision >= 2
    }
}

/// `off` is a place where a whole pointer may start: 16-byte aligned, with
/// all 36 bytes inside the area.
pub open spec fn rsdp_candidate(b: Seq<u8>, off: int) -> bool {
    0 <= off && off % 16 == 0 && off + 36 <= b.len()
}

/// The first place in the area where the pointer's signature appears is `off`.
pub open spec fn first_rsdp_at(b: Seq<u8>, off: int) -> bool {
    &&& rsdp_candidate(b, off)
    &&& holds_at(b, off, rsdp_signature())
    &&& forall|o: int| #[trigger] rsdp_candidate(b, o) && o < off ==> !holds_at(b, o, rsdp_signature())
}

/// The pointer's signature appears nowhere in the area.
pub open spec fn no_rsdp(b: Seq<u8>) -> bool {
    forall|o: int| #[trigger] rsdp_candidate(b, o) ==> !holds_at(b, o, rsdp_signature())
}

/// Looks through the BIOS area for the root system description pointer: at
/// every 16-byte boundary, the first whose 8-byte signature is "RSD PTR ".
pub fn find_and_print_rsdp(area: &[u8]) -> (r: Option<Rsdp>)
    ensures
        match r {
            Some(p) => exists|off: int| #[trigger] first_rsdp_at(area@, off) && rsdp_at(area@, off, p),
            None => no_rsdp(area@),
        },
{
    let sig: [u8; 8] = [0x52u8, 0x53u8, 0x44u8, 0x20u8, 0x50u8, 0x54u8, 0x52u8, 0x20u8];
    assert(sig@ =~= rsdp_signature());
    if area.len() < RSDP_SIZE {
        return None;
    }
    let mut off: usize = 0;
    while off <= area.len() - RSDP_SIZE
        invariant
            area@.len() >= RSDP_SIZE,
            sig@ == rsdp_signature(),
            off % 16 == 0,
            off <= area@.len(),
            forall|o: int| #[trigger] rsdp_candidate(area@, o) && o < off ==> !holds_at(area@, o, rsdp_signature()),
        decreases area@.len() - off,
    {
        if bytes_match(area, off, &sig) {
            let p = Rsdp::parse(area, off);
            assert(first_rsdp_at(area@, off as int));
            return Some(p);
        }
        off = off + RSDP_ALIGN;
    }
    assert forall|o: int| #[trigger] rsdp_candidate(area@, o) implies !holds_at(area@, o, rsdp_signature()) by {
        assert(o < off);
    }
    None
}

/// The header shared by all system description tables.
#[derive(Clone, Debug)]
#[allow(non_camel_case_types)]
pub struct ACPISDTHeader {
    pub signature: Vec<u8>,
    /// Length of the whole table, header included.
    pub length: u32,
    pub revision: u8,
    pub checksum: u8,
    pub oem_id: Vec<u8>,
    pub oem_table_id: Vec<u8>,
    pub oem_revision: u32,
    pub creator_id: u32,
    pub creator_revision: u32,
}

/// `h` is the header held by the first 36 bytes of `b`.
pub open spec fn header_of(b: Seq<u8>, h: ACPISDTHeader) -> bool {
    &&& h.signature@ == b.subrange(0, 4)
    &&& h.length == spec_le32(b, 4)
    &&& h.revision == b[8]
    &&& h.checksum == b[9]
    &&& h.oem_id@ == b.subrange(10, 16)
    &&& h.oem_table_id@ == b.subrange(16, 24)
    &&& h.oem_revision == spec_le32(b, 24)
    &&& h.creator_id == spec_le32(b, 28)
    &&& h.creator_revision == spec_le32(b, 32)
}

impl ACPISDTHeader {
    /// Decodes a table header; `None` when fewer than 36 bytes are given.
    pub fn parse(b: &[u8]) -> (r: Option<ACPISDTHeader>)
        ensures
            r is None <==> b@.len() < SDT_HEADER_SIZE,
            r matches Some(h) ==> header_of(b@, h),
    {
        if b.len() < SDT_HEADER_SIZE {
            return None;
        }
        Some(ACPISDTHeader {
            signature: copy_range(b, 0, 4),
            length: read_le32(b, 4),
            revision: b[8],
            checksum: b[9],
            oem_id: copy_range(b, 10, 16),
            oem_table_id: copy_range(b, 16, 24),
            oem_revision: read_le32(b, 24),
            creator_id: read_le32(b, 28),
            creator_revision: read_le32(b, 32),
        })
    }
}

/// Finds the root system description pointer in the BIOS area, reads the
/// table it points to through `read_table` (the bytes of the table at a
/// physical address) and decodes that table's header.
pub fn find_and_print_rsdt<F: Fn(u32) -> Vec<u8>>(area: &[u8], read_table: &F) -> (r: Option<ACPISDTHeader>)
    requires
        forall|a: u32| call_requires(*read_table, (a,)),
    ensures
        match r {
            Some(h) => exists|off: int, bytes: Vec<u8>|
                #[trigger] first_rsdp_at(area@, off) && #[trigger] call_ensures(*read_table, (spec_le32(area@, off + 16),), bytes)
                    && header_of(bytes@, h),
            None => no_rsdp(area@) || exists|off: int, bytes: Vec<u8>|
                #[trigger] first_rsdp_at(area@, off) && #[trigger] call_ensures(*read_table, (spec_le32(area@, off + 16),), bytes)
                    && bytes@.len() < SDT_HEADER_SIZE,
        },
{
    match find_and_print_rsdp(area) {
        Some(p) => {
            let ghost off = choose|off: int| #[trigger] first_rsdp_at(area@, off) && rsdp_at(area@, off, p);
            let bytes = read_table(p.rsdt_address);
            let h = ACPISDTHeader::parse(&bytes);
            assert(first_rsdp_at(area@, off) && call_ensures(*read_table, (spec_le32(area@, off + 16),), bytes));
            h
        },
        None => None,
    }
}

/// The HPET description table.
#[derive(Clone, Debug)]
pub struct HpetTable {
    pub header: ACPISDTHeader,
    pub event_timer_block_id: u32,
    /// Address field of the base-address structure (bytes 44 to 51).
    pub base_address: u64,
    pub hpet_number: u8,
    pub minimum_tick: u16,
    pub page_protection: u8,
}

/// `t` is the HPET table held by `b`.
pub open spec fn hpet_of(b: Seq<u8>, t: HpetTable) -> bool {
    &&& header_of(b, t.header)
    &&& t.event_timer_block_id == spec_le32(b, 36)
    &&& t.base_address == spec_le64(b, 44)
    &&& t.hpet_number == b[52]
    &&& t.minimum_tick == spec_le16(b, 53)
    &&& t.page_protection == b[55]
}

/// Decodes an HPET table; `None` when it is shorter than the table or its
/// signature is not "HPET".
pub fn read_hpet_table(b: &[u8]) -> (r: Option<HpetTable>)
    ensures
        r is Some <==> (b@.len() >= HPET_TABLE_SIZE && holds_at(b@, 0, hpet_signature())),
        r matches Some(t) ==> hpet_of(b@, t),
{
    let sig: [u8; 4] = [0x48u8, 0x50u8, 0x45u8, 0x54u8];
    assert(sig@ =~= hpet_signature());
    if b.len() < HPET_TABLE_SIZE || !bytes_match(b, 0, &sig) {
        return None;
    }
    let header = match ACPISDTHeader::parse(b) {
        Some(h) => h,
        None => {
            return None;
        },
    };
    Some(HpetTable {
        header,
        event_timer_block_id: read_le32(b, 36),
        base_address: read_le64(b, 44),
        hpet_number: b[52],
        minimum_tick: read_le16(b, 53),
        page_protection: b[55],
    })
}

/// Number of 32-bit table addresses in a root table: those that lie both
/// within its stated length and within the bytes given.
pub open spec fn rsdt_entry_count(b: Seq<u8>) -> int {
    if b.len() < 36 {
        0
    } else {
        let stated = spec_le32(b, 4) as int;
        let end = if stated < b.len() { stated } else { b.len() as int };
        if end < 36 { 0 } else { (end - 36) / 4 }
    }
}

/// The `i`-th table address of a root table.
pub open spec fn rsdt_entry(b: Seq<u8>, i: int) -> u32 {
    spec_le32(b, 36 + 4 * i)
}

/// The table at entry `i` was read and is not the HPET table.
pub open spec fn entry_passed_over<F: Fn(u32) -> Vec<u8>>(read_table: F, b: Seq<u8>, i: int) -> bool {
    exists|bytes: Vec<u8>|
        #[trigger] call_ensures(read_table, (rsdt_entry(b, i),), bytes) && !holds_at(bytes@, 0, hpet_signature())
}

/// Walks the table addresses of a root table (`rsdt`, the whole table) and
/// returns the first whose table, read through `read_table`, carries the
/// "HPET" signature.
pub fn find_hpet_in_rsdt<F: Fn(u32) -> Vec<u8>>(rsdt: &[u8], read_table: &F) -> (r: Option<u32>)
    requires
        forall|a: u32| call_requires(*read_table, (a,)),
    ensures
        match r {
            Some(a) => exists|i: int, bytes: Vec<u8>|
                0 <= i < rsdt_entry_count(rsdt@) && a == rsdt_entry(rsdt@, i)
                    && #[trigger] call_ensures(*read_table, (rsdt_entry(rsdt@, i),), bytes)
                    && holds_at(bytes@, 0, hpet_signature())
                    && forall|j: int| 0 <= j < i ==> #[trigger] entry_passed_over(*read_table, rsdt@, j),
            None => forall|j: int| 0 <= j < rsdt_entry_count(rsdt@) ==> #[trigger] entry_passed_over(*read_table, rsdt@, j),
        },
{
    let sig: [u8; 4] = [0x48u8, 0x50u8, 0x45u8, 0x54u8];
    assert(sig@ =~= hpet_signature());
    if rsdt.len() < SDT_HEADER_SIZE {
        return None;
    }
    let stated = read_le32(rsdt, 4) as usize;
    let end = if stated < rsdt.len() { stated } else { rsdt.len() };
    if end < SDT_HEADER_SIZE {
        return None;
    }
    let count = (end - SDT_HEADER_SIZE) / 4;
    assert(count == rsdt_entry_count(rsdt@));
    let mut i: usize = 0;
    while i < count
        invariant
            count == rsdt_entry_count(rsdt@),
            SDT_HEADER_SIZE + 4 * count <= rsdt@.len(),
            i <= count,
            sig@ == hpet_signature(),
            forall|a: u32| call_requires(*read_table, (a,)),
            forall|j: int| 0 <= j < i ==> #[trigger] entry_passed_over(*read_table, rsdt@, j),
        decreases count - i,
    {
        let addr = read_le32(rsdt, SDT_HEADER_SIZE + 4 * i);
        let bytes = read_table(addr);
        assert(addr == rsdt_entry(rsdt@, i as int));
        assert(call_ensures(*read_table, (rsdt_entry(rsdt@, i as int),), bytes));
        if bytes.len() >= 4 && bytes_match(&bytes, 0, &sig) {
            return Some(addr);
        }
        assert(entry_passed_over(*read_table, rsdt@, i as int));
        i = i + 1;
    }
    None
}

} // verus!
