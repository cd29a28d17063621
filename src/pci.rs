//! PCI configuration-space addressing and the search for an NVMe controller.
use vstd::prelude::*;

verus! {

/// Highest bus number of the configuration mechanism.
pub const MAX_BUS: u32 = 255;
/// Number of device slots on a bus.
pub const DEVICES_PER_BUS: u32 = 32;
/// Number of functions of a device.
pub const FUNCTIONS_PER_DEVICE: u32 = 8;

/// The configuration-space address word for a register of a function:
/// the enable bit, bus, device, function and the dword-aligned offset.
pub open spec fn spec_config_address(bus: u8, device: u8, function: u8, offset: u8) -> u32 {
    0x8000_0000u32 | ((bus as u32) << 16u32) | ((device as u32) << 11u32) | ((function as u32) << 8u32) | ((offset as u32) & 0xFCu32)
}

/// Builds the address word written to the configuration address port.
pub fn pci_config_address(bus: u8, device: u8, function: u8, offset: u8) -> (r: u32)
    ensures
        r == spec_config_address(bus, device, function, offset),
{
    let bus = bus as u32;
    let device = device as u32;
    let function = function as u32;
    let offset = offset as u32;
    0x8000_0000u32 | (bus << 16u32) | (device << 11u32) | (function << 8u32) | (offset & 0xFCu32)
}

/// The 16-bit word at `offset` within a configuration dword read from the
/// dword-aligned address below it.
pub open spec fn spec_config_word(dword: u32, offset: u8) -> u16 {
    ((dword >> (((offset as u32) & 2u32) * 8u32)) & 0xFFFFu32) as u16
}

/// The byte at `offset` within a configuration dword read from the
/// dword-aligned address below it.
pub open spec fn spec_config_byte(dword: u32, offset: u8) -> u8 {
    ((dword >> (((offset as u32) & 3u32) * 8u32)) & 0xFFu32) as u8
}

/// Extracts a word-granularity configuration register from its dword.
pub fn config_word(dword: u32, offset: u8) -> (r: u16)
    ensures
        r == spec_config_word(dword, offset),
{
    let o = offset as u32;
    assert(o & 2u32 <= 2u32) by (bit_vector);
    let shift: u32 = (o & 2u32) * 8u32;
    assert((dword >> shift) & 0xFFFFu32 <= 0xFFFFu32) by (bit_vector);
    ((dword >> shift) & 0xFFFFu32) as u16
}

/// Extracts a byte-granularity configuration register from its dword.
pub fn config_byte(dword: u32, offset: u8) -> (r: u8)
    ensures
        r == spec_config_byte(dword, offset),
{
    let o = offset as u32;
    assert(o & 3u32 <= 3u32) by (bit_vector);
    let shift: u32 = (o & 3u32) * 8u32;
    assert((dword >> shift) & 0xFFu32 <= 0xFFu32) by (bit_vector);
    ((dword >> shift) & 0xFFu32) as u8
}

/// Identification of one PCI function, as read from its configuration header.
#[derive(Clone, Copy, Debug, PartialEq, Eq, Structural)]
pub struct PciDevice {
    pub bus: u8,
    pub device: u8,
    pub function: u8,
    pub vendor_id: u16,
    pub device_id: u16,
    pub class_code: u8,
    pub subclass_code: u8,
    pub prog_if: u8,
    pub revision_id: u8,
}

/// Vendor id that signals an empty slot.
pub const NO_VENDOR: u16 = 0xFFFF;
/// Class code of mass-storage controllers.
pub const CLASS_MASS_STORAGE: u8 = 0x01;
/// Subclass code of NVMe controllers.
pub const SUBCLASS_NVME: u8 = 0x08;
/// Configuration offset of the dword holding vendor and device ids.
pub const ID_OFFSET: u8 = 0x00;
/// Configuration offset of the dword holding revision, prog-if, subclass and class.
pub const CLASS_OFFSET: u8 = 0x08;

/// The descriptor of a present function whose identification dword is `ids`
/// and whose class dword is `class`.
pub open spec fn spec_decode_header(bus: u8, device: u8, function: u8, ids: u32, class: u32) -> PciDevice {
    PciDevice {
        bus,
        device,
        function,
        vendor_id: spec_config_word(ids, 0x00),
        device_id: spec_config_word(ids, 0x02),
        class_code: spec_config_byte(class, 0x0B),
        subclass_code: spec_config_byte(class, 0x0A),
        prog_if: spec_config_byte(class, 0x09),
        revision_id: spec_config_byte(class, 0x08),
    }
}

/// What probing a function yields from its two header dwords: nothing when
/// the vendor id marks the slot empty, its descriptor otherwise.
pub open spec fn spec_probe_outcome(bus: u8, device: u8, function: u8, ids: u32, class: u32) -> Option<PciDevice> {
    if spec_config_word(ids, 0x00) == NO_VENDOR {
        None
    } else {
        Some(spec_decode_header(bus, device, function, ids, class))
    }
}

/// Whether a probe outcome is an NVMe mass-storage controller.
pub open spec fn spec_is_nvme(o: Option<PciDevice>) -> bool {
    match o {
        Some(d) => d.class_code == CLASS_MASS_STORAGE && d.subclass_code == SUBCLASS_NVME,
        None => false,
    }
}

/// `read` returned `v` for the configuration register at `offset` of a function.
pub open spec fn read_gave<F: Fn(u32) -> u32>(read: F, bus: u8, device: u8, function: u8, offset: u8, v: u32) -> bool {
    call_ensures(read, (spec_config_address(bus, device, function, offset),), v)
}

/// `ids` and `class` are what the reads of a function's header returned; the
/// class dword is read only for a present function.
pub open spec fn header_seen<F: Fn(u32) -> u32>(read: F, bus: u8, device: u8, function: u8, ids: u32, class: u32) -> bool {
    &&& read_gave(read, bus, device, function, ID_OFFSET, ids)
    &&& spec_config_word(ids, 0x00) != NO_VENDOR ==> read_gave(read, bus, device, function, CLASS_OFFSET, class)
}

/// Decodes the identification of a present function from its header dwords.
fn decode_header(bus: u8, device: u8, function: u8, ids: u32, class: u32) -> (r: PciDevice)
    ensures
        r == spec_decode_header(bus, device, function, ids, class),
{
    PciDevice {
        bus,
        device,
        function,
        vendor_id: config_word(ids, 0x00),
        device_id: config_word(ids, 0x02),
        class_code: config_byte(class, 0x0B),
        subclass_code: config_byte(class, 0x0A),
        prog_if: config_byte(class, 0x09),
        revision_id: config_byte(class, 0x08),
    }
}

/// Reads the header of one function through `read` (which returns the
/// configuration dword at an address word) and returns its descriptor, or
/// `None` when the slot is empty.
pub fn get_pci_device<F: Fn(u32) -> u32>(read: &F, bus: u8, device: u8, function: u8) -> (r: Option<PciDevice>)
    requires
        forall|a: u32| call_requires(*read, (a,)),
    ensures
        exists|ids: u32, class: u32|
            #[trigger] header_seen(*read, bus, device, function, ids, class)
                && r == spec_probe_outcome(bus, device, function, ids, class),
{
    let ids = read(pci_config_address(bus, device, function, ID_OFFSET));
    if config_word(ids, 0x00) == NO_VENDOR {
        assert(header_seen(*read, bus, device, function, ids, 0));
        return None;
    }
    let class = read(pci_config_address(bus, device, function, CLASS_OFFSET));
    let d = decode_header(bus, device, function, ids, class);
    assert(header_seen(*read, bus, device, function, ids, class));
    Some(d)
}

/// Number of bus/device/function slots that the enumeration visits.
pub const SLOT_COUNT: u32 = 65536;

/// Position of a function in enumeration order: bus outermost, then device,
/// then function.
pub open spec fn slot_index(bus: u8, device: u8, function: u8) -> int {
    bus as int * 256 + device as int * 8 + function as int
}

/// Bus of the function at an enumeration position.
pub open spec fn slot_bus(s: u32) -> u8 {
    (s >> 8u32) as u8
}

/// Device of the function at an enumeration position.
pub open spec fn slot_device(s: u32) -> u8 {
    ((s >> 3u32) & 31u32) as u8
}

/// Function number of the function at an enumeration position.
pub open spec fn slot_function(s: u32) -> u8 {
    (s & 7u32) as u8
}

/// The function at enumeration position `s` was read and is not an NVMe
/// controller (empty, or of another class).
pub open spec fn passed_over<F: Fn(u32) -> u32>(read: F, s: u32) -> bool {
    exists|ids: u32, class: u32|
        #[trigger] header_seen(read, slot_bus(s), slot_device(s), slot_function(s), ids, class)
            && !spec_is_nvme(spec_probe_outcome(slot_bus(s), slot_device(s), slot_function(s), ids, class))
}

proof fn lemma_slot_parts(s: u32)
    requires
        s < SLOT_COUNT,
    ensures
        slot_index(slot_bus(s), slot_device(s), slot_function(s)) == s as int,
        slot_device(s) < 32,
        slot_function(s) < 8,
{
    assert((s >> 8u32) * 256 + ((s >> 3u32) & 31u32) * 8 + (s & 7u32) == s && (s >> 8u32) < 256
        && ((s >> 3u32) & 31u32) < 32 && (s & 7u32) < 8) by (bit_vector)
        requires
            s < 65536u32,
    ;
}

/// Walks every bus (0 to 255), device (0 to 31) and function (0 to 7), bus
/// outermost, and returns the first present function whose class is mass
/// storage and whose subclass is NVMe; the walk stops there.
pub fn find_first_nvme<F: Fn(u32) -> u32>(read: &F) -> (r: Option<PciDevice>)
    requires
        forall|a: u32| call_requires(*read, (a,)),
    ensures
        match r {
            Some(d) => {
                &&& d.device < 32 && d.function < 8
                &&& d.class_code == CLASS_MASS_STORAGE && d.subclass_code == SUBCLASS_NVME
                &&& exists|ids: u32, class: u32|
                    #[trigger] header_seen(*read, d.bus, d.device, d.function, ids, class)
                        && spec_probe_outcome(d.bus, d.device, d.function, ids, class) == Some(d)
                &&& forall|t: u32| 0 <= t < slot_index(d.bus, d.device, d.function) ==> passed_over(*read, t)
            },
            None => forall|t: u32| t < SLOT_COUNT ==> passed_over(*read, t),
        },
{
    let mut s: u32 = 0;
    while s < SLOT_COUNT
        invariant
            s <= SLOT_COUNT,
            forall|a: u32| call_requires(*read, (a,)),
            forall|t: u32| t < s ==> passed_over(*read, t),
        decreases SLOT_COUNT - s,
    {
        let bus = (s >> 8u32) as u8;
        let device = ((s >> 3u32) & 31u32) as u8;
        let function = (s & 7u32) as u8;
        proof {
            lemma_slot_parts(s);
        }
        let found = get_pci_device(read, bus, device, function);
        let ghost (ids, class) = choose|ids: u32, class: u32|
            #[trigger] header_seen(*read, bus, device, function, ids, class)
                && found == spec_probe_outcome(bus, device, function, ids, class);
        match found {
            Some(d) => {
                if d.class_code == CLASS_MASS_STORAGE && d.subclass_code == SUBCLASS_NVME {
                    assert(slot_index(d.bus, d.device, d.function) == s);
                    return Some(d);
                }
            },
            None => {},
        }
        assert(passed_over(*read, s));
        s = s + 1;
    }
    None
}

/// Whether a probe outcome is a mass-storage controller of any kind.
pub open spec fn spec_is_storage(o: Option<PciDevice>) -> bool {
    match o {
        Some(d) => d.class_code == CLASS_MASS_STORAGE,
        None => false,
    }
}

/// The mass-storage controllers among the first `n` probe outcomes, in order.
pub open spec fn storage_among(outcomes: Seq<Option<PciDevice>>, n: nat) -> Seq<PciDevice>
    decreases n,
{
    if n == 0 {
        Seq::empty()
    } else {
        let before = storage_among(outcomes, (n - 1) as nat);
        if spec_is_storage(outcomes[n - 1]) {
            before.push(outcomes[n - 1]->Some_0)
        } else {
            before
        }
    }
}

/// `outcome` is what probing the function at enumeration position `s` gave.
pub open spec fn probed<F: Fn(u32) -> u32>(read: F, s: u32, outcome: Option<PciDevice>) -> bool {
    exists|ids: u32, class: u32|
        #[trigger] header_seen(read, slot_bus(s), slot_device(s), slot_function(s), ids, class)
            && outcome == spec_probe_outcome(slot_bus(s), slot_device(s), slot_function(s), ids, class)
}

/// Walks every bus, device and function in enumeration order and lists the
/// mass-storage controllers found, of every subclass, in that order.
pub fn debug_storage_scan<F: Fn(u32) -> u32>(read: &F) -> (r: Vec<PciDevice>)
    requires
        forall|a: u32| call_requires(*read, (a,)),
    ensures
        exists|outcomes: Seq<Option<PciDevice>>|
            outcomes.len() == SLOT_COUNT
                && (forall|s: u32| s < SLOT_COUNT ==> #[trigger] probed(*read, s, outcomes[s as int]))
                && r@ == storage_among(outcomes, SLOT_COUNT as nat),
{
    let mut found: Vec<PciDevice> = Vec::new();
    let ghost mut outcomes: Seq<Option<PciDevice>> = Seq::empty();
    let mut s: u32 = 0;
    while s < SLOT_COUNT
        invariant
            s <= SLOT_COUNT,
            outcomes.len() == s,
            forall|a: u32| call_requires(*read, (a,)),
            forall|t: u32| t < s ==> #[trigger] probed(*read, t, outcomes[t as int]),
            found@ == storage_among(outcomes, s as nat),
        decreases SLOT_COUNT - s,
    {
        let bus = (s >> 8u32) as u8;
        let device = ((s >> 3u32) & 31u32) as u8;
        let function = (s & 7u32) as u8;
        proof {
            lemma_slot_parts(s);
        }
        let outcome = get_pci_device(read, bus, device, function);
        match outcome {
            Some(d) => {
                if d.class_code == CLASS_MASS_STORAGE {
                    found.push(d);
                }
            },
            None => {},
        }
        proof {
            let prev = outcomes;
            outcomes = outcomes.push(outcome);
            assert(outcomes.subrange(0, s as int) =~= prev);
            assert(probed(*read, s, outcomes[s as int]));
            assert forall|t: u32| t < s + 1 implies #[trigger] probed(*read, t, outcomes[t as int]) by {
                if t < s {
                    assert(outcomes[t as int] == prev[t as int]);
                }
            }
            lemma_storage_among_prefix(prev, outcomes, s as nat);
        }
        s = s + 1;
    }
    found
}

proof fn lemma_storage_among_prefix(a: Seq<Option<PciDevice>>, b: Seq<Option<PciDevice>>, n: nat)
    requires
        n <= a.len(),
        n <= b.len(),
        forall|i: int| 0 <= i < n ==> a[i] == b[i],
    ensures
        storage_among(a, n) == storage_among(b, n),
    decreases n,
{
    if n > 0 {
        lemma_storage_among_prefix(a, b, (n - 1) as nat);
    }
}

/// Configuration offset of base-address register `bar_num`.
pub open spec fn spec_bar_offset(bar_num: u8) -> u8 {
    (0x10 + bar_num * 4) as u8
}

/// Reads base-address register `bar_num` of a function through `read`; the
/// register sits at offset `0x10 + 4 * bar_num`, which must fit in a byte.
pub fn read_pci_bar<F: Fn(u32) -> u32>(read: &F, bus: u8, device: u8, function: u8, bar_num: u8) -> (r: u32)
    requires
        bar_num < 60,
        forall|a: u32| call_requires(*read, (a,)),
    ensures
        read_gave(*read, bus, device, function, spec_bar_offset(bar_num), r),
{
    let bar_offset: u8 = 0x10 + bar_num * 4;
    let address = pci_config_address(bus, device, function, bar_offset);
    read(address)
}

/// The 64-bit memory-mapped base described by a pair of base-address
/// registers: the low four flag bits of the first are dropped and the second
/// supplies bits 32 to 63.
pub open spec fn spec_resolve_mmio_base(bar0: u32, bar1: u32) -> u64 {
    ((bar1 as u64) << 32u64) | ((bar0 as u64) & 0xFFFF_FFF0u64)
}

/// Combines BAR0 and BAR1 into the controller's 64-bit register base.
pub fn resolve_mmio_base(bar0: u32, bar1: u32) -> (r: u64)
    ensures
        r == spec_resolve_mmio_base(bar0, bar1),
        r as int == bar1 as int * 0x1_0000_0000 + (bar0 as int - bar0 as int % 16),
{
    let r = ((bar1 as u64) << 32u64) | ((bar0 as u64) & 0xFFFF_FFF0u64);
    assert(((bar1 as u64) << 32u64) | ((bar0 as u64) & 0xFFFF_FFF0u64)
        == (bar1 as u64) * 0x1_0000_0000u64 + ((bar0 as u64) - (bar0 as u64) % 16)) by (bit_vector);
    r
}

/// Reads BAR0 and BAR1 of a function and returns the register base they describe.
pub fn get_nvme_base_addr<F: Fn(u32) -> u32>(read: &F, bus: u8, device: u8, function: u8) -> (r: u64)
    requires
        forall|a: u32| call_requires(*read, (a,)),
    ensures
        exists|bar0: u32, bar1: u32|
            #[trigger] read_gave(*read, bus, device, function, 0x10, bar0)
                && #[trigger] read_gave(*read, bus, device, function, 0x14, bar1)
                && r == spec_resolve_mmio_base(bar0, bar1),
{
    let bar0 = read_pci_bar(read, bus, device, function, 0);
    let bar1 = read_pci_bar(read, bus, device, function, 1);
    resolve_mmio_base(bar0, bar1)
}

/// Kinds of mass-storage controller told apart by their subclass code.
#[derive(Clone, Copy, Debug, PartialEq, Eq, Structural)]
pub enum StorageCodes {
    IDE,
    SATA,
    NVMe,
    Unknown,
}

impl StorageCodes {
    /// The kind of a mass-storage controller with the given subclass.
    pub fn from_subclass(subclass: u8) -> (r: StorageCodes)
        ensures
            r == (if subclass == 0x01 {
                StorageCodes::IDE
            } else if subclass == 0x06 {
                StorageCodes::SATA
            } else if subclass == SUBCLASS_NVME {
                StorageCodes::NVMe
            } else {
                StorageCodes::Unknown
            }),
    {
        match subclass {
            0x01 => StorageCodes::IDE,
            0x06 => StorageCodes::SATA,
            0x08 => StorageCodes::NVMe,
            _ => StorageCodes::Unknown,
        }
    }

    /// Short display name of the kind.
    pub fn to_string(&self) -> (r: &'static str)
        ensures
            r@ == match *self {
                StorageCodes::IDE => "IDE"@,
                StorageCodes::SATA => "SATA"@,
                StorageCodes::NVMe => "NVMe"@,
                StorageCodes::Unknown => "Unknown"@,
            },
    {
        match self {
            StorageCodes::IDE => "IDE",
            StorageCodes::SATA => "SATA",
            StorageCodes::NVMe => "NVMe",
            StorageCodes::Unknown => "Unknown",
        }
    }
}

} // verus!
