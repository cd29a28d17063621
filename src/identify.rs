//! Decoding of the Identify Controller data structure.
use vstd::prelude::*;
use crate::bytes::{copy_range, read_le16, spec_le16};

verus! {

/// Size of an Identify data structure in bytes.
pub const IDENTIFY_DATA_SIZE: usize = 4096;

/// The fields of the Identify Controller structure that the driver reports.
#[derive(Clone, Debug)]
pub struct IdentifyControllerData {
    pub pci_vendor_id: u16,
    pub pci_subsystem_vendor_id: u16,
    /// ASCII, space padded (20 bytes).
    pub serial_number: Vec<u8>,
    /// ASCII, space padded (40 bytes).
    pub model_number: Vec<u8>,
    /// ASCII, space padded (8 bytes).
    pub firmware_revision: Vec<u8>,
    pub recommended_arbitration_burst: u8,
    /// IEEE organizationally unique identifier (3 bytes).
    pub ieee_oui_identifier: Vec<u8>,
    /// Multi-path I/O and namespace sharing capabilities.
    pub controller_multi_path_io_and_namespace_sharing_capabilities: u8,
    /// Maximum data transfer size, as a power of two of the minimum page size.
    pub maximum_data_transfer_size: u8,
}

/// The byte offsets of the structure: vendor id 0, subsystem vendor id 2,
/// serial number 4..24, model number 24..64, firmware revision 64..72,
/// arbitration burst 72, IEEE OUI 73..76, multi-path capabilities 76 and
/// maximum data transfer size 77.
pub open spec fn decodes_to(b: Seq<u8>, d: IdentifyControllerData) -> bool {
    &&& d.pci_vendor_id == spec_le16(b, 0)
    &&& d.pci_subsystem_vendor_id == spec_le16(b, 2)
    &&& d.serial_number@ == b.subrange(4, 24)
    &&& d.model_number@ == b.subrange(24, 64)
    &&& d.firmware_revision@ == b.subrange(64, 72)
    &&& d.recommended_arbitration_burst == b[72]
    &&& d.ieee_oui_identifier@ == b.subrange(73, 76)
    &&& d.controller_multi_path_io_and_namespace_sharing_capabilities == b[76]
    &&& d.maximum_data_transfer_size == b[77]
}

impl IdentifyControllerData {
    /// Interprets an Identify Controller buffer; `None` when it is shorter
    /// than the structure.
    pub fn parse(b: &[u8]) -> (r: Option<IdentifyControllerData>)
        ensures
            r is None <==> b@.len() < IDENTIFY_DATA_SIZE,
            r matches Some(d) ==> decodes_to(b@, d),
    {
        if b.len() < IDENTIFY_DATA_SIZE {
            return None;
        }
        Some(IdentifyControllerData {
            pci_vendor_id: read_le16(b, 0),
            pci_subsystem_vendor_id: read_le16(b, 2),
            serial_number: copy_range(b, 4, 24),
            model_number: copy_range(b, 24, 64),
            firmware_revision: copy_range(b, 64, 72),
            recommended_arbitration_burst: b[72],
            ieee_oui_identifier: copy_range(b, 73, 76),
            controller_multi_path_io_and_namespace_sharing_capabilities: b[76],
            maximum_data_transfer_size: b[77],
        })
    }

    /// Whether the controller advertises I/O capability: its multi-path and
    /// namespace-sharing capability byte is nonzero.
    pub fn is_io_controller(&self) -> (r: bool)
        ensures
            r == (self.controller_multi_path_io_and_namespace_sharing_capabilities != 0),
    {
        self.controller_multi_path_io_and_namespace_sharing_capabilities != 0
    }
}

} // verus!
