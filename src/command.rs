//! Submission and completion entries of the admin queues, in their wire form.
use vstd::prelude::*;
use crate::bytes::{le_bytes, push_le, read_le16, read_le32, spec_le16, spec_le32};
use crate::error::NvmeError;

verus! {

/// Size of a submission entry in bytes.
pub const COMMAND_SIZE: u64 = 64;
/// Size of a completion entry in bytes.
pub const COMPLETION_SIZE: u64 = 16;
/// Admin opcode of Identify.
pub const OPCODE_IDENTIFY: u8 = 0x06;
/// Admin opcode of Set Features.
pub const OPCODE_SET_FEATURES: u8 = 0x09;

/// A 64-byte admin submission entry.
#[derive(Clone, Copy, Debug, PartialEq, Eq, Structural)]
pub struct CommandEntry {
    pub opcode: u8,
    pub flags: u8,
    pub command_id: u16,
    pub namespace_id: u32,
    pub reserved: u64,
    pub metadata_ptr: u64,
    pub prp1: u64,
    pub prp2: u64,
    pub cdw10: u32,
    pub cdw11: u32,
    pub cdw12: u32,
    pub cdw13: u32,
    pub cdw14: u32,
    pub cdw15: u32,
}

impl CommandEntry {
    /// The wire form: each field little-endian, in declaration order, with
    /// no padding.
    pub open spec fn spec_to_bytes(self) -> Seq<u8> {
        le_bytes(self.opcode as u64, 1) + le_bytes(self.flags as u64, 1) + le_bytes(self.command_id as u64, 2)
            + le_bytes(self.namespace_id as u64, 4) + le_bytes(self.reserved, 8) + le_bytes(self.metadata_ptr, 8)
            + le_bytes(self.prp1, 8) + le_bytes(self.prp2, 8) + le_bytes(self.cdw10 as u64, 4)
            + le_bytes(self.cdw11 as u64, 4) + le_bytes(self.cdw12 as u64, 4) + le_bytes(self.cdw13 as u64, 4)
            + le_bytes(self.cdw14 as u64, 4) + le_bytes(self.cdw15 as u64, 4)
    }

    /// Encodes the entry as the 64 bytes written into a submission slot.
    pub fn to_bytes(&self) -> (r: Vec<u8>)
        ensures
            r@ == self.spec_to_bytes(),
            r@.len() == COMMAND_SIZE,
    {
        let mut out: Vec<u8> = Vec::new();
        push_le(&mut out, self.opcode as u64, 1);
        push_le(&mut out, self.flags as u64, 1);
        push_le(&mut out, self.command_id as u64, 2);
        push_le(&mut out, self.namespace_id as u64, 4);
        push_le(&mut out, self.reserved, 8);
        push_le(&mut out, self.metadata_ptr, 8);
        push_le(&mut out, self.prp1, 8);
        push_le(&mut out, self.prp2, 8);
        push_le(&mut out, self.cdw10 as u64, 4);
        push_le(&mut out, self.cdw11 as u64, 4);
        push_le(&mut out, self.cdw12 as u64, 4);
        push_le(&mut out, self.cdw13 as u64, 4);
        push_le(&mut out, self.cdw14 as u64, 4);
        push_le(&mut out, self.cdw15 as u64, 4);
        out
    }
}

/// Which structure an Identify command returns.
#[derive(Clone, Copy, Debug, PartialEq, Eq, Structural)]
pub enum Cns {
    /// The data structure of one namespace.
    Namespace,
    /// The data structure of the controller.
    Controller,
}

impl Cns {
    pub open spec fn spec_value(self) -> u8 {
        match self {
            Cns::Namespace => 0x00,
            Cns::Controller => 0x01,
        }
    }

    /// The selector value placed in the command.
    pub fn value(&self) -> (r: u8)
        ensures
            r == self.spec_value(),
    {
        match self {
            Cns::Namespace => 0x00,
            Cns::Controller => 0x01,
        }
    }
}

/// An entry with the given opcode, identifier and namespace and every other
/// field zero.
pub open spec fn blank_command(opcode: u8, command_id: u16, namespace_id: u32) -> CommandEntry {
    CommandEntry {
        opcode,
        flags: 0,
        command_id,
        namespace_id,
        reserved: 0,
        metadata_ptr: 0,
        prp1: 0,
        prp2: 0,
        cdw10: 0,
        cdw11: 0,
        cdw12: 0,
        cdw13: 0,
        cdw14: 0,
        cdw15: 0,
    }
}

/// The Identify command that asks for structure `cns` of `namespace_id`,
/// to be written into the frame at physical address `data_phys`.
pub open spec fn spec_identify_command(cns: Cns, namespace_id: u32, data_phys: u64, command_id: u16) -> CommandEntry {
    CommandEntry {
        prp1: data_phys,
        cdw10: cns.spec_value() as u32,
        ..blank_command(OPCODE_IDENTIFY, command_id, namespace_id)
    }
}

/// The Set Features command that sets feature `feature_id` to `value`.
pub open spec fn spec_set_features_command(feature_id: u8, value: u32, command_id: u16) -> CommandEntry {
    CommandEntry { cdw10: feature_id as u32, cdw11: value, ..blank_command(OPCODE_SET_FEATURES, command_id, 0) }
}

/// Builds an Identify command.
pub fn identify_command(cns: Cns, namespace_id: u32, data_phys: u64, command_id: u16) -> (r: CommandEntry)
    ensures
        r == spec_identify_command(cns, namespace_id, data_phys, command_id),
{
    CommandEntry {
        opcode: OPCODE_IDENTIFY,
        flags: 0,
        command_id,
        namespace_id,
        reserved: 0,
        metadata_ptr: 0,
        prp1: data_phys,
        prp2: 0,
        cdw10: cns.value() as u32,
        cdw11: 0,
        cdw12: 0,
        cdw13: 0,
        cdw14: 0,
        cdw15: 0,
    }
}

/// Builds a Set Features command.
pub fn set_features_command(feature_id: u8, value: u32, command_id: u16) -> (r: CommandEntry)
    ensures
        r == spec_set_features_command(feature_id, value, command_id),
{
    CommandEntry {
        opcode: OPCODE_SET_FEATURES,
        flags: 0,
        command_id,
        namespace_id: 0,
        reserved: 0,
        metadata_ptr: 0,
        prp1: 0,
        prp2: 0,
        cdw10: feature_id as u32,
        cdw11: value,
        cdw12: 0,
        cdw13: 0,
        cdw14: 0,
        cdw15: 0,
    }
}

/// A 16-byte admin completion entry.
#[derive(Clone, Copy, Debug, PartialEq, Eq, Structural)]
pub struct CompletionEntry {
    pub command_specific: u32,
    pub reserved: u32,
    pub submission_queue_head: u16,
    pub submission_queue_id: u16,
    pub command_id: u16,
    /// Phase tag in bit 0, status field in bits 1 to 15.
    pub status: u16,
}

/// The status code: bits 1 to 8 of the status half-word.
pub open spec fn spec_status_code(status: u16) -> u8 {
    ((status >> 1u16) & 0xFFu16) as u8
}

/// The status code type: bits 9 to 11 of the status half-word.
pub open spec fn spec_status_code_type(status: u16) -> u8 {
    ((status >> 9u16) & 0x7u16) as u8
}

impl CompletionEntry {
    /// The entry held by 16 bytes of completion-queue memory.
    pub open spec fn spec_from_bytes(b: Seq<u8>) -> CompletionEntry {
        CompletionEntry {
            command_specific: spec_le32(b, 0),
            reserved: spec_le32(b, 4),
            submission_queue_head: spec_le16(b, 8),
            submission_queue_id: spec_le16(b, 10),
            command_id: spec_le16(b, 12),
            status: spec_le16(b, 14),
        }
    }

    /// Decodes a completion entry from the first 16 bytes of `b`.
    pub fn from_bytes(b: &[u8]) -> (r: CompletionEntry)
        requires
            b@.len() >= COMPLETION_SIZE,
        ensures
            r == Self::spec_from_bytes(b@),
    {
        CompletionEntry {
            command_specific: read_le32(b, 0),
            reserved: read_le32(b, 4),
            submission_queue_head: read_le16(b, 8),
            submission_queue_id: read_le16(b, 10),
            command_id: read_le16(b, 12),
            status: read_le16(b, 14),
        }
    }

    pub open spec fn spec_phase_tag(self) -> bool {
        self.status & 1u16 == 1u16
    }

    /// The phase tag, bit 0 of the status half-word.
    pub fn phase_tag(&self) -> (r: bool)
        ensures
            r == self.spec_phase_tag(),
    {
        self.status & 1u16 == 1u16
    }

    /// What the entry reports: the command-specific result on success, or
    /// the status code type and code when either is nonzero.
    pub open spec fn spec_outcome(self) -> Result<u32, NvmeError> {
        let sct = spec_status_code_type(self.status);
        let sc = spec_status_code(self.status);
        if sct == 0 && sc == 0 {
            Ok(self.command_specific)
        } else {
            Err(NvmeError::CommandFailed { status_code_type: sct, status_code: sc })
        }
    }

    /// Decodes the status of the entry.
    pub fn outcome(&self) -> (r: Result<u32, NvmeError>)
        ensures
            r == self.spec_outcome(),
    {
        let status = self.status;
        assert((status >> 1u16) & 0xFFu16 <= 0xFFu16 && (status >> 9u16) & 0x7u16 <= 0x7u16) by (bit_vector);
        let sc = ((status >> 1u16) & 0xFFu16) as u8;
        let sct = ((status >> 9u16) & 0x7u16) as u8;
        if sct == 0 && sc == 0 {
            Ok(self.command_specific)
        } else {
            Err(NvmeError::CommandFailed { status_code_type: sct, status_code: sc })
        }
    }
}

} // verus!
