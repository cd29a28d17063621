//! Failures of controller discovery and bring-up.
use vstd::prelude::*;

verus! {

/// Why discovery, bring-up or a command failed.
#[derive(Clone, Copy, Debug, PartialEq, Eq, Structural)]
pub enum NvmeError {
    /// Enumeration found no NVMe controller.
    DeviceNotFound,
    /// The frame allocator had no frame for a queue or a data buffer.
    FrameAllocationFailed,
    /// A page could not be mapped, or its address is not usable.
    PageMappingFailed,
    /// The controller did not finish its reset within the poll budget.
    ResetTimeout,
    /// The controller did not report ready after being enabled.
    EnableFailed,
    /// The controller completed a command with a nonzero status.
    CommandFailed { status_code_type: u8, status_code: u8 },
    /// No completion arrived within the poll budget.
    CompletionTimeout,
}

} // verus!
