//! Layout of the controller's memory-mapped registers.
use vstd::prelude::*;

verus! {

/// Controller capabilities (64-bit).
pub const REG_CAP: u64 = 0x00;
/// Version (32-bit).
pub const REG_VS: u64 = 0x08;
/// Controller configuration; bit 0 enables the controller (32-bit).
pub const REG_CC: u64 = 0x14;
/// Controller status; bit 0 reports readiness (32-bit).
pub const REG_CSTS: u64 = 0x1C;
/// Admin queue attributes (32-bit).
pub const REG_AQA: u64 = 0x24;
/// Admin submission queue base address (64-bit).
pub const REG_ASQ: u64 = 0x28;
/// Admin completion queue base address (64-bit).
pub const REG_ACQ: u64 = 0x30;
/// Start of the doorbell array.
pub const DOORBELL_BASE: u64 = 0x1000;
/// Doorbell slot pair whose tail doorbell is the admin submission queue's.
pub const ADMIN_SQ_DOORBELL: u16 = 0;
/// Doorbell slot pair whose head doorbell the admin completion queue rings:
/// `0x1000 + (1 * 2 + 1) * (4 << stride)`.
pub const ADMIN_CQ_DOORBELL: u16 = 1;
/// Largest doorbell stride exponent the capability field can hold.
pub const MAX_DOORBELL_STRIDE: u8 = 15;

/// Bytes between consecutive doorbell registers for a stride exponent.
pub open spec fn spec_stride_bytes(stride: u8) -> u64 {
    4u64 << (stride as u64)
}

/// Offset of the tail doorbell of slot pair `qid`: `0x1000 + (2 * qid) * (4 << stride)`.
pub open spec fn spec_sq_tail_doorbell(qid: u16, stride: u8) -> int {
    DOORBELL_BASE + (2 * qid as int) * spec_stride_bytes(stride) as int
}

/// Offset of the head doorbell of slot pair `qid`: `0x1000 + (2 * qid + 1) * (4 << stride)`.
pub open spec fn spec_cq_head_doorbell(qid: u16, stride: u8) -> int {
    DOORBELL_BASE + (2 * qid as int + 1) * spec_stride_bytes(stride) as int
}

pub proof fn lemma_stride_bytes(stride: u8)
    requires
        stride <= MAX_DOORBELL_STRIDE,
    ensures
        4 <= spec_stride_bytes(stride) <= 0x20000,
{
    assert(4u64 <= (4u64 << (stride as u64)) && (4u64 << (stride as u64)) <= 0x20000u64) by (bit_vector)
        requires
            stride <= 15u8,
    ;
}

/// Offset of the tail doorbell of slot pair `qid`; the admin submission queue uses `ADMIN_SQ_DOORBELL`.
pub fn sq_tail_doorbell(qid: u16, stride: u8) -> (r: u64)
    requires
        stride <= MAX_DOORBELL_STRIDE,
    ensures
        r == spec_sq_tail_doorbell(qid, stride),
{
    proof {
        lemma_stride_bytes(stride);
        assert((2 * qid as int) * spec_stride_bytes(stride) as int <= 2 * 0xFFFF * 0x20000) by (nonlinear_arith)
            requires
                spec_stride_bytes(stride) <= 0x20000,
                qid <= 0xFFFF,
        ;
    }
    let step: u64 = 4u64 << (stride as u64);
    DOORBELL_BASE + (2 * qid as u64) * step
}

/// Offset of the head doorbell of slot pair `qid`; the admin completion queue uses `ADMIN_CQ_DOORBELL`.
pub fn cq_head_doorbell(qid: u16, stride: u8) -> (r: u64)
    requires
        stride <= MAX_DOORBELL_STRIDE,
    ensures
        r == spec_cq_head_doorbell(qid, stride),
{
    proof {
        lemma_stride_bytes(stride);
        assert((2 * qid as int + 1) * spec_stride_bytes(stride) as int <= (2 * 0xFFFF + 1) * 0x20000) by (nonlinear_arith)
            requires
                spec_stride_bytes(stride) <= 0x20000,
                qid <= 0xFFFF,
        ;
    }
    let step: u64 = 4u64 << (stride as u64);
    DOORBELL_BASE + (2 * qid as u64 + 1) * step
}

/// Doorbell registers never overlap: for every valid stride, the 4-byte
/// submission-tail doorbell of any slot pair and the 4-byte completion-head
/// doorbell of any slot pair occupy disjoint bytes; in particular the admin
/// completion-head doorbell lies above the admin submission-tail doorbell.
pub proof fn lemma_doorbells_disjoint(sq: u16, cq: u16, stride: u8)
    requires
        stride <= MAX_DOORBELL_STRIDE,
    ensures
        spec_sq_tail_doorbell(sq, stride) + 4 <= spec_cq_head_doorbell(cq, stride)
            || spec_cq_head_doorbell(cq, stride) + 4 <= spec_sq_tail_doorbell(sq, stride),
        spec_sq_tail_doorbell(ADMIN_SQ_DOORBELL, stride) + 4 <= spec_cq_head_doorbell(ADMIN_CQ_DOORBELL, stride),
{
    lemma_stride_bytes(stride);
    let b = spec_stride_bytes(stride) as int;
    let i = 2 * sq as int;
    let j = 2 * cq as int + 1;
    assert(spec_sq_tail_doorbell(0, stride) == DOORBELL_BASE + 0 * b);
    assert(spec_cq_head_doorbell(1, stride) == DOORBELL_BASE + 3 * b);
    if i < j {
        assert(i * b + b <= j * b) by (nonlinear_arith)
            requires
                i + 1 <= j,
                b >= 4,
        ;
    } else {
        assert(j * b + b <= i * b) by (nonlinear_arith)
            requires
                j + 1 <= i,
                b >= 4,
        ;
    }
}

/// Fields of the capability register that bring-up uses.
#[derive(Clone, Copy, Debug, PartialEq, Eq, Structural)]
pub struct ControllerCapabilities {
    /// Largest queue the controller supports, in entries.
    pub max_queue_entries: u32,
    /// Whether queues must be physically contiguous.
    pub contiguous_queues_required: bool,
    /// Worst-case time to become ready, in units of 500 ms.
    pub timeout: u8,
    /// Doorbell stride exponent: doorbells are `4 << doorbell_stride` bytes apart.
    pub doorbell_stride: u8,
}

impl ControllerCapabilities {
    /// The capabilities encoded in a capability register value: entries in
    /// bits 0-15 (zero-based), contiguity in bit 16, timeout in bits 24-31 and
    /// the stride exponent in bits 32-35.
    pub open spec fn spec_from_register(cap: u64) -> ControllerCapabilities {
        ControllerCapabilities {
            max_queue_entries: ((cap & 0xFFFFu64) + 1) as u32,
            contiguous_queues_required: (cap >> 16u64) & 1u64 == 1u64,
            timeout: ((cap >> 24u64) & 0xFFu64) as u8,
            doorbell_stride: ((cap >> 32u64) & 0xFu64) as u8,
        }
    }

    /// Decodes the capability register.
    pub fn from_register(cap: u64) -> (r: ControllerCapabilities)
        ensures
            r == Self::spec_from_register(cap),
            r.doorbell_stride <= MAX_DOORBELL_STRIDE,
            1 <= r.max_queue_entries <= 0x10000,
    {
        assert((cap & 0xFFFFu64) <= 0xFFFFu64 && (cap >> 24u64) & 0xFFu64 <= 0xFFu64
            && (cap >> 32u64) & 0xFu64 <= 0xFu64) by (bit_vector);
        ControllerCapabilities {
            max_queue_entries: ((cap & 0xFFFFu64) + 1) as u32,
            contiguous_queues_required: (cap >> 16u64) & 1u64 == 1u64,
            timeout: ((cap >> 24u64) & 0xFFu64) as u8,
            doorbell_stride: ((cap >> 32u64) & 0xFu64) as u8,
        }
    }
}

/// Whether a status register value reports the controller ready.
pub open spec fn spec_is_ready(csts: u32) -> bool {
    csts & 1u32 == 1u32
}

/// Tests the readiness bit of the status register.
pub fn is_controller_ready(csts: u32) -> (r: bool)
    ensures
        r == spec_is_ready(csts),
{
    csts & 1u32 == 1u32
}

/// The admin queue attributes value for two queues of `depth` entries:
/// the zero-based size in bits 0-11 for submission and 16-27 for completion.
pub open spec fn spec_admin_queue_attributes(depth: u16) -> u32 {
    ((depth - 1) as u32) | (((depth - 1) as u32) << 16u32)
}

/// Builds the admin queue attributes value for queues of `depth` entries.
pub fn admin_queue_attributes(depth: u16) -> (r: u32)
    requires
        2 <= depth <= 4096,
    ensures
        r == spec_admin_queue_attributes(depth),
        r as int == (depth - 1) + (depth - 1) * 0x10000,
{
    let size: u32 = (depth - 1) as u32;
    assert(size | (size << 16u32) == size + size * 0x10000u32) by (bit_vector)
        requires
            size < 4096u32,
    ;
    size | (size << 16u32)
}

} // verus!
