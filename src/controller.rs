//! The controller lifecycle as a state machine: reset, admin queue setup,
//! enable, and admin commands over the queues.
//!
//! The machine performs no hardware access. Its caller reads the pending
//! [`Action`], performs it (a register access, a delay, a frame allocation, a
//! mapping, a memory access) and reports what happened as an [`Event`].
//! Every wait is a bounded poll, and a failure stops the machine for good.
use vstd::prelude::*;
use crate::addr::{direct_map, spec_direct_map};
use crate::command::{identify_command, set_features_command, spec_identify_command, spec_set_features_command, Cns, CommandEntry, CompletionEntry, COMMAND_SIZE, COMPLETION_SIZE};
use crate::error::NvmeError;
use crate::identify::{decodes_to, IdentifyControllerData, IDENTIFY_DATA_SIZE};
use crate::regs::{
    admin_queue_attributes, cq_head_doorbell, is_controller_ready, spec_admin_queue_attributes,
    lemma_stride_bytes, spec_cq_head_doorbell, ADMIN_CQ_DOORBELL, ADMIN_SQ_DOORBELL, spec_is_ready, spec_stride_bytes, spec_sq_tail_doorbell, sq_tail_doorbell, ControllerCapabilities, DOORBELL_BASE,
    REG_ACQ, REG_AQA, REG_ASQ, REG_CAP, REG_CC, REG_CSTS,
};
use crate::ring::{CompletionRing, SubmissionRing, ADMIN_QUEUE_DEPTH};

verus! {

/// Status polls while waiting for a reset to finish.
pub const RESET_POLL_LIMIT: u8 = 100;
/// Status polls while waiting for the controller to become ready.
pub const ENABLE_POLL_LIMIT: u8 = 100;
/// Reads of the completion slot while waiting for a command to complete.
pub const COMPLETION_POLL_LIMIT: u8 = 100;
/// Delay before each status poll, in milliseconds.
pub const POLL_DELAY_MS: u64 = 1;
/// Delay between reads of the completion slot, in milliseconds.
pub const COMPLETION_DELAY_MS: u64 = 50;
/// Bytes of the register window below the doorbells.
pub const CONTROL_WINDOW: u64 = 0x1000;
/// Bytes of the largest register window: the admin doorbells at the largest stride.
pub const MAX_WINDOW: u64 = 0x62000;
/// Size of a physical frame.
pub const FRAME_SIZE: u64 = 4096;
/// Frames of the admin submission queue: 256 entries of 64 bytes.
pub const SUBMISSION_QUEUE_FRAMES: u8 = 4;
/// Bytes of the admin submission queue, physically contiguous.
pub const SUBMISSION_QUEUE_BYTES: u64 = 0x4000;
/// Bytes of the admin completion queue: 256 entries of 16 bytes.
pub const COMPLETION_QUEUE_BYTES: u64 = 0x1000;
/// Largest `u64`.
pub const U64_MAX: u64 = 0xFFFF_FFFF_FFFF_FFFF;

/// Where the controller is in its lifecycle.
#[derive(Clone, Copy, Debug, PartialEq, Eq, Structural)]
pub enum ControllerState {
    Uninitialized,
    Resetting,
    Configuring,
    Enabling,
    Ready,
    Faulted(FaultReason),
}

/// Why the controller stopped, by the lifecycle step that failed.
#[derive(Clone, Copy, Debug, PartialEq, Eq, Structural)]
pub enum FaultReason {
    /// The register window could not be mapped, or has no usable address.
    MapFailed,
    /// The controller did not finish its reset within the poll budget.
    ResetTimeout,
    /// The admin queues could not get their memory; `cause` says how.
    QueueSetupFailed { cause: NvmeError },
    /// The controller did not report ready after being enabled.
    EnableFailed,
    /// The Identify command failed; `error` says how.
    IdentifyFailed { error: NvmeError },
    /// A Set Features command got no completion; `error` says how.
    SetFeaturesFailed { error: NvmeError },
}

impl FaultReason {
    pub open spec fn spec_error(self) -> NvmeError {
        match self {
            FaultReason::MapFailed => NvmeError::PageMappingFailed,
            FaultReason::ResetTimeout => NvmeError::ResetTimeout,
            FaultReason::QueueSetupFailed { cause } => cause,
            FaultReason::EnableFailed => NvmeError::EnableFailed,
            FaultReason::IdentifyFailed { error } => error,
            FaultReason::SetFeaturesFailed { error } => error,
        }
    }

    /// The error kind behind the fault.
    pub fn error(&self) -> (r: NvmeError)
        ensures
            r == self.spec_error(),
    {
        match self {
            FaultReason::MapFailed => NvmeError::PageMappingFailed,
            FaultReason::ResetTimeout => NvmeError::ResetTimeout,
            FaultReason::QueueSetupFailed { cause } => *cause,
            FaultReason::EnableFailed => NvmeError::EnableFailed,
            FaultReason::IdentifyFailed { error } => *error,
            FaultReason::SetFeaturesFailed { error } => *error,
        }
    }
}

/// The admin command in flight.
#[derive(Clone, Copy, Debug, PartialEq, Eq, Structural)]
pub enum CommandKind {
    /// Identify, whose data lands in the frame at `data_phys`, visible at `data_virt`.
    Identify { data_phys: u64, data_virt: u64 },
    SetFeatures,
}

#[allow(inconsistent_fields)]
/// Fine-grained position of the machine; each stage has one pending action.
#[derive(Clone, Copy, Debug, PartialEq, Eq, Structural)]
pub enum Stage {
    MapControl,
    ReadCapabilities,
    MapDoorbells,
    Disable,
    ResetDelay { polls_left: u8 },
    ResetPoll { polls_left: u8 },
    /// `frames` of the submission queue's frames are in hand.
    AllocateSubmission { frames: u8 },
    MapSubmission,
    AllocateCompletion,
    MapCompletion,
    ZeroCompletion,
    WriteAsq,
    WriteAcq,
    WriteAqa,
    Enable,
    EnableDelay { polls_left: u8 },
    EnablePoll { polls_left: u8 },
    Idle,
    AllocateData { cns: Cns, namespace_id: u32 },
    Submit { kind: CommandKind, entry: CommandEntry },
    RingSubmission { kind: CommandKind },
    AwaitCompletion { kind: CommandKind, polls_left: u8 },
    CompletionDelay { kind: CommandKind, polls_left: u8 },
    RingCompletion { kind: CommandKind, entry: CompletionEntry },
    MapData { data_phys: u64, data_virt: u64 },
    ReadData { data_virt: u64 },
    Stopped { reason: FaultReason },
}

#[allow(inconsistent_fields)]
/// What the caller is asked to do next. Register offsets are relative to the
/// register window; other addresses are physical (`phys`) or kernel virtual
/// (`virt`).
#[derive(Clone, Copy, Debug, PartialEq, Eq, Structural)]
pub enum Action {
    /// Map `len` bytes of registers at `phys` to `virt`; report `Done` or `Failed`.
    MapRegisters { phys: u64, virt: u64, len: u64 },
    /// Read a 32-bit register; report `Value`.
    ReadRegister32 { offset: u64 },
    /// Read a 64-bit register; report `Value`.
    ReadRegister64 { offset: u64 },
    /// Write a 32-bit register; report `Done`.
    WriteRegister32 { offset: u64, value: u32 },
    /// Write a 64-bit register; report `Done`.
    WriteRegister64 { offset: u64, value: u64 },
    /// Wait; report `Done`.
    Delay { ms: u64 },
    /// Allocate a physical frame; report `Frame` or `NoFrame`.
    AllocateFrame,
    /// Map `len` bytes of memory at `phys` to `virt`, writable; report `Done` or `Failed`.
    MapMemory { phys: u64, virt: u64, len: u64 },
    /// Fill `len` bytes at `virt` with zeros; report `Done`.
    ZeroMemory { virt: u64, len: u64 },
    /// Write the 64 bytes of `entry` at `virt`; report `Done`.
    WriteCommand { virt: u64, entry: CommandEntry },
    /// Read the 16 bytes at `virt` as a completion entry; report `Completion`.
    ReadCompletion { virt: u64 },
    /// Read the Identify data at `virt` and hand it to `accept_identify_data`.
    ReadIdentifyData { virt: u64 },
    /// Nothing to do.
    Idle,
}

/// What came of the pending action.
#[derive(Clone, Copy, Debug, PartialEq, Eq, Structural)]
pub enum Event {
    Done,
    Failed,
    Value(u64),
    Frame(u64),
    NoFrame,
    Completion(CompletionEntry),
}

/// Bytes of the register window once the doorbell stride is known: up to the
/// end of the admin completion-head doorbell.
pub open spec fn spec_window_len(stride: u8) -> int {
    spec_cq_head_doorbell(ADMIN_CQ_DOORBELL, stride) + 4
}

/// The kernel address of `bytes` of memory starting at physical `phys`,
/// when both ends are addressable.
pub open spec fn spec_region_virt(offset: u64, phys: u64, bytes: u64) -> Option<u64> {
    if phys <= U64_MAX - bytes {
        match spec_direct_map(offset, phys) {
            Some(v) => if v <= U64_MAX - bytes { Some(v) } else { None },
            None => None,
        }
    } else {
        None
    }
}

/// The stage after the submission queue's `frames`-th frame is in hand.
pub open spec fn after_submission_frame(frames: u8) -> Stage {
    if frames >= SUBMISSION_QUEUE_FRAMES {
        Stage::MapSubmission
    } else {
        Stage::AllocateSubmission { frames }
    }
}

/// The fault that ends a failed command of `kind`.
pub open spec fn spec_command_fault(kind: CommandKind, error: NvmeError) -> FaultReason {
    match kind {
        CommandKind::Identify { .. } => FaultReason::IdentifyFailed { error },
        CommandKind::SetFeatures => FaultReason::SetFeaturesFailed { error },
    }
}

fn command_fault(kind: CommandKind, error: NvmeError) -> (r: FaultReason)
    ensures
        r == spec_command_fault(kind, error),
{
    match kind {
        CommandKind::Identify { .. } => FaultReason::IdentifyFailed { error },
        CommandKind::SetFeatures => FaultReason::SetFeaturesFailed { error },
    }
}

proof fn lemma_window_len(stride: u8)
    requires
        stride <= 15,
    ensures
        DOORBELL_BASE + 8 <= spec_window_len(stride) <= MAX_WINDOW,
        spec_sq_tail_doorbell(ADMIN_SQ_DOORBELL, stride) == DOORBELL_BASE,
        spec_cq_head_doorbell(ADMIN_CQ_DOORBELL, stride) + 4 == spec_window_len(stride),
{
    lemma_stride_bytes(stride);
    assert(spec_sq_tail_doorbell(0, stride) == DOORBELL_BASE + 0 * spec_stride_bytes(stride));
    assert(spec_cq_head_doorbell(1, stride) == DOORBELL_BASE + 3 * spec_stride_bytes(stride));
}

fn region_virt(offset: u64, phys: u64, bytes: u64) -> (r: Option<u64>)
    ensures
        r == spec_region_virt(offset, phys, bytes),
{
    if phys > U64_MAX - bytes {
        return None;
    }
    match direct_map(offset, phys) {
        Some(v) => if v <= U64_MAX - bytes { Some(v) } else { None },
        None => None,
    }
}

/// One NVMe controller and the admin queues the driver owns for it.
pub struct Controller {
    /// Physical address of the register window.
    pub mmio_base: u64,
    /// Virtual address at which all physical memory is mapped.
    pub phys_offset: u64,
    /// Virtual address of the register window.
    pub regs_virt: u64,
    /// Bytes of the register window mapped so far.
    pub window_len: u64,
    pub caps: ControllerCapabilities,
    pub sq: SubmissionRing,
    pub cq: CompletionRing,
    pub sq_phys: u64,
    pub sq_virt: u64,
    pub cq_phys: u64,
    pub cq_virt: u64,
    /// Outcome of the last completed admin command.
    pub last_result: Option<Result<u32, NvmeError>>,
    pub stage: Stage,
}

impl Controller {
    pub open spec fn polls_in_range(self) -> bool {
        match self.stage {
            Stage::ResetDelay { polls_left } => 1 <= polls_left <= RESET_POLL_LIMIT,
            Stage::ResetPoll { polls_left } => 1 <= polls_left <= RESET_POLL_LIMIT,
            Stage::EnableDelay { polls_left } => 1 <= polls_left <= ENABLE_POLL_LIMIT,
            Stage::EnablePoll { polls_left } => 1 <= polls_left <= ENABLE_POLL_LIMIT,
            Stage::AwaitCompletion { polls_left, .. } => 1 <= polls_left <= COMPLETION_POLL_LIMIT,
            Stage::CompletionDelay { polls_left, .. } => 1 <= polls_left <= COMPLETION_POLL_LIMIT,
            Stage::AllocateSubmission { frames } => frames < SUBMISSION_QUEUE_FRAMES
                && (frames > 0 ==> self.sq_phys <= U64_MAX - SUBMISSION_QUEUE_BYTES),
            _ => true,
        }
    }

    pub open spec fn window_matches_stage(self) -> bool {
        match self.stage {
            Stage::MapControl => self.window_len == 0,
            Stage::ReadCapabilities => self.window_len == CONTROL_WINDOW,
            Stage::MapDoorbells => self.window_len == CONTROL_WINDOW,
            Stage::Stopped { .. } => true,
            _ => self.window_len == spec_window_len(self.caps.doorbell_stride),
        }
    }

    pub open spec fn wf(self) -> bool {
        &&& self.sq.wf() && self.sq.depth == ADMIN_QUEUE_DEPTH
        &&& self.cq.wf() && self.cq.depth == ADMIN_QUEUE_DEPTH
        &&& self.caps.doorbell_stride <= 15
        &&& self.sq_virt <= U64_MAX - SUBMISSION_QUEUE_BYTES && self.cq_virt <= U64_MAX - COMPLETION_QUEUE_BYTES
        &&& (self.stage !is Stopped ==> self.mmio_base <= U64_MAX - MAX_WINDOW && self.regs_virt <= U64_MAX - MAX_WINDOW)
        &&& self.polls_in_range()
        &&& self.window_matches_stage()
        &&& (self.stage is RingSubmission || self.stage is AwaitCompletion || self.stage is CompletionDelay
            || self.stage is Stopped || self.sq.head == self.sq.tail)
    }

    /// The lifecycle state that a stage belongs to.
    pub open spec fn spec_state(self) -> ControllerState {
        match self.stage {
            Stage::MapControl | Stage::ReadCapabilities | Stage::MapDoorbells => ControllerState::Uninitialized,
            Stage::Disable | Stage::ResetDelay { .. } | Stage::ResetPoll { .. } => ControllerState::Resetting,
            Stage::AllocateSubmission { .. } | Stage::MapSubmission | Stage::AllocateCompletion | Stage::MapCompletion
            | Stage::ZeroCompletion | Stage::WriteAsq | Stage::WriteAcq | Stage::WriteAqa => ControllerState::Configuring,
            Stage::Enable | Stage::EnableDelay { .. } | Stage::EnablePoll { .. } => ControllerState::Enabling,
            Stage::Stopped { reason } => ControllerState::Faulted(reason),
            _ => ControllerState::Ready,
        }
    }

    /// The controller stopped for `reason`.
    pub open spec fn stop(self, reason: FaultReason) -> Controller {
        Controller { stage: Stage::Stopped { reason }, ..self }
    }

    /// The pending action of each stage.
    pub open spec fn spec_action(self) -> Action {
        match self.stage {
            Stage::MapControl => Action::MapRegisters { phys: self.mmio_base, virt: self.regs_virt, len: CONTROL_WINDOW },
            Stage::ReadCapabilities => Action::ReadRegister64 { offset: REG_CAP },
            Stage::MapDoorbells => Action::MapRegisters {
                phys: (self.mmio_base + DOORBELL_BASE) as u64,
                virt: (self.regs_virt + DOORBELL_BASE) as u64,
                len: (spec_window_len(self.caps.doorbell_stride) - DOORBELL_BASE) as u64,
            },
            Stage::Disable => Action::WriteRegister32 { offset: REG_CC, value: 0 },
            Stage::ResetDelay { .. } => Action::Delay { ms: POLL_DELAY_MS },
            Stage::ResetPoll { .. } => Action::ReadRegister32 { offset: REG_CSTS },
            Stage::AllocateSubmission { .. } => Action::AllocateFrame,
            Stage::MapSubmission => Action::MapMemory { phys: self.sq_phys, virt: self.sq_virt, len: SUBMISSION_QUEUE_BYTES },
            Stage::AllocateCompletion => Action::AllocateFrame,
            Stage::MapCompletion => Action::MapMemory { phys: self.cq_phys, virt: self.cq_virt, len: COMPLETION_QUEUE_BYTES },
            Stage::ZeroCompletion => Action::ZeroMemory { virt: self.cq_virt, len: COMPLETION_QUEUE_BYTES },
            Stage::WriteAsq => Action::WriteRegister64 { offset: REG_ASQ, value: self.sq_phys },
            Stage::WriteAcq => Action::WriteRegister64 { offset: REG_ACQ, value: self.cq_phys },
            Stage::WriteAqa => Action::WriteRegister32 { offset: REG_AQA, value: spec_admin_queue_attributes(ADMIN_QUEUE_DEPTH) },
            Stage::Enable => Action::WriteRegister32 { offset: REG_CC, value: 1 },
            Stage::EnableDelay { .. } => Action::Delay { ms: POLL_DELAY_MS },
            Stage::EnablePoll { .. } => Action::ReadRegister32 { offset: REG_CSTS },
            Stage::Idle => Action::Idle,
            Stage::AllocateData { .. } => Action::AllocateFrame,
            Stage::Submit { entry, .. } => Action::WriteCommand {
                virt: (self.sq_virt + self.sq.tail * COMMAND_SIZE) as u64,
                entry,
            },
            Stage::RingSubmission { .. } => Action::WriteRegister32 {
                offset: spec_sq_tail_doorbell(ADMIN_SQ_DOORBELL, self.caps.doorbell_stride) as u64,
                value: self.sq.tail as u32,
            },
            Stage::AwaitCompletion { .. } => Action::ReadCompletion {
                virt: (self.cq_virt + self.cq.head * COMPLETION_SIZE) as u64,
            },
            Stage::CompletionDelay { .. } => Action::Delay { ms: COMPLETION_DELAY_MS },
            Stage::RingCompletion { .. } => Action::WriteRegister32 {
                offset: spec_cq_head_doorbell(ADMIN_CQ_DOORBELL, self.caps.doorbell_stride) as u64,
                value: self.cq.head as u32,
            },
            Stage::MapData { data_phys, data_virt } => Action::MapMemory { phys: data_phys, virt: data_virt, len: FRAME_SIZE },
            Stage::ReadData { data_virt } => Action::ReadIdentifyData { virt: data_virt },
            Stage::Stopped { .. } => Action::Idle,
        }
    }

    /// The controller after a mapping step: on to `next` when it succeeded,
    /// stopped for `reason` when it failed.
    pub open spec fn after_map(self, e: Event, next: Stage, reason: FaultReason) -> Controller {
        match e {
            Event::Done => Controller { stage: next, ..self },
            Event::Failed => self.stop(reason),
            _ => self,
        }
    }

    /// The controller after a step whose only outcome is `Done`.
    pub open spec fn after_done(self, e: Event, next: Stage) -> Controller {
        match e {
            Event::Done => Controller { stage: next, ..self },
            _ => self,
        }
    }

    /// The transition taken when `e` reports the outcome of the pending
    /// action. An event that does not answer that action changes nothing.
    pub open spec fn spec_step(self, e: Event) -> Controller {
        match self.stage {
            Stage::MapControl => match e {
                Event::Done => Controller { window_len: CONTROL_WINDOW, stage: Stage::ReadCapabilities, ..self },
                Event::Failed => self.stop(FaultReason::MapFailed),
                _ => self,
            },
            Stage::ReadCapabilities => match e {
                Event::Value(v) => Controller {
                    caps: ControllerCapabilities::spec_from_register(v),
                    stage: Stage::MapDoorbells,
                    ..self
                },
                _ => self,
            },
            Stage::MapDoorbells => match e {
                Event::Done => Controller {
                    window_len: spec_window_len(self.caps.doorbell_stride) as u64,
                    stage: Stage::Disable,
                    ..self
                },
                Event::Failed => self.stop(FaultReason::MapFailed),
                _ => self,
            },
            Stage::Disable => self.after_done(e, Stage::ResetDelay { polls_left: RESET_POLL_LIMIT }),
            Stage::ResetDelay { polls_left } => self.after_done(e, Stage::ResetPoll { polls_left }),
            Stage::ResetPoll { polls_left } => match e {
                Event::Value(v) => if !spec_is_ready(v as u32) {
                    Controller { stage: Stage::AllocateSubmission { frames: 0 }, ..self }
                } else if polls_left <= 1 {
                    self.stop(FaultReason::ResetTimeout)
                } else {
                    Controller { stage: Stage::ResetDelay { polls_left: (polls_left - 1) as u8 }, ..self }
                },
                _ => self,
            },
            Stage::AllocateSubmission { frames } => match e {
                Event::Frame(p) => if frames == 0 {
                    match spec_region_virt(self.phys_offset, p, SUBMISSION_QUEUE_BYTES) {
                        Some(v) => Controller { sq_phys: p, sq_virt: v, stage: after_submission_frame(1), ..self },
                        None => self.stop(FaultReason::QueueSetupFailed { cause: NvmeError::PageMappingFailed }),
                    }
                } else if p == self.sq_phys + frames * FRAME_SIZE {
                    Controller { stage: after_submission_frame((frames + 1) as u8), ..self }
                } else {
                    self.stop(FaultReason::QueueSetupFailed { cause: NvmeError::FrameAllocationFailed })
                },
                Event::NoFrame => self.stop(FaultReason::QueueSetupFailed { cause: NvmeError::FrameAllocationFailed }),
                _ => self,
            },
            Stage::MapSubmission => self.after_map(
                e,
                Stage::AllocateCompletion,
                FaultReason::QueueSetupFailed { cause: NvmeError::PageMappingFailed },
            ),
            Stage::AllocateCompletion => match e {
                Event::Frame(p) => match spec_region_virt(self.phys_offset, p, COMPLETION_QUEUE_BYTES) {
                    Some(v) => Controller { cq_phys: p, cq_virt: v, stage: Stage::MapCompletion, ..self },
                    None => self.stop(FaultReason::QueueSetupFailed { cause: NvmeError::PageMappingFailed }),
                },
                Event::NoFrame => self.stop(FaultReason::QueueSetupFailed { cause: NvmeError::FrameAllocationFailed }),
                _ => self,
            },
            Stage::MapCompletion => self.after_map(
                e,
                Stage::ZeroCompletion,
                FaultReason::QueueSetupFailed { cause: NvmeError::PageMappingFailed },
            ),
            Stage::ZeroCompletion => self.after_done(e, Stage::WriteAsq),
            Stage::WriteAsq => self.after_done(e, Stage::WriteAcq),
            Stage::WriteAcq => self.after_done(e, Stage::WriteAqa),
            Stage::WriteAqa => match e {
                Event::Done => Controller {
                    sq: SubmissionRing { depth: ADMIN_QUEUE_DEPTH, tail: 0, head: 0 },
                    cq: CompletionRing { depth: ADMIN_QUEUE_DEPTH, head: 0, phase: true },
                    stage: Stage::Enable,
                    ..self
                },
                _ => self,
            },
            Stage::Enable => self.after_done(e, Stage::EnableDelay { polls_left: ENABLE_POLL_LIMIT }),
            Stage::EnableDelay { polls_left } => self.after_done(e, Stage::EnablePoll { polls_left }),
            Stage::EnablePoll { polls_left } => match e {
                Event::Value(v) => if spec_is_ready(v as u32) {
                    Controller { stage: Stage::Idle, ..self }
                } else if polls_left <= 1 {
                    self.stop(FaultReason::EnableFailed)
                } else {
                    Controller { stage: Stage::EnableDelay { polls_left: (polls_left - 1) as u8 }, ..self }
                },
                _ => self,
            },
            Stage::Idle => self,
            Stage::AllocateData { cns, namespace_id } => match e {
                Event::Frame(p) => match spec_region_virt(self.phys_offset, p, FRAME_SIZE) {
                    Some(v) => Controller {
                        stage: Stage::Submit {
                            kind: CommandKind::Identify { data_phys: p, data_virt: v },
                            entry: spec_identify_command(cns, namespace_id, p, self.sq.tail),
                        },
                        ..self
                    },
                    None => self.stop(FaultReason::IdentifyFailed { error: NvmeError::PageMappingFailed }),
                },
                Event::NoFrame => self.stop(FaultReason::IdentifyFailed { error: NvmeError::FrameAllocationFailed }),
                _ => self,
            },
            Stage::Submit { kind, .. } => match e {
                Event::Done => Controller { sq: self.sq.spec_advance(), stage: Stage::RingSubmission { kind }, ..self },
                _ => self,
            },
            Stage::RingSubmission { kind } => self.after_done(
                e,
                Stage::AwaitCompletion { kind, polls_left: COMPLETION_POLL_LIMIT },
            ),
            Stage::AwaitCompletion { kind, polls_left } => match e {
                Event::Completion(c) => if c.spec_phase_tag() == self.cq.phase {
                    Controller {
                        cq: self.cq.spec_consume(),
                        sq: SubmissionRing { head: self.sq.tail, ..self.sq },
                        stage: Stage::RingCompletion { kind, entry: c },
                        ..self
                    }
                } else if polls_left <= 1 {
                    self.stop(spec_command_fault(kind, NvmeError::CompletionTimeout))
                } else {
                    Controller { stage: Stage::CompletionDelay { kind, polls_left: (polls_left - 1) as u8 }, ..self }
                },
                _ => self,
            },
            Stage::CompletionDelay { kind, polls_left } => self.after_done(e, Stage::AwaitCompletion { kind, polls_left }),
            Stage::RingCompletion { kind, entry } => match e {
                Event::Done => {
                    let outcome = entry.spec_outcome();
                    let next = match kind {
                        CommandKind::Identify { data_phys, data_virt } => match outcome {
                            Ok(_) => Stage::MapData { data_phys, data_virt },
                            Err(error) => Stage::Stopped { reason: FaultReason::IdentifyFailed { error } },
                        },
                        CommandKind::SetFeatures => Stage::Idle,
                    };
                    Controller { last_result: Some(outcome), stage: next, ..self }
                },
                _ => self,
            },
            Stage::MapData { data_virt, .. } => self.after_map(
                e,
                Stage::ReadData { data_virt },
                FaultReason::IdentifyFailed { error: NvmeError::PageMappingFailed },
            ),
            Stage::ReadData { .. } => self,
            Stage::Stopped { .. } => self,
        }
    }
}

impl Controller {
    /// A controller whose registers sit at physical `mmio_base`, driven by a
    /// kernel that maps all physical memory at virtual `phys_offset`. It is
    /// stopped at once when the register window has no usable virtual address.
    pub fn new(mmio_base: u64, phys_offset: u64) -> (r: Controller)
        ensures
            r.wf(),
            r.mmio_base == mmio_base && r.phys_offset == phys_offset,
            r.window_len == 0 && r.last_result is None,
            r.sq == (SubmissionRing { depth: ADMIN_QUEUE_DEPTH, tail: 0, head: 0 }),
            r.cq == (CompletionRing { depth: ADMIN_QUEUE_DEPTH, head: 0, phase: true }),
            r.sq_virt == 0 && r.cq_virt == 0,
            match spec_direct_map(phys_offset, mmio_base) {
                Some(v) => if mmio_base <= U64_MAX - MAX_WINDOW && v <= U64_MAX - MAX_WINDOW {
                    r.stage == Stage::MapControl && r.regs_virt == v
                } else {
                    r.stage == (Stage::Stopped { reason: FaultReason::MapFailed })
                },
                None => r.stage == (Stage::Stopped { reason: FaultReason::MapFailed }),
            },
    {
        let mapped = direct_map(phys_offset, mmio_base);
        let (regs_virt, stage) = match mapped {
            Some(v) => if mmio_base <= U64_MAX - MAX_WINDOW && v <= U64_MAX - MAX_WINDOW {
                (v, Stage::MapControl)
            } else {
                (0, Stage::Stopped { reason: FaultReason::MapFailed })
            },
            None => (0, Stage::Stopped { reason: FaultReason::MapFailed }),
        };
        Controller {
            mmio_base,
            phys_offset,
            regs_virt,
            window_len: 0,
            caps: ControllerCapabilities {
                max_queue_entries: 1,
                contiguous_queues_required: false,
                timeout: 0,
                doorbell_stride: 0,
            },
            sq: SubmissionRing::new(ADMIN_QUEUE_DEPTH),
            cq: CompletionRing::new(ADMIN_QUEUE_DEPTH),
            sq_phys: 0,
            sq_virt: 0,
            cq_phys: 0,
            cq_virt: 0,
            last_result: None,
            stage,
        }
    }

    /// The lifecycle state.
    pub fn state(&self) -> (r: ControllerState)
        ensures
            r == self.spec_state(),
    {
        match self.stage {
            Stage::MapControl | Stage::ReadCapabilities | Stage::MapDoorbells => ControllerState::Uninitialized,
            Stage::Disable | Stage::ResetDelay { .. } | Stage::ResetPoll { .. } => ControllerState::Resetting,
            Stage::AllocateSubmission { .. } | Stage::MapSubmission | Stage::AllocateCompletion | Stage::MapCompletion
            | Stage::ZeroCompletion | Stage::WriteAsq | Stage::WriteAcq | Stage::WriteAqa => ControllerState::Configuring,
            Stage::Enable | Stage::EnableDelay { .. } | Stage::EnablePoll { .. } => ControllerState::Enabling,
            Stage::Stopped { reason } => ControllerState::Faulted(reason),
            _ => ControllerState::Ready,
        }
    }

    /// The action the caller is to perform next.
    pub fn pending_action(&self) -> (r: Action)
        requires
            self.wf(),
        ensures
            r == self.spec_action(),
    {
        match self.stage {
            Stage::MapControl => Action::MapRegisters { phys: self.mmio_base, virt: self.regs_virt, len: CONTROL_WINDOW },
            Stage::ReadCapabilities => Action::ReadRegister64 { offset: REG_CAP },
            Stage::MapDoorbells => {
                proof {
                    lemma_window_len(self.caps.doorbell_stride);
                }
                let end = cq_head_doorbell(ADMIN_CQ_DOORBELL, self.caps.doorbell_stride) + 4;
                Action::MapRegisters {
                    phys: self.mmio_base + DOORBELL_BASE,
                    virt: self.regs_virt + DOORBELL_BASE,
                    len: end - DOORBELL_BASE,
                }
            },
            Stage::Disable => Action::WriteRegister32 { offset: REG_CC, value: 0 },
            Stage::ResetDelay { .. } => Action::Delay { ms: POLL_DELAY_MS },
            Stage::ResetPoll { .. } => Action::ReadRegister32 { offset: REG_CSTS },
            Stage::AllocateSubmission { .. } => Action::AllocateFrame,
            Stage::MapSubmission => Action::MapMemory { phys: self.sq_phys, virt: self.sq_virt, len: SUBMISSION_QUEUE_BYTES },
            Stage::AllocateCompletion => Action::AllocateFrame,
            Stage::MapCompletion => Action::MapMemory { phys: self.cq_phys, virt: self.cq_virt, len: COMPLETION_QUEUE_BYTES },
            Stage::ZeroCompletion => Action::ZeroMemory { virt: self.cq_virt, len: COMPLETION_QUEUE_BYTES },
            Stage::WriteAsq => Action::WriteRegister64 { offset: REG_ASQ, value: self.sq_phys },
            Stage::WriteAcq => Action::WriteRegister64 { offset: REG_ACQ, value: self.cq_phys },
            Stage::WriteAqa => Action::WriteRegister32 { offset: REG_AQA, value: admin_queue_attributes(ADMIN_QUEUE_DEPTH) },
            Stage::Enable => Action::WriteRegister32 { offset: REG_CC, value: 1 },
            Stage::EnableDelay { .. } => Action::Delay { ms: POLL_DELAY_MS },
            Stage::EnablePoll { .. } => Action::ReadRegister32 { offset: REG_CSTS },
            Stage::Idle => Action::Idle,
            Stage::AllocateData { .. } => Action::AllocateFrame,
            Stage::Submit { entry, .. } => Action::WriteCommand {
                virt: self.sq_virt + self.sq.tail as u64 * COMMAND_SIZE,
                entry,
            },
            Stage::RingSubmission { .. } => Action::WriteRegister32 {
                offset: sq_tail_doorbell(ADMIN_SQ_DOORBELL, self.caps.doorbell_stride),
                value: self.sq.tail as u32,
            },
            Stage::AwaitCompletion { .. } => Action::ReadCompletion {
                virt: self.cq_virt + self.cq.head as u64 * COMPLETION_SIZE,
            },
            Stage::CompletionDelay { .. } => Action::Delay { ms: COMPLETION_DELAY_MS },
            Stage::RingCompletion { .. } => Action::WriteRegister32 {
                offset: cq_head_doorbell(ADMIN_CQ_DOORBELL, self.caps.doorbell_stride),
                value: self.cq.head as u32,
            },
            Stage::MapData { data_phys, data_virt } => Action::MapMemory { phys: data_phys, virt: data_virt, len: FRAME_SIZE },
            Stage::ReadData { data_virt } => Action::ReadIdentifyData { virt: data_virt },
            Stage::Stopped { .. } => Action::Idle,
        }
    }

    /// Takes the transition for event `e`, the outcome of the pending action.
    pub fn step(&mut self, e: Event)
        requires
            old(self).wf(),
        ensures
            final(self).wf(),
            *final(self) == old(self).spec_step(e),
    {
        match self.stage {
            Stage::MapControl => match e {
                Event::Done => {
                    self.window_len = CONTROL_WINDOW;
                    self.stage = Stage::ReadCapabilities;
                },
                Event::Failed => self.stage = Stage::Stopped { reason: FaultReason::MapFailed },
                _ => {},
            },
            Stage::ReadCapabilities => match e {
                Event::Value(v) => {
                    self.caps = ControllerCapabilities::from_register(v);
                    self.stage = Stage::MapDoorbells;
                },
                _ => {},
            },
            Stage::MapDoorbells => match e {
                Event::Done => {
                    proof {
                        lemma_window_len(self.caps.doorbell_stride);
                    }
                    self.window_len = cq_head_doorbell(ADMIN_CQ_DOORBELL, self.caps.doorbell_stride) + 4;
                    self.stage = Stage::Disable;
                },
                Event::Failed => self.stage = Stage::Stopped { reason: FaultReason::MapFailed },
                _ => {},
            },
            Stage::Disable => if let Event::Done = e {
                self.stage = Stage::ResetDelay { polls_left: RESET_POLL_LIMIT };
            },
            Stage::ResetDelay { polls_left } => if let Event::Done = e {
                self.stage = Stage::ResetPoll { polls_left };
            },
            Stage::ResetPoll { polls_left } => if let Event::Value(v) = e {
                if !is_controller_ready(#[verifier::truncate] (v as u32)) {
                    self.stage = Stage::AllocateSubmission { frames: 0 };
                } else if polls_left <= 1 {
                    self.stage = Stage::Stopped { reason: FaultReason::ResetTimeout };
                } else {
                    self.stage = Stage::ResetDelay { polls_left: polls_left - 1 };
                }
            },
            Stage::AllocateSubmission { frames } => match e {
                Event::Frame(p) => {
                    let accepted = if frames == 0 {
                        match region_virt(self.phys_offset, p, SUBMISSION_QUEUE_BYTES) {
                            Some(v) => {
                                self.sq_phys = p;
                                self.sq_virt = v;
                                true
                            },
                            None => {
                                self.stage = Stage::Stopped {
                                    reason: FaultReason::QueueSetupFailed { cause: NvmeError::PageMappingFailed },
                                };
                                false
                            },
                        }
                    } else if p == self.sq_phys + frames as u64 * FRAME_SIZE {
                        true
                    } else {
                        self.stage = Stage::Stopped {
                            reason: FaultReason::QueueSetupFailed { cause: NvmeError::FrameAllocationFailed },
                        };
                        false
                    };
                    if accepted {
                        let held = frames + 1;
                        self.stage = if held >= SUBMISSION_QUEUE_FRAMES {
                            Stage::MapSubmission
                        } else {
                            Stage::AllocateSubmission { frames: held }
                        };
                    }
                },
                Event::NoFrame => self.stage = Stage::Stopped {
                    reason: FaultReason::QueueSetupFailed { cause: NvmeError::FrameAllocationFailed },
                },
                _ => {},
            },
            Stage::MapSubmission => match e {
                Event::Done => self.stage = Stage::AllocateCompletion,
                Event::Failed => self.stage = Stage::Stopped {
                    reason: FaultReason::QueueSetupFailed { cause: NvmeError::PageMappingFailed },
                },
                _ => {},
            },
            Stage::AllocateCompletion => match e {
                Event::Frame(p) => match region_virt(self.phys_offset, p, COMPLETION_QUEUE_BYTES) {
                    Some(v) => {
                        self.cq_phys = p;
                        self.cq_virt = v;
                        self.stage = Stage::MapCompletion;
                    },
                    None => self.stage = Stage::Stopped {
                        reason: FaultReason::QueueSetupFailed { cause: NvmeError::PageMappingFailed },
                    },
                },
                Event::NoFrame => self.stage = Stage::Stopped {
                    reason: FaultReason::QueueSetupFailed { cause: NvmeError::FrameAllocationFailed },
                },
                _ => {},
            },
            Stage::MapCompletion => match e {
                Event::Done => self.stage = Stage::ZeroCompletion,
                Event::Failed => self.stage = Stage::Stopped {
                    reason: FaultReason::QueueSetupFailed { cause: NvmeError::PageMappingFailed },
                },
                _ => {},
            },
            Stage::ZeroCompletion => if let Event::Done = e {
                self.stage = Stage::WriteAsq;
            },
            Stage::WriteAsq => if let Event::Done = e {
                self.stage = Stage::WriteAcq;
            },
            Stage::WriteAcq => if let Event::Done = e {
                self.stage = Stage::WriteAqa;
            },
            Stage::WriteAqa => if let Event::Done = e {
                self.sq = SubmissionRing::new(ADMIN_QUEUE_DEPTH);
                self.cq = CompletionRing::new(ADMIN_QUEUE_DEPTH);
                self.stage = Stage::Enable;
            },
            Stage::Enable => if let Event::Done = e {
                self.stage = Stage::EnableDelay { polls_left: ENABLE_POLL_LIMIT };
            },
            Stage::EnableDelay { polls_left } => if let Event::Done = e {
                self.stage = Stage::EnablePoll { polls_left };
            },
            Stage::EnablePoll { polls_left } => if let Event::Value(v) = e {
                if is_controller_ready(#[verifier::truncate] (v as u32)) {
                    self.stage = Stage::Idle;
                } else if polls_left <= 1 {
                    self.stage = Stage::Stopped { reason: FaultReason::EnableFailed };
                } else {
                    self.stage = Stage::EnableDelay { polls_left: polls_left - 1 };
                }
            },
            Stage::Idle => {},
            Stage::AllocateData { cns, namespace_id } => match e {
                Event::Frame(p) => match region_virt(self.phys_offset, p, FRAME_SIZE) {
                    Some(v) => {
                        let entry = identify_command(cns, namespace_id, p, self.sq.tail);
                        self.stage = Stage::Submit { kind: CommandKind::Identify { data_phys: p, data_virt: v }, entry };
                    },
                    None => self.stage = Stage::Stopped {
                        reason: FaultReason::IdentifyFailed { error: NvmeError::PageMappingFailed },
                    },
                },
                Event::NoFrame => self.stage = Stage::Stopped {
                    reason: FaultReason::IdentifyFailed { error: NvmeError::FrameAllocationFailed },
                },
                _ => {},
            },
            Stage::Submit { kind, .. } => if let Event::Done = e {
                self.sq.advance();
                self.stage = Stage::RingSubmission { kind };
            },
            Stage::RingSubmission { kind } => if let Event::Done = e {
                self.stage = Stage::AwaitCompletion { kind, polls_left: COMPLETION_POLL_LIMIT };
            },
            Stage::AwaitCompletion { kind, polls_left } => if let Event::Completion(c) = e {
                if self.cq.is_new(c.phase_tag()) {
                    self.cq.consume();
                    self.sq.retire_all();
                    self.stage = Stage::RingCompletion { kind, entry: c };
                } else if polls_left <= 1 {
                    self.stage = Stage::Stopped { reason: command_fault(kind, NvmeError::CompletionTimeout) };
                } else {
                    self.stage = Stage::CompletionDelay { kind, polls_left: polls_left - 1 };
                }
            },
            Stage::CompletionDelay { kind, polls_left } => if let Event::Done = e {
                self.stage = Stage::AwaitCompletion { kind, polls_left };
            },
            Stage::RingCompletion { kind, entry } => if let Event::Done = e {
                let outcome = entry.outcome();
                let next = match kind {
                    CommandKind::Identify { data_phys, data_virt } => match outcome {
                        Ok(_) => Stage::MapData { data_phys, data_virt },
                        Err(error) => Stage::Stopped { reason: FaultReason::IdentifyFailed { error } },
                    },
                    CommandKind::SetFeatures => Stage::Idle,
                };
                self.last_result = Some(outcome);
                self.stage = next;
            },
            Stage::MapData { data_virt, .. } => match e {
                Event::Done => self.stage = Stage::ReadData { data_virt },
                Event::Failed => self.stage = Stage::Stopped {
                    reason: FaultReason::IdentifyFailed { error: NvmeError::PageMappingFailed },
                },
                _ => {},
            },
            Stage::ReadData { .. } => {},
            Stage::Stopped { .. } => {},
        }
    }
}

impl Controller {
    /// Starts an Identify command for structure `cns` of `namespace_id` when
    /// the controller is ready and idle; returns whether it started.
    pub fn identify(&mut self, cns: Cns, namespace_id: u32) -> (started: bool)
        requires
            old(self).wf(),
        ensures
            final(self).wf(),
            started == (old(self).stage is Idle),
            started ==> *final(self) == (Controller { stage: Stage::AllocateData { cns, namespace_id }, ..*old(self) }),
            !started ==> *final(self) == *old(self),
    {
        if let Stage::Idle = self.stage {
            self.stage = Stage::AllocateData { cns, namespace_id };
            true
        } else {
            false
        }
    }

    /// Starts a Set Features command that sets `feature_id` to `value` when
    /// the controller is ready and idle; returns whether it started.
    pub fn set_feature(&mut self, feature_id: u8, value: u32) -> (started: bool)
        requires
            old(self).wf(),
        ensures
            final(self).wf(),
            started == (old(self).stage is Idle),
            started ==> *final(self) == (Controller {
                stage: Stage::Submit {
                    kind: CommandKind::SetFeatures,
                    entry: spec_set_features_command(feature_id, value, old(self).sq.tail),
                },
                ..*old(self)
            }),
            !started ==> *final(self) == *old(self),
    {
        if let Stage::Idle = self.stage {
            let entry = set_features_command(feature_id, value, self.sq.tail);
            self.stage = Stage::Submit { kind: CommandKind::SetFeatures, entry };
            true
        } else {
            false
        }
    }

    /// Takes the Identify data read for a `ReadIdentifyData` action and
    /// returns it decoded; the controller is then idle again. Data that comes
    /// at another stage, or is shorter than the structure, is refused and
    /// changes nothing.
    pub fn accept_identify_data(&mut self, data: &[u8]) -> (r: Option<IdentifyControllerData>)
        requires
            old(self).wf(),
        ensures
            final(self).wf(),
            r is Some <==> (old(self).stage is ReadData && data@.len() >= IDENTIFY_DATA_SIZE),
            r matches Some(d) ==> decodes_to(data@, d) && *final(self) == (Controller { stage: Stage::Idle, ..*old(self) }),
            r is None ==> *final(self) == *old(self),
    {
        if let Stage::ReadData { .. } = self.stage {
            let parsed = IdentifyControllerData::parse(data);
            if parsed.is_some() {
                self.stage = Stage::Idle;
            }
            parsed
        } else {
            None
        }
    }

    /// A measure of the work left before the machine comes to rest (idle,
    /// waiting for Identify data, or stopped).
    pub open spec fn progress_rank(self) -> int {
        match self.stage {
            Stage::MapControl => 1000,
            Stage::ReadCapabilities => 999,
            Stage::MapDoorbells => 998,
            Stage::Disable => 997,
            Stage::ResetDelay { polls_left } => 400 + 2 * polls_left,
            Stage::ResetPoll { polls_left } => 399 + 2 * polls_left,
            Stage::AllocateSubmission { frames } => 305 - frames,
            Stage::MapSubmission => 299,
            Stage::AllocateCompletion => 298,
            Stage::MapCompletion => 297,
            Stage::ZeroCompletion => 296,
            Stage::WriteAsq => 295,
            Stage::WriteAcq => 294,
            Stage::WriteAqa => 293,
            Stage::Enable => 292,
            Stage::EnableDelay { polls_left } => 50 + 2 * polls_left,
            Stage::EnablePoll { polls_left } => 49 + 2 * polls_left,
            Stage::Idle => 0,
            Stage::AllocateData { .. } => 290,
            Stage::Submit { .. } => 289,
            Stage::RingSubmission { .. } => 288,
            Stage::AwaitCompletion { polls_left, .. } => 40 + 2 * polls_left,
            Stage::CompletionDelay { polls_left, .. } => 41 + 2 * polls_left,
            Stage::RingCompletion { .. } => 30,
            Stage::MapData { .. } => 20,
            Stage::ReadData { .. } => 10,
            Stage::Stopped { .. } => 0,
        }
    }
}

/// A fault is final: a stopped controller asks for nothing more (in
/// particular it writes no register), reports `Faulted` with its error, and
/// no event moves it.
pub proof fn lemma_fault_is_final(c: Controller, e: Event)
    requires
        c.stage is Stopped,
    ensures
        c.spec_step(e) == c,
        c.spec_action() == Action::Idle,
        c.spec_state() == ControllerState::Faulted(c.stage->reason),
{
}

/// Every wait is bounded: each event either is refused (the controller is
/// unchanged) or strictly lowers the progress rank, which starts at 1000 at
/// most. So bring-up reaches `Ready` or `Faulted` after at most 1000 accepted
/// events, and an admin command finishes after at most 290.
pub proof fn lemma_step_makes_progress(c: Controller, e: Event)
    requires
        c.wf(),
    ensures
        c.spec_step(e) == c || c.spec_step(e).progress_rank() < c.progress_rank(),
        0 <= c.progress_rank() <= 1000,
{
}

/// The controller after `k` rounds of the reset or enable wait, each a
/// delay answered `Done` and a status read answered with `status`.
pub open spec fn poll_rounds(c: Controller, status: u32, k: nat) -> Controller
    decreases k,
{
    if k == 0 {
        c
    } else {
        poll_rounds(c, status, (k - 1) as nat).spec_step(Event::Done).spec_step(Event::Value(status as u64))
    }
}

proof fn lemma_reset_rounds(d: Controller, status: u32, k: nat)
    requires
        d.stage == (Stage::ResetDelay { polls_left: RESET_POLL_LIMIT }),
        spec_is_ready(status),
        k <= RESET_POLL_LIMIT,
    ensures
        poll_rounds(d, status, k) == (if k < RESET_POLL_LIMIT {
            Controller { stage: Stage::ResetDelay { polls_left: (RESET_POLL_LIMIT - k) as u8 }, ..d }
        } else {
            d.stop(FaultReason::ResetTimeout)
        }),
    decreases k,
{
    if k > 0 {
        lemma_reset_rounds(d, status, (k - 1) as nat);
    }
}

/// A reset that never completes times out after exactly 100 polls: once
/// the configuration register is cleared, while every status read shows the
/// readiness bit still set, each of the first 100 rounds asks for a 1 ms
/// delay and then one status read (no register write, no allocation), and
/// after the 100th read the controller is `Faulted(ResetTimeout)`, after
/// which it asks for nothing more.
pub proof fn lemma_reset_wait_times_out(c: Controller, status: u32)
    requires
        c.stage is Disable,
        spec_is_ready(status),
    ensures
        c.spec_action() == (Action::WriteRegister32 { offset: REG_CC, value: 0 }),
        forall|k: nat| k < RESET_POLL_LIMIT ==> {
            let r = #[trigger] poll_rounds(c.spec_step(Event::Done), status, k);
            &&& r.spec_action() == (Action::Delay { ms: POLL_DELAY_MS })
            &&& r.spec_step(Event::Done).spec_action() == (Action::ReadRegister32 { offset: REG_CSTS })
        },
        poll_rounds(c.spec_step(Event::Done), status, RESET_POLL_LIMIT as nat).spec_state()
            == ControllerState::Faulted(FaultReason::ResetTimeout),
        poll_rounds(c.spec_step(Event::Done), status, RESET_POLL_LIMIT as nat).spec_action() == Action::Idle,
{
    let d = c.spec_step(Event::Done);
    assert forall|k: nat| k < RESET_POLL_LIMIT implies {
        let r = #[trigger] poll_rounds(d, status, k);
        &&& r.spec_action() == (Action::Delay { ms: POLL_DELAY_MS })
        &&& r.spec_step(Event::Done).spec_action() == (Action::ReadRegister32 { offset: REG_CSTS })
    } by {
        lemma_reset_rounds(d, status, k);
    }
    lemma_reset_rounds(d, status, RESET_POLL_LIMIT as nat);
}

/// Every register access that the machine asks for lies inside the part of
/// the register window mapped so far.
pub proof fn lemma_register_access_in_window(c: Controller)
    requires
        c.wf(),
    ensures
        match c.spec_action() {
            Action::ReadRegister32 { offset } => offset + 4 <= c.window_len,
            Action::ReadRegister64 { offset } => offset + 8 <= c.window_len,
            Action::WriteRegister32 { offset, .. } => offset + 4 <= c.window_len,
            Action::WriteRegister64 { offset, .. } => offset + 8 <= c.window_len,
            _ => true,
        },
{
    lemma_window_len(c.caps.doorbell_stride);
}

} // verus!
