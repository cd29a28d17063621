use seraphine::command::{
    identify_command, set_features_command, Cns, CommandEntry, CompletionEntry, OPCODE_IDENTIFY, OPCODE_SET_FEATURES,
};
use seraphine::error::NvmeError;
use seraphine::identify::{IdentifyControllerData, IDENTIFY_DATA_SIZE};
use seraphine::regs::{
    admin_queue_attributes, cq_head_doorbell, is_controller_ready, sq_tail_doorbell, ControllerCapabilities,
    ADMIN_CQ_DOORBELL, ADMIN_SQ_DOORBELL,
};
use seraphine::ring::ADMIN_QUEUE_DEPTH;
use seraphine::ring::{CompletionRing, SubmissionRing};

#[test]
fn admin_doorbells_at_stride_zero() {
    assert_eq!(sq_tail_doorbell(ADMIN_SQ_DOORBELL, 0), 0x1000);
    assert_eq!(cq_head_doorbell(ADMIN_CQ_DOORBELL, 0), 0x100C);
}

#[test]
fn doorbells_scale_with_stride() {
    assert_eq!(sq_tail_doorbell(0, 1), 0x1000);
    assert_eq!(cq_head_doorbell(0, 1), 0x1008);
    assert_eq!(sq_tail_doorbell(1, 0), 0x1008);
    assert_eq!(cq_head_doorbell(1, 0), 0x100C);
    assert_eq!(cq_head_doorbell(0, 15), 0x1000 + 0x20000);
    assert_eq!(sq_tail_doorbell(2, 3), 0x1000 + 4 * 32);
}

#[test]
fn admin_doorbells_never_overlap() {
    for stride in 0..=15u8 {
        let sq = sq_tail_doorbell(ADMIN_SQ_DOORBELL, stride);
        let cq = cq_head_doorbell(ADMIN_CQ_DOORBELL, stride);
        assert!(sq + 4 <= cq, "stride {}", stride);
        assert_eq!(cq, 0x1000 + 3 * (4u64 << stride));
    }
}

#[test]
fn capability_fields() {
    // MQES 0x7FF, CQR set, TO 0x0F, DSTRD 2
    let cap: u64 = 0x0000_0002_0F01_07FF;
    let c = ControllerCapabilities::from_register(cap);
    assert_eq!(c.max_queue_entries, 0x800);
    assert!(c.contiguous_queues_required);
    assert_eq!(c.timeout, 0x0F);
    assert_eq!(c.doorbell_stride, 2);
    let z = ControllerCapabilities::from_register(0);
    assert_eq!(z.max_queue_entries, 1);
    assert!(!z.contiguous_queues_required);
    assert_eq!(z.doorbell_stride, 0);
}

#[test]
fn readiness_bit() {
    assert!(is_controller_ready(1));
    assert!(is_controller_ready(0xFFFF_FFFF));
    assert!(!is_controller_ready(0));
    assert!(!is_controller_ready(2));
}

#[test]
fn queue_attributes_value() {
    assert_eq!(ADMIN_QUEUE_DEPTH, 256);
    assert_eq!(admin_queue_attributes(ADMIN_QUEUE_DEPTH), 0x00FF_00FF);
    assert_eq!(admin_queue_attributes(64), 0x003F_003F);
    assert_eq!(admin_queue_attributes(256), 0x00FF_00FF);
    assert_eq!(admin_queue_attributes(2), 0x0001_0001);
}

#[test]
fn submissions_use_distinct_slots_until_full() {
    let mut r = SubmissionRing::new(8);
    let mut slots = Vec::new();
    for _ in 0..7 {
        assert!(!r.is_full());
        slots.push(r.advance());
    }
    assert_eq!(slots, vec![0, 1, 2, 3, 4, 5, 6]);
    assert_eq!(r.tail, 7);
    assert_ne!(r.tail, r.head);
    assert!(r.is_full());
}

#[test]
fn submission_tail_wraps_after_retire() {
    let mut r = SubmissionRing::new(4);
    for _ in 0..3 {
        r.advance();
    }
    r.retire_all();
    assert_eq!(r.head, 3);
    assert!(!r.is_full());
    assert_eq!(r.advance(), 3);
    assert_eq!(r.tail, 0);
    assert_eq!(r.advance(), 0);
    assert_eq!(r.tail, 1);
}

#[test]
fn completion_phase_flips_once_per_pass() {
    let mut r = CompletionRing::new(4);
    assert!(r.phase);
    let mut flips = 0;
    for _ in 0..4 {
        let before = r.phase;
        r.consume();
        if r.phase != before {
            flips += 1;
        }
    }
    assert_eq!(flips, 1);
    assert_eq!(r.head, 0);
    assert!(!r.phase);
    for _ in 0..4 {
        r.consume();
    }
    assert!(r.phase);
}

#[test]
fn completion_newness_follows_expected_phase() {
    let mut r = CompletionRing::new(2);
    assert!(r.is_new(true));
    assert!(!r.is_new(false));
    r.consume();
    r.consume();
    assert!(r.is_new(false));
    assert!(!r.is_new(true));
}

#[test]
fn identify_command_layout() {
    let c = identify_command(Cns::Controller, 0, 0x0012_3000, 5);
    assert_eq!(c.opcode, OPCODE_IDENTIFY);
    assert_eq!(c.cdw10, 1);
    assert_eq!(c.prp1, 0x0012_3000);
    let b = c.to_bytes();
    assert_eq!(b.len(), 64);
    assert_eq!(b[0], 0x06);
    assert_eq!(b[1], 0);
    assert_eq!(&b[2..4], &[5, 0]);
    assert_eq!(&b[4..8], &[0, 0, 0, 0]);
    assert_eq!(&b[24..32], &[0x00, 0x30, 0x12, 0x00, 0, 0, 0, 0]);
    assert_eq!(&b[40..44], &[1, 0, 0, 0]);
    assert!(b[8..24].iter().all(|x| *x == 0));
    assert!(b[44..64].iter().all(|x| *x == 0));
}

#[test]
fn namespace_identify_carries_namespace() {
    let c = identify_command(Cns::Namespace, 0x0102_0304, 0x5000, 0);
    assert_eq!(c.cdw10, 0);
    let b = c.to_bytes();
    assert_eq!(&b[4..8], &[0x04, 0x03, 0x02, 0x01]);
}

#[test]
fn set_features_command_layout() {
    let c = set_features_command(0x80, 0xAABB_CCDD, 9);
    assert_eq!(c.opcode, OPCODE_SET_FEATURES);
    let b = c.to_bytes();
    assert_eq!(b[0], 0x09);
    assert_eq!(&b[2..4], &[9, 0]);
    assert_eq!(&b[40..44], &[0x80, 0, 0, 0]);
    assert_eq!(&b[44..48], &[0xDD, 0xCC, 0xBB, 0xAA]);
}

#[test]
fn every_field_lands_at_its_offset() {
    let c = CommandEntry {
        opcode: 0x11,
        flags: 0x22,
        command_id: 0x3344,
        namespace_id: 0x5566_7788,
        reserved: 0x0102_0304_0506_0708,
        metadata_ptr: 0x1112_1314_1516_1718,
        prp1: 0x2122_2324_2526_2728,
        prp2: 0x3132_3334_3536_3738,
        cdw10: 0x4142_4344,
        cdw11: 0x5152_5354,
        cdw12: 0x6162_6364,
        cdw13: 0x7172_7374,
        cdw14: 0x8182_8384,
        cdw15: 0x9192_9394,
    };
    let b = c.to_bytes();
    assert_eq!(b[0], 0x11);
    assert_eq!(b[1], 0x22);
    assert_eq!(&b[2..4], &[0x44, 0x33]);
    assert_eq!(&b[4..8], &[0x88, 0x77, 0x66, 0x55]);
    assert_eq!(b[8], 0x08);
    assert_eq!(b[16], 0x18);
    assert_eq!(b[24], 0x28);
    assert_eq!(b[32], 0x38);
    assert_eq!(b[39], 0x31);
    assert_eq!(&b[40..44], &[0x44, 0x43, 0x42, 0x41]);
    assert_eq!(&b[60..64], &[0x94, 0x93, 0x92, 0x91]);
}

fn completion_bytes(result: u32, sq_head: u16, cid: u16, status: u16) -> Vec<u8> {
    let mut b = Vec::new();
    b.extend_from_slice(&result.to_le_bytes());
    b.extend_from_slice(&0u32.to_le_bytes());
    b.extend_from_slice(&sq_head.to_le_bytes());
    b.extend_from_slice(&0u16.to_le_bytes());
    b.extend_from_slice(&cid.to_le_bytes());
    b.extend_from_slice(&status.to_le_bytes());
    b
}

#[test]
fn completion_decoding() {
    let e = CompletionEntry::from_bytes(&completion_bytes(0xDEAD_BEEF, 3, 7, 0x0001));
    assert_eq!(e.command_specific, 0xDEAD_BEEF);
    assert_eq!(e.submission_queue_head, 3);
    assert_eq!(e.command_id, 7);
    assert!(e.phase_tag());
    assert_eq!(e.outcome(), Ok(0xDEAD_BEEF));
}

#[test]
fn invalid_field_status() {
    let status: u16 = (1 << 9) | (2 << 1) | 1;
    let e = CompletionEntry::from_bytes(&completion_bytes(0, 0, 0, status));
    assert!(e.phase_tag());
    assert_eq!(e.outcome(), Err(NvmeError::CommandFailed { status_code_type: 1, status_code: 2 }));
}

#[test]
fn status_type_alone_is_a_failure() {
    let e = CompletionEntry::from_bytes(&completion_bytes(0, 0, 0, 1 << 9));
    assert!(!e.phase_tag());
    assert_eq!(e.outcome(), Err(NvmeError::CommandFailed { status_code_type: 1, status_code: 0 }));
}

fn identify_buffer() -> Vec<u8> {
    let mut b = vec![0u8; IDENTIFY_DATA_SIZE];
    b[0] = 0x36;
    b[1] = 0x1B;
    b[2] = 0xF4;
    b[3] = 0x1A;
    b[4..24].copy_from_slice(b"SERIAL-0001         ");
    b[24..64].copy_from_slice(b"QEMU NVMe Ctrl                          ");
    b[64..72].copy_from_slice(b"1.0     ");
    b[72] = 6;
    b[73..76].copy_from_slice(&[0x00, 0x54, 0x52]);
    b[76] = 0;
    b[77] = 7;
    b
}

#[test]
fn identify_data_fields() {
    let d = IdentifyControllerData::parse(&identify_buffer()).unwrap();
    assert_eq!(d.pci_vendor_id, 0x1B36);
    assert_eq!(d.pci_subsystem_vendor_id, 0x1AF4);
    assert_eq!(d.serial_number, b"SERIAL-0001         ".to_vec());
    assert_eq!(d.model_number, b"QEMU NVMe Ctrl                          ".to_vec());
    assert_eq!(d.firmware_revision, b"1.0     ".to_vec());
    assert_eq!(d.recommended_arbitration_burst, 6);
    assert_eq!(d.ieee_oui_identifier, vec![0x00, 0x54, 0x52]);
    assert_eq!(d.maximum_data_transfer_size, 7);
    assert!(!d.is_io_controller());
}

#[test]
fn identify_data_io_capability() {
    let mut b = identify_buffer();
    b[76] = 0x02;
    let d = IdentifyControllerData::parse(&b).unwrap();
    assert!(d.is_io_controller());
}

#[test]
fn identify_data_too_short() {
    let b = identify_buffer();
    assert!(IdentifyControllerData::parse(&b[..IDENTIFY_DATA_SIZE - 1]).is_none());
    assert!(IdentifyControllerData::parse(&[]).is_none());
}
