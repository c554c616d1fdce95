use linjector::controller::{
    Controller, Dispatched, HypercallRegs, Outcome, ProcessStart, ProtocolViolation,
};
use linjector::protocol::HcCmd;
use linjector::section::ConfigError;
use linjector::MAGIC;

// A minimal 64-bit little-endian ELF image with one `.text` section holding
// `text` at virtual address `text_addr`, and entry address `entry`.
fn build_elf(text: &[u8], text_addr: u64, entry: u64) -> Vec<u8> {
    fn push_shdr(out: &mut Vec<u8>, name: u32, typ: u32, flags: u64, addr: u64, off: u64, size: u64) {
        out.extend_from_slice(&name.to_le_bytes());
        out.extend_from_slice(&typ.to_le_bytes());
        out.extend_from_slice(&flags.to_le_bytes());
        out.extend_from_slice(&addr.to_le_bytes());
        out.extend_from_slice(&off.to_le_bytes());
        out.extend_from_slice(&size.to_le_bytes());
        out.extend_from_slice(&0u32.to_le_bytes());
        out.extend_from_slice(&0u32.to_le_bytes());
        out.extend_from_slice(&1u64.to_le_bytes());
        out.extend_from_slice(&0u64.to_le_bytes());
    }
    let shstrtab: &[u8] = b"\0.text\0.shstrtab\0";
    let text_off = 64u64;
    let str_off = text_off + text.len() as u64;
    let mut shoff = str_off + shstrtab.len() as u64;
    let pad = (8 - shoff % 8) % 8;
    shoff += pad;
    let mut out: Vec<u8> = Vec::new();
    out.extend_from_slice(&[0x7f, b'E', b'L', b'F', 2, 1, 1, 0, 0, 0, 0, 0, 0, 0, 0, 0]);
    out.extend_from_slice(&2u16.to_le_bytes()); // e_type: EXEC
    out.extend_from_slice(&62u16.to_le_bytes()); // e_machine: x86-64
    out.extend_from_slice(&1u32.to_le_bytes()); // e_version
    out.extend_from_slice(&entry.to_le_bytes()); // e_entry
    out.extend_from_slice(&0u64.to_le_bytes()); // e_phoff
    out.extend_from_slice(&shoff.to_le_bytes()); // e_shoff
    out.extend_from_slice(&0u32.to_le_bytes()); // e_flags
    out.extend_from_slice(&64u16.to_le_bytes()); // e_ehsize
    out.extend_from_slice(&0u16.to_le_bytes()); // e_phentsize
    out.extend_from_slice(&0u16.to_le_bytes()); // e_phnum
    out.extend_from_slice(&64u16.to_le_bytes()); // e_shentsize
    out.extend_from_slice(&3u16.to_le_bytes()); // e_shnum
    out.extend_from_slice(&2u16.to_le_bytes()); // e_shstrndx
    assert_eq!(out.len(), 64);
    out.extend_from_slice(text);
    out.extend_from_slice(shstrtab);
    out.extend_from_slice(&vec![0u8; pad as usize]);
    out.extend_from_slice(&[0u8; 64]); // null section header
    push_shdr(&mut out, 1, 1, 6, text_addr, text_off, text.len() as u64);
    push_shdr(&mut out, 7, 3, 0, 0, str_off, shstrtab.len() as u64);
    out
}

const STAGE1: [u8; 6] = [0x90, 0x90, 0xcc, 0x90, 0x90, 0xc3];
const STAGE2: [u8; 4] = [0xf4, 0xf4, 0xf4, 0xc3];
const ENTRY: u64 = 0x40_0000;

fn make_controller(require_root: bool) -> Controller {
    let s1 = build_elf(&STAGE1, 0x1000, 0x1000);
    let s2 = build_elf(&STAGE2, 0x2100, 0x2000);
    Controller::new(require_root, &s1, &s2).unwrap()
}

fn meta(euid: u64) -> ProcessStart {
    ProcessStart {
        execfn_ptr: 0xa1,
        argv_ptr_ptr: 0xa2,
        env_ptr_ptr: 0xa3,
        entry: ENTRY,
        euid,
    }
}

// A controller that has seen a qualifying process start and the entry hook.
// The bytes found at the entry point were six 0xAA bytes.
fn started_controller() -> Controller {
    let mut c = make_controller(false);
    let hook = c.handle_proc_start(meta(1000)).unwrap();
    assert_eq!(hook, Some(ENTRY));
    let out = c.entry_hook(ENTRY, vec![0xaa; STAGE1.len()]).unwrap();
    assert_eq!(out.writes.len(), 1);
    assert_eq!(out.writes[0].addr, ENTRY);
    assert_eq!(out.writes[0].bytes, STAGE1.to_vec());
    assert_eq!(out.ret, None);
    assert_eq!(out.install_hook, None);
    c
}

fn dispatch(c: &mut Controller, reg1: u64, reg2: u64, reg3: u64) -> Outcome {
    let regs = HypercallRegs { reg0: MAGIC, reg1, reg2, reg3 };
    match c.hypercall_handler(regs).unwrap() {
        Dispatched::Handled(out) => out,
        Dispatched::NeedPayload => panic!("payload requested unexpectedly"),
    }
}

#[test]
fn hccmd_parse_maps_tags_in_order() {
    assert_eq!(HcCmd::parse(0), HcCmd::Noop);
    assert_eq!(HcCmd::parse(1), HcCmd::Start);
    assert_eq!(HcCmd::parse(2), HcCmd::Stop);
    assert_eq!(HcCmd::parse(3), HcCmd::Read);
    assert_eq!(HcCmd::parse(4), HcCmd::Write);
    assert_eq!(HcCmd::parse(5), HcCmd::Error);
    assert_eq!(HcCmd::parse(6), HcCmd::ConditionalOp);
    assert_eq!(HcCmd::parse(7), HcCmd::NextStateMachine);
    assert_eq!(HcCmd::parse(8), HcCmd::Noop);
    assert_eq!(HcCmd::parse(0xdead_beef), HcCmd::Noop);
}

#[test]
fn write_streams_payload_in_chunks() {
    let mut c = started_controller();
    let payload: Vec<u8> = (0u8..10).collect();

    // First Write: the payload is loaded lazily.
    let regs = HypercallRegs { reg0: MAGIC, reg1: 4, reg2: 0x1000, reg3: 4 };
    match c.hypercall_handler(regs).unwrap() {
        Dispatched::NeedPayload => {}
        Dispatched::Handled(_) => panic!("payload should be requested first"),
    }
    c.provide_payload(payload.clone()).unwrap();

    let mut received: Vec<u8> = Vec::new();
    let out = dispatch(&mut c, 4, 0x1000, 4);
    assert_eq!(out.ret, Some(4));
    assert_eq!(out.writes[0].addr, 0x1000);
    assert_eq!(out.writes[0].bytes, payload[0..4].to_vec());
    received.extend_from_slice(&out.writes[0].bytes);

    let out = dispatch(&mut c, 4, 0x1004, 4);
    assert_eq!(out.ret, Some(4));
    assert_eq!(out.writes[0].bytes, payload[4..8].to_vec());
    received.extend_from_slice(&out.writes[0].bytes);

    let out = dispatch(&mut c, 4, 0x1008, 4);
    assert_eq!(out.ret, Some(2));
    assert_eq!(out.writes[0].bytes, payload[8..10].to_vec());
    received.extend_from_slice(&out.writes[0].bytes);

    // Exhausted: end of data, no register write, no memory write.
    let out = dispatch(&mut c, 4, 0x100c, 4);
    assert_eq!(out.ret, None);
    assert!(out.writes.is_empty());

    assert_eq!(received, payload);
}

#[test]
fn write_with_empty_payload_ends_at_once() {
    let mut c = started_controller();
    c.provide_payload(Vec::new()).unwrap();
    let out = dispatch(&mut c, 4, 0x1000, 8);
    assert_eq!(out.ret, None);
    assert!(out.writes.is_empty());
}

#[test]
fn provide_payload_twice_is_fatal() {
    let mut c = started_controller();
    c.provide_payload(vec![1, 2, 3]).unwrap();
    assert_eq!(
        c.provide_payload(vec![4, 5]),
        Err(ProtocolViolation::PayloadAlreadySet)
    );
}

#[test]
fn reads_deliver_pointers_in_order() {
    let mut c = started_controller();
    let out = dispatch(&mut c, 3, 1, 0);
    assert_eq!(out.ret, Some(0xa1));
    let out = dispatch(&mut c, 3, 7, 0);
    assert_eq!(out.ret, Some(0xa2));
    let out = dispatch(&mut c, 3, 1, 0);
    assert_eq!(out.ret, Some(0xa3));
    let out = dispatch(&mut c, 3, 1, 0);
    assert_eq!(out.ret, None);
    assert!(out.writes.is_empty());
}

#[test]
fn entry_bytes_restored_on_third_read_and_after_stop() {
    let mut c = started_controller();
    let saved = vec![0xaa; STAGE1.len()];

    let out = dispatch(&mut c, 3, 1, 0);
    assert!(out.writes.is_empty());
    let out = dispatch(&mut c, 3, 1, 0);
    assert!(out.writes.is_empty());

    // The third Read restores the original entry bytes.
    let out = dispatch(&mut c, 3, 1, 0);
    assert_eq!(out.writes.len(), 1);
    assert_eq!(out.writes[0].addr, ENTRY);
    assert_eq!(out.writes[0].bytes, saved);

    // Stop afterwards writes the success marker and re-applies the same
    // restoration.
    let out = dispatch(&mut c, 2, 0x7000, 0);
    assert_eq!(out.writes.len(), 2);
    assert_eq!(out.writes[0].addr, 0x7000);
    assert_eq!(out.writes[0].bytes, vec![1, 2, 3, 4]);
    assert_eq!(out.writes[1].addr, ENTRY);
    assert_eq!(out.writes[1].bytes, saved);
    assert_eq!(out.ret, None);
}

#[test]
fn stop_before_all_pointers_writes_nothing() {
    let mut c = started_controller();
    let out = dispatch(&mut c, 2, 0x7000, 0);
    assert!(out.writes.is_empty());

    let _ = dispatch(&mut c, 3, 1, 0);
    let _ = dispatch(&mut c, 3, 1, 0);
    let out = dispatch(&mut c, 2, 0x7000, 0);
    assert!(out.writes.is_empty());
}

#[test]
fn wrong_magic_is_passed_through_untouched() {
    let mut c = started_controller();
    // Even a Read with a zero liveness argument is ignored without the magic.
    let regs = HypercallRegs { reg0: MAGIC + 1, reg1: 3, reg2: 0, reg3: 0 };
    match c.hypercall_handler(regs).unwrap() {
        Dispatched::Handled(out) => {
            assert!(out.writes.is_empty());
            assert_eq!(out.ret, None);
            assert_eq!(out.install_hook, None);
        }
        Dispatched::NeedPayload => panic!("pass-through must not need the payload"),
    }
}

#[test]
fn unmapped_and_reserved_tags_do_nothing() {
    let mut c = started_controller();
    for tag in [0u64, 5, 6, 7, 8, 1000] {
        let out = dispatch(&mut c, tag, 9, 9);
        assert!(out.writes.is_empty());
        assert_eq!(out.ret, None);
        assert_eq!(out.install_hook, None);
    }
}

#[test]
fn zero_liveness_read_aborts() {
    let mut c = started_controller();
    let regs = HypercallRegs { reg0: MAGIC, reg1: 3, reg2: 0, reg3: 0 };
    assert!(matches!(
        c.hypercall_handler(regs),
        Err(ProtocolViolation::ZeroLiveness)
    ));
    assert!(matches!(c.hyp_read(0), Err(ProtocolViolation::ZeroLiveness)));
}

#[test]
fn require_root_gates_instrumentation() {
    let mut c = make_controller(true);
    // Effective uid 1000: the process runs unmodified, the observer stays.
    assert_eq!(c.handle_proc_start(meta(1000)), Ok(None));
    // Effective uid 0 qualifies.
    assert_eq!(c.handle_proc_start(meta(0)), Ok(Some(ENTRY)));
}

#[test]
fn double_pointer_capture_is_fatal() {
    let mut c = make_controller(false);
    assert_eq!(c.handle_proc_start(meta(0)), Ok(Some(ENTRY)));
    assert_eq!(
        c.handle_proc_start(meta(0)),
        Err(ProtocolViolation::PointersAlreadySet)
    );
}

#[test]
fn entry_hook_firing_twice_is_fatal() {
    let mut c = started_controller();
    assert!(matches!(
        c.entry_hook(ENTRY, vec![0xbb; STAGE1.len()]),
        Err(ProtocolViolation::SavedCodeAlreadySet)
    ));
}

#[test]
fn read_before_capture_is_fatal() {
    let mut c = make_controller(false);
    assert!(matches!(c.hyp_read(1), Err(ProtocolViolation::PointersMissing)));
    assert!(matches!(c.hyp_stop(0x7000), Err(ProtocolViolation::PointersMissing)));
}

#[test]
fn third_read_without_saved_code_is_fatal() {
    let mut c = make_controller(false);
    assert_eq!(c.handle_proc_start(meta(0)), Ok(Some(ENTRY)));
    // The entry hook never fired, so there is nothing to restore.
    assert!(c.hyp_read(1).is_ok());
    assert!(c.hyp_read(1).is_ok());
    assert!(matches!(c.hyp_read(1), Err(ProtocolViolation::SavedCodeMissing)));
}

#[test]
fn start_requests_stage2_hook() {
    let mut c = started_controller();
    let out = dispatch(&mut c, 1, 0x1234, 0);
    assert_eq!(out.install_hook, Some(0x1234));
    assert!(out.writes.is_empty());
    assert_eq!(out.ret, None);
}

#[test]
fn inject_hook_writes_stage2_once() {
    let mut c = started_controller();
    let out = c.inject_hook(0x1234);
    assert_eq!(out.writes.len(), 1);
    assert_eq!(out.writes[0].addr, 0x1234);
    assert_eq!(out.writes[0].bytes, STAGE2.to_vec());
    // Fired again, the hook is disabled: nothing happens.
    let out = c.inject_hook(0x1234);
    assert!(out.writes.is_empty());
    assert_eq!(out.ret, None);
    assert_eq!(out.install_hook, None);
}

#[test]
fn stage1_stub_with_nonzero_offset_is_refused() {
    let s1 = build_elf(&STAGE1, 0x1010, 0x1000); // section 0x10 above the entry
    let s2 = build_elf(&STAGE2, 0x2000, 0x2000);
    assert!(matches!(
        Controller::new(false, &s1, &s2),
        Err(ConfigError::NonzeroOffset)
    ));
}

#[test]
fn stage2_stub_must_still_parse() {
    let s1 = build_elf(&STAGE1, 0x1000, 0x1000);
    assert!(matches!(
        Controller::new(false, &s1, b"not an object file"),
        Err(ConfigError::MissingSection)
    ));
}

#[test]
fn parse_file_data_extracts_text_section() {
    let text: Vec<u8> = (0x10u8..0x30).collect();
    let elf = build_elf(&text, 0x5020, 0x5000);
    let section = linjector::section::parse_file_data(&elf).unwrap();
    assert_eq!(section.data, text);
    assert_eq!(section.offset, 0x20);
    assert_eq!(section.size, text.len() as u64);
}

#[test]
fn parse_file_data_rejects_garbage() {
    assert!(matches!(
        linjector::section::parse_file_data(&[0u8; 32]),
        Err(ConfigError::MissingSection)
    ));
}

#[test]
fn parse_file_data_rejects_entry_above_section() {
    let elf = build_elf(&STAGE1, 0x1000, 0x1008);
    assert!(matches!(
        linjector::section::parse_file_data(&elf),
        Err(ConfigError::EntryAboveSection)
    ));
}

#[test]
fn complete_injection_flow() {
    // proc start -> entry hook -> Start -> stage-2 hook -> Writes -> Reads -> Stop
    let mut c = make_controller(true);
    assert_eq!(c.handle_proc_start(meta(0)), Ok(Some(ENTRY)));

    let out = c.entry_hook(ENTRY, vec![0x11, 0x22, 0x33, 0x44, 0x55, 0x66]).unwrap();
    assert_eq!(out.writes[0].bytes, STAGE1.to_vec());

    // Stage-1 runs in the guest and issues Start with its successor address.
    let out = dispatch(&mut c, 1, ENTRY + 0x40, 0);
    assert_eq!(out.install_hook, Some(ENTRY + 0x40));

    // The stage-2 hook fires there.
    let out = c.inject_hook(ENTRY + 0x40);
    assert_eq!(out.writes[0].addr, ENTRY + 0x40);
    assert_eq!(out.writes[0].bytes, STAGE2.to_vec());

    // Stage-2 streams the payload.
    c.provide_payload(vec![0xde, 0xad, 0xbe, 0xef, 0x01]).unwrap();
    let out = dispatch(&mut c, 4, 0x9000, 3);
    assert_eq!(out.ret, Some(3));
    assert_eq!(out.writes[0].bytes, vec![0xde, 0xad, 0xbe]);
    let out = dispatch(&mut c, 4, 0x9003, 3);
    assert_eq!(out.ret, Some(2));
    assert_eq!(out.writes[0].bytes, vec![0xef, 0x01]);
    let out = dispatch(&mut c, 4, 0x9005, 3);
    assert_eq!(out.ret, None);

    // Stage-2 collects the pointers; the third read restores the entry.
    assert_eq!(dispatch(&mut c, 3, 1, 0).ret, Some(0xa1));
    assert_eq!(dispatch(&mut c, 3, 1, 0).ret, Some(0xa2));
    let out = dispatch(&mut c, 3, 1, 0);
    assert_eq!(out.ret, Some(0xa3));
    assert_eq!(out.writes[0].addr, ENTRY);
    assert_eq!(out.writes[0].bytes, vec![0x11, 0x22, 0x33, 0x44, 0x55, 0x66]);

    // Stop leaves the restoration in place and writes the marker.
    let out = dispatch(&mut c, 2, 0xb000, 0);
    assert_eq!(out.writes[0].addr, 0xb000);
    assert_eq!(out.writes[0].bytes, vec![1, 2, 3, 4]);
    assert_eq!(out.writes[1].bytes, vec![0x11, 0x22, 0x33, 0x44, 0x55, 0x66]);
}
