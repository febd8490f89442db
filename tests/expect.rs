use rs8086::{Config, Cpu, Inst, MemDevice, Op, PortLatch, ValueKind, Verdict};

fn run_to_halt(code: &[u8]) -> Cpu<MemDevice, PortLatch> {
    let cfg = Config { bios_file: String::from("t.bin"), ram_size: 0x1000, bios_addr: 0xf0000 };
    let mut cpu: Cpu<MemDevice, PortLatch> = Cpu::new(&cfg, code.to_vec());
    while !cpu.is_halted() {
        cpu.tick().unwrap();
    }
    cpu
}

fn image(records: &[u8]) -> Vec<u8> {
    let mut code = vec![0xb8, 0x34, 0x12, 0xf9, 0xf4, 0x00];
    code.extend_from_slice(records);
    code
}

const FILE: [u8; 10] = [0x01, 0x00, b'^', b'^', b't', b'.', b'a', b's', b'm', 0];

#[test]
fn recorded_values_pass() {
    let mut records = FILE.to_vec();
    records.extend_from_slice(&[0x07, 0x00, b'A', b'X', 0x34, 0x12]);
    records.extend_from_slice(&[0x08, 0x00, b'A', b'H', 0x12]);
    records.extend_from_slice(&[0x09, 0x00, b'C', b'F', 0x01]);
    records.extend_from_slice(&[0x00, 0x00, b'-', b'-']);
    let cpu = run_to_halt(&image(&records));
    let hlt = cpu.debug_block(0, &Inst { lock: false, rep: None, seg: None, op: Op::Nop, size: 0 });
    assert_eq!(hlt, Some(0xf0005));
    let (file, verdict) = cpu.check_expectations(0xf0005);
    assert_eq!(file, b"t.asm".to_vec());
    assert_eq!(verdict, Verdict::Passed);
}

#[test]
fn recorded_value_mismatch() {
    let mut records = FILE.to_vec();
    records.extend_from_slice(&[0x07, 0x00, b'A', b'X', 0x35, 0x12]);
    let cpu = run_to_halt(&image(&records));
    let (_, verdict) = cpu.check_expectations(0xf0005);
    assert_eq!(
        verdict,
        Verdict::Mismatch { line: 7, name: 0x5841, kind: ValueKind::Word, got: 0x1234, expected: 0x1235 }
    );
    let mut records = FILE.to_vec();
    records.extend_from_slice(&[0x03, 0x00, b'Z', b'F', 0x01]);
    let cpu = run_to_halt(&image(&records));
    let (_, verdict) = cpu.check_expectations(0xf0005);
    assert_eq!(verdict, Verdict::Mismatch { line: 3, name: 0x465a, kind: ValueKind::Flag, got: 0, expected: 1 });
}

#[test]
fn unknown_and_truncated_records() {
    let mut records = FILE.to_vec();
    records.extend_from_slice(&[0x04, 0x00, b'Z', b'Z', 0x00]);
    let cpu = run_to_halt(&image(&records));
    assert_eq!(cpu.check_expectations(0xf0005).1, Verdict::Unknown { line: 4, name: 0x5a5a });
    let cpu = run_to_halt(&image(&[0x04, 0x00, b'Z', b'Z']));
    assert_eq!(cpu.check_expectations(0xf0005).1, Verdict::Passed);
    let cpu = run_to_halt(&image(&[0x04, 0x00, b'A']));
    assert_eq!(cpu.check_expectations(0xf0005).1, Verdict::Passed);
    let cpu = run_to_halt(&image(&[0x04, 0x00]));
    assert_eq!(cpu.check_expectations(0xf0005).1, Verdict::Truncated);
}

#[test]
fn return_followed_by_halt_is_a_check_point() {
    let cfg = Config { bios_file: String::from("t.bin"), ram_size: 0x1000, bios_addr: 0xf0000 };
    let cpu: Cpu<MemDevice, PortLatch> = Cpu::new(&cfg, vec![0xc3, 0xf4, 0x90]);
    let ret = Inst { lock: false, rep: None, seg: None, op: Op::Ret, size: 1 };
    assert_eq!(cpu.debug_block(0xf0000, &ret), Some(0xf0001));
    assert_eq!(cpu.debug_block(0xf0001, &ret), None);
    let nop = Inst { lock: false, rep: None, seg: None, op: Op::Nop, size: 1 };
    assert_eq!(cpu.debug_block(0xf0000, &nop), None);
}
