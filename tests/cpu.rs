use rs8086::{
    Arg, Config, Cpu, DeviceRAM, DeviceROM, ExecError, Flags, Inst, Invalid, IoSize, MemDevice, MemMap,
    MemOps, Op, OpSize, PortLatch, Reg16, Reg8, Sreg,
};

fn machine(code: &[u8]) -> Cpu<MemDevice, PortLatch> {
    let cfg = Config { bios_file: String::from("bios.bin"), ram_size: 0xf0000, bios_addr: 0xf0000 };
    Cpu::new(&cfg, code.to_vec())
}

fn inst(op: Op, size: u8) -> Inst {
    Inst { lock: false, rep: None, seg: None, op, size }
}

#[test]
fn new_machine_points_at_the_image() {
    let cpu = machine(&[0xf4]);
    assert_eq!(cpu.read_sreg(Sreg::CS), 0xf000);
    assert_eq!(cpu.read_ip(), 0);
    assert_eq!(cpu.read_reg16(Reg16::SP), 0);
    assert_eq!(cpu.read_flags(), 0);
    assert!(!cpu.is_halted());
    assert_eq!(cpu.read_mem_ea(0xf0000, OpSize::Byte), Some(0xf4));
    assert_eq!(cpu.read_mem_ea(0x1234, OpSize::Word), Some(0));
}

#[test]
fn byte_registers_alias_word_registers() {
    let mut cpu = machine(&[]);
    cpu.write_reg8(Reg8::AL, 0x12);
    cpu.write_reg8(Reg8::AH, 0x34);
    assert_eq!(cpu.read_reg16(Reg16::AX), 0x3412);
    cpu.write_reg16(Reg16::AX, 0xabcd);
    assert_eq!(cpu.read_reg8(Reg8::AL), 0xcd);
    assert_eq!(cpu.read_reg8(Reg8::AH), 0xab);
    cpu.write_reg16(Reg16::DX, 0x1111);
    cpu.write_reg8(Reg8::DL, 0xff);
    assert_eq!(cpu.read_reg16(Reg16::DX), 0x11ff);
    cpu.write_reg8(Reg8::DH, 0x00);
    assert_eq!(cpu.read_reg16(Reg16::DX), 0x00ff);
}

#[test]
fn flags_are_isolated() {
    let mut cpu = machine(&[]);
    cpu.write_flags(0x0a55);
    cpu.set_flag(Flags::Z);
    assert_eq!(cpu.read_flags(), 0x0a55 | 0x0040);
    cpu.clear_flag(Flags::C);
    assert_eq!(cpu.read_flags(), 0x0a54 | 0x0040);
    assert!(!cpu.is_flag_set(Flags::C));
    assert!(cpu.is_flag_set(Flags::O));
    let before = cpu.read_flags();
    cpu.toggle_flag(Flags::D);
    assert_eq!(cpu.read_flags(), before ^ 0x0400);
    cpu.toggle_flag(Flags::D);
    assert_eq!(cpu.read_flags(), before);
}

#[test]
fn halt_stops_the_machine() {
    let mut cpu = machine(&[0xf4]);
    assert_eq!(cpu.tick(), Ok(()));
    assert!(cpu.is_halted());
    assert_eq!(cpu.read_ip(), 1);
    assert_eq!(cpu.tick(), Err(ExecError::Halted));
    assert_eq!(cpu.read_ip(), 1);
}

#[test]
fn push_then_pop_restores_stack() {
    let mut cpu = machine(&[0x50, 0x59, 0xf4]);
    cpu.write_reg16(Reg16::AX, 0xaaaa);
    cpu.write_reg16(Reg16::SP, 0xfffe);
    cpu.write_sreg(Sreg::SS, 0);
    assert_eq!(cpu.tick(), Ok(()));
    assert_eq!(cpu.read_reg16(Reg16::SP), 0xfffc);
    assert_eq!(cpu.read_mem(Sreg::SS, 0xfffe, OpSize::Word), Some(0xaaaa));
    assert_eq!(cpu.tick(), Ok(()));
    assert_eq!(cpu.read_reg16(Reg16::CX), 0xaaaa);
    assert_eq!(cpu.read_reg16(Reg16::SP), 0xfffe);
}

#[test]
fn execute_push_pop_immediate() {
    let mut cpu = machine(&[]);
    cpu.write_reg16(Reg16::SP, 0x0100);
    assert_eq!(cpu.execute(inst(Op::Push(Arg::Uimm16(0x1234)), 3)), Ok(()));
    assert_eq!(cpu.execute(inst(Op::Pop(Arg::Reg16(Reg16::DI)), 1)), Ok(()));
    assert_eq!(cpu.read_reg16(Reg16::DI), 0x1234);
    assert_eq!(cpu.read_reg16(Reg16::SP), 0x0100);
    assert_eq!(cpu.read_ip(), 4);
}

#[test]
fn far_jump_loads_segment_and_offset() {
    let mut cpu = machine(&[0xea, 0x00, 0x10, 0x00, 0xf0]);
    assert_eq!(cpu.tick(), Ok(()));
    assert_eq!(cpu.read_sreg(Sreg::CS), 0xf000);
    assert_eq!(cpu.read_ip(), 0x1000);
}

#[test]
fn mov_and_arithmetic() {
    let mut cpu = machine(&[0xb8, 0x34, 0x12, 0xbb, 0x01, 0x00, 0x01, 0xd8, 0x2d, 0x00, 0x10]);
    for _ in 0..4 {
        assert_eq!(cpu.tick(), Ok(()));
    }
    assert_eq!(cpu.read_reg16(Reg16::AX), 0x0235);
    assert_eq!(cpu.read_reg16(Reg16::BX), 1);
    assert_eq!(cpu.read_ip(), 11);
}

#[test]
fn add_wraps_and_sets_carry_and_zero() {
    let mut cpu = machine(&[]);
    cpu.write_reg16(Reg16::AX, 0xffff);
    assert_eq!(cpu.execute(inst(Op::Add(Arg::Reg16(Reg16::AX), Arg::Uimm16(2)), 3)), Ok(()));
    assert_eq!(cpu.read_reg16(Reg16::AX), 1);
    assert!(!cpu.is_flag_set(Flags::C));
    cpu.write_reg16(Reg16::BX, 1);
    assert_eq!(cpu.execute(inst(Op::Add(Arg::Reg16(Reg16::BX), Arg::Uimm16(5)), 3)), Ok(()));
    assert_eq!(cpu.read_reg16(Reg16::BX), 6);
    assert!(cpu.is_flag_set(Flags::C));
    assert_eq!(cpu.execute(inst(Op::Add(Arg::Reg16(Reg16::CX), Arg::Uimm16(0)), 3)), Ok(()));
    assert!(cpu.is_flag_set(Flags::Z));
}

#[test]
fn adc_sbb_logic() {
    let mut cpu = machine(&[]);
    cpu.set_flag(Flags::C);
    cpu.write_reg16(Reg16::AX, 10);
    cpu.execute(inst(Op::Adc(Arg::Reg16(Reg16::AX), Arg::Uimm16(5)), 3)).unwrap();
    assert_eq!(cpu.read_reg16(Reg16::AX), 16);
    cpu.execute(inst(Op::Sbb(Arg::Reg16(Reg16::AX), Arg::Uimm16(20)), 3)).unwrap();
    assert_eq!(cpu.read_reg16(Reg16::AX), 0xfffb);
    cpu.execute(inst(Op::And(Arg::Reg16(Reg16::AX), Arg::Uimm16(0x0ff0)), 3)).unwrap();
    assert_eq!(cpu.read_reg16(Reg16::AX), 0x0ff0);
    cpu.execute(inst(Op::Or(Arg::Reg16(Reg16::AX), Arg::Uimm16(0x000f)), 3)).unwrap();
    assert_eq!(cpu.read_reg16(Reg16::AX), 0x0fff);
    cpu.execute(inst(Op::Xor(Arg::Reg16(Reg16::AX), Arg::Uimm16(0x00ff)), 3)).unwrap();
    assert_eq!(cpu.read_reg16(Reg16::AX), 0x0f00);
    cpu.write_reg8(Reg8::BL, 0xf0);
    cpu.execute(inst(Op::Add(Arg::Reg8(Reg8::BL), Arg::Uimm8(0x20)), 2)).unwrap();
    assert_eq!(cpu.read_reg8(Reg8::BL), 0x10);
}

#[test]
fn cmp_sets_flags_only() {
    let mut cpu = machine(&[]);
    cpu.write_reg16(Reg16::AX, 0x8000);
    cpu.execute(inst(Op::Cmp(Arg::Reg16(Reg16::AX), Arg::Uimm16(1)), 3)).unwrap();
    assert_eq!(cpu.read_reg16(Reg16::AX), 0x8000);
    assert!(!cpu.is_flag_set(Flags::C));
    assert!(cpu.is_flag_set(Flags::S));
    cpu.write_flags(0);
    cpu.execute(inst(Op::Cmp(Arg::Reg16(Reg16::AX), Arg::Uimm16(0x8000)), 3)).unwrap();
    assert!(cpu.is_flag_set(Flags::Z));
    assert!(!cpu.is_flag_set(Flags::C));
    cpu.write_flags(0);
    cpu.execute(inst(Op::Cmp(Arg::Uimm16(1), Arg::Uimm16(2)), 3)).unwrap();
    assert!(cpu.is_flag_set(Flags::C));
    assert!(cpu.is_flag_set(Flags::S));
}

#[test]
fn conditional_branches() {
    let mut cpu = machine(&[]);
    cpu.write_ip(0x100);
    cpu.set_flag(Flags::Z);
    cpu.execute(inst(Op::Jcc(rs8086::Cc::E, -4), 2)).unwrap();
    assert_eq!(cpu.read_ip(), 0x0fe);
    cpu.execute(inst(Op::Jcc(rs8086::Cc::NE, 0x10), 2)).unwrap();
    assert_eq!(cpu.read_ip(), 0x100);
    cpu.set_flag(Flags::C);
    cpu.execute(inst(Op::Jcc(rs8086::Cc::O, 0x10), 2)).unwrap();
    assert_eq!(cpu.read_ip(), 0x112);
}

#[test]
fn call_and_return() {
    let mut cpu = machine(&[]);
    cpu.write_reg16(Reg16::SP, 0x200);
    cpu.write_ip(0x10);
    cpu.execute(inst(Op::Call(Arg::Imm16(0x20)), 3)).unwrap();
    assert_eq!(cpu.read_ip(), 0x33);
    assert_eq!(cpu.read_reg16(Reg16::SP), 0x1fe);
    assert_eq!(cpu.read_mem(Sreg::SS, 0x200, OpSize::Word), Some(0x13));
    cpu.execute(inst(Op::Ret, 1)).unwrap();
    assert_eq!(cpu.read_ip(), 0x13);
    assert_eq!(cpu.read_reg16(Reg16::SP), 0x200);
}

#[test]
fn ascii_adjustments() {
    let mut cpu = machine(&[]);
    cpu.write_reg16(Reg16::AX, 0x010f);
    cpu.execute(inst(Op::Aaa, 1)).unwrap();
    assert_eq!(cpu.read_reg16(Reg16::AX), 0x0205);
    assert!(cpu.is_flag_set(Flags::A) && cpu.is_flag_set(Flags::C));
    cpu.write_flags(0);
    cpu.write_reg16(Reg16::AX, 0x0135);
    cpu.execute(inst(Op::Aaa, 1)).unwrap();
    assert_eq!(cpu.read_reg16(Reg16::AX), 0x0105);
    assert!(!cpu.is_flag_set(Flags::A) && !cpu.is_flag_set(Flags::C));
    cpu.write_reg16(Reg16::AX, 0x020f);
    cpu.execute(inst(Op::Aas, 1)).unwrap();
    assert_eq!(cpu.read_reg16(Reg16::AX), 0x0109);
    assert!(cpu.is_flag_set(Flags::A) && cpu.is_flag_set(Flags::C));
    cpu.write_reg16(Reg16::AX, 0x0000);
    cpu.execute(inst(Op::Aam(10), 2)).unwrap();
    assert_eq!(cpu.read_reg16(Reg16::AX), 0x0000);
    cpu.write_reg16(Reg16::AX, 0x003f);
    cpu.execute(inst(Op::Aam(10), 2)).unwrap();
    assert_eq!(cpu.read_reg16(Reg16::AX), 0x0603);
    cpu.execute(inst(Op::Aad(10), 2)).unwrap();
    assert_eq!(cpu.read_reg16(Reg16::AX), 0x003f);
}

#[test]
fn sign_extension() {
    let mut cpu = machine(&[]);
    cpu.write_reg16(Reg16::AX, 0x1280);
    cpu.execute(inst(Op::Cbw, 1)).unwrap();
    assert_eq!(cpu.read_reg16(Reg16::AX), 0xff80);
    cpu.execute(inst(Op::Cwd, 1)).unwrap();
    assert_eq!(cpu.read_reg16(Reg16::DX), 0xffff);
    cpu.write_reg16(Reg16::AX, 0x127f);
    cpu.execute(inst(Op::Cbw, 1)).unwrap();
    assert_eq!(cpu.read_reg16(Reg16::AX), 0x007f);
    cpu.execute(inst(Op::Cwd, 1)).unwrap();
    assert_eq!(cpu.read_reg16(Reg16::DX), 0);
}

#[test]
fn flag_instructions() {
    let mut cpu = machine(&[0xf9, 0xf5, 0xfb, 0xfd, 0xfc, 0xfa, 0xf8, 0x90]);
    cpu.tick().unwrap();
    assert!(cpu.is_flag_set(Flags::C));
    cpu.tick().unwrap();
    assert!(!cpu.is_flag_set(Flags::C));
    cpu.tick().unwrap();
    assert!(cpu.is_flag_set(Flags::I));
    cpu.tick().unwrap();
    assert!(cpu.is_flag_set(Flags::D));
    cpu.tick().unwrap();
    assert!(!cpu.is_flag_set(Flags::D));
    cpu.tick().unwrap();
    assert!(!cpu.is_flag_set(Flags::I));
    cpu.tick().unwrap();
    cpu.tick().unwrap();
    assert_eq!(cpu.read_flags(), 0);
    assert_eq!(cpu.read_ip(), 8);
}

#[test]
fn exchange_and_segment_moves() {
    let mut cpu = machine(&[]);
    cpu.write_reg16(Reg16::CX, 1);
    cpu.write_reg16(Reg16::BX, 2);
    cpu.execute(inst(Op::Xchg(Arg::Reg16(Reg16::CX), Arg::Reg16(Reg16::BX)), 2)).unwrap();
    assert_eq!(cpu.read_reg16(Reg16::CX), 2);
    assert_eq!(cpu.read_reg16(Reg16::BX), 1);
    cpu.execute(inst(Op::Mov(Arg::Sreg(Sreg::DS), Arg::Reg16(Reg16::BX)), 2)).unwrap();
    assert_eq!(cpu.read_sreg(Sreg::DS), 1);
}

#[test]
fn ports_in_and_out() {
    let mut cpu = machine(&[]);
    cpu.io_map.register(0x80, PortLatch { value: 0 });
    cpu.write_reg8(Reg8::AL, 0x5a);
    cpu.execute(inst(Op::Out(Arg::Uimm8(0x80), Arg::Reg8(Reg8::AL)), 2)).unwrap();
    assert_eq!(cpu.read_io(0x80, OpSize::Byte), 0x5a);
    cpu.write_reg8(Reg8::AL, 0);
    cpu.execute(inst(Op::In(Arg::Reg8(Reg8::AL), Arg::Uimm8(0x80)), 2)).unwrap();
    assert_eq!(cpu.read_reg8(Reg8::AL), 0x5a);
    cpu.execute(inst(Op::In(Arg::Reg8(Reg8::AL), Arg::Uimm8(0x81)), 2)).unwrap();
    assert_eq!(cpu.read_reg8(Reg8::AL), 0);
    assert!(!cpu.io_map.write(0x81, 1, IoSize::Byte));
}

#[test]
fn execution_errors_leave_state_alone() {
    let mut cpu = machine(&[0x40]);
    assert_eq!(cpu.tick(), Err(ExecError::Unsupported(Op::Inc(Arg::Reg16(Reg16::AX)))));
    assert_eq!(cpu.read_ip(), 0);
    assert_eq!(cpu.execute(inst(Op::Invalid(Invalid::TooManyPrefix), 2)), Err(ExecError::Invalid(Invalid::TooManyPrefix)));
    assert_eq!(cpu.execute(inst(Op::Error, 1)), Err(ExecError::Error));
    assert_eq!(cpu.execute(inst(Op::Aam(0), 2)), Err(ExecError::DivideByZero));
    assert_eq!(cpu.execute(inst(Op::Mov(Arg::Uimm8(1), Arg::Reg8(Reg8::AL)), 2)), Err(ExecError::Unsupported(Op::Mov(Arg::Uimm8(1), Arg::Reg8(Reg8::AL)))));
    cpu.write_sreg(Sreg::SS, 0xf800);
    cpu.write_reg16(Reg16::SP, 0xfffc);
    assert_eq!(cpu.execute(inst(Op::Ret, 1)), Err(ExecError::Unmapped(0x107ffe)));
    assert_eq!(cpu.read_ip(), 0);
}

#[test]
fn end_of_code() {
    let mut cpu = machine(&[0xb8, 0x34]);
    assert_eq!(cpu.tick(), Err(ExecError::EndOfStream));
    assert_eq!(cpu.read_ip(), 0);
    let (inst, pc, bytes) = machine(&[0xb8, 0x34, 0x12]).next_inst().unwrap();
    assert_eq!(inst.size, 3);
    assert_eq!(pc, 0xf0000);
    assert_eq!(bytes, vec![0xb8, 0x34, 0x12]);
}

#[test]
fn later_registration_wins() {
    let mut map: MemMap<MemDevice> = MemMap::new();
    map.register(0x000, 0x100, MemDevice::Ram(DeviceRAM { start: 0x000, bytes: vec![0; 0x100] }));
    map.register(0x080, 0x180, MemDevice::Ram(DeviceRAM { start: 0x080, bytes: vec![0; 0x100] }));
    assert_eq!(map.write(0x90, 0xbeef, OpSize::Word), Some(()));
    assert_eq!(map.read(0x90, OpSize::Word), Some(0xbeef));
    assert_eq!(map.read(0x10, OpSize::Byte), Some(0));
    assert_eq!(map.read(0x200, OpSize::Byte), None);
    assert_eq!(map.write(0x200, 1, OpSize::Byte), None);
    match &map.regions[0].dev {
        MemDevice::Ram(ram) => assert_eq!(ram.read(0x90, OpSize::Word), 0),
        MemDevice::Rom(_) => panic!("first region is RAM"),
    }
}

#[test]
fn read_past_device_end_is_zero() {
    let rom = DeviceROM { start: 0x1000, bytes: vec![0x11, 0x22, 0x33] };
    assert_eq!(rom.read(0x1003, OpSize::Byte), 0);
    assert_eq!(rom.read(0x1002, OpSize::Word), 0);
    assert_eq!(rom.read(0x1001, OpSize::Word), 0x3322);
    assert_eq!(rom.read(0x0fff, OpSize::Byte), 0);
    let mut ram = DeviceRAM { start: 0, bytes: vec![0; 4] };
    ram.write(3, 0xffff, OpSize::Word);
    assert_eq!(ram.read(3, OpSize::Byte), 0);
    ram.write(2, 0x1234, OpSize::Word);
    assert_eq!(ram.read(2, OpSize::Word), 0x1234);
    assert_eq!(ram.read(3, OpSize::Byte), 0x12);
    assert_eq!(ram.read(4, OpSize::Byte), 0);
    assert_eq!(ram.name(), "RAM");
    assert_eq!(rom.name(), "ROM");
}

#[test]
fn rom_ignores_writes() {
    let mut cpu = machine(&[0x90, 0x90]);
    cpu.write_mem_ea(0xf0000, 0xf4, OpSize::Byte);
    assert_eq!(cpu.read_mem_ea(0xf0000, OpSize::Byte), Some(0x90));
    cpu.write_mem_ea(0x100, 0xf4, OpSize::Byte);
    assert_eq!(cpu.read_mem_ea(0x100, OpSize::Byte), Some(0xf4));
    assert_eq!(cpu.read_mem_ea(0xf0002, OpSize::Byte), None);
}

#[test]
fn linear_addresses() {
    let mut cpu = machine(&[]);
    cpu.write_sreg(Sreg::DS, 0x1234);
    assert_eq!(cpu.calc_ea(Sreg::DS, 0x0010), 0x12350);
    cpu.write_sreg(Sreg::ES, 0xffff);
    assert_eq!(cpu.calc_ea(Sreg::ES, 0xffff), 0x10ffef);
    assert_eq!(cpu.arg_size(&Arg::Imm8(1)), OpSize::Byte);
    assert_eq!(cpu.arg_size(&Arg::Sreg(Sreg::CS)), OpSize::Word);
    assert_eq!(cpu.read_arg(&Arg::Imm8(-2)), 0xfffe);
}

#[test]
fn code_fetch_stops_at_segment_end() {
    let mut cpu = machine(&[]);
    cpu.write_mem_ea(0x1ffff, 0x90, OpSize::Byte);
    cpu.write_mem_ea(0x20000, 0x90, OpSize::Byte);
    cpu.write_sreg(Sreg::CS, 0x1000);
    cpu.write_ip(0xffff);
    let (inst, pc, bytes) = cpu.next_inst().unwrap();
    assert_eq!(inst.op, Op::Nop);
    assert_eq!(pc, 0x1ffff);
    assert_eq!(bytes, vec![0x90]);
    cpu.write_mem_ea(0x1ffff, 0xb8, OpSize::Byte);
    assert!(cpu.next_inst().is_none());
    assert_eq!(cpu.tick(), Err(ExecError::EndOfStream));
}

#[test]
fn memory_operands_are_not_executed() {
    let mut cpu = machine(&[]);
    let mem = Arg::Mem(rs8086::Mem::Reg(Reg16::BX));
    assert_eq!(cpu.execute(inst(Op::Push(mem), 2)), Err(ExecError::Unsupported(Op::Push(mem))));
    let mov = Op::Mov(Arg::Reg16(Reg16::AX), mem);
    assert_eq!(cpu.execute(inst(mov, 2)), Err(ExecError::Unsupported(mov)));
    assert_eq!(cpu.read_ip(), 0);
}

#[test]
fn register_dump_lines() {
    let mut cpu = machine(&[]);
    cpu.write_reg16(Reg16::AX, 0x12ab);
    cpu.write_reg16(Reg16::DI, 0xffff);
    cpu.write_ip(0x0010);
    cpu.set_flag(Flags::C);
    cpu.set_flag(Flags::O);
    let lines = cpu.dump_regs();
    assert_eq!(lines.len(), 3);
    assert_eq!(lines[0], "AX=12AB BX=0000 CX=0000 DX=0000 SP=0000 BP=0000 SI=0000 DI=FFFF");
    assert_eq!(lines[1], "CS=F000 DS=0000 SS=0000 ES=0000 IP=0010");
    assert_eq!(lines[2], "FL=0801 CF=1 PF=0 AF=0 ZF=0 SF=0 TF=0 IF=0 DF=0 OF=1");
}

#[test]
fn port_write_reaches_only_the_bound_device() {
    let mut cpu = machine(&[]);
    cpu.io_map.register(0x10, PortLatch { value: 7 });
    cpu.io_map.register(0x11, PortLatch { value: 9 });
    cpu.write_io(0x10, 0x42, OpSize::Byte);
    assert_eq!(cpu.read_io(0x10, OpSize::Byte), 0x42);
    assert_eq!(cpu.read_io(0x11, OpSize::Byte), 9);
    cpu.write_io(0x12, 0x55, OpSize::Byte);
    assert_eq!(cpu.read_io(0x12, OpSize::Byte), 0);
}

#[test]
fn push_pop_through_two_cycles() {
    let mut cpu = machine(&[0x53, 0x5e, 0xf4]);
    cpu.write_reg16(Reg16::BX, 0x1357);
    cpu.write_reg16(Reg16::SP, 0x0400);
    assert_eq!(cpu.tick(), Ok(()));
    assert_eq!(cpu.tick(), Ok(()));
    assert_eq!(cpu.read_reg16(Reg16::SI), 0x1357);
    assert_eq!(cpu.read_reg16(Reg16::SP), 0x0400);
    assert_eq!(cpu.read_ip(), 2);
}
