use rs8086::{arg_to_string, inst_to_string, Arg, Cc, Inst, Invalid, Mem, Op, Reg16, Reg8, Rep, Sreg};

fn inst(op: Op, size: u8) -> Inst {
    Inst { lock: false, rep: None, seg: None, op, size }
}

#[test]
fn operand_text() {
    assert_eq!(arg_to_string(&Arg::Reg8(Reg8::DH)), "dh");
    assert_eq!(arg_to_string(&Arg::Reg16(Reg16::SI)), "si");
    assert_eq!(arg_to_string(&Arg::Imm8(-1)), "0xFF");
    assert_eq!(arg_to_string(&Arg::Uimm8(0x0a)), "0x0A");
    assert_eq!(arg_to_string(&Arg::Imm16(-2)), "0xFFFE");
    assert_eq!(arg_to_string(&Arg::Uimm16(0x1234)), "0x1234");
    assert_eq!(arg_to_string(&Arg::Sreg(Sreg::CS)), "??? Sreg(CS)");
    assert_eq!(arg_to_string(&Arg::Mem(Mem::RegOff(Reg16::BX, -2))), "??? Mem(RegOff(BX, -2))");
    assert_eq!(arg_to_string(&Arg::Mem(Mem::Reg(Reg16::SI))), "??? Mem(Reg(SI))");
    assert_eq!(arg_to_string(&Arg::Mem(Mem::RegOff32(Reg16::BP, 70000))), "??? Mem(RegOff32(BP, 70000))");
}

#[test]
fn instruction_text() {
    let mov = inst(Op::Mov(Arg::Reg16(Reg16::AX), Arg::Uimm16(0x1234)), 3);
    assert_eq!(inst_to_string(0, &mov), "mov ax, 0x1234");
    let jmp = inst(Op::JmpFar(Arg::Uimm16(0xf000), Arg::Uimm16(0x1000)), 5);
    assert_eq!(inst_to_string(0, &jmp), "jmp far 0xF000:0x1000");
    assert_eq!(inst_to_string(0, &inst(Op::Hlt, 1)), "hlt");
    assert_eq!(inst_to_string(0, &inst(Op::Push(Arg::Reg16(Reg16::BX)), 1)), "push bx");
    assert_eq!(inst_to_string(0, &inst(Op::Invalid(Invalid::Unknown), 1)), "invalid");
    let locked = Inst { lock: true, rep: Some(Rep::Repne), seg: None, op: Op::Nop, size: 3 };
    assert_eq!(inst_to_string(0, &locked), "lock repne nop");
}

#[test]
fn branch_text_shows_target() {
    assert_eq!(inst_to_string(0x100, &inst(Op::Jcc(Cc::NE, -4), 2)), "jne 0x00fe");
    assert_eq!(inst_to_string(0xf0010, &inst(Op::Jcc(Cc::BE, 0x10), 2)), "jbe 0xf0022");
    assert_eq!(inst_to_string(0, &inst(Op::Jcc(Cc::L, -4), 2)), "jl 0xfffffffe");
}

#[test]
fn bcd_base_shown_only_when_not_ten() {
    assert_eq!(inst_to_string(0, &inst(Op::Aam(10), 2)), "aam ");
    assert_eq!(inst_to_string(0, &inst(Op::Aad(0x0a), 2)), "aad ");
    assert_eq!(inst_to_string(0, &inst(Op::Aad(7), 2)), "aad 0x07");
    assert_eq!(inst_to_string(0, &inst(Op::Aam(0x1f), 2)), "aam 0x1f");
}

#[test]
fn hex_dump_lines() {
    let lines = rs8086::dump(&[0x41, 0x00, 0x7f], 0xf0000, 8);
    assert_eq!(lines.len(), 1);
    let expected = format!("000F0000 41 00 7F {} A..{}", "   ".repeat(13), " ".repeat(13));
    assert_eq!(lines[0], expected);
    let bytes: Vec<u8> = (0u8..20).collect();
    let lines = rs8086::dump(&bytes, 0x10, 20);
    assert_eq!(lines.len(), 2);
    assert!(lines[1].starts_with("00000020 10 11 12 13    "));
    assert!(rs8086::dump(&bytes, 0, 0).is_empty());
}
