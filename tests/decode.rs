use rs8086::{Arg, ByteCursor, Cc, Decoder, Inst, Invalid, Op, Reg16, Reg8, Rep, Sreg};

fn decode_bytes(bytes: &[u8]) -> Option<Inst> {
    let mut dec = Decoder::new(ByteCursor::new(bytes.to_vec()));
    dec.next_i()
}

#[test]
fn decode_mov_immediate_word() {
    let inst = decode_bytes(&[0xb8, 0x34, 0x12]).unwrap();
    assert_eq!(inst.op, Op::Mov(Arg::Reg16(Reg16::AX), Arg::Uimm16(0x1234)));
    assert_eq!(inst.size, 3);
    assert!(!inst.lock);
    assert_eq!(inst.rep, None);
    assert_eq!(inst.seg, None);
}

#[test]
fn decode_halt() {
    let inst = decode_bytes(&[0xf4]).unwrap();
    assert_eq!(inst.op, Op::Hlt);
    assert_eq!(inst.size, 1);
}

#[test]
fn decode_far_jump() {
    let inst = decode_bytes(&[0xea, 0x00, 0x10, 0x00, 0xf0]).unwrap();
    assert_eq!(inst.op, Op::JmpFar(Arg::Uimm16(0xf000), Arg::Uimm16(0x1000)));
    assert_eq!(inst.size, 5);
}

#[test]
fn decode_is_deterministic_and_ignores_following_bytes() {
    let a = decode_bytes(&[0xf3, 0x2e, 0x01, 0xd8]).unwrap();
    let b = decode_bytes(&[0xf3, 0x2e, 0x01, 0xd8]).unwrap();
    let c = decode_bytes(&[0xf3, 0x2e, 0x01, 0xd8, 0x90, 0xf4]).unwrap();
    assert_eq!(a, b);
    assert_eq!(a, c);
    assert_eq!(a.op, Op::Add(Arg::Reg16(Reg16::AX), Arg::Reg16(Reg16::BX)));
    assert_eq!(a.rep, Some(Rep::Rep));
    assert_eq!(a.seg, Some(Sreg::CS));
    assert_eq!(a.size, 4);
}

#[test]
fn decode_consecutive_instructions() {
    let mut dec = Decoder::new(ByteCursor::new(vec![0x90, 0xb0, 0x7f, 0x40, 0xf4]));
    assert_eq!(dec.next_i().unwrap().op, Op::Nop);
    let mov = dec.next_i().unwrap();
    assert_eq!(mov.op, Op::Mov(Arg::Reg8(Reg8::AL), Arg::Uimm8(0x7f)));
    assert_eq!(mov.size, 2);
    assert_eq!(dec.next_i().unwrap().op, Op::Inc(Arg::Reg16(Reg16::AX)));
    assert_eq!(dec.next_i().unwrap().op, Op::Hlt);
    assert_eq!(dec.next_i(), None);
}

#[test]
fn decode_prefixes_reset_between_instructions() {
    let mut dec = Decoder::new(ByteCursor::new(vec![0xf0, 0xf2, 0x90, 0x90]));
    let first = dec.next_i().unwrap();
    assert!(first.lock);
    assert_eq!(first.rep, Some(Rep::Repne));
    assert_eq!(first.size, 3);
    let second = dec.next_i().unwrap();
    assert!(!second.lock);
    assert_eq!(second.rep, None);
    assert_eq!(second.size, 1);
}

#[test]
fn decode_end_of_stream() {
    assert_eq!(decode_bytes(&[]), None);
    assert_eq!(decode_bytes(&[0xb8, 0x34]), None);
    assert_eq!(decode_bytes(&[0xea, 0x00, 0x10, 0x00]), None);
    assert_eq!(decode_bytes(&[0x26]), None);
}

#[test]
fn decode_repeated_prefix_is_an_error() {
    let inst = decode_bytes(&[0xf0, 0xf0, 0x90]).unwrap();
    assert_eq!(inst.op, Op::Invalid(Invalid::TooManyPrefix));
    assert_eq!(inst.size, 2);
    let inst = decode_bytes(&[0x26, 0x3e, 0x90]).unwrap();
    assert_eq!(inst.op, Op::Invalid(Invalid::TooManyPrefix));
    assert_eq!(inst.seg, Some(Sreg::ES));
    let inst = decode_bytes(&[0xf3, 0xf2, 0x90]).unwrap();
    assert_eq!(inst.op, Op::Invalid(Invalid::TooManyPrefix));
}

#[test]
fn decode_unknown_opcode() {
    let inst = decode_bytes(&[0x0f]).unwrap();
    assert_eq!(inst.op, Op::Invalid(Invalid::UnexpectedByte(0x0f)));
    assert_eq!(inst.size, 1);
    let inst = decode_bytes(&[0x62, 0x00]).unwrap();
    assert_eq!(inst.op, Op::Invalid(Invalid::UnexpectedByte(0x62)));
}

#[test]
fn decode_memory_operand_is_an_error() {
    let inst = decode_bytes(&[0x00, 0x07]).unwrap();
    assert_eq!(inst.op, Op::Invalid(Invalid::UnexpectedBytes(0x00, 0x07)));
    assert_eq!(inst.size, 2);
    let inst = decode_bytes(&[0x81, 0x46, 0x02]).unwrap();
    assert_eq!(inst.op, Op::Invalid(Invalid::UnexpectedBytes(0x81, 0x46)));
}

#[test]
fn decode_register_forms() {
    assert_eq!(decode_bytes(&[0x00, 0xd8]).unwrap().op, Op::Add(Arg::Reg8(Reg8::AL), Arg::Reg8(Reg8::BL)));
    assert_eq!(decode_bytes(&[0x02, 0xd8]).unwrap().op, Op::Add(Arg::Reg8(Reg8::BL), Arg::Reg8(Reg8::AL)));
    assert_eq!(decode_bytes(&[0x2b, 0xc1]).unwrap().op, Op::Sub(Arg::Reg16(Reg16::AX), Arg::Reg16(Reg16::CX)));
    assert_eq!(decode_bytes(&[0x3c, 0x09]).unwrap().op, Op::Cmp(Arg::Reg8(Reg8::AL), Arg::Uimm8(9)));
    assert_eq!(decode_bytes(&[0x25, 0xff, 0x00]).unwrap().op, Op::And(Arg::Reg16(Reg16::AX), Arg::Uimm16(0xff)));
    assert_eq!(decode_bytes(&[0x89, 0xe5]).unwrap().op, Op::Mov(Arg::Reg16(Reg16::BP), Arg::Reg16(Reg16::SP)));
    assert_eq!(decode_bytes(&[0x87, 0xd9]).unwrap().op, Op::Xchg(Arg::Reg16(Reg16::CX), Arg::Reg16(Reg16::BX)));
    assert_eq!(decode_bytes(&[0x86, 0xd9]).unwrap().op, Op::Xchg(Arg::Reg8(Reg8::CL), Arg::Reg8(Reg8::BL)));
    assert_eq!(decode_bytes(&[0x09, 0xd8]).unwrap().op, Op::Or(Arg::Reg16(Reg16::AX), Arg::Reg16(Reg16::BX)));
    assert_eq!(decode_bytes(&[0x0a, 0xd8]).unwrap().op, Op::Or(Arg::Reg8(Reg8::BL), Arg::Reg8(Reg8::AL)));
    assert_eq!(decode_bytes(&[0x11, 0xd8]).unwrap().op, Op::Adc(Arg::Reg16(Reg16::AX), Arg::Reg16(Reg16::BX)));
}

#[test]
fn decode_immediate_groups() {
    let inst = decode_bytes(&[0x83, 0xe9, 0xff]).unwrap();
    assert_eq!(inst.op, Op::Sub(Arg::Reg16(Reg16::CX), Arg::Imm8(-1)));
    assert_eq!(inst.size, 3);
    let inst = decode_bytes(&[0x80, 0xfa, 0x34, 0x12]).unwrap();
    assert_eq!(inst.op, Op::Cmp(Arg::Reg8(Reg8::DL), Arg::Uimm8(0x34)));
    assert_eq!(inst.size, 3);
    let inst = decode_bytes(&[0x81, 0xc3, 0x05, 0x90]).unwrap();
    assert_eq!(inst.op, Op::Add(Arg::Reg16(Reg16::BX), Arg::Uimm16(0x9005)));
    assert_eq!(inst.size, 4);
    let inst = decode_bytes(&[0x82, 0xc4, 0x01]).unwrap();
    assert_eq!(inst.op, Op::Add(Arg::Reg8(Reg8::AH), Arg::Uimm8(1)));
    assert_eq!(inst.size, 3);
}

#[test]
fn decode_stack_and_segment_moves() {
    assert_eq!(decode_bytes(&[0x53]).unwrap().op, Op::Push(Arg::Reg16(Reg16::BX)));
    assert_eq!(decode_bytes(&[0x5f]).unwrap().op, Op::Pop(Arg::Reg16(Reg16::DI)));
    assert_eq!(decode_bytes(&[0x1e]).unwrap().op, Op::Push(Arg::Sreg(Sreg::DS)));
    assert_eq!(decode_bytes(&[0x07]).unwrap().op, Op::Pop(Arg::Sreg(Sreg::ES)));
    assert_eq!(decode_bytes(&[0x8e, 0xd8]).unwrap().op, Op::Mov(Arg::Sreg(Sreg::DS), Arg::Reg16(Reg16::AX)));
    assert_eq!(decode_bytes(&[0x8e, 0xd3]).unwrap().op, Op::Mov(Arg::Sreg(Sreg::SS), Arg::Reg16(Reg16::BX)));
    assert_eq!(decode_bytes(&[0x8e, 0xe0]).unwrap().op, Op::Invalid(Invalid::UnexpectedBytes(0x8e, 0xe0)));
    assert_eq!(decode_bytes(&[0x8f, 0xc0]).unwrap().op, Op::Pop(Arg::Reg16(Reg16::AX)));
    assert_eq!(decode_bytes(&[0x8f, 0xc6]).unwrap().op, Op::Pop(Arg::Reg16(Reg16::SI)));
}

#[test]
fn decode_branches_and_adjustments() {
    assert_eq!(decode_bytes(&[0x74, 0xfe]).unwrap().op, Op::Jcc(Cc::E, -2));
    assert_eq!(decode_bytes(&[0x7f, 0x10]).unwrap().op, Op::Jcc(Cc::NLE, 0x10));
    assert_eq!(decode_bytes(&[0xd4, 0x0a]).unwrap().op, Op::Aam(10));
    assert_eq!(decode_bytes(&[0xd5, 0x07]).unwrap().op, Op::Aad(7));
    assert_eq!(decode_bytes(&[0x37]).unwrap().op, Op::Aaa);
    assert_eq!(decode_bytes(&[0x3f]).unwrap().op, Op::Aas);
    assert_eq!(decode_bytes(&[0xc3]).unwrap().op, Op::Ret);
    assert_eq!(decode_bytes(&[0xe4, 0x60]).unwrap().op, Op::In(Arg::Reg8(Reg8::AL), Arg::Uimm8(0x60)));
    assert_eq!(decode_bytes(&[0xe6, 0x80]).unwrap().op, Op::Out(Arg::Uimm8(0x80), Arg::Reg8(Reg8::AL)));
    assert_eq!(decode_bytes(&[0xfd]).unwrap().op, Op::Std);
}

#[test]
fn cursor_reports_position() {
    let mut dec = Decoder::new(ByteCursor::new(vec![0xb8, 0x01, 0x00, 0x90]));
    dec.next_i().unwrap();
    assert_eq!(dec.into_source().position(), 3);
}

#[test]
fn decode_longest_instruction() {
    let inst = decode_bytes(&[0xf0, 0xf3, 0x26, 0xea, 0x00, 0x10, 0x00, 0xf0, 0x90]).unwrap();
    assert!(inst.lock);
    assert_eq!(inst.rep, Some(Rep::Rep));
    assert_eq!(inst.seg, Some(Sreg::ES));
    assert_eq!(inst.op, Op::JmpFar(Arg::Uimm16(0xf000), Arg::Uimm16(0x1000)));
    assert_eq!(inst.size, 8);
}

#[test]
fn decode_mov_immediate_selects_all_eight_registers() {
    let inst = decode_bytes(&[0xbc, 0x00, 0x10]).unwrap();
    assert_eq!(inst.op, Op::Mov(Arg::Reg16(Reg16::SP), Arg::Uimm16(0x1000)));
    assert_eq!(inst.size, 3);
    let inst = decode_bytes(&[0xb4, 0x12]).unwrap();
    assert_eq!(inst.op, Op::Mov(Arg::Reg8(Reg8::AH), Arg::Uimm8(0x12)));
    assert_eq!(decode_bytes(&[0xbf, 0x01, 0x02]).unwrap().op, Op::Mov(Arg::Reg16(Reg16::DI), Arg::Uimm16(0x0201)));
    assert_eq!(decode_bytes(&[0xb7, 0xff]).unwrap().op, Op::Mov(Arg::Reg8(Reg8::BH), Arg::Uimm8(0xff)));
}
