//! The execution engine: fetch at CS:IP, decode, and carry out one instruction.
use vstd::prelude::*;

use crate::cpu::{
    flag_mask_spec, flag_set, hi, linear, lo, reg16_get, reg16_put, reg8_get, reg8_put, sreg_get,
    sreg_put, Cpu, Flags,
};
use crate::dec::{decode, op_spec, ByteSource, Decoder, Dyadic};
use crate::io::{IOMap, IOOps, IoSize};
use crate::mem::{owner, MemMap, MemOps, OpSize};
use crate::op::{reg16_of, Arg, Cc, Inst, Invalid, Op, Reg16, Reg8, Sreg};
use crate::MemAddrT;

verus! {

/// Why a step did not execute an instruction. The CPU is left unchanged in every case.
#[derive(Debug, Clone, Copy, PartialEq, Eq, Structural)]
pub enum ExecError {
    /// The CPU has halted.
    Halted,
    /// Memory at CS:IP ends (or is unmapped) before an instruction is complete.
    EndOfStream,
    /// The bytes at CS:IP do not form an instruction.
    Invalid(Invalid),
    /// The decoder marked the operation as an error.
    Error,
    /// The operation, or this form of its operands, has no execution semantics here.
    Unsupported(Op),
    /// AAM with a zero base.
    DivideByZero,
    /// A stack read at this address found no device.
    Unmapped(MemAddrT),
}

/// Operands that have a value: all but memory references.
pub open spec fn readable(a: Arg) -> bool {
    !(a is Mem)
}

/// Operands that can be written: 8-bit, 16-bit and segment registers.
pub open spec fn is_register(a: Arg) -> bool {
    a is Reg8 || a is Reg16 || a is Sreg
}

pub open spec fn arg_size_spec(a: Arg) -> OpSize {
    match a {
        Arg::Reg8(_) | Arg::Imm8(_) | Arg::Uimm8(_) => OpSize::Byte,
        _ => OpSize::Word,
    }
}

/// A word read as a two's-complement signed value.
pub open spec fn signed16(v: u16) -> int {
    if v >= 0x8000 {
        v - 0x10000
    } else {
        v as int
    }
}

/// Carry and zero from an unsigned comparison: carry set when below, zero set when equal,
/// carry cleared when above; other bits kept.
pub open spec fn unsigned_cmp_flags(flags: u16, v1: u16, v2: u16) -> u16 {
    if v1 < v2 {
        flags | flag_mask_spec(Flags::C)
    } else if v1 == v2 {
        flags | flag_mask_spec(Flags::Z)
    } else {
        flags & !flag_mask_spec(Flags::C)
    }
}

/// Sign and zero from a signed comparison: sign set when less, zero set when equal, sign
/// cleared when greater; other bits kept.
pub open spec fn signed_cmp_flags(flags: u16, v1: u16, v2: u16) -> u16 {
    if signed16(v1) < signed16(v2) {
        flags | flag_mask_spec(Flags::S)
    } else if v1 == v2 {
        flags | flag_mask_spec(Flags::Z)
    } else {
        flags & !flag_mask_spec(Flags::S)
    }
}

/// The value an arithmetic/logic operation writes back; arithmetic wraps around.
pub open spec fn alu_result(k: Dyadic, v1: u16, v2: u16, carry: bool) -> u16 {
    let cf: u16 = if carry { 1 } else { 0 };
    match k {
        Dyadic::Add => v1.wrapping_add(v2),
        Dyadic::Adc => v1.wrapping_add(v2).wrapping_add(cf),
        Dyadic::Sbb => v1.wrapping_sub(v2).wrapping_sub(cf),
        Dyadic::Sub => v1.wrapping_sub(v2),
        Dyadic::And => v1 & v2,
        Dyadic::Or => v1 | v2,
        Dyadic::Xor => v1 ^ v2,
        _ => v2,
    }
}

/// Whether a conditional branch is taken. The overflow conditions test the carry flag.
pub open spec fn cond(cc: Cc, flags: u16) -> bool {
    let c = flag_set(flags, Flags::C);
    let z = flag_set(flags, Flags::Z);
    let s = flag_set(flags, Flags::S);
    let o = flag_set(flags, Flags::O);
    let p = flag_set(flags, Flags::P);
    match cc {
        Cc::O => c,
        Cc::NO => !c,
        Cc::B => c,
        Cc::NB => !c,
        Cc::E => z,
        Cc::NE => !z,
        Cc::BE => c || z,
        Cc::NBE => !c && !z,
        Cc::S => s,
        Cc::NS => !s,
        Cc::P => p,
        Cc::NP => !p,
        Cc::L => s != o,
        Cc::NL => s == o,
        Cc::LE => z || s != o,
        Cc::NLE => !z && s == o,
    }
}

pub open spec fn adjust_flags(flags: u16, on: bool) -> u16 {
    if on {
        flags | flag_mask_spec(Flags::A) | flag_mask_spec(Flags::C)
    } else {
        flags & !flag_mask_spec(Flags::A) & !flag_mask_spec(Flags::C)
    }
}

/// ASCII adjust after addition: AX and the flags after AAA.
pub open spec fn aaa_spec(ax: u16, flags: u16) -> (u16, u16) {
    let (al, ah) = (lo(ax), hi(ax));
    if al % 16 > 9 || flag_set(flags, Flags::A) {
        ((((ah + 1) % 256) * 256 + ((al + 6) % 256) % 16) as u16, adjust_flags(flags, true))
    } else {
        ((ah * 256 + al % 16) as u16, adjust_flags(flags, false))
    }
}

/// ASCII adjust after subtraction: AX and the flags after AAS.
pub open spec fn aas_spec(ax: u16, flags: u16) -> (u16, u16) {
    let (al, ah) = (lo(ax), hi(ax));
    if al % 16 > 9 || flag_set(flags, Flags::A) {
        ((((ah + 255) % 256) * 256 + ((al + 250) % 256) % 16) as u16, adjust_flags(flags, true))
    } else {
        ((ah * 256 + al % 16) as u16, adjust_flags(flags, false))
    }
}

impl<M: MemOps, P: IOOps> Cpu<M, P> {
    /// The value of a readable operand; immediates are sign- or zero-extended to 16 bits.
    pub open spec fn arg_val(&self, a: Arg) -> u16 {
        match a {
            Arg::Reg8(r) => reg8_get(self.regs, r) as u16,
            Arg::Reg16(r) => reg16_get(self.regs, r),
            Arg::Imm8(i) => i as u16,
            Arg::Uimm8(u) => u as u16,
            Arg::Imm16(i) => i as u16,
            Arg::Uimm16(u) => u,
            Arg::Sreg(s) => sreg_get(self.sregs, s),
            Arg::Mem(_) => 0,
        }
    }

    /// The state with a register operand set to `v` (an 8-bit register takes the low byte).
    pub open spec fn put_arg(self, a: Arg, v: u16) -> Self {
        match a {
            Arg::Reg8(r) => Cpu { regs: reg8_put(self.regs, r, v as u8), ..self },
            Arg::Reg16(r) => Cpu { regs: reg16_put(self.regs, r, v), ..self },
            Arg::Sreg(s) => Cpu { sregs: sreg_put(self.sregs, s, v), ..self },
            _ => self,
        }
    }

    pub open spec fn with_flags(self, f: u16) -> Self {
        Cpu { flags: f, ..self }
    }

    pub open spec fn with_reg16(self, r: Reg16, v: u16) -> Self {
        Cpu { regs: reg16_put(self.regs, r, v), ..self }
    }

    /// Where a push writes: SS:SP.
    pub open spec fn push_addr(&self) -> MemAddrT {
        linear(self.sregs.ss, self.regs.sp)
    }

    /// Where a pop reads: SS:(SP + 2).
    pub open spec fn pop_addr(&self) -> MemAddrT {
        linear(self.sregs.ss, self.regs.sp.wrapping_add(2))
    }

    /// What a port read returns; an unbound port reads as 0.
    pub open spec fn port_value(&self, port: u16, sz: OpSize) -> u16 {
        match self.io_map.read_spec(port, crate::cpu::io_size(sz)) {
            Some(v) => v,
            None => 0,
        }
    }

    /// The instruction pointer after `inst`, before any branch.
    pub open spec fn next_ip(&self, inst: Inst) -> u16 {
        self.ip.wrapping_add(inst.size as u16)
    }

    /// What executing `inst` in this state returns.
    pub open spec fn outcome(&self, inst: Inst) -> Result<(), ExecError> {
        match inst.op {
            Op::Error => Err(ExecError::Error),
            Op::Invalid(e) => Err(ExecError::Invalid(e)),
            Op::Add(a1, a2) | Op::Adc(a1, a2) | Op::Sbb(a1, a2) | Op::Sub(a1, a2) | Op::And(a1, a2)
            | Op::Or(a1, a2) | Op::Xor(a1, a2) | Op::Mov(a1, a2) | Op::In(a1, a2) => {
                if is_register(a1) && readable(a2) {
                    Ok(())
                } else {
                    Err(ExecError::Unsupported(inst.op))
                }
            },
            Op::Cmp(a1, a2) | Op::JmpFar(a1, a2) | Op::Out(a1, a2) => {
                if readable(a1) && readable(a2) {
                    Ok(())
                } else {
                    Err(ExecError::Unsupported(inst.op))
                }
            },
            Op::Xchg(a1, a2) => {
                if is_register(a1) && is_register(a2) {
                    Ok(())
                } else {
                    Err(ExecError::Unsupported(inst.op))
                }
            },
            Op::Push(a) => {
                if readable(a) {
                    Ok(())
                } else {
                    Err(ExecError::Unsupported(inst.op))
                }
            },
            Op::Pop(a) => {
                if !is_register(a) {
                    Err(ExecError::Unsupported(inst.op))
                } else if self.mem_map.read_spec(self.pop_addr(), OpSize::Word) is None {
                    Err(ExecError::Unmapped(self.pop_addr()))
                } else {
                    Ok(())
                }
            },
            Op::Ret => {
                if self.mem_map.read_spec(self.pop_addr(), OpSize::Word) is None {
                    Err(ExecError::Unmapped(self.pop_addr()))
                } else {
                    Ok(())
                }
            },
            Op::Call(a) => {
                if a is Imm16 {
                    Ok(())
                } else {
                    Err(ExecError::Unsupported(inst.op))
                }
            },
            Op::Aam(b) => {
                if b == 0 {
                    Err(ExecError::DivideByZero)
                } else {
                    Ok(())
                }
            },
            Op::Daa | Op::Das | Op::Inc(_) | Op::Dec(_) | Op::Test(_, _) | Op::Lea(_, _) => Err(
                ExecError::Unsupported(inst.op),
            ),
            _ => Ok(()),
        }
    }

    /// The state after `inst`, for the operations that write neither memory nor a port.
    pub open spec fn next_state(self, inst: Inst) -> Self {
        let nip = self.next_ip(inst);
        let s = Cpu { ip: nip, ..self };
        let cf = flag_set(self.flags, Flags::C);
        let f = self.flags;
        let ax = self.regs.ax;
        match inst.op {
            Op::Add(a1, a2) => {
                let (v1, v2) = (self.arg_val(a1), self.arg_val(a2));
                s.put_arg(a1, alu_result(Dyadic::Add, v1, v2, cf)).with_flags(unsigned_cmp_flags(f, v1, v2))
            },
            Op::Adc(a1, a2) => s.put_arg(a1, alu_result(Dyadic::Adc, self.arg_val(a1), self.arg_val(a2), cf)),
            Op::Sbb(a1, a2) => s.put_arg(a1, alu_result(Dyadic::Sbb, self.arg_val(a1), self.arg_val(a2), cf)),
            Op::Sub(a1, a2) => s.put_arg(a1, alu_result(Dyadic::Sub, self.arg_val(a1), self.arg_val(a2), cf)),
            Op::And(a1, a2) => s.put_arg(a1, alu_result(Dyadic::And, self.arg_val(a1), self.arg_val(a2), cf)),
            Op::Or(a1, a2) => s.put_arg(a1, alu_result(Dyadic::Or, self.arg_val(a1), self.arg_val(a2), cf)),
            Op::Xor(a1, a2) => s.put_arg(a1, alu_result(Dyadic::Xor, self.arg_val(a1), self.arg_val(a2), cf)),
            Op::Cmp(a1, a2) => {
                let (v1, v2) = (self.arg_val(a1), self.arg_val(a2));
                s.with_flags(signed_cmp_flags(unsigned_cmp_flags(f, v1, v2), v1, v2))
            },
            Op::Mov(a1, a2) => s.put_arg(a1, self.arg_val(a2)),
            Op::Xchg(a1, a2) => s.put_arg(a1, self.arg_val(a2)).put_arg(a2, self.arg_val(a1)),
            Op::In(a1, a2) => s.put_arg(a1, self.port_value(self.arg_val(a2), arg_size_spec(a1))),
            Op::Pop(a) => {
                let v = self.mem_map.read_spec(self.pop_addr(), OpSize::Word).unwrap();
                s.put_arg(a, v).with_reg16(Reg16::SP, self.regs.sp.wrapping_add(2))
            },
            Op::Ret => {
                let v = self.mem_map.read_spec(self.pop_addr(), OpSize::Word).unwrap();
                Cpu { ip: v, ..self.with_reg16(Reg16::SP, self.regs.sp.wrapping_add(2)) }
            },
            Op::Aaa => {
                let (nax, nf) = aaa_spec(ax, f);
                s.with_reg16(Reg16::AX, nax).with_flags(nf)
            },
            Op::Aas => {
                let (nax, nf) = aas_spec(ax, f);
                s.with_reg16(Reg16::AX, nax).with_flags(nf)
            },
            Op::Aam(b) => s.with_reg16(Reg16::AX, ((lo(ax) / b) * 256 + lo(ax) % b) as u16),
            Op::Aad(b) => s.with_reg16(Reg16::AX, ((lo(ax) + hi(ax) * b) % 256) as u16),
            Op::Cbw => s.with_reg16(Reg16::AX, if lo(ax) >= 128 { (0xff00 + lo(ax)) as u16 } else { lo(ax) as u16 }),
            Op::Cwd => s.with_reg16(Reg16::DX, if ax >= 0x8000 { 0xffff } else { 0 }),
            Op::Jcc(cc, d) => Cpu { ip: if cond(cc, f) { nip.wrapping_add(d as u16) } else { nip }, ..self },
            Op::JmpFar(a1, a2) => Cpu {
                sregs: sreg_put(self.sregs, Sreg::CS, self.arg_val(a1)),
                ip: self.arg_val(a2),
                ..self
            },
            Op::Hlt => Cpu { halted: true, ..s },
            Op::Cmc => s.with_flags(f ^ flag_mask_spec(Flags::C)),
            Op::Clc => s.with_flags(f & !flag_mask_spec(Flags::C)),
            Op::Stc => s.with_flags(f | flag_mask_spec(Flags::C)),
            Op::Cli => s.with_flags(f & !flag_mask_spec(Flags::I)),
            Op::Sti => s.with_flags(f | flag_mask_spec(Flags::I)),
            Op::Cld => s.with_flags(f & !flag_mask_spec(Flags::D)),
            Op::Std => s.with_flags(f | flag_mask_spec(Flags::D)),
            _ => s,
        }
    }

    /// `post` is the state after a successful execution of `inst`. A push and a call write a
    /// word at SS:SP through the memory map and lower SP by two; an output writes through the
    /// port map; every other operation is `next_state`.
    pub open spec fn step_post(&self, post: &Self, inst: Inst) -> bool {
        let nip = self.next_ip(inst);
        match inst.op {
            Op::Push(a) => {
                &&& self.mem_map.write_post(&post.mem_map, self.push_addr(), self.arg_val(a), OpSize::Word)
                &&& *post == Cpu {
                    regs: reg16_put(self.regs, Reg16::SP, self.regs.sp.wrapping_sub(2)),
                    ip: nip,
                    mem_map: post.mem_map,
                    ..*self
                }
            },
            Op::Call(Arg::Imm16(rel)) => {
                &&& self.mem_map.write_post(&post.mem_map, self.push_addr(), nip, OpSize::Word)
                &&& *post == Cpu {
                    regs: reg16_put(self.regs, Reg16::SP, self.regs.sp.wrapping_sub(2)),
                    ip: nip.wrapping_add_signed(rel),
                    mem_map: post.mem_map,
                    ..*self
                }
            },
            Op::Out(a1, a2) => {
                &&& self.io_map.write_post(&post.io_map, self.arg_val(a1), self.arg_val(a2), IoSize::Byte)
                &&& *post == Cpu { io_map: post.io_map, ip: nip, ..*self }
            },
            _ => *post == self.next_state(inst),
        }
    }

    /// `post` and `r` are what executing `inst` gives: the outcome, an unchanged state on
    /// failure, and the next state on success.
    pub open spec fn executed(&self, post: &Self, inst: Inst, r: Result<(), ExecError>) -> bool {
        &&& r == self.outcome(inst)
        &&& r is Err ==> *post == *self
        &&& r is Ok ==> self.step_post(post, inst)
    }
}

fn is_reg(a: &Arg) -> (r: bool)
    ensures
        r == is_register(*a),
{
    match a {
        Arg::Reg8(_) | Arg::Reg16(_) | Arg::Sreg(_) => true,
        _ => false,
    }
}

fn is_readable(a: &Arg) -> (r: bool)
    ensures
        r == readable(*a),
{
    match a {
        Arg::Mem(_) => false,
        _ => true,
    }
}

/// Signed comparison of two words.
fn signed_less(v1: u16, v2: u16) -> (r: bool)
    ensures
        r == (signed16(v1) < signed16(v2)),
{
    if v1 >= 0x8000 {
        if v2 >= 0x8000 {
            v1 < v2
        } else {
            true
        }
    } else {
        if v2 >= 0x8000 {
            false
        } else {
            v1 < v2
        }
    }
}

impl<M: MemOps, P: IOOps> Cpu<M, P> {
    pub fn arg_size(&self, arg: &Arg) -> (r: OpSize)
        requires
            readable(*arg),
        ensures
            r == arg_size_spec(*arg),
    {
        match arg {
            Arg::Reg8(_) | Arg::Imm8(_) | Arg::Uimm8(_) => OpSize::Byte,
            _ => OpSize::Word,
        }
    }

    pub fn read_arg(&self, arg: &Arg) -> (r: u16)
        requires
            readable(*arg),
        ensures
            r == self.arg_val(*arg),
    {
        match arg {
            Arg::Reg8(reg) => self.read_reg8(*reg) as u16,
            Arg::Reg16(reg) => self.read_reg16(*reg),
            Arg::Imm8(imm) => *imm as u16,
            Arg::Uimm8(imm) => *imm as u16,
            Arg::Imm16(imm) => *imm as u16,
            Arg::Uimm16(imm) => *imm,
            Arg::Sreg(sreg) => self.read_sreg(*sreg),
            Arg::Mem(_) => 0,
        }
    }

    /// Writes a register operand; an 8-bit register takes the low byte of `val`.
    pub fn write_arg(&mut self, arg: &Arg, val: u16)
        requires
            is_register(*arg),
        ensures
            *final(self) == old(self).put_arg(*arg, val),
    {
        match arg {
            Arg::Reg8(reg) => self.write_reg8(*reg, val as u8),
            Arg::Reg16(reg) => self.write_reg16(*reg, val),
            Arg::Sreg(sreg) => self.write_sreg(*sreg, val),
            _ => {},
        }
    }

    fn cond_holds(&self, cc: Cc) -> (r: bool)
        ensures
            r == cond(cc, self.flags),
    {
        let c = self.is_flag_set(Flags::C);
        let z = self.is_flag_set(Flags::Z);
        let s = self.is_flag_set(Flags::S);
        let o = self.is_flag_set(Flags::O);
        match cc {
            Cc::O => c,
            Cc::NO => !c,
            Cc::B => c,
            Cc::NB => !c,
            Cc::E => z,
            Cc::NE => !z,
            Cc::BE => c || z,
            Cc::NBE => !c && !z,
            Cc::S => s,
            Cc::NS => !s,
            Cc::P => self.is_flag_set(Flags::P),
            Cc::NP => !self.is_flag_set(Flags::P),
            Cc::L => s != o,
            Cc::NL => s == o,
            Cc::LE => z || s != o,
            Cc::NLE => !z && s == o,
        }
    }

    /// The two-operand operations that write a register: arithmetic, logic, moves, exchange
    /// and port input.
    fn exec_dyadic(&mut self, inst: Inst) -> (r: Result<(), ExecError>)
        requires
            inst.op is Add || inst.op is Adc || inst.op is Sbb || inst.op is Sub || inst.op is And
                || inst.op is Or || inst.op is Xor || inst.op is Mov || inst.op is In || inst.op is Xchg,
        ensures
            old(self).executed(final(self), inst, r),
    {
        let nip = self.ip.wrapping_add(inst.size as u16);
        let cf = self.is_flag_set(Flags::C) as u16;
        let (a1, a2) = match inst.op {
            Op::Add(a1, a2) | Op::Adc(a1, a2) | Op::Sbb(a1, a2) | Op::Sub(a1, a2) | Op::And(a1, a2)
            | Op::Or(a1, a2) | Op::Xor(a1, a2) | Op::Mov(a1, a2) | Op::In(a1, a2) | Op::Xchg(a1, a2) => (a1, a2),
            _ => return Err(ExecError::Unsupported(inst.op)),
        };
        if !is_reg(&a1) || !is_readable(&a2) {
            return Err(ExecError::Unsupported(inst.op));
        }
        if matches!(inst.op, Op::Xchg(_, _)) && !is_reg(&a2) {
            return Err(ExecError::Unsupported(inst.op));
        }
        let v1 = self.read_arg(&a1);
        let v2 = self.read_arg(&a2);
        match inst.op {
            Op::Add(_, _) => {
                self.write_arg(&a1, v1.wrapping_add(v2));
                if v1 < v2 {
                    self.set_flag(Flags::C);
                } else if v1 == v2 {
                    self.set_flag(Flags::Z);
                } else {
                    self.clear_flag(Flags::C);
                }
            },
            Op::Adc(_, _) => self.write_arg(&a1, v1.wrapping_add(v2).wrapping_add(cf)),
            Op::Sbb(_, _) => self.write_arg(&a1, v1.wrapping_sub(v2).wrapping_sub(cf)),
            Op::Sub(_, _) => self.write_arg(&a1, v1.wrapping_sub(v2)),
            Op::And(_, _) => self.write_arg(&a1, v1 & v2),
            Op::Or(_, _) => self.write_arg(&a1, v1 | v2),
            Op::Xor(_, _) => self.write_arg(&a1, v1 ^ v2),
            Op::Mov(_, _) => self.write_arg(&a1, v2),
            Op::In(_, _) => {
                let sz = self.arg_size(&a1);
                let v = self.read_io(v2, sz);
                self.write_arg(&a1, v);
            },
            _ => {
                self.write_arg(&a1, v2);
                self.write_arg(&a2, v1);
            },
        }
        self.ip = nip;
        Ok(())
    }

    /// Pushes, pops, calls and returns.
    fn exec_stack(&mut self, inst: Inst) -> (r: Result<(), ExecError>)
        requires
            inst.op is Push || inst.op is Pop || inst.op is Call || inst.op is Ret,
        ensures
            old(self).executed(final(self), inst, r),
    {
        let nip = self.ip.wrapping_add(inst.size as u16);
        let sp = self.read_reg16(Reg16::SP);
        match inst.op {
            Op::Push(a) => {
                if !is_readable(&a) {
                    return Err(ExecError::Unsupported(inst.op));
                }
                let v = self.read_arg(&a);
                self.write_mem(Sreg::SS, sp, v, OpSize::Word);
                self.write_reg16(Reg16::SP, sp.wrapping_sub(2));
                self.ip = nip;
                Ok(())
            },
            Op::Call(Arg::Imm16(rel)) => {
                self.write_mem(Sreg::SS, sp, nip, OpSize::Word);
                self.write_reg16(Reg16::SP, sp.wrapping_sub(2));
                self.ip = nip.wrapping_add_signed(rel);
                Ok(())
            },
            Op::Pop(a) => {
                if !is_reg(&a) {
                    return Err(ExecError::Unsupported(inst.op));
                }
                let nsp = sp.wrapping_add(2);
                let v = match self.read_mem(Sreg::SS, nsp, OpSize::Word) {
                    None => return Err(ExecError::Unmapped(self.calc_ea(Sreg::SS, nsp))),
                    Some(v) => v,
                };
                self.write_arg(&a, v);
                self.write_reg16(Reg16::SP, nsp);
                self.ip = nip;
                Ok(())
            },
            Op::Ret => {
                let nsp = sp.wrapping_add(2);
                let v = match self.read_mem(Sreg::SS, nsp, OpSize::Word) {
                    None => return Err(ExecError::Unmapped(self.calc_ea(Sreg::SS, nsp))),
                    Some(v) => v,
                };
                self.write_reg16(Reg16::SP, nsp);
                self.ip = v;
                Ok(())
            },
            _ => Err(ExecError::Unsupported(inst.op)),
        }
    }

    /// The accumulator adjustments and sign extensions.
    fn exec_accumulator(&mut self, inst: Inst) -> (r: Result<(), ExecError>)
        requires
            inst.op is Aaa || inst.op is Aas || inst.op is Aam || inst.op is Aad || inst.op is Cbw
                || inst.op is Cwd,
        ensures
            old(self).executed(final(self), inst, r),
    {
        let nip = self.ip.wrapping_add(inst.size as u16);
        let ax = self.read_reg16(Reg16::AX);
        let al = ax % 256;
        let ah = ax / 256;
        match inst.op {
            Op::Aaa => {
                if al % 16 > 9 || self.is_flag_set(Flags::A) {
                    self.set_flag(Flags::A);
                    self.set_flag(Flags::C);
                    self.write_reg16(Reg16::AX, (ah + 1) % 256 * 256 + (al + 6) % 256 % 16);
                } else {
                    self.clear_flag(Flags::A);
                    self.clear_flag(Flags::C);
                    self.write_reg16(Reg16::AX, ah * 256 + al % 16);
                }
            },
            Op::Aas => {
                if al % 16 > 9 || self.is_flag_set(Flags::A) {
                    self.set_flag(Flags::A);
                    self.set_flag(Flags::C);
                    self.write_reg16(Reg16::AX, (ah + 255) % 256 * 256 + (al + 250) % 256 % 16);
                } else {
                    self.clear_flag(Flags::A);
                    self.clear_flag(Flags::C);
                    self.write_reg16(Reg16::AX, ah * 256 + al % 16);
                }
            },
            Op::Aam(b) => {
                if b == 0 {
                    return Err(ExecError::DivideByZero);
                }
                let b = b as u16;
                self.write_reg16(Reg16::AX, al / b * 256 + al % b);
            },
            Op::Aad(b) => {
                let b = b as u16;
                assert(ah * b <= 255 * 255) by (nonlinear_arith)
                    requires
                        ah < 256,
                        b < 256,
                ;
                self.write_reg16(Reg16::AX, (al + ah * b) % 256);
            },
            Op::Cbw => {
                self.write_reg16(Reg16::AX, if al >= 128 { 0xff00 + al } else { al });
            },
            _ => {
                self.write_reg16(Reg16::DX, if ax >= 0x8000 { 0xffff } else { 0 });
            },
        }
        self.ip = nip;
        Ok(())
    }

    /// Carries out `inst` against this state.
    pub fn execute(&mut self, inst: Inst) -> (r: Result<(), ExecError>)
        ensures
            old(self).executed(final(self), inst, r),
    {
        let nip = self.ip.wrapping_add(inst.size as u16);
        match inst.op {
            Op::Add(_, _) | Op::Adc(_, _) | Op::Sbb(_, _) | Op::Sub(_, _) | Op::And(_, _) | Op::Or(_, _)
            | Op::Xor(_, _) | Op::Mov(_, _) | Op::In(_, _) | Op::Xchg(_, _) => self.exec_dyadic(inst),
            Op::Push(_) | Op::Pop(_) | Op::Call(_) | Op::Ret => self.exec_stack(inst),
            Op::Aaa | Op::Aas | Op::Aam(_) | Op::Aad(_) | Op::Cbw | Op::Cwd => self.exec_accumulator(inst),
            Op::Cmp(a1, a2) => {
                if !is_readable(&a1) || !is_readable(&a2) {
                    return Err(ExecError::Unsupported(inst.op));
                }
                let v1 = self.read_arg(&a1);
                let v2 = self.read_arg(&a2);
                if v1 < v2 {
                    self.set_flag(Flags::C);
                } else if v1 == v2 {
                    self.set_flag(Flags::Z);
                } else {
                    self.clear_flag(Flags::C);
                }
                if signed_less(v1, v2) {
                    self.set_flag(Flags::S);
                } else if v1 == v2 {
                    self.set_flag(Flags::Z);
                } else {
                    self.clear_flag(Flags::S);
                }
                self.ip = nip;
                Ok(())
            },
            Op::Out(a1, a2) => {
                if !is_readable(&a1) || !is_readable(&a2) {
                    return Err(ExecError::Unsupported(inst.op));
                }
                let port = self.read_arg(&a1);
                let val = self.read_arg(&a2);
                self.write_io(port, val, OpSize::Byte);
                self.ip = nip;
                Ok(())
            },
            Op::JmpFar(seg, off) => {
                if !is_readable(&seg) || !is_readable(&off) {
                    return Err(ExecError::Unsupported(inst.op));
                }
                let s = self.read_arg(&seg);
                let o = self.read_arg(&off);
                self.write_sreg(Sreg::CS, s);
                self.ip = o;
                Ok(())
            },
            Op::Jcc(cc, disp) => {
                self.ip = if self.cond_holds(cc) {
                    nip.wrapping_add(disp as u16)
                } else {
                    nip
                };
                Ok(())
            },
            Op::Nop => {
                self.ip = nip;
                Ok(())
            },
            Op::Hlt => {
                self.halted = true;
                self.ip = nip;
                Ok(())
            },
            Op::Cmc | Op::Clc | Op::Stc | Op::Cli | Op::Sti | Op::Cld | Op::Std => {
                match inst.op {
                    Op::Cmc => self.toggle_flag(Flags::C),
                    Op::Clc => self.clear_flag(Flags::C),
                    Op::Stc => self.set_flag(Flags::C),
                    Op::Cli => self.clear_flag(Flags::I),
                    Op::Sti => self.set_flag(Flags::I),
                    Op::Cld => self.clear_flag(Flags::D),
                    _ => self.set_flag(Flags::D),
                }
                self.ip = nip;
                Ok(())
            },
            Op::Error => Err(ExecError::Error),
            Op::Invalid(e) => Err(ExecError::Invalid(e)),
            _ => Err(ExecError::Unsupported(inst.op)),
        }
    }
}

/// The bytes that a code fetch from `cs:ip` on reads: one per offset, up to the end of the
/// segment or the first address that no device serves.
pub open spec fn code_window<M: MemOps>(mem: MemMap<M>, cs: u16, ip: int) -> Seq<u8>
    decreases 0x10000 - ip,
{
    if ip < 0 || ip >= 0x10000 {
        Seq::empty()
    } else {
        match mem.read_spec(linear(cs, ip as u16), OpSize::Byte) {
            None => Seq::empty(),
            Some(v) => seq![v as u8] + code_window(mem, cs, ip + 1),
        }
    }
}

/// A byte source that fetches code from the CPU's memory at CS, one real memory read per byte.
pub struct CodeFetch<'a, M, P> {
    cpu: &'a Cpu<M, P>,
    ip: u32,
    bytes: Vec<u8>,
}

impl<'a, M: MemOps, P: IOOps> ByteSource for CodeFetch<'a, M, P> {
    closed spec fn remaining(&self) -> Seq<u8> {
        code_window(self.cpu.mem_map, self.cpu.sregs.cs, self.ip as int)
    }

    closed spec fn consumed(&self) -> Seq<u8> {
        self.bytes@
    }

    fn next_byte(&mut self) -> (r: Option<u8>) {
        if self.ip >= 0x10000 {
            return None;
        }
        match self.cpu.read_mem(Sreg::CS, self.ip as u16, OpSize::Byte) {
            None => None,
            Some(v) => {
                let b = v as u8;
                self.bytes.push(b);
                self.ip = self.ip + 1;
                proof {
                    let w = code_window(self.cpu.mem_map, self.cpu.sregs.cs, self.ip as int);
                    assert((seq![b] + w).drop_first() =~= w);
                }
                Some(b)
            },
        }
    }
}

impl<M: MemOps, P: IOOps> Cpu<M, P> {
    /// `post` and `r` are what one fetch-decode-execute cycle gives from this state: a halted
    /// CPU and memory that ends before an instruction is complete leave it unchanged; otherwise
    /// the instruction at CS:IP is executed.
    pub open spec fn ticked(&self, post: &Self, r: Result<(), ExecError>) -> bool {
        if self.halted {
            r == Err::<(), ExecError>(ExecError::Halted) && *post == *self
        } else {
            match decode(self.code()) {
                None => r == Err::<(), ExecError>(ExecError::EndOfStream) && *post == *self,
                Some(inst) => self.executed(post, inst, r),
            }
        }
    }

    /// The code bytes at CS:IP.
    pub open spec fn code(&self) -> Seq<u8> {
        code_window(self.mem_map, self.sregs.cs, self.ip as int)
    }

    /// Decodes the instruction at CS:IP, reading memory one byte at a time. Gives the
    /// instruction, its linear address and its bytes; `None` when memory ends first.
    pub fn next_inst(&self) -> (r: Option<(Inst, MemAddrT, Vec<u8>)>)
        ensures
            match decode(self.code()) {
                None => r is None,
                Some(inst) => r matches Some((i, pc, bytes)) && {
                    &&& i == inst
                    &&& pc == linear(self.sregs.cs, self.ip)
                    &&& bytes@ == self.code().take(inst.size as int)
                },
            },
    {
        let pc = self.calc_ea(Sreg::CS, self.ip);
        let fetch = CodeFetch { cpu: self, ip: self.ip as u32, bytes: Vec::new() };
        let mut dec = Decoder::new(fetch);
        let inst = dec.next_i();
        let fetch = dec.into_source();
        match inst {
            None => None,
            Some(i) => {
                proof {
                    assert(Seq::<u8>::empty() + self.code().take(i.size as int) =~= self.code().take(i.size as int));
                }
                Some((i, pc, fetch.bytes))
            },
        }
    }

    /// One fetch-decode-execute cycle. A halted CPU, memory that ends before an instruction is
    /// complete, and an instruction that cannot be executed each leave the state unchanged.
    pub fn tick(&mut self) -> (r: Result<(), ExecError>)
        ensures
            old(self).ticked(final(self), r),
    {
        if self.halted {
            return Err(ExecError::Halted);
        }
        match self.next_inst() {
            None => Err(ExecError::EndOfStream),
            Some((inst, _, _)) => self.execute(inst),
        }
    }
}

/// A push followed by a pop into a 16-bit register other than SP: the pop succeeds, gives back
/// the pushed value, and leaves SP as it was before the push, provided the device that serves
/// SS:SP keeps a word written there (as RAM does; ROM does not).
pub proof fn lemma_push_pop<M: MemOps, P: IOOps>(
    pre: Cpu<M, P>,
    mid: Cpu<M, P>,
    post: Cpu<M, P>,
    push: Inst,
    pop: Inst,
    a: Arg,
    r: Reg16,
    res: Result<(), ExecError>,
)
    requires
        push.op == Op::Push(a),
        readable(a),
        pop.op == Op::Pop(Arg::Reg16(r)),
        r != Reg16::SP,
        pre.step_post(&mid, push),
        mid.executed(&post, pop, res),
        owner(pre.mem_map.regions@, pre.push_addr()) matches Some(i) && pre.mem_map.regions@[i].dev.read_after_write(
            pre.push_addr(),
            pre.arg_val(a),
            OpSize::Word,
            pre.push_addr(),
            OpSize::Word,
        ) == pre.arg_val(a),
    ensures
        res is Ok,
        reg16_get(post.regs, r) == pre.arg_val(a),
        post.regs.sp == pre.regs.sp,
{
    let sp = pre.regs.sp;
    assert(sp.wrapping_sub(2).wrapping_add(2) == sp);
    assert(mid.pop_addr() == pre.push_addr());
    crate::mem::lemma_owner_ranges(mid.mem_map.regions@, pre.mem_map.regions@, pre.push_addr());
    crate::mem::lemma_owner(pre.mem_map.regions@, pre.push_addr());
}

/// A one-byte push (0x50..0x57) or pop (0x58..0x5f) of a 16-bit register decodes without
/// looking further.
proof fn lemma_decode_push_pop(s: Seq<u8>)
    requires
        s.len() >= 1,
        0x50 <= s[0] < 0x60,
    ensures
        decode(s) == Some(Inst {
            lock: false,
            rep: None,
            seg: None,
            op: if s[0] < 0x58 {
                Op::Push(Arg::Reg16(reg16_of(s[0] % 8)))
            } else {
                Op::Pop(Arg::Reg16(reg16_of(s[0] % 8)))
            },
            size: 1,
        }),
{
    reveal(op_spec);
}

/// Two cycles over the code bytes `push r; pop q` (16-bit registers other than SP): both
/// succeed, `q` then holds what `r` held, SP is back where it was, and IP has moved on by two;
/// provided the device that serves SS:SP keeps a word written there and the push leaves the
/// code byte at CS:IP+1 as it was.
pub proof fn lemma_push_pop_ticks<M: MemOps, P: IOOps>(
    pre: Cpu<M, P>,
    mid: Cpu<M, P>,
    post: Cpu<M, P>,
    r1: Result<(), ExecError>,
    r2: Result<(), ExecError>,
    r: u8,
    q: u8,
)
    requires
        r < 8 && r != 4,
        q < 8 && q != 4,
        !pre.halted,
        pre.ip < 0xfffe,
        pre.code().len() >= 2,
        pre.code()[0] == 0x50 + r,
        pre.code()[1] == 0x58 + q,
        pre.ticked(&mid, r1),
        mid.ticked(&post, r2),
        owner(pre.mem_map.regions@, pre.push_addr()) matches Some(i) && {
            let dev = pre.mem_map.regions@[i].dev;
            let (a, v) = (pre.push_addr(), reg16_get(pre.regs, reg16_of(r)));
            let c = linear(pre.sregs.cs, (pre.ip + 1) as u16);
            &&& dev.read_after_write(a, v, OpSize::Word, a, OpSize::Word) == v
            &&& owner(pre.mem_map.regions@, c) == Some(i) ==> dev.read_after_write(a, v, OpSize::Word, c, OpSize::Byte)
                == dev.read_spec(c, OpSize::Byte)
        },
    ensures
        r1 is Ok,
        r2 is Ok,
        reg16_get(post.regs, reg16_of(q)) == reg16_get(pre.regs, reg16_of(r)),
        post.regs.sp == pre.regs.sp,
        post.ip == pre.ip + 2,
{
    let (cs, ip) = (pre.sregs.cs, pre.ip as int);
    let c = linear(cs, (pre.ip + 1) as u16);
    let rest = code_window(pre.mem_map, cs, ip + 1);
    assert(pre.code() == seq![pre.code()[0]] + rest);
    assert(rest[0] == pre.code()[1]);
    lemma_decode_push_pop(pre.code());
    assert((0x50 + r) % 8 == r && (0x58 + q) % 8 == q);
    let push = decode(pre.code())->Some_0;
    let a = Arg::Reg16(reg16_of(r));
    assert(push.op == Op::Push(a));
    assert(r1 is Ok);
    assert(mid.ip == ip + 1);
    crate::mem::lemma_owner_ranges(mid.mem_map.regions@, pre.mem_map.regions@, c);
    crate::mem::lemma_owner(pre.mem_map.regions@, c);
    assert(mid.mem_map.read_spec(c, OpSize::Byte) == pre.mem_map.read_spec(c, OpSize::Byte));
    assert(mid.code() == code_window(mid.mem_map, cs, ip + 1));
    assert(mid.code()[0] == 0x58 + q);
    lemma_decode_push_pop(mid.code());
    let pop = decode(mid.code())->Some_0;
    lemma_push_pop(pre, mid, post, push, pop, a, reg16_of(q), r2);
}

} // verus!
