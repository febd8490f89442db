//! The programmer-visible CPU state: registers, segment registers, flags, and the address maps.
use vstd::prelude::*;

use crate::hw::{init_devices, is_ram_region, is_rom_region, zeros, Config, MemDevice, RAM_END};
use crate::io::{IOMap, IOOps, IoSize};
use crate::mem::{MemMap, MemOps, OpSize};
use crate::op::{reg16_of, reg8_of, Reg16, Reg8, Sreg};
use crate::{IoAddrT, MemAddrT, OpSizeT};

verus! {

/// The named flag bits; each occupies one fixed bit of the flags word.
#[derive(Debug, Clone, Copy, PartialEq, Eq, Structural)]
pub enum Flags {
    C,
    P,
    A,
    Z,
    S,
    T,
    I,
    D,
    O,
}

/// The bit position of a flag: carry 0, parity 2, auxiliary 4, zero 6, sign 7, trap 8,
/// interrupt 9, direction 10, overflow 11.
pub open spec fn flag_pos(f: Flags) -> u16 {
    match f {
        Flags::C => 0,
        Flags::P => 2,
        Flags::A => 4,
        Flags::Z => 6,
        Flags::S => 7,
        Flags::T => 8,
        Flags::I => 9,
        Flags::D => 10,
        Flags::O => 11,
    }
}

pub open spec fn flag_mask_spec(f: Flags) -> u16 {
    match f {
        Flags::C => 0x0001,
        Flags::P => 0x0004,
        Flags::A => 0x0010,
        Flags::Z => 0x0040,
        Flags::S => 0x0080,
        Flags::T => 0x0100,
        Flags::I => 0x0200,
        Flags::D => 0x0400,
        Flags::O => 0x0800,
    }
}

/// Whether flag `f` is set in the flags word `w`.
pub open spec fn flag_set(w: u16, f: Flags) -> bool {
    w & flag_mask_spec(f) != 0
}

/// Bit `i` of `w`.
pub open spec fn bit(w: u16, i: u16) -> bool {
    (w >> i) & 1 == 1
}

#[derive(Debug, Clone, Copy, PartialEq, Eq, Structural)]
pub struct Regs {
    pub ax: u16,
    pub bx: u16,
    pub cx: u16,
    pub dx: u16,
    pub sp: u16,
    pub bp: u16,
    pub si: u16,
    pub di: u16,
}

#[derive(Debug, Clone, Copy, PartialEq, Eq, Structural)]
pub struct Sregs {
    pub cs: u16,
    pub ds: u16,
    pub ss: u16,
    pub es: u16,
}

impl Default for Regs {
    fn default() -> (r: Regs)
        ensures
            r == (Regs { ax: 0, bx: 0, cx: 0, dx: 0, sp: 0, bp: 0, si: 0, di: 0 }),
    {
        Regs { ax: 0, bx: 0, cx: 0, dx: 0, sp: 0, bp: 0, si: 0, di: 0 }
    }
}

impl Default for Sregs {
    fn default() -> (r: Sregs)
        ensures
            r == (Sregs { cs: 0, ds: 0, ss: 0, es: 0 }),
    {
        Sregs { cs: 0, ds: 0, ss: 0, es: 0 }
    }
}

/// The low byte of a word.
pub open spec fn lo(w: u16) -> u8 {
    (w % 256) as u8
}

/// The high byte of a word.
pub open spec fn hi(w: u16) -> u8 {
    (w / 256) as u8
}

/// `w` with its low byte replaced by `v`.
pub open spec fn with_lo(w: u16, v: u8) -> u16 {
    (w / 256 * 256 + v) as u16
}

/// `w` with its high byte replaced by `v`.
pub open spec fn with_hi(w: u16, v: u8) -> u16 {
    (v * 256 + w % 256) as u16
}

pub open spec fn reg16_get(r: Regs, reg: Reg16) -> u16 {
    match reg {
        Reg16::AX => r.ax,
        Reg16::BX => r.bx,
        Reg16::CX => r.cx,
        Reg16::DX => r.dx,
        Reg16::SP => r.sp,
        Reg16::BP => r.bp,
        Reg16::SI => r.si,
        Reg16::DI => r.di,
    }
}

pub open spec fn reg16_put(r: Regs, reg: Reg16, v: u16) -> Regs {
    match reg {
        Reg16::AX => Regs { ax: v, ..r },
        Reg16::BX => Regs { bx: v, ..r },
        Reg16::CX => Regs { cx: v, ..r },
        Reg16::DX => Regs { dx: v, ..r },
        Reg16::SP => Regs { sp: v, ..r },
        Reg16::BP => Regs { bp: v, ..r },
        Reg16::SI => Regs { si: v, ..r },
        Reg16::DI => Regs { di: v, ..r },
    }
}

/// The 8-bit halves alias the low and high bytes of AX, BX, CX and DX.
pub open spec fn reg8_get(r: Regs, reg: Reg8) -> u8 {
    match reg {
        Reg8::AL => lo(r.ax),
        Reg8::BL => lo(r.bx),
        Reg8::CL => lo(r.cx),
        Reg8::DL => lo(r.dx),
        Reg8::AH => hi(r.ax),
        Reg8::BH => hi(r.bx),
        Reg8::CH => hi(r.cx),
        Reg8::DH => hi(r.dx),
    }
}

pub open spec fn reg8_put(r: Regs, reg: Reg8, v: u8) -> Regs {
    match reg {
        Reg8::AL => Regs { ax: with_lo(r.ax, v), ..r },
        Reg8::BL => Regs { bx: with_lo(r.bx, v), ..r },
        Reg8::CL => Regs { cx: with_lo(r.cx, v), ..r },
        Reg8::DL => Regs { dx: with_lo(r.dx, v), ..r },
        Reg8::AH => Regs { ax: with_hi(r.ax, v), ..r },
        Reg8::BH => Regs { bx: with_hi(r.bx, v), ..r },
        Reg8::CH => Regs { cx: with_hi(r.cx, v), ..r },
        Reg8::DH => Regs { dx: with_hi(r.dx, v), ..r },
    }
}

pub open spec fn sreg_get(s: Sregs, reg: Sreg) -> u16 {
    match reg {
        Sreg::CS => s.cs,
        Sreg::DS => s.ds,
        Sreg::SS => s.ss,
        Sreg::ES => s.es,
    }
}

pub open spec fn sreg_put(s: Sregs, reg: Sreg, v: u16) -> Sregs {
    match reg {
        Sreg::CS => Sregs { cs: v, ..s },
        Sreg::DS => Sregs { ds: v, ..s },
        Sreg::SS => Sregs { ss: v, ..s },
        Sreg::ES => Sregs { es: v, ..s },
    }
}

/// The linear address of `seg:off`: the segment shifted left four bits, plus the offset.
pub open spec fn linear(seg: u16, off: u16) -> MemAddrT {
    (seg * 16 + off) as MemAddrT
}

pub open spec fn io_size(sz: OpSize) -> IoSize {
    match sz {
        OpSize::Byte => IoSize::Byte,
        OpSize::Word => IoSize::Word,
    }
}

/// The CPU state, over memory devices of type `M` and port devices of type `P`.
pub struct Cpu<M, P> {
    pub regs: Regs,
    pub sregs: Sregs,
    pub ip: u16,
    pub flags: u16,
    pub halted: bool,
    pub io_map: IOMap<P>,
    pub mem_map: MemMap<M>,
}

impl<M: MemOps, P: IOOps> Cpu<M, P> {
    pub fn read_reg8(&self, reg: Reg8) -> (r: u8)
        ensures
            r == reg8_get(self.regs, reg),
    {
        match reg {
            Reg8::AL => (self.regs.ax % 256) as u8,
            Reg8::BL => (self.regs.bx % 256) as u8,
            Reg8::CL => (self.regs.cx % 256) as u8,
            Reg8::DL => (self.regs.dx % 256) as u8,
            Reg8::AH => (self.regs.ax / 256) as u8,
            Reg8::BH => (self.regs.bx / 256) as u8,
            Reg8::CH => (self.regs.cx / 256) as u8,
            Reg8::DH => (self.regs.dx / 256) as u8,
        }
    }

    pub fn write_reg8(&mut self, reg: Reg8, val: u8)
        ensures
            *final(self) == (Cpu { regs: reg8_put(old(self).regs, reg, val), ..*old(self) }),
    {
        let v = val as u16;
        match reg {
            Reg8::AL => self.regs.ax = self.regs.ax / 256 * 256 + v,
            Reg8::BL => self.regs.bx = self.regs.bx / 256 * 256 + v,
            Reg8::CL => self.regs.cx = self.regs.cx / 256 * 256 + v,
            Reg8::DL => self.regs.dx = self.regs.dx / 256 * 256 + v,
            Reg8::AH => self.regs.ax = v * 256 + self.regs.ax % 256,
            Reg8::BH => self.regs.bx = v * 256 + self.regs.bx % 256,
            Reg8::CH => self.regs.cx = v * 256 + self.regs.cx % 256,
            Reg8::DH => self.regs.dx = v * 256 + self.regs.dx % 256,
        }
    }

    pub fn read_reg16(&self, reg: Reg16) -> (r: u16)
        ensures
            r == reg16_get(self.regs, reg),
    {
        match reg {
            Reg16::AX => self.regs.ax,
            Reg16::BX => self.regs.bx,
            Reg16::CX => self.regs.cx,
            Reg16::DX => self.regs.dx,
            Reg16::SP => self.regs.sp,
            Reg16::BP => self.regs.bp,
            Reg16::SI => self.regs.si,
            Reg16::DI => self.regs.di,
        }
    }

    pub fn write_reg16(&mut self, reg: Reg16, val: u16)
        ensures
            *final(self) == (Cpu { regs: reg16_put(old(self).regs, reg, val), ..*old(self) }),
    {
        match reg {
            Reg16::AX => self.regs.ax = val,
            Reg16::BX => self.regs.bx = val,
            Reg16::CX => self.regs.cx = val,
            Reg16::DX => self.regs.dx = val,
            Reg16::SP => self.regs.sp = val,
            Reg16::BP => self.regs.bp = val,
            Reg16::SI => self.regs.si = val,
            Reg16::DI => self.regs.di = val,
        }
    }

    pub fn read_sreg(&self, sreg: Sreg) -> (r: u16)
        ensures
            r == sreg_get(self.sregs, sreg),
    {
        match sreg {
            Sreg::CS => self.sregs.cs,
            Sreg::DS => self.sregs.ds,
            Sreg::SS => self.sregs.ss,
            Sreg::ES => self.sregs.es,
        }
    }

    pub fn write_sreg(&mut self, sreg: Sreg, val: u16)
        ensures
            *final(self) == (Cpu { sregs: sreg_put(old(self).sregs, sreg, val), ..*old(self) }),
    {
        match sreg {
            Sreg::CS => self.sregs.cs = val,
            Sreg::DS => self.sregs.ds = val,
            Sreg::SS => self.sregs.ss = val,
            Sreg::ES => self.sregs.es = val,
        }
    }

    /// The linear address of `seg:offset`.
    pub fn calc_ea(&self, seg: Sreg, offset: u16) -> (r: MemAddrT)
        ensures
            r == linear(sreg_get(self.sregs, seg), offset),
    {
        let base = self.read_sreg(seg) as MemAddrT;
        base * 16 + offset as MemAddrT
    }

    pub fn read_ip(&self) -> (r: u16)
        ensures
            r == self.ip,
    {
        self.ip
    }

    pub fn write_ip(&mut self, val: u16)
        ensures
            *final(self) == (Cpu { ip: val, ..*old(self) }),
    {
        self.ip = val;
    }

    pub fn read_flags(&self) -> (r: u16)
        ensures
            r == self.flags,
    {
        self.flags
    }

    pub fn write_flags(&mut self, val: u16)
        ensures
            *final(self) == (Cpu { flags: val, ..*old(self) }),
    {
        self.flags = val;
    }

    fn flag_mask(f: Flags) -> (r: u16)
        ensures
            r == flag_mask_spec(f),
            r == 1u16 << flag_pos(f),
    {
        let r: u16 = match f {
            Flags::C => 0x0001,
            Flags::P => 0x0004,
            Flags::A => 0x0010,
            Flags::Z => 0x0040,
            Flags::S => 0x0080,
            Flags::T => 0x0100,
            Flags::I => 0x0200,
            Flags::D => 0x0400,
            Flags::O => 0x0800,
        };
        assert(0x0001u16 == 1u16 << 0u16 && 0x0004u16 == 1u16 << 2u16 && 0x0010u16 == 1u16 << 4u16
            && 0x0040u16 == 1u16 << 6u16 && 0x0080u16 == 1u16 << 7u16 && 0x0100u16 == 1u16 << 8u16
            && 0x0200u16 == 1u16 << 9u16 && 0x0400u16 == 1u16 << 10u16 && 0x0800u16 == 1u16 << 11u16)
            by (bit_vector);
        r
    }

    pub fn set_flag(&mut self, f: Flags)
        ensures
            *final(self) == (Cpu { flags: old(self).flags | flag_mask_spec(f), ..*old(self) }),
    {
        let m = Self::flag_mask(f);
        self.flags = self.flags | m;
    }

    pub fn clear_flag(&mut self, f: Flags)
        ensures
            *final(self) == (Cpu { flags: old(self).flags & !flag_mask_spec(f), ..*old(self) }),
    {
        let m = Self::flag_mask(f);
        self.flags = self.flags & !m;
    }

    pub fn toggle_flag(&mut self, f: Flags)
        ensures
            *final(self) == (Cpu { flags: old(self).flags ^ flag_mask_spec(f), ..*old(self) }),
    {
        let m = Self::flag_mask(f);
        self.flags = self.flags ^ m;
    }

    pub fn is_flag_set(&self, f: Flags) -> (r: bool)
        ensures
            r == flag_set(self.flags, f),
    {
        let m = Self::flag_mask(f);
        (self.flags & m) != 0
    }

    pub fn is_halted(&self) -> (r: bool)
        ensures
            r == self.halted,
    {
        self.halted
    }

    pub fn read_mem_ea(&self, ea: MemAddrT, sz: OpSize) -> (r: Option<OpSizeT>)
        ensures
            r == self.mem_map.read_spec(ea, sz),
    {
        self.mem_map.read(ea, sz)
    }

    pub fn write_mem_ea(&mut self, ea: MemAddrT, val: OpSizeT, sz: OpSize)
        ensures
            old(self).mem_map.write_post(&final(self).mem_map, ea, val, sz),
            final(self).regs == old(self).regs,
            final(self).sregs == old(self).sregs,
            final(self).ip == old(self).ip,
            final(self).flags == old(self).flags,
            final(self).halted == old(self).halted,
            final(self).io_map == old(self).io_map,
    {
        self.mem_map.write(ea, val, sz);
    }

    pub fn read_mem(&self, seg: Sreg, off: u16, sz: OpSize) -> (r: Option<OpSizeT>)
        ensures
            r == self.mem_map.read_spec(linear(sreg_get(self.sregs, seg), off), sz),
    {
        let ea = self.calc_ea(seg, off);
        self.read_mem_ea(ea, sz)
    }

    pub fn write_mem(&mut self, seg: Sreg, off: u16, val: OpSizeT, sz: OpSize)
        ensures
            old(self).mem_map.write_post(
                &final(self).mem_map,
                linear(sreg_get(old(self).sregs, seg), off),
                val,
                sz,
            ),
            final(self).regs == old(self).regs,
            final(self).sregs == old(self).sregs,
            final(self).ip == old(self).ip,
            final(self).flags == old(self).flags,
            final(self).halted == old(self).halted,
            final(self).io_map == old(self).io_map,
    {
        let ea = self.calc_ea(seg, off);
        self.write_mem_ea(ea, val, sz);
    }

    /// Reads a port; an unbound port reads as 0.
    pub fn read_io(&self, port: IoAddrT, sz: OpSize) -> (r: OpSizeT)
        ensures
            r == match self.io_map.read_spec(port, io_size(sz)) {
                Some(v) => v,
                None => 0,
            },
    {
        let isz = match sz {
            OpSize::Byte => IoSize::Byte,
            OpSize::Word => IoSize::Word,
        };
        match self.io_map.read(port, isz) {
            Some(v) => v,
            None => 0,
        }
    }

    /// Writes a port; a write to an unbound port is dropped.
    pub fn write_io(&mut self, port: IoAddrT, val: OpSizeT, sz: OpSize)
        ensures
            old(self).io_map.write_post(&final(self).io_map, port, val, io_size(sz)),
            final(self).regs == old(self).regs,
            final(self).sregs == old(self).sregs,
            final(self).ip == old(self).ip,
            final(self).flags == old(self).flags,
            final(self).halted == old(self).halted,
            final(self).mem_map == old(self).mem_map,
    {
        let isz = match sz {
            OpSize::Byte => IoSize::Byte,
            OpSize::Word => IoSize::Word,
        };
        self.io_map.write(port, val, isz);
    }
}

/// The 8-bit registers alias the bytes of AX, CX, DX and BX (selectors 0..3; the high bytes
/// are selectors 4..7). Writing the low byte and then the high byte makes the word read
/// `high * 256 + low`; writing the word makes the bytes read its low and high byte; and writing
/// either byte leaves the other as it was.
pub proof fn lemma_byte_aliasing(r: Regs, n: u8, l: u8, h: u8, w: u16)
    requires
        n < 4,
    ensures
        reg16_get(reg8_put(reg8_put(r, reg8_of(n), l), reg8_of((n + 4) as u8), h), reg16_of(n)) == h * 256 + l,
        reg8_get(reg16_put(r, reg16_of(n), w), reg8_of(n)) == w % 256,
        reg8_get(reg16_put(r, reg16_of(n), w), reg8_of((n + 4) as u8)) == w / 256,
        reg8_get(reg8_put(r, reg8_of(n), l), reg8_of((n + 4) as u8)) == reg8_get(r, reg8_of((n + 4) as u8)),
        reg8_get(reg8_put(r, reg8_of((n + 4) as u8), h), reg8_of(n)) == reg8_get(r, reg8_of(n)),
{
    let w0 = reg16_get(r, reg16_of(n));
    let w1 = with_lo(w0, l);
    assert(w1 == w0 / 256 * 256 + l) by (nonlinear_arith)
        requires
            w1 == (w0 / 256 * 256 + l) as u16,
            w0 < 0x10000,
            l < 256,
    ;
    assert(with_hi(w1, h) == h * 256 + l) by (nonlinear_arith)
        requires
            w1 == w0 / 256 * 256 + l,
            with_hi(w1, h) == (h * 256 + w1 % 256) as u16,
            l < 256,
            h < 256,
            w0 < 0x10000,
    ;
    assert(hi(with_lo(w0, l)) == hi(w0)) by (nonlinear_arith)
        requires
            with_lo(w0, l) == w0 / 256 * 256 + l,
            hi(with_lo(w0, l)) == (with_lo(w0, l) / 256) as u8,
            hi(w0) == (w0 / 256) as u8,
            l < 256,
            w0 < 0x10000,
    ;
    assert(lo(with_hi(w0, h)) == lo(w0)) by (nonlinear_arith)
        requires
            with_hi(w0, h) == (h * 256 + w0 % 256) as u16,
            lo(with_hi(w0, h)) == (with_hi(w0, h) % 256) as u8,
            lo(w0) == (w0 % 256) as u8,
            h < 256,
            w0 < 0x10000,
    ;
}

proof fn lemma_mask_bit(f: Flags)
    ensures
        flag_mask_spec(f) == 1u16 << flag_pos(f),
        flag_pos(f) < 16,
{
    assert(0x0001u16 == 1u16 << 0u16 && 0x0004u16 == 1u16 << 2u16 && 0x0010u16 == 1u16 << 4u16
        && 0x0040u16 == 1u16 << 6u16 && 0x0080u16 == 1u16 << 7u16 && 0x0100u16 == 1u16 << 8u16
        && 0x0200u16 == 1u16 << 9u16 && 0x0400u16 == 1u16 << 10u16 && 0x0800u16 == 1u16 << 11u16)
        by (bit_vector);
}

proof fn lemma_single_bit(w: u16, p: u16, i: u16)
    requires
        p < 16,
        i < 16,
    ensures
        i != p ==> bit(w | (1u16 << p), i) == bit(w, i),
        i != p ==> bit(w & !(1u16 << p), i) == bit(w, i),
        i != p ==> bit(w ^ (1u16 << p), i) == bit(w, i),
        bit(w | (1u16 << p), p),
        !bit(w & !(1u16 << p), p),
        bit(w ^ (1u16 << p), p) != bit(w, p),
        (w ^ (1u16 << p)) ^ (1u16 << p) == w,
        (w & (1u16 << p) != 0) == bit(w, p),
{
    assert(i != p ==> (((w | (1u16 << p)) >> i) & 1 == 1) == (((w >> i) & 1) == 1)) by (bit_vector)
        requires p < 16, i < 16;
    assert(i != p ==> (((w & !(1u16 << p)) >> i) & 1 == 1) == (((w >> i) & 1) == 1)) by (bit_vector)
        requires p < 16, i < 16;
    assert(i != p ==> (((w ^ (1u16 << p)) >> i) & 1 == 1) == (((w >> i) & 1) == 1)) by (bit_vector)
        requires p < 16, i < 16;
    assert(((w | (1u16 << p)) >> p) & 1 == 1) by (bit_vector)
        requires p < 16;
    assert(((w & !(1u16 << p)) >> p) & 1 != 1) by (bit_vector)
        requires p < 16;
    assert((((w ^ (1u16 << p)) >> p) & 1 == 1) != (((w >> p) & 1) == 1)) by (bit_vector)
        requires p < 16;
    assert((w ^ (1u16 << p)) ^ (1u16 << p) == w) by (bit_vector);
    assert((w & (1u16 << p) != 0) == (((w >> p) & 1) == 1)) by (bit_vector)
        requires p < 16;
}

/// Setting, clearing or toggling flag `f` changes no other bit of the flags word, and so no
/// other named flag; afterwards `f` reads as set, clear, or flipped; and toggling it twice gives
/// back the word.
pub proof fn lemma_flag_isolation(w: u16, f: Flags, g: Flags, i: u16)
    requires
        i < 16,
    ensures
        i != flag_pos(f) ==> bit(w | flag_mask_spec(f), i) == bit(w, i),
        i != flag_pos(f) ==> bit(w & !flag_mask_spec(f), i) == bit(w, i),
        i != flag_pos(f) ==> bit(w ^ flag_mask_spec(f), i) == bit(w, i),
        g != f ==> flag_set(w | flag_mask_spec(f), g) == flag_set(w, g),
        g != f ==> flag_set(w & !flag_mask_spec(f), g) == flag_set(w, g),
        g != f ==> flag_set(w ^ flag_mask_spec(f), g) == flag_set(w, g),
        flag_set(w | flag_mask_spec(f), f),
        !flag_set(w & !flag_mask_spec(f), f),
        flag_set(w ^ flag_mask_spec(f), f) != flag_set(w, f),
        (w ^ flag_mask_spec(f)) ^ flag_mask_spec(f) == w,
{
    lemma_mask_bit(f);
    lemma_mask_bit(g);
    let (p, q) = (flag_pos(f), flag_pos(g));
    lemma_single_bit(w, p, i);
    lemma_single_bit(w, p, q);
    lemma_single_bit(w | (1u16 << p), q, q);
    lemma_single_bit(w & !(1u16 << p), q, q);
    lemma_single_bit(w ^ (1u16 << p), q, q);
    lemma_single_bit(w, q, q);
    lemma_single_bit(w | (1u16 << p), p, p);
    lemma_single_bit(w & !(1u16 << p), p, p);
    lemma_single_bit(w ^ (1u16 << p), p, p);
}

/// The code segment that places a load address in the segment's first 64 KiB.
pub open spec fn load_segment(addr: MemAddrT) -> u16 {
    ((addr / 0x10000) * 0x1000) as u16
}

impl<P: IOOps> Cpu<MemDevice, P> {
    /// A machine with zeroed RAM below `RAM_END` and the ROM `image` at `cfg.bios_addr`, with
    /// CS:IP pointing at the image and every other register, and the flags, zero.
    pub fn new(cfg: &Config, image: Vec<u8>) -> (r: Self)
        requires
            cfg.bios_addr + image.len() <= MemAddrT::MAX,
        ensures
            r.regs == (Regs { ax: 0, bx: 0, cx: 0, dx: 0, sp: 0, bp: 0, si: 0, di: 0 }),
            r.sregs == (Sregs { cs: load_segment(cfg.bios_addr), ds: 0, ss: 0, es: 0 }),
            r.ip == (cfg.bios_addr % 0x10000) as u16,
            r.flags == 0,
            !r.halted,
            r.io_map.map@ == Map::<u16, P>::empty(),
            r.mem_map.regions@.len() == 2,
            is_ram_region(r.mem_map.regions@[0], 0, RAM_END, zeros(cfg.ram_size as nat)),
            is_rom_region(r.mem_map.regions@[1], cfg.bios_addr, image@),
    {
        let mut io_map = IOMap::new();
        let mut mem_map = MemMap::new();
        init_devices(cfg, &mut mem_map, &mut io_map, image);
        let mut sregs = Sregs::default();
        sregs.cs = ((cfg.bios_addr / 0x10000) * 0x1000) as u16;
        Cpu {
            regs: Regs::default(),
            sregs,
            ip: (cfg.bios_addr % 0x10000) as u16,
            flags: 0,
            halted: false,
            io_map,
            mem_map,
        }
    }
}

} // verus!
