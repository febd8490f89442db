//! Checking a machine against the expected register values that a test image records after a
//! HLT: records of a line number, a two-character name, and a value.
use vstd::prelude::*;

use crate::cpu::{flag_set, linear, reg16_get, reg8_get, sreg_get, Cpu, Flags};
use crate::io::IOOps;
use crate::mem::{MemOps, OpSize};
use crate::op::{Inst, Op, Reg16, Reg8, Sreg};
use crate::MemAddrT;

verus! {

/// What a record's name selects: a register or flag to check, the end of the records, or a
/// source file name.
#[derive(Debug, Clone, Copy, PartialEq, Eq, Structural)]
pub enum Field {
    Word(Reg16),
    Byte(Reg8),
    Seg(Sreg),
    Flag(Flags),
    End,
    File,
    Other,
}

/// How a checked value is shown.
#[derive(Debug, Clone, Copy, PartialEq, Eq, Structural)]
pub enum ValueKind {
    Word,
    Byte,
    Flag,
}

/// The result of checking the records.
#[derive(Debug, Clone, Copy, PartialEq, Eq, Structural)]
pub enum Verdict {
    /// Every recorded value matched.
    Passed,
    /// Memory ended inside a record.
    Truncated,
    /// The register or flag `name` held `got` where the record at `line` expects `expected`
    /// (a flag as 0 or 1).
    Mismatch { line: u16, name: u16, kind: ValueKind, got: u16, expected: u16 },
    /// The record at `line` has a name that selects nothing.
    Unknown { line: u16, name: u16 },
}

/// The field that a name selects; a name is two characters, the first in the low byte.
pub open spec fn field_of(w: u16) -> Field {
    if w == 0x5841 { Field::Word(Reg16::AX) }
    else if w == 0x5842 { Field::Word(Reg16::BX) }
    else if w == 0x5843 { Field::Word(Reg16::CX) }
    else if w == 0x5844 { Field::Word(Reg16::DX) }
    else if w == 0x4953 { Field::Word(Reg16::SI) }
    else if w == 0x4944 { Field::Word(Reg16::DI) }
    else if w == 0x5042 { Field::Word(Reg16::BP) }
    else if w == 0x5053 { Field::Word(Reg16::SP) }
    else if w == 0x4c41 { Field::Byte(Reg8::AL) }
    else if w == 0x4c42 { Field::Byte(Reg8::BL) }
    else if w == 0x4c43 { Field::Byte(Reg8::CL) }
    else if w == 0x4c44 { Field::Byte(Reg8::DL) }
    else if w == 0x4841 { Field::Byte(Reg8::AH) }
    else if w == 0x4842 { Field::Byte(Reg8::BH) }
    else if w == 0x4843 { Field::Byte(Reg8::CH) }
    else if w == 0x4844 { Field::Byte(Reg8::DH) }
    else if w == 0x5343 { Field::Seg(Sreg::CS) }
    else if w == 0x5345 { Field::Seg(Sreg::ES) }
    else if w == 0x5344 { Field::Seg(Sreg::DS) }
    else if w == 0x5353 { Field::Seg(Sreg::SS) }
    else if w == 0x4643 { Field::Flag(Flags::C) }
    else if w == 0x4650 { Field::Flag(Flags::P) }
    else if w == 0x4641 { Field::Flag(Flags::A) }
    else if w == 0x465a { Field::Flag(Flags::Z) }
    else if w == 0x4653 { Field::Flag(Flags::S) }
    else if w == 0x4654 { Field::Flag(Flags::T) }
    else if w == 0x4649 { Field::Flag(Flags::I) }
    else if w == 0x4644 { Field::Flag(Flags::D) }
    else if w == 0x464f { Field::Flag(Flags::O) }
    else if w == 0x2d2d { Field::End }
    else if w == 0x5e5e { Field::File }
    else { Field::Other }
}

pub fn field(w: u16) -> (r: Field)
    ensures
        r == field_of(w),
{
    match w {
        0x5841 => Field::Word(Reg16::AX),
        0x5842 => Field::Word(Reg16::BX),
        0x5843 => Field::Word(Reg16::CX),
        0x5844 => Field::Word(Reg16::DX),
        0x4953 => Field::Word(Reg16::SI),
        0x4944 => Field::Word(Reg16::DI),
        0x5042 => Field::Word(Reg16::BP),
        0x5053 => Field::Word(Reg16::SP),
        0x4c41 => Field::Byte(Reg8::AL),
        0x4c42 => Field::Byte(Reg8::BL),
        0x4c43 => Field::Byte(Reg8::CL),
        0x4c44 => Field::Byte(Reg8::DL),
        0x4841 => Field::Byte(Reg8::AH),
        0x4842 => Field::Byte(Reg8::BH),
        0x4843 => Field::Byte(Reg8::CH),
        0x4844 => Field::Byte(Reg8::DH),
        0x5343 => Field::Seg(Sreg::CS),
        0x5345 => Field::Seg(Sreg::ES),
        0x5344 => Field::Seg(Sreg::DS),
        0x5353 => Field::Seg(Sreg::SS),
        0x4643 => Field::Flag(Flags::C),
        0x4650 => Field::Flag(Flags::P),
        0x4641 => Field::Flag(Flags::A),
        0x465a => Field::Flag(Flags::Z),
        0x4653 => Field::Flag(Flags::S),
        0x4654 => Field::Flag(Flags::T),
        0x4649 => Field::Flag(Flags::I),
        0x4644 => Field::Flag(Flags::D),
        0x464f => Field::Flag(Flags::O),
        0x2d2d => Field::End,
        0x5e5e => Field::File,
        _ => Field::Other,
    }
}

pub open spec fn kind_of(f: Field) -> ValueKind {
    match f {
        Field::Byte(_) => ValueKind::Byte,
        Field::Flag(_) => ValueKind::Flag,
        _ => ValueKind::Word,
    }
}

/// The value as a record states it: a byte's low eight bits, a flag as 0 or 1.
pub open spec fn recorded(kind: ValueKind, v: u16) -> u16 {
    match kind {
        ValueKind::Word => v,
        ValueKind::Byte => (v as u8) as u16,
        ValueKind::Flag => if v != 0 { 1 } else { 0 },
    }
}

impl<M: MemOps, P: IOOps> Cpu<M, P> {
    /// A memory read at an address that may lie beyond 32 bits (then nothing is there).
    pub open spec fn mem_at(&self, ea: int, sz: OpSize) -> Option<u16> {
        if 0 <= ea <= 0xffff_ffff {
            self.mem_map.read_spec(ea as MemAddrT, sz)
        } else {
            None
        }
    }

    /// The current value of a checked field (a flag as 0 or 1).
    pub open spec fn field_value(&self, f: Field) -> u16 {
        match f {
            Field::Word(r) => reg16_get(self.regs, r),
            Field::Byte(r) => reg8_get(self.regs, r) as u16,
            Field::Seg(s) => sreg_get(self.sregs, s),
            Field::Flag(g) => if flag_set(self.flags, g) { 1 } else { 0 },
            _ => 0,
        }
    }

    /// The bytes from `ea` up to a zero byte, and the address after that zero; `None` when
    /// memory ends first.
    pub open spec fn c_string(&self, ea: int) -> Option<(Seq<u8>, int)>
        decreases 0x1_0000_0000 - ea,
    {
        if ea < 0 || ea > 0xffff_ffff {
            None
        } else {
            match self.mem_at(ea, OpSize::Byte) {
                None => None,
                Some(b) => if b == 0 {
                    Some((Seq::empty(), ea + 1))
                } else {
                    match self.c_string(ea + 1) {
                        None => None,
                        Some((rest, next)) => Some((seq![b as u8] + rest, next)),
                    }
                },
            }
        }
    }

    /// Checks the records from `ea` on, with the file name read so far; gives the file name and
    /// the verdict. The records end with memory, with an `--` record, or with an unknown name
    /// before any file name was given.
    pub open spec fn check_records(&self, ea: int, file: Seq<u8>) -> (Seq<u8>, Verdict)
        decreases 0x1_0000_0010 - ea,
        via Self::check_records_decreases
    {
        if ea < 0 || ea > 0xffff_ffff {
            (file, Verdict::Passed)
        } else {
            match self.mem_at(ea, OpSize::Word) {
                None => (file, Verdict::Passed),
                Some(line) => match self.mem_at(ea + 2, OpSize::Word) {
                    None => (file, Verdict::Truncated),
                    Some(w) => match field_of(w) {
                        Field::End => (file, Verdict::Passed),
                        Field::Other => if file.len() == 0 {
                            (file, Verdict::Passed)
                        } else {
                            (file, Verdict::Unknown { line, name: w })
                        },
                        Field::File => match self.c_string(ea + 4) {
                            None => (file, Verdict::Truncated),
                            Some((name, next)) => self.check_records(next, file + name),
                        },
                        f => {
                            let kind = kind_of(f);
                            let sz = if kind == ValueKind::Word { OpSize::Word } else { OpSize::Byte };
                            match self.mem_at(ea + 4, sz) {
                                None => (file, Verdict::Truncated),
                                Some(v) => {
                                    let (got, expected) = (self.field_value(f), recorded(kind, v));
                                    if got != expected {
                                        (file, Verdict::Mismatch { line, name: w, kind, got, expected })
                                    } else {
                                        self.check_records(
                                            ea + if kind == ValueKind::Word { 6int } else { 5int },
                                            file,
                                        )
                                    }
                                },
                            }
                        },
                    },
                },
            }
        }
    }

    #[via_fn]
    proof fn check_records_decreases(&self, ea: int, file: Seq<u8>) {
        if 0 <= ea <= 0xffff_ffff {
            self.lemma_c_string_next(ea + 4);
        }
    }

    proof fn lemma_c_string_next(&self, ea: int)
        ensures
            self.c_string(ea) matches Some((_, next)) ==> ea < next <= 0x1_0000_0000,
        decreases 0x1_0000_0000 - ea,
    {
        if 0 <= ea <= 0xffff_ffff {
            self.lemma_c_string_next(ea + 1);
        }
    }
}

/// `p` put in front of the string that `o` describes.
pub open spec fn prepend(p: Seq<u8>, o: Option<(Seq<u8>, int)>) -> Option<(Seq<u8>, int)> {
    match o {
        None => None,
        Some((r, n)) => Some((p + r, n)),
    }
}

fn kind(f: Field) -> (r: ValueKind)
    ensures
        r == kind_of(f),
{
    match f {
        Field::Byte(_) => ValueKind::Byte,
        Field::Flag(_) => ValueKind::Flag,
        _ => ValueKind::Word,
    }
}

impl<M: MemOps, P: IOOps> Cpu<M, P> {
    fn mem_at_exec(&self, ea: u64, sz: OpSize) -> (r: Option<u16>)
        ensures
            r == self.mem_at(ea as int, sz),
    {
        if ea > 0xffff_ffff {
            None
        } else {
            self.read_mem_ea(ea as MemAddrT, sz)
        }
    }

    fn field_value_exec(&self, f: Field) -> (r: u16)
        ensures
            r == self.field_value(f),
    {
        match f {
            Field::Word(r) => self.read_reg16(r),
            Field::Byte(r) => self.read_reg8(r) as u16,
            Field::Seg(s) => self.read_sreg(s),
            Field::Flag(g) => if self.is_flag_set(g) {
                1
            } else {
                0
            },
            _ => 0,
        }
    }

    /// The bytes from `ea` up to a zero byte, and the address after the zero.
    fn read_c_string(&self, ea: u64) -> (r: Option<(Vec<u8>, u64)>)
        requires
            ea <= 0x1_0000_0004,
        ensures
            match self.c_string(ea as int) {
                None => r is None,
                Some((s, next)) => r matches Some((v, n)) && v@ == s && n == next,
            },
    {
        let mut bytes: Vec<u8> = Vec::new();
        let mut cur = ea;
        proof {
            assert(prepend(bytes@, self.c_string(ea as int)) == self.c_string(ea as int)) by {
                if let Some((r, n)) = self.c_string(ea as int) {
                    assert(bytes@ + r =~= r);
                }
            }
        }
        loop
            invariant
                ea <= cur <= 0x1_0000_0004,
                self.c_string(ea as int) == prepend(bytes@, self.c_string(cur as int)),
            decreases 0x1_0000_0010 - cur,
        {
            if cur > 0xffff_ffff {
                return None;
            }
            let b = match self.mem_at_exec(cur, OpSize::Byte) {
                None => return None,
                Some(b) => b,
            };
            if b == 0 {
                proof {
                    assert(bytes@ + Seq::<u8>::empty() =~= bytes@);
                }
                return Some((bytes, cur + 1));
            }
            let ghost before = bytes@;
            bytes.push(b as u8);
            cur = cur + 1;
            proof {
                if let Some((r, n)) = self.c_string(cur as int) {
                    assert(before + (seq![b as u8] + r) =~= bytes@ + r);
                }
            }
        }
    }

    /// Checks the expected values recorded after the HLT at `hlt_ea`; gives the file name that
    /// the records name and the verdict.
    pub fn check_expectations(&self, hlt_ea: MemAddrT) -> (r: (Vec<u8>, Verdict))
        ensures
            (r.0@, r.1) == self.check_records(hlt_ea + 1, Seq::empty()),
    {
        let mut ea: u64 = hlt_ea as u64 + 1;
        let mut file: Vec<u8> = Vec::new();
        loop
            invariant
                ea <= 0x1_0000_0005,
                self.check_records(hlt_ea + 1, Seq::empty()) == self.check_records(ea as int, file@),
            decreases 0x1_0000_0010 - ea,
        {
            if ea > 0xffff_ffff {
                return (file, Verdict::Passed);
            }
            let line = match self.mem_at_exec(ea, OpSize::Word) {
                None => return (file, Verdict::Passed),
                Some(v) => v,
            };
            let w = match self.mem_at_exec(ea + 2, OpSize::Word) {
                None => return (file, Verdict::Truncated),
                Some(v) => v,
            };
            let f = field(w);
            match f {
                Field::End => return (file, Verdict::Passed),
                Field::Other => {
                    if file.len() == 0 {
                        return (file, Verdict::Passed);
                    }
                    return (file, Verdict::Unknown { line, name: w });
                },
                Field::File => {
                    match self.read_c_string(ea + 4) {
                        None => return (file, Verdict::Truncated),
                        Some((mut name, next)) => {
                            proof {
                                self.lemma_c_string_next(ea + 4);
                            }
                            file.append(&mut name);
                            ea = next;
                        },
                    }
                },
                _ => {
                    let k = kind(f);
                    let sz = match k {
                        ValueKind::Word => OpSize::Word,
                        _ => OpSize::Byte,
                    };
                    let v = match self.mem_at_exec(ea + 4, sz) {
                        None => return (file, Verdict::Truncated),
                        Some(v) => v,
                    };
                    let expected = match k {
                        ValueKind::Word => v,
                        ValueKind::Byte => (#[verifier::truncate] (v as u8)) as u16,
                        ValueKind::Flag => if v != 0 {
                            1
                        } else {
                            0
                        },
                    };
                    let got = self.field_value_exec(f);
                    if got != expected {
                        return (file, Verdict::Mismatch { line, name: w, kind: k, got, expected });
                    }
                    ea = ea + match k {
                        ValueKind::Word => 6,
                        _ => 5,
                    };
                },
            }
        }
    }

    /// Where the records to check start, if this is a point to check them: the CPU has halted
    /// (the records follow the byte at CS:IP), or the instruction just executed at `prev_pc`
    /// was a return that a HLT byte follows (the records follow that HLT).
    pub open spec fn debug_block_spec(&self, prev_pc: MemAddrT, prev: Inst) -> Option<MemAddrT> {
        let after = prev_pc + prev.size;
        if self.halted {
            Some(linear(self.sregs.cs, self.ip))
        } else if prev.op == Op::Ret && after <= 0xffff_ffff && self.mem_map.read_spec(
            after as MemAddrT,
            OpSize::Byte,
        ) == Some(0xf4u16) {
            Some(after as MemAddrT)
        } else {
            None
        }
    }

    pub fn debug_block(&self, prev_pc: MemAddrT, prev: &Inst) -> (r: Option<MemAddrT>)
        ensures
            r == self.debug_block_spec(prev_pc, *prev),
    {
        if self.halted {
            return Some(self.calc_ea(Sreg::CS, self.ip));
        }
        if !matches!(prev.op, Op::Ret) || prev_pc > 0xffff_ffff - prev.size as MemAddrT {
            return None;
        }
        let after = prev_pc + prev.size as MemAddrT;
        match self.read_mem_ea(after, OpSize::Byte) {
            Some(0xf4) => Some(after),
            _ => None,
        }
    }
}

} // verus!
