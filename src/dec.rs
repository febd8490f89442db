//! The instruction decoder: a byte source in, one decoded instruction out.
use vstd::prelude::*;

use crate::op::{
    cc_of, reg16_of, reg8_of, sreg_of, Arg, Cc, Inst, Invalid, Op, Reg16, Reg8, Rep, Sreg,
};

verus! {

/// A pull source of bytes: what is still to come, and what has been taken so far.
pub trait ByteSource {
    spec fn remaining(&self) -> Seq<u8>;

    spec fn consumed(&self) -> Seq<u8>;

    fn next_byte(&mut self) -> (r: Option<u8>)
        ensures
            old(self).remaining().len() == 0 ==> {
                &&& r is None
                &&& final(self).remaining() == old(self).remaining()
                &&& final(self).consumed() == old(self).consumed()
            },
            old(self).remaining().len() > 0 ==> {
                &&& r == Some(old(self).remaining()[0])
                &&& final(self).remaining() == old(self).remaining().drop_first()
                &&& final(self).consumed() == old(self).consumed().push(old(self).remaining()[0])
            },
    ;
}

/// A byte source over an owned buffer.
pub struct ByteCursor {
    data: Vec<u8>,
    pos: usize,
}

impl ByteCursor {
    pub fn new(data: Vec<u8>) -> (r: ByteCursor)
        ensures
            r.remaining() == data@,
            r.consumed() == Seq::<u8>::empty(),
    {
        let r = ByteCursor { data, pos: 0 };
        assert(r.data@.skip(0) =~= data@);
        assert(r.data@.take(0) =~= Seq::<u8>::empty());
        r
    }

    /// How many bytes have been taken.
    pub fn position(&self) -> (r: usize)
        ensures
            r == self.consumed().len(),
    {
        if self.pos <= self.data.len() {
            self.pos
        } else {
            self.data.len()
        }
    }
}

impl ByteSource for ByteCursor {
    closed spec fn remaining(&self) -> Seq<u8> {
        if self.pos <= self.data.len() {
            self.data@.skip(self.pos as int)
        } else {
            Seq::empty()
        }
    }

    closed spec fn consumed(&self) -> Seq<u8> {
        if self.pos <= self.data.len() {
            self.data@.take(self.pos as int)
        } else {
            self.data@
        }
    }

    fn next_byte(&mut self) -> (r: Option<u8>) {
        if self.pos < self.data.len() {
            let b = self.data[self.pos];
            self.pos = self.pos + 1;
            proof {
                let d = self.data@;
                let p = self.pos as int;
                assert(d.skip(p) =~= d.skip(p - 1).drop_first());
                assert(d.take(p) =~= d.take(p - 1).push(d[p - 1]));
            }
            Some(b)
        } else {
            proof {
                if self.pos == self.data.len() {
                    assert(self.data@.take(self.pos as int) =~= self.data@);
                }
            }
            None
        }
    }
}

/// The two-operand operations that the decoder builds from a ModRM byte or an immediate.
#[derive(Debug, Clone, Copy, PartialEq, Eq, Structural)]
pub enum Dyadic {
    Add,
    Or,
    Adc,
    Sbb,
    And,
    Sub,
    Xor,
    Cmp,
    Test,
    Xchg,
    Mov,
    Lea,
}

pub open spec fn dyadic(k: Dyadic, a: Arg, b: Arg) -> Op {
    match k {
        Dyadic::Add => Op::Add(a, b),
        Dyadic::Or => Op::Or(a, b),
        Dyadic::Adc => Op::Adc(a, b),
        Dyadic::Sbb => Op::Sbb(a, b),
        Dyadic::And => Op::And(a, b),
        Dyadic::Sub => Op::Sub(a, b),
        Dyadic::Xor => Op::Xor(a, b),
        Dyadic::Cmp => Op::Cmp(a, b),
        Dyadic::Test => Op::Test(a, b),
        Dyadic::Xchg => Op::Xchg(a, b),
        Dyadic::Mov => Op::Mov(a, b),
        Dyadic::Lea => Op::Lea(a, b),
    }
}

/// The arithmetic/logic operation that a 3-bit field selects (opcode bits 5..3, or a ModRM reg field).
pub open spec fn alu_kind(n: u8) -> Dyadic {
    if n == 0 { Dyadic::Add }
    else if n == 1 { Dyadic::Or }
    else if n == 2 { Dyadic::Adc }
    else if n == 3 { Dyadic::Sbb }
    else if n == 4 { Dyadic::And }
    else if n == 5 { Dyadic::Sub }
    else if n == 6 { Dyadic::Xor }
    else { Dyadic::Cmp }
}

pub open spec fn byte_at(s: Seq<u8>, i: int) -> Option<u8> {
    if 0 <= i < s.len() {
        Some(s[i])
    } else {
        None
    }
}

/// A little-endian word at `i`: the second byte is the high one.
pub open spec fn word_at(s: Seq<u8>, i: int) -> Option<u16> {
    if 0 <= i && i + 1 < s.len() {
        Some((s[i + 1] as int * 256 + s[i] as int) as u16)
    } else {
        None
    }
}

/// The two register operands of a register-direct ModRM byte `b1` (r/m first, reg second).
/// The memory forms (mode bits other than 3) are not decoded.
pub open spec fn modrm_spec(b0: u8, b1: u8, wide: bool) -> Result<(Arg, Arg), Invalid> {
    if b1 / 64 != 3 {
        Err(Invalid::UnexpectedBytes(b0, b1))
    } else if wide {
        Ok((Arg::Reg16(reg16_of(b1 % 8)), Arg::Reg16(reg16_of((b1 / 8) % 8))))
    } else {
        Ok((Arg::Reg8(reg8_of(b1 % 8)), Arg::Reg8(reg8_of((b1 / 8) % 8))))
    }
}

/// An operation with a ModRM byte at the head of `rest`; `swap` puts the reg operand first.
pub open spec fn modrm_op(k: Dyadic, b0: u8, rest: Seq<u8>, wide: bool, swap: bool) -> Option<(Op, nat)> {
    match byte_at(rest, 0) {
        None => None,
        Some(b1) => match modrm_spec(b0, b1, wide) {
            Err(e) => Some((Op::Invalid(e), 1)),
            Ok((a0, a1)) => Some((if swap { dyadic(k, a1, a0) } else { dyadic(k, a0, a1) }, 1)),
        },
    }
}

/// Opcodes below 0x40 whose low three bits are below 6: the eight arithmetic/logic families.
/// With a ModRM byte, bit 0 of the opcode selects word operands and bit 1 (the direction bit)
/// puts the reg operand first; forms 4 and 5 take AL with a byte or AX with a word.
pub open spec fn alu_row_spec(b0: u8, rest: Seq<u8>) -> Option<(Op, nat)> {
    let k = alu_kind(b0 / 8);
    let f = b0 % 8;
    if f == 0 {
        modrm_op(k, b0, rest, false, false)
    } else if f == 1 {
        modrm_op(k, b0, rest, true, false)
    } else if f == 2 {
        modrm_op(k, b0, rest, false, true)
    } else if f == 3 {
        modrm_op(k, b0, rest, true, true)
    } else if f == 4 {
        match byte_at(rest, 0) {
            None => None,
            Some(b1) => Some((dyadic(k, Arg::Reg8(Reg8::AL), Arg::Uimm8(b1)), 1)),
        }
    } else {
        match word_at(rest, 0) {
            None => None,
            Some(w) => Some((dyadic(k, Arg::Reg16(Reg16::AX), Arg::Uimm16(w)), 2)),
        }
    }
}

/// The one-byte operations among opcodes below 0x40.
pub open spec fn low_misc(b0: u8) -> Op {
    if b0 == 0x06 { Op::Push(Arg::Sreg(Sreg::ES)) }
    else if b0 == 0x07 { Op::Pop(Arg::Sreg(Sreg::ES)) }
    else if b0 == 0x0e { Op::Push(Arg::Sreg(Sreg::CS)) }
    else if b0 == 0x16 { Op::Push(Arg::Sreg(Sreg::SS)) }
    else if b0 == 0x17 { Op::Pop(Arg::Sreg(Sreg::SS)) }
    else if b0 == 0x1e { Op::Push(Arg::Sreg(Sreg::DS)) }
    else if b0 == 0x1f { Op::Pop(Arg::Sreg(Sreg::DS)) }
    else if b0 == 0x27 { Op::Daa }
    else if b0 == 0x2f { Op::Das }
    else if b0 == 0x37 { Op::Aaa }
    else if b0 == 0x3f { Op::Aas }
    else { Op::Invalid(Invalid::UnexpectedByte(b0)) }
}

/// Opcodes 0x80..0x8f: immediate groups (0x80 and 0x82 a byte register with a byte, 0x81 a
/// word register with a word, 0x83 a word register with a sign-extended byte), test, exchange,
/// moves, lea, the segment-register move and pop.
pub open spec fn row8_spec(b0: u8, rest: Seq<u8>) -> Option<(Op, nat)> {
    if b0 <= 0x83 {
        match byte_at(rest, 0) {
            None => None,
            Some(b1) => match modrm_spec(b0, b1, b0 == 0x81 || b0 == 0x83) {
                Err(e) => Some((Op::Invalid(e), 1)),
                Ok((a0, _)) => {
                    let k = alu_kind((b1 / 8) % 8);
                    if b0 == 0x81 {
                        match word_at(rest, 1) {
                            None => None,
                            Some(w) => Some((dyadic(k, a0, Arg::Uimm16(w)), 3)),
                        }
                    } else {
                        match byte_at(rest, 1) {
                            None => None,
                            Some(b) => Some((
                                dyadic(k, a0, if b0 == 0x83 { Arg::Imm8(b as i8) } else { Arg::Uimm8(b) }),
                                2,
                            )),
                        }
                    }
                },
            },
        }
    } else if b0 == 0x84 {
        modrm_op(Dyadic::Test, b0, rest, false, false)
    } else if b0 == 0x85 {
        modrm_op(Dyadic::Test, b0, rest, true, false)
    } else if b0 == 0x86 || b0 == 0x87 {
        modrm_op(Dyadic::Xchg, b0, rest, b0 == 0x87, false)
    } else if b0 == 0x88 {
        modrm_op(Dyadic::Mov, b0, rest, false, false)
    } else if b0 == 0x89 {
        modrm_op(Dyadic::Mov, b0, rest, true, false)
    } else if b0 == 0x8a {
        modrm_op(Dyadic::Mov, b0, rest, false, true)
    } else if b0 == 0x8b {
        modrm_op(Dyadic::Mov, b0, rest, true, true)
    } else if b0 == 0x8c {
        Some((Op::Invalid(Invalid::UnexpectedByte(b0)), 0))
    } else if b0 == 0x8d {
        modrm_op(Dyadic::Lea, b0, rest, true, false)
    } else {
        match byte_at(rest, 0) {
            None => None,
            Some(b1) => match modrm_spec(b0, b1, true) {
                Err(e) => Some((Op::Invalid(e), 1)),
                Ok((a0, _)) => {
                    let r = (b1 / 8) % 8;
                    if b0 == 0x8e {
                        if r >= 4 {
                            Some((Op::Invalid(Invalid::UnexpectedBytes(b0, b1)), 1))
                        } else {
                            Some((Op::Mov(Arg::Sreg(sreg_of(r)), a0), 1))
                        }
                    } else if r == 0 {
                        Some((Op::Pop(a0), 1))
                    } else {
                        Some((Op::Invalid(Invalid::UnexpectedBytes(b0, b1)), 1))
                    }
                },
            },
        }
    }
}

/// The one-byte operations of opcodes 0xf0..0xff that are not prefixes.
pub open spec fn row_f_op(b0: u8) -> Op {
    if b0 == 0xf4 { Op::Hlt }
    else if b0 == 0xf5 { Op::Cmc }
    else if b0 == 0xf8 { Op::Clc }
    else if b0 == 0xf9 { Op::Stc }
    else if b0 == 0xfa { Op::Cli }
    else if b0 == 0xfb { Op::Sti }
    else if b0 == 0xfc { Op::Cld }
    else if b0 == 0xfd { Op::Std }
    else { Op::Invalid(Invalid::UnexpectedByte(b0)) }
}

/// The operation that opcode `b0` starts, given the bytes after it, and how many of those it
/// takes; `None` when the bytes end before the operation is complete.
#[verifier::opaque]
pub open spec fn op_spec(b0: u8, rest: Seq<u8>) -> Option<(Op, nat)> {
    if b0 < 0x40 {
        if b0 % 8 < 6 {
            alu_row_spec(b0, rest)
        } else {
            Some((low_misc(b0), 0))
        }
    } else if b0 < 0x48 {
        Some((Op::Inc(Arg::Reg16(reg16_of(b0 % 8))), 0))
    } else if b0 < 0x50 {
        Some((Op::Dec(Arg::Reg16(reg16_of(b0 % 8))), 0))
    } else if b0 < 0x58 {
        Some((Op::Push(Arg::Reg16(reg16_of(b0 % 8))), 0))
    } else if b0 < 0x60 {
        Some((Op::Pop(Arg::Reg16(reg16_of(b0 % 8))), 0))
    } else if b0 < 0x70 {
        Some((Op::Invalid(Invalid::UnexpectedByte(b0)), 0))
    } else if b0 < 0x80 {
        match byte_at(rest, 0) {
            None => None,
            Some(b1) => Some((Op::Jcc(cc_of(b0 % 16), b1 as i8), 1)),
        }
    } else if b0 < 0x90 {
        row8_spec(b0, rest)
    } else if b0 == 0x90 {
        Some((Op::Nop, 0))
    } else if b0 < 0xb0 {
        Some((Op::Invalid(Invalid::UnexpectedByte(b0)), 0))
    } else if b0 < 0xb8 {
        match byte_at(rest, 0) {
            None => None,
            Some(b1) => Some((Op::Mov(Arg::Reg8(reg8_of(b0 % 8)), Arg::Uimm8(b1)), 1)),
        }
    } else if b0 < 0xc0 {
        match word_at(rest, 0) {
            None => None,
            Some(w) => Some((Op::Mov(Arg::Reg16(reg16_of(b0 % 8)), Arg::Uimm16(w)), 2)),
        }
    } else if b0 == 0xc3 {
        Some((Op::Ret, 0))
    } else if b0 == 0xd4 || b0 == 0xd5 || b0 == 0xe4 || b0 == 0xe6 {
        match byte_at(rest, 0) {
            None => None,
            Some(b1) => Some((
                if b0 == 0xd4 {
                    Op::Aam(b1)
                } else if b0 == 0xd5 {
                    Op::Aad(b1)
                } else if b0 == 0xe4 {
                    Op::In(Arg::Reg8(Reg8::AL), Arg::Uimm8(b1))
                } else {
                    Op::Out(Arg::Uimm8(b1), Arg::Reg8(Reg8::AL))
                },
                1,
            )),
        }
    } else if b0 == 0xea {
        match (word_at(rest, 0), word_at(rest, 2)) {
            (Some(off), Some(seg)) => Some((Op::JmpFar(Arg::Uimm16(seg), Arg::Uimm16(off)), 4)),
            _ => None,
        }
    } else if b0 >= 0xf0 {
        Some((row_f_op(b0), 0))
    } else {
        Some((Op::Invalid(Invalid::UnexpectedByte(b0)), 0))
    }
}

/// Lock (0xf0), repeat (0xf2, 0xf3) and segment-override (0x26, 0x2e, 0x36, 0x3e) prefixes.
pub open spec fn is_prefix(b0: u8) -> bool {
    b0 == 0xf0 || b0 == 0xf2 || b0 == 0xf3 || b0 == 0x26 || b0 == 0x2e || b0 == 0x36 || b0 == 0x3e
}

/// Whether a prefix of the same category as `b0` has already been seen.
pub open spec fn prefix_taken(lock: bool, rep: Option<Rep>, seg: Option<Sreg>, b0: u8) -> bool {
    if b0 == 0xf0 {
        lock
    } else if b0 == 0xf2 || b0 == 0xf3 {
        rep is Some
    } else {
        seg is Some
    }
}

/// The segment that an override prefix names.
pub open spec fn prefix_seg(b0: u8) -> Sreg {
    sreg_of((b0 / 8) % 4)
}

/// Decoding from position `pos` of `s` with the prefixes seen so far.
pub open spec fn decode_from(lock: bool, rep: Option<Rep>, seg: Option<Sreg>, s: Seq<u8>, pos: nat) -> Option<Inst>
    decreases s.len() - pos,
{
    if pos >= s.len() {
        None
    } else {
        let b0 = s[pos as int];
        if is_prefix(b0) {
            if prefix_taken(lock, rep, seg, b0) {
                Some(Inst { lock, rep, seg, op: Op::Invalid(Invalid::TooManyPrefix), size: (pos + 1) as u8 })
            } else if b0 == 0xf0 {
                decode_from(true, rep, seg, s, pos + 1)
            } else if b0 == 0xf2 {
                decode_from(lock, Some(Rep::Repne), seg, s, pos + 1)
            } else if b0 == 0xf3 {
                decode_from(lock, Some(Rep::Rep), seg, s, pos + 1)
            } else {
                decode_from(lock, rep, Some(prefix_seg(b0)), s, pos + 1)
            }
        } else {
            match op_spec(b0, s.skip(pos + 1 as int)) {
                None => None,
                Some((op, n)) => Some(Inst { lock, rep, seg, op, size: (pos + 1 + n) as u8 }),
            }
        }
    }
}

/// The instruction at the head of `s`, or `None` when `s` ends before one is complete.
pub open spec fn decode(s: Seq<u8>) -> Option<Inst> {
    decode_from(false, None, None, s, 0)
}

/// An operation takes at most four bytes after its opcode, and no more than there are.
proof fn lemma_op_len(b0: u8, rest: Seq<u8>)
    ensures
        op_spec(b0, rest) matches Some((_, n)) ==> n <= 4 && n <= rest.len(),
{
    reveal(op_spec);
}

spec fn prefix_count(lock: bool, rep: Option<Rep>, seg: Option<Sreg>) -> nat {
    (if lock { 1nat } else { 0nat }) + (if rep is Some { 1nat } else { 0nat }) + (if seg is Some { 1nat } else { 0nat })
}

proof fn lemma_op_spec_prefix(b0: u8, r1: Seq<u8>, r2: Seq<u8>)
    requires
        op_spec(b0, r1) matches Some((_, n)) && n <= r2.len() && r1.take(n as int) == r2.take(n as int),
    ensures
        op_spec(b0, r2) == op_spec(b0, r1),
{
    reveal(op_spec);
    let n = op_spec(b0, r1)->Some_0.1;
    assert forall|k: int| 0 <= k < n implies r1[k] == r2[k] by {
        assert(r1.take(n as int)[k] == r2.take(n as int)[k]);
    }
}

proof fn lemma_decode_from_size(lock: bool, rep: Option<Rep>, seg: Option<Sreg>, s: Seq<u8>, pos: nat)
    requires
        pos == prefix_count(lock, rep, seg),
    ensures
        decode_from(lock, rep, seg, s, pos) matches Some(i) ==> pos < i.size <= 8 && i.size <= s.len(),
    decreases s.len() - pos,
{
    if pos < s.len() {
        let b0 = s[pos as int];
        if is_prefix(b0) && !prefix_taken(lock, rep, seg, b0) {
            if b0 == 0xf0 {
                lemma_decode_from_size(true, rep, seg, s, pos + 1);
            } else if b0 == 0xf2 {
                lemma_decode_from_size(lock, Some(Rep::Repne), seg, s, pos + 1);
            } else if b0 == 0xf3 {
                lemma_decode_from_size(lock, Some(Rep::Rep), seg, s, pos + 1);
            } else {
                lemma_decode_from_size(lock, rep, Some(prefix_seg(b0)), s, pos + 1);
            }
        } else if !is_prefix(b0) {
            lemma_op_len(b0, s.skip(pos + 1 as int));
        }
    }
}

proof fn lemma_decode_from_prefix(lock: bool, rep: Option<Rep>, seg: Option<Sreg>, s1: Seq<u8>, s2: Seq<u8>, pos: nat)
    requires
        pos == prefix_count(lock, rep, seg),
        decode_from(lock, rep, seg, s1, pos) matches Some(i) && i.size <= s2.len() && s1.take(i.size as int)
            == s2.take(i.size as int),
    ensures
        decode_from(lock, rep, seg, s2, pos) == decode_from(lock, rep, seg, s1, pos),
    decreases s1.len() - pos,
{
    let i = decode_from(lock, rep, seg, s1, pos)->Some_0;
    lemma_decode_from_size(lock, rep, seg, s1, pos);
    let b0 = s1[pos as int];
    if is_prefix(b0) {
        assert(s1.take(i.size as int)[pos as int] == s2.take(i.size as int)[pos as int]);
        assert(s2[pos as int] == b0);
        if !prefix_taken(lock, rep, seg, b0) {
            if b0 == 0xf0 {
                lemma_decode_from_prefix(true, rep, seg, s1, s2, pos + 1);
            } else if b0 == 0xf2 {
                lemma_decode_from_prefix(lock, Some(Rep::Repne), seg, s1, s2, pos + 1);
            } else if b0 == 0xf3 {
                lemma_decode_from_prefix(lock, Some(Rep::Rep), seg, s1, s2, pos + 1);
            } else {
                lemma_decode_from_prefix(lock, rep, Some(prefix_seg(b0)), s1, s2, pos + 1);
            }
        }
    } else {
        let r1 = s1.skip(pos + 1 as int);
        let r2 = s2.skip(pos + 1 as int);
        lemma_op_len(b0, r1);
        let n = op_spec(b0, r1)->Some_0.1;
        assert(i.size == pos + 1 + n);
        assert(s1.take(i.size as int)[pos as int] == s2.take(i.size as int)[pos as int]);
        assert(r1.take(n as int) =~= s1.take(i.size as int).skip(pos + 1 as int));
        assert(r2.take(n as int) =~= s2.take(i.size as int).skip(pos + 1 as int));
        lemma_op_spec_prefix(b0, r1, r2);
    }
}

/// Decoding reads no byte past the instruction: a byte sequence that agrees with `s1` on the
/// bytes of the instruction at its head decodes to the same instruction, with the same prefixes
/// and size. Decoding the same bytes again therefore gives the same result.
pub proof fn lemma_decode_prefix(s1: Seq<u8>, s2: Seq<u8>)
    requires
        decode(s1) matches Some(i) && i.size <= s2.len() && s1.take(i.size as int) == s2.take(i.size as int),
    ensures
        decode(s2) == decode(s1),
{
    lemma_decode_from_prefix(false, None, None, s1, s2, 0);
}

/// `c + r.take(n)` and `r.skip(n)` stepped forward by `m` more bytes.
proof fn lemma_advance(r: Seq<u8>, c: Seq<u8>, n: int, m: int)
    requires
        0 <= n,
        0 <= m,
        n + m <= r.len(),
    ensures
        r.skip(n).skip(m) == r.skip(n + m),
        c + r.take(n) + r.skip(n).take(m) == c + r.take(n + m),
        r.skip(0) == r,
        c + r.take(0) == c,
{
    assert(r.skip(n).skip(m) =~= r.skip(n + m));
    assert(c + r.take(n) + r.skip(n).take(m) =~= c + r.take(n + m));
    assert(r.skip(0) =~= r);
    assert(c + r.take(0) =~= c);
}

fn make_dyadic(k: Dyadic, a: Arg, b: Arg) -> (r: Op)
    ensures
        r == dyadic(k, a, b),
{
    match k {
        Dyadic::Add => Op::Add(a, b),
        Dyadic::Or => Op::Or(a, b),
        Dyadic::Adc => Op::Adc(a, b),
        Dyadic::Sbb => Op::Sbb(a, b),
        Dyadic::And => Op::And(a, b),
        Dyadic::Sub => Op::Sub(a, b),
        Dyadic::Xor => Op::Xor(a, b),
        Dyadic::Cmp => Op::Cmp(a, b),
        Dyadic::Test => Op::Test(a, b),
        Dyadic::Xchg => Op::Xchg(a, b),
        Dyadic::Mov => Op::Mov(a, b),
        Dyadic::Lea => Op::Lea(a, b),
    }
}

fn alu_kind_of(n: u8) -> (r: Dyadic)
    ensures
        r == alu_kind(n),
{
    match n {
        0 => Dyadic::Add,
        1 => Dyadic::Or,
        2 => Dyadic::Adc,
        3 => Dyadic::Sbb,
        4 => Dyadic::And,
        5 => Dyadic::Sub,
        6 => Dyadic::Xor,
        _ => Dyadic::Cmp,
    }
}

fn modrm8(b0: u8, b1: u8) -> (r: Result<(Arg, Arg), Invalid>)
    ensures
        r == modrm_spec(b0, b1, false),
{
    if b1 / 64 != 3 {
        Err(Invalid::UnexpectedBytes(b0, b1))
    } else {
        Ok((Arg::Reg8(Reg8::from_index(b1 % 8)), Arg::Reg8(Reg8::from_index((b1 / 8) % 8))))
    }
}

fn modrm16(b0: u8, b1: u8) -> (r: Result<(Arg, Arg), Invalid>)
    ensures
        r == modrm_spec(b0, b1, true),
{
    if b1 / 64 != 3 {
        Err(Invalid::UnexpectedBytes(b0, b1))
    } else {
        Ok((Arg::Reg16(Reg16::from_index(b1 % 8)), Arg::Reg16(Reg16::from_index((b1 / 8) % 8))))
    }
}

/// Decodes instructions one at a time from a byte source.
pub struct Decoder<S: ByteSource> {
    sreg: Option<Sreg>,
    rep: Option<Rep>,
    size: usize,
    lock: bool,
    line: S,
}

impl<S: ByteSource> Decoder<S> {
    /// The bytes that the source has still to give.
    pub closed spec fn remaining(&self) -> Seq<u8> {
        self.line.remaining()
    }

    /// The bytes that the source has given so far.
    pub closed spec fn consumed(&self) -> Seq<u8> {
        self.line.consumed()
    }

    pub fn new(line: S) -> (d: Decoder<S>)
        ensures
            d.remaining() == line.remaining(),
            d.consumed() == line.consumed(),
    {
        Decoder { sreg: None, rep: None, size: 0, lock: false, line }
    }

    /// Gives the byte source back.
    pub fn into_source(self) -> (r: S)
        ensures
            r.remaining() == self.remaining(),
            r.consumed() == self.consumed(),
    {
        self.line
    }

    /// `new` is `self` after `n` more bytes were taken.
    spec fn took(&self, new: &Self, n: nat) -> bool {
        &&& n <= self.line.remaining().len()
        &&& new.line.remaining() == self.line.remaining().skip(n as int)
        &&& new.line.consumed() == self.line.consumed() + self.line.remaining().take(n as int)
        &&& new.size == self.size + n
    }

    /// `r` is what `res` describes, and `new` took the bytes that `res` counts (all of them when
    /// the source ran out); the prefixes are left as they were.
    spec fn yields(&self, new: &Self, res: Option<(Op, nat)>, r: Option<Op>) -> bool {
        &&& new.lock == self.lock
        &&& new.rep == self.rep
        &&& new.sreg == self.sreg
        &&& match res {
            None => r is None && self.took(new, self.line.remaining().len()),
            Some((op, n)) => r == Some(op) && self.took(new, n),
        }
    }

    fn nextb(&mut self) -> (r: Option<u8>)
        requires
            old(self).size < 16,
        ensures
            r == byte_at(old(self).line.remaining(), 0),
            old(self).took(final(self), if r is Some { 1nat } else { 0nat }),
            r is None ==> old(self).line.remaining().len() == 0,
            final(self).lock == old(self).lock,
            final(self).rep == old(self).rep,
            final(self).sreg == old(self).sreg,
    {
        proof {
            lemma_advance(self.line.remaining(), self.line.consumed(), 0, 0);
        }
        let n = self.line.next_byte();
        if n.is_some() {
            self.size = self.size + 1;
            proof {
                let r = old(self).line.remaining();
                let c = old(self).line.consumed();
                lemma_advance(r, c, 0, 1);
                assert(r.drop_first() =~= r.skip(1));
                assert(c.push(r[0]) =~= c + r.take(1));
            }
        }
        n
    }

    fn nextw(&mut self) -> (r: Option<u16>)
        requires
            old(self).size < 15,
        ensures
            r == word_at(old(self).line.remaining(), 0),
            r is Some ==> old(self).took(final(self), 2),
            r is None ==> old(self).took(final(self), old(self).line.remaining().len()),
            final(self).lock == old(self).lock,
            final(self).rep == old(self).rep,
            final(self).sreg == old(self).sreg,
    {
        let ghost r0 = self.line.remaining();
        let ghost c0 = self.line.consumed();
        match self.nextb() {
            None => None,
            Some(b1) => {
                match self.nextb() {
                    None => {
                        proof {
                            lemma_advance(r0, c0, 1, 0);
                        }
                        None
                    },
                    Some(b2) => {
                        proof {
                            lemma_advance(r0, c0, 1, 1);
                        }
                        Some((b2 as u16) * 256 + b1 as u16)
                    },
                }
            },
        }
    }

    fn dyadic_modrm(&mut self, k: Dyadic, b0: u8, wide: bool, swap: bool) -> (r: Option<Op>)
        requires
            old(self).size <= 4,
        ensures
            old(self).yields(final(self), modrm_op(k, b0, old(self).line.remaining(), wide, swap), r),
    {
        match self.nextb() {
            None => None,
            Some(b1) => {
                let m = if wide {
                    modrm16(b0, b1)
                } else {
                    modrm8(b0, b1)
                };
                match m {
                    Err(e) => Some(Op::Invalid(e)),
                    Ok((a0, a1)) => Some(
                        if swap {
                            make_dyadic(k, a1, a0)
                        } else {
                            make_dyadic(k, a0, a1)
                        },
                    ),
                }
            },
        }
    }

    /// Opcodes 0x00..0x3f that are not prefixes.
    fn next_low(&mut self, b0: u8) -> (r: Option<Op>)
        requires
            b0 < 0x40,
            old(self).size <= 4,
        ensures
            old(self).yields(final(self), op_spec(b0, old(self).line.remaining()), r),
    {
        reveal(op_spec);
        proof {
            lemma_advance(self.line.remaining(), self.line.consumed(), 0, 0);
        }
        let f = b0 % 8;
        if f >= 6 {
            let op = match b0 {
                0x06 => Op::Push(Arg::Sreg(Sreg::ES)),
                0x07 => Op::Pop(Arg::Sreg(Sreg::ES)),
                0x0e => Op::Push(Arg::Sreg(Sreg::CS)),
                0x16 => Op::Push(Arg::Sreg(Sreg::SS)),
                0x17 => Op::Pop(Arg::Sreg(Sreg::SS)),
                0x1e => Op::Push(Arg::Sreg(Sreg::DS)),
                0x1f => Op::Pop(Arg::Sreg(Sreg::DS)),
                0x27 => Op::Daa,
                0x2f => Op::Das,
                0x37 => Op::Aaa,
                0x3f => Op::Aas,
                _ => Op::Invalid(Invalid::UnexpectedByte(b0)),
            };
            return Some(op);
        }
        let k = alu_kind_of(b0 / 8);
        if f == 0 {
            self.dyadic_modrm(k, b0, false, false)
        } else if f == 1 {
            self.dyadic_modrm(k, b0, true, false)
        } else if f == 2 {
            self.dyadic_modrm(k, b0, false, true)
        } else if f == 3 {
            self.dyadic_modrm(k, b0, true, true)
        } else if f == 4 {
            match self.nextb() {
                None => None,
                Some(b1) => Some(make_dyadic(k, Arg::Reg8(Reg8::AL), Arg::Uimm8(b1))),
            }
        } else {
            match self.nextw() {
                None => None,
                Some(w) => Some(make_dyadic(k, Arg::Reg16(Reg16::AX), Arg::Uimm16(w))),
            }
        }
    }

    /// Increment and decrement of a 16-bit register.
    fn next_4(&mut self, b0: u8) -> (r: Option<Op>)
        requires
            0x40 <= b0 < 0x50,
            old(self).size <= 4,
        ensures
            old(self).yields(final(self), op_spec(b0, old(self).line.remaining()), r),
    {
        reveal(op_spec);
        proof {
            lemma_advance(self.line.remaining(), self.line.consumed(), 0, 0);
        }
        let reg = Arg::Reg16(Reg16::from_index(b0 % 8));
        if b0 < 0x48 {
            Some(Op::Inc(reg))
        } else {
            Some(Op::Dec(reg))
        }
    }

    /// Push and pop of a 16-bit register.
    fn next_5(&mut self, b0: u8) -> (r: Option<Op>)
        requires
            0x50 <= b0 < 0x60,
            old(self).size <= 4,
        ensures
            old(self).yields(final(self), op_spec(b0, old(self).line.remaining()), r),
    {
        reveal(op_spec);
        proof {
            lemma_advance(self.line.remaining(), self.line.consumed(), 0, 0);
        }
        let reg = Arg::Reg16(Reg16::from_index(b0 % 8));
        if b0 < 0x58 {
            Some(Op::Push(reg))
        } else {
            Some(Op::Pop(reg))
        }
    }

    /// Conditional short branches.
    fn next_7(&mut self, b0: u8) -> (r: Option<Op>)
        requires
            0x70 <= b0 < 0x80,
            old(self).size <= 4,
        ensures
            old(self).yields(final(self), op_spec(b0, old(self).line.remaining()), r),
    {
        reveal(op_spec);
        match self.nextb() {
            None => None,
            Some(b1) => Some(Op::Jcc(Cc::from_nibble(b0 % 16), b1 as i8)),
        }
    }

    /// Immediate groups, test, exchange, moves, lea and pop (0x80..0x8f).
    fn next_8(&mut self, b0: u8) -> (r: Option<Op>)
        requires
            0x80 <= b0 < 0x90,
            old(self).size <= 4,
        ensures
            old(self).yields(final(self), op_spec(b0, old(self).line.remaining()), r),
    {
        reveal(op_spec);
        let ghost r0 = self.line.remaining();
        let ghost c0 = self.line.consumed();
        proof {
            lemma_advance(r0, c0, 0, 0);
        }
        match b0 {
            0x84 => return self.dyadic_modrm(Dyadic::Test, b0, false, false),
            0x85 => return self.dyadic_modrm(Dyadic::Test, b0, true, false),
            0x86 => return self.dyadic_modrm(Dyadic::Xchg, b0, false, false),
            0x87 => return self.dyadic_modrm(Dyadic::Xchg, b0, true, false),
            0x88 => return self.dyadic_modrm(Dyadic::Mov, b0, false, false),
            0x89 => return self.dyadic_modrm(Dyadic::Mov, b0, true, false),
            0x8a => return self.dyadic_modrm(Dyadic::Mov, b0, false, true),
            0x8b => return self.dyadic_modrm(Dyadic::Mov, b0, true, true),
            0x8c => return Some(Op::Invalid(Invalid::UnexpectedByte(b0))),
            0x8d => return self.dyadic_modrm(Dyadic::Lea, b0, true, false),
            _ => {},
        }
        let b1 = match self.nextb() {
            None => return None,
            Some(b1) => b1,
        };
        let m = if b0 == 0x81 || b0 == 0x83 || b0 >= 0x8e {
            modrm16(b0, b1)
        } else {
            modrm8(b0, b1)
        };
        let (a0, a1) = match m {
            Err(e) => return Some(Op::Invalid(e)),
            Ok(p) => p,
        };
        let r = (b1 / 8) % 8;
        if b0 <= 0x83 {
            let k = alu_kind_of(r);
            if b0 == 0x81 {
                match self.nextw() {
                    None => {
                        proof {
                            lemma_advance(r0, c0, 1, r0.len() - 1);
                        }
                        None
                    },
                    Some(w) => {
                        proof {
                            lemma_advance(r0, c0, 1, 2);
                        }
                        Some(make_dyadic(k, a0, Arg::Uimm16(w)))
                    },
                }
            } else {
                match self.nextb() {
                    None => {
                        proof {
                            lemma_advance(r0, c0, 1, 0);
                        }
                        None
                    },
                    Some(b) => {
                        proof {
                            lemma_advance(r0, c0, 1, 1);
                        }
                        Some(make_dyadic(k, a0, if b0 == 0x83 { Arg::Imm8(b as i8) } else { Arg::Uimm8(b) }))
                    },
                }
            }
        } else if b0 == 0x8e {
            if r >= 4 {
                Some(Op::Invalid(Invalid::UnexpectedBytes(b0, b1)))
            } else {
                Some(Op::Mov(Arg::Sreg(Sreg::from_index(r)), a0))
            }
        } else if r == 0 {
            Some(Op::Pop(a0))
        } else {
            Some(Op::Invalid(Invalid::UnexpectedBytes(b0, b1)))
        }
    }

    /// Moves of an immediate into a register (0xb0..0xbf).
    fn next_b(&mut self, b0: u8) -> (r: Option<Op>)
        requires
            0xb0 <= b0 < 0xc0,
            old(self).size <= 4,
        ensures
            old(self).yields(final(self), op_spec(b0, old(self).line.remaining()), r),
    {
        reveal(op_spec);
        if b0 < 0xb8 {
            match self.nextb() {
                None => None,
                Some(b1) => Some(Op::Mov(Arg::Reg8(Reg8::from_index(b0 % 8)), Arg::Uimm8(b1))),
            }
        } else {
            match self.nextw() {
                None => None,
                Some(w) => Some(Op::Mov(Arg::Reg16(Reg16::from_index(b0 % 8)), Arg::Uimm16(w))),
            }
        }
    }

    /// BCD adjustments with an operand byte (0xd4, 0xd5) and port moves (0xe4, 0xe6).
    fn next_operand_byte(&mut self, b0: u8) -> (r: Option<Op>)
        requires
            b0 == 0xd4 || b0 == 0xd5 || b0 == 0xe4 || b0 == 0xe6,
            old(self).size <= 4,
        ensures
            old(self).yields(final(self), op_spec(b0, old(self).line.remaining()), r),
    {
        reveal(op_spec);
        match self.nextb() {
            None => None,
            Some(b1) => Some(
                if b0 == 0xd4 {
                    Op::Aam(b1)
                } else if b0 == 0xd5 {
                    Op::Aad(b1)
                } else if b0 == 0xe4 {
                    Op::In(Arg::Reg8(Reg8::AL), Arg::Uimm8(b1))
                } else {
                    Op::Out(Arg::Uimm8(b1), Arg::Reg8(Reg8::AL))
                },
            ),
        }
    }

    /// The far jump (0xea): an offset word, then a segment word.
    fn next_far_jump(&mut self, b0: u8) -> (r: Option<Op>)
        requires
            b0 == 0xea,
            old(self).size <= 4,
        ensures
            old(self).yields(final(self), op_spec(b0, old(self).line.remaining()), r),
    {
        reveal(op_spec);
        let ghost r0 = self.line.remaining();
        let ghost c0 = self.line.consumed();
        match self.nextw() {
            None => None,
            Some(w1) => match self.nextw() {
                None => {
                    proof {
                        lemma_advance(r0, c0, 2, r0.len() - 2);
                    }
                    None
                },
                Some(w2) => {
                    proof {
                        lemma_advance(r0, c0, 2, 2);
                    }
                    Some(Op::JmpFar(Arg::Uimm16(w2), Arg::Uimm16(w1)))
                },
            },
        }
    }

    /// The operations that take no byte after the opcode and are not prefixes: 0x60..0x6f,
    /// 0x90..0xaf, 0xc0..0xff but for the opcodes handled above.
    fn next_single(&mut self, b0: u8) -> (r: Option<Op>)
        requires
            (0x60 <= b0 < 0x70) || (0x90 <= b0 < 0xb0) || 0xc0 <= b0,
            b0 != 0xd4 && b0 != 0xd5 && b0 != 0xe4 && b0 != 0xe6 && b0 != 0xea,
            !is_prefix(b0),
            old(self).size <= 4,
        ensures
            old(self).yields(final(self), op_spec(b0, old(self).line.remaining()), r),
    {
        reveal(op_spec);
        proof {
            lemma_advance(self.line.remaining(), self.line.consumed(), 0, 0);
        }
        let op = match b0 {
            0x90 => Op::Nop,
            0xc3 => Op::Ret,
            0xf4 => Op::Hlt,
            0xf5 => Op::Cmc,
            0xf8 => Op::Clc,
            0xf9 => Op::Stc,
            0xfa => Op::Cli,
            0xfb => Op::Sti,
            0xfc => Op::Cld,
            0xfd => Op::Std,
            _ => Op::Invalid(Invalid::UnexpectedByte(b0)),
        };
        Some(op)
    }

    /// The operation of the non-prefix opcode `b0`.
    fn next_op(&mut self, b0: u8) -> (r: Option<Op>)
        requires
            !is_prefix(b0),
            old(self).size <= 4,
        ensures
            old(self).yields(final(self), op_spec(b0, old(self).line.remaining()), r),
    {
        if b0 < 0x40 {
            self.next_low(b0)
        } else if b0 < 0x50 {
            self.next_4(b0)
        } else if b0 < 0x60 {
            self.next_5(b0)
        } else if 0x70 <= b0 && b0 < 0x80 {
            self.next_7(b0)
        } else if 0x80 <= b0 && b0 < 0x90 {
            self.next_8(b0)
        } else if 0xb0 <= b0 && b0 < 0xc0 {
            self.next_b(b0)
        } else if b0 == 0xd4 || b0 == 0xd5 || b0 == 0xe4 || b0 == 0xe6 {
            self.next_operand_byte(b0)
        } else if b0 == 0xea {
            self.next_far_jump(b0)
        } else {
            self.next_single(b0)
        }
    }

    /// Takes prefixes, then one operation.
    fn next_o(&mut self) -> (r: Option<Op>)
        requires
            old(self).size == 0,
            !old(self).lock,
            old(self).rep is None,
            old(self).sreg is None,
        ensures
            match decode(old(self).line.remaining()) {
                None => r is None && old(self).took(final(self), old(self).line.remaining().len()),
                Some(inst) => {
                    &&& r == Some(inst.op)
                    &&& 1 <= final(self).size <= 8
                    &&& inst.size == final(self).size as u8
                    &&& inst.lock == final(self).lock
                    &&& inst.rep == final(self).rep
                    &&& inst.seg == final(self).sreg
                    &&& old(self).took(final(self), final(self).size as nat)
                },
            },
    {
        let ghost s = self.line.remaining();
        let ghost c = self.line.consumed();
        proof {
            lemma_advance(s, c, 0, 0);
        }
        loop
            invariant
                old(self).line.remaining() == s,
                old(self).line.consumed() == c,
                old(self).size == 0,
                self.size == (if self.lock { 1int } else { 0 }) + (if self.rep is Some { 1int } else { 0 })
                    + (if self.sreg is Some { 1int } else { 0 }),
                self.size <= s.len(),
                self.line.remaining() == s.skip(self.size as int),
                self.line.consumed() == c + s.take(self.size as int),
                decode(s) == decode_from(self.lock, self.rep, self.sreg, s, self.size as nat),
            decreases s.len() - self.size,
        {
            let ghost pos = self.size as int;
            let b0 = match self.nextb() {
                None => {
                    proof {
                        lemma_advance(s, c, pos, 0);
                    }
                    return None;
                },
                Some(b) => b,
            };
            proof {
                lemma_advance(s, c, pos, 1);
            }
            if b0 == 0xf0 {
                if self.lock {
                    return Some(Op::Invalid(Invalid::TooManyPrefix));
                }
                self.lock = true;
            } else if b0 == 0xf2 || b0 == 0xf3 {
                if self.rep.is_some() {
                    return Some(Op::Invalid(Invalid::TooManyPrefix));
                }
                self.rep = Some(if b0 == 0xf2 { Rep::Repne } else { Rep::Rep });
            } else if b0 == 0x26 || b0 == 0x2e || b0 == 0x36 || b0 == 0x3e {
                if self.sreg.is_some() {
                    return Some(Op::Invalid(Invalid::TooManyPrefix));
                }
                self.sreg = Some(Sreg::from_index((b0 / 8) % 4));
            } else {
                let ghost mid = *self;
                let r = self.next_op(b0);
                proof {
                    lemma_op_len(b0, mid.line.remaining());
                    if let Some((_, n)) = op_spec(b0, mid.line.remaining()) {
                        lemma_advance(s, c, pos + 1, n as int);
                    } else {
                        lemma_advance(s, c, pos + 1, s.len() - pos - 1);
                    }
                }
                return r;
            }
        }
    }

    /// Decodes the next instruction. Prefixes are reset first; `None` means that the source ran
    /// out before an instruction was complete.
    pub fn next_i(&mut self) -> (r: Option<Inst>)
        ensures
            r == decode(old(self).remaining()),
            r is None ==> {
                &&& final(self).remaining().len() == 0
                &&& final(self).consumed() == old(self).consumed() + old(self).remaining()
            },
            r matches Some(i) ==> {
                &&& 1 <= i.size <= 8
                &&& i.size <= old(self).remaining().len()
                &&& final(self).remaining() == old(self).remaining().skip(i.size as int)
                &&& final(self).consumed() == old(self).consumed() + old(self).remaining().take(i.size as int)
            },
    {
        self.sreg = None;
        self.rep = None;
        self.size = 0;
        self.lock = false;
        let ghost s = self.line.remaining();
        let ghost c = self.line.consumed();
        proof {
            assert(s.take(s.len() as int) =~= s);
        }
        match self.next_o() {
            None => None,
            Some(op) => Some(
                Inst { lock: self.lock, rep: self.rep, seg: self.sreg, op, size: self.size as u8 },
            ),
        }
    }
}

} // verus!
