//! Text of decoded instructions, for disassembly listings and traces.
use vstd::prelude::*;
use vstd::string::StringExecFns;

use crate::op::{Arg, Cc, Inst, Mem, Op, Reg16, Reg8, Rep, Sreg};
use crate::MemAddrT;

verus! {

/// The text of one digit (below 16); letters upper- or lower-case.
pub open spec fn digit_text(d: nat, upper: bool) -> Seq<char> {
    if d == 0 { "0"@ }
    else if d == 1 { "1"@ }
    else if d == 2 { "2"@ }
    else if d == 3 { "3"@ }
    else if d == 4 { "4"@ }
    else if d == 5 { "5"@ }
    else if d == 6 { "6"@ }
    else if d == 7 { "7"@ }
    else if d == 8 { "8"@ }
    else if d == 9 { "9"@ }
    else if d == 10 { if upper { "A"@ } else { "a"@ } }
    else if d == 11 { if upper { "B"@ } else { "b"@ } }
    else if d == 12 { if upper { "C"@ } else { "c"@ } }
    else if d == 13 { if upper { "D"@ } else { "d"@ } }
    else if d == 14 { if upper { "E"@ } else { "e"@ } }
    else { if upper { "F"@ } else { "f"@ } }
}

/// The last `w` digits of `v` in base `base`, most significant first.
pub open spec fn digits(v: nat, w: nat, base: nat, upper: bool) -> Seq<char>
    decreases w,
{
    if w == 0 || base == 0 {
        Seq::empty()
    } else {
        digits(v / base, (w - 1) as nat, base, upper) + digit_text(v % base, upper)
    }
}

/// How many digits `v` has in base `base` (at least one).
pub open spec fn ndigits(v: nat, base: nat) -> nat
    decreases v,
    via ndigits_decreases
{
    if base < 2 || v < base {
        1
    } else {
        1 + ndigits(v / base, base)
    }
}

#[via_fn]
proof fn ndigits_decreases(v: nat, base: nat) {
    if !(base < 2 || v < base) {
        assert(v / base < v) by (nonlinear_arith)
            requires
                base >= 2,
                v >= base,
        ;
    }
}

/// `v` in base `base`, padded with zeros to at least `w` digits.
pub open spec fn padded(v: nat, w: nat, base: nat, upper: bool) -> Seq<char> {
    digits(v, if ndigits(v, base) > w { ndigits(v, base) } else { w }, base, upper)
}

/// `v` in decimal, with a minus sign when negative.
pub open spec fn signed_text(v: int) -> Seq<char> {
    if v < 0 {
        "-"@ + padded((-v) as nat, 1, 10, false)
    } else {
        padded(v as nat, 1, 10, false)
    }
}

pub open spec fn reg8_name(r: Reg8) -> Seq<char> {
    match r {
        Reg8::AL => "al"@,
        Reg8::CL => "cl"@,
        Reg8::DL => "dl"@,
        Reg8::BL => "bl"@,
        Reg8::AH => "ah"@,
        Reg8::CH => "ch"@,
        Reg8::DH => "dh"@,
        Reg8::BH => "bh"@,
    }
}

pub open spec fn reg16_name(r: Reg16) -> Seq<char> {
    match r {
        Reg16::AX => "ax"@,
        Reg16::CX => "cx"@,
        Reg16::DX => "dx"@,
        Reg16::BX => "bx"@,
        Reg16::SP => "sp"@,
        Reg16::BP => "bp"@,
        Reg16::SI => "si"@,
        Reg16::DI => "di"@,
    }
}

/// The debugging form of a 16-bit register name.
pub open spec fn reg16_debug(r: Reg16) -> Seq<char> {
    match r {
        Reg16::AX => "AX"@,
        Reg16::CX => "CX"@,
        Reg16::DX => "DX"@,
        Reg16::BX => "BX"@,
        Reg16::SP => "SP"@,
        Reg16::BP => "BP"@,
        Reg16::SI => "SI"@,
        Reg16::DI => "DI"@,
    }
}

pub open spec fn sreg_debug(s: Sreg) -> Seq<char> {
    match s {
        Sreg::ES => "ES"@,
        Sreg::CS => "CS"@,
        Sreg::SS => "SS"@,
        Sreg::DS => "DS"@,
    }
}

/// The debugging form of a memory reference, as in `RegOff(BX, -2)`.
pub open spec fn mem_debug(m: Mem) -> Seq<char> {
    match m {
        Mem::Reg(r) => "Reg("@ + reg16_debug(r) + ")"@,
        Mem::RegOff(r, d) => "RegOff("@ + reg16_debug(r) + ", "@ + signed_text(d as int) + ")"@,
        Mem::RegOff16(r, d) => "RegOff16("@ + reg16_debug(r) + ", "@ + signed_text(d as int) + ")"@,
        Mem::RegOff32(r, d) => "RegOff32("@ + reg16_debug(r) + ", "@ + signed_text(d as int) + ")"@,
    }
}

/// An operand as a listing shows it: a register name, or an immediate as `0x` and its
/// upper-case hex bits (two digits for a byte, four for a word).
pub open spec fn arg_text(a: Arg) -> Seq<char> {
    match a {
        Arg::Reg8(r) => reg8_name(r),
        Arg::Reg16(r) => reg16_name(r),
        Arg::Imm8(i) => "0x"@ + digits((i as u8) as nat, 2, 16, true),
        Arg::Uimm8(u) => "0x"@ + digits(u as nat, 2, 16, true),
        Arg::Imm16(i) => "0x"@ + digits((i as u16) as nat, 4, 16, true),
        Arg::Uimm16(u) => "0x"@ + digits(u as nat, 4, 16, true),
        Arg::Sreg(s) => "??? Sreg("@ + sreg_debug(s) + ")"@,
        Arg::Mem(m) => "??? Mem("@ + mem_debug(m) + ")"@,
    }
}

pub open spec fn cc_name(cc: Cc) -> Seq<char> {
    match cc {
        Cc::O => "o"@,
        Cc::NO => "no"@,
        Cc::B => "b"@,
        Cc::NB => "nb"@,
        Cc::E => "e"@,
        Cc::NE => "ne"@,
        Cc::BE => "be"@,
        Cc::NBE => "nbe"@,
        Cc::S => "s"@,
        Cc::NS => "ns"@,
        Cc::P => "p"@,
        Cc::NP => "np"@,
        Cc::L => "l"@,
        Cc::NL => "nl"@,
        Cc::LE => "le"@,
        Cc::NLE => "nle"@,
    }
}

/// The target of a short branch at `pc`: the address after the instruction plus the
/// displacement, as a 32-bit two's-complement value.
pub open spec fn branch_target(pc: MemAddrT, size: u8, d: i8) -> nat {
    let t = pc + size + d;
    if t < 0 {
        (t + 0x1_0000_0000) as nat
    } else if t >= 0x1_0000_0000 {
        (t - 0x1_0000_0000) as nat
    } else {
        t as nat
    }
}

/// A BCD operand byte, shown only when it is not the default base ten.
pub open spec fn base_text(b: u8) -> Seq<char> {
    if b != 10 {
        "0x"@ + digits(b as nat, 2, 16, false)
    } else {
        Seq::empty()
    }
}

pub open spec fn dyadic_text(name: Seq<char>, a1: Arg, a2: Arg) -> Seq<char> {
    name + arg_text(a1) + ", "@ + arg_text(a2)
}

/// The mnemonic and operands of an operation at `pc`.
pub open spec fn op_text(pc: MemAddrT, inst: Inst) -> Seq<char> {
    match inst.op {
        Op::Nop => "nop"@,
        Op::Add(a1, a2) => dyadic_text("add "@, a1, a2),
        Op::Adc(a1, a2) => dyadic_text("adc "@, a1, a2),
        Op::Sbb(a1, a2) => dyadic_text("sbb "@, a1, a2),
        Op::Sub(a1, a2) => dyadic_text("sub "@, a1, a2),
        Op::And(a1, a2) => dyadic_text("and "@, a1, a2),
        Op::Or(a1, a2) => dyadic_text("or "@, a1, a2),
        Op::Xor(a1, a2) => dyadic_text("xor "@, a1, a2),
        Op::Cmp(a1, a2) => dyadic_text("cmp "@, a1, a2),
        Op::Test(a1, a2) => dyadic_text("test "@, a1, a2),
        Op::Xchg(a1, a2) => dyadic_text("xchg "@, a1, a2),
        Op::Mov(a1, a2) => dyadic_text("mov "@, a1, a2),
        Op::In(a1, a2) => dyadic_text("in "@, a1, a2),
        Op::Out(a1, a2) => dyadic_text("out "@, a1, a2),
        Op::Push(a) => "push "@ + arg_text(a),
        Op::Pop(a) => "pop "@ + arg_text(a),
        Op::Call(a) => "call "@ + arg_text(a),
        Op::Ret => "ret"@,
        Op::Aaa => "aaa"@,
        Op::Aad(b) => "aad "@ + base_text(b),
        Op::Aam(b) => "aam "@ + base_text(b),
        Op::Aas => "aas"@,
        Op::Daa => "daa"@,
        Op::Das => "das"@,
        Op::Inc(_) => "inc"@,
        Op::Dec(_) => "dec"@,
        Op::Jcc(cc, d) => "j"@ + cc_name(cc) + " "@ + "0x"@ + padded(branch_target(pc, inst.size, d), 4, 16, false),
        Op::JmpFar(a1, a2) => "jmp far "@ + arg_text(a1) + ":"@ + arg_text(a2),
        Op::Lea(_, _) => "lea"@,
        Op::Cbw => "cbw"@,
        Op::Cwd => "cwd"@,
        Op::Hlt => "hlt"@,
        Op::Cmc => "cmc"@,
        Op::Clc => "clc"@,
        Op::Stc => "stc"@,
        Op::Cli => "cli"@,
        Op::Sti => "sti"@,
        Op::Cld => "cld"@,
        Op::Std => "std"@,
        Op::Error => "error"@,
        Op::Invalid(_) => "invalid"@,
    }
}

/// The prefixes that a listing shows: lock, then the repeat kind.
pub open spec fn prefix_text(inst: Inst) -> Seq<char> {
    (if inst.lock { "lock "@ } else { Seq::empty() }) + match inst.rep {
        Some(Rep::Rep) => "rep "@,
        Some(Rep::Repne) => "repne "@,
        None => Seq::empty(),
    }
}

/// A listing line for `inst` at `pc`.
pub open spec fn inst_text(pc: MemAddrT, inst: Inst) -> Seq<char> {
    prefix_text(inst) + op_text(pc, inst)
}

fn digit_str(d: u64, upper: bool) -> (r: &'static str)
    requires
        d < 16,
    ensures
        r@ == digit_text(d as nat, upper),
{
    match d {
        0 => "0",
        1 => "1",
        2 => "2",
        3 => "3",
        4 => "4",
        5 => "5",
        6 => "6",
        7 => "7",
        8 => "8",
        9 => "9",
        10 => if upper { "A" } else { "a" },
        11 => if upper { "B" } else { "b" },
        12 => if upper { "C" } else { "c" },
        13 => if upper { "D" } else { "d" },
        14 => if upper { "E" } else { "e" },
        _ => if upper { "F" } else { "f" },
    }
}

/// Appends the last `w` digits of `v` in base `base`.
pub(crate) fn push_digits(s: &mut String, v: u64, w: u64, base: u64, upper: bool)
    requires
        base == 10 || base == 16,
    ensures
        final(s)@ == old(s)@ + digits(v as nat, w as nat, base as nat, upper),
    decreases w,
{
    if w > 0 {
        push_digits(s, v / base, w - 1, base, upper);
        let ghost mid = s@;
        s.append(digit_str(v % base, upper));
        proof {
            let d = digits((v / base) as nat, (w - 1) as nat, base as nat, upper);
            assert(mid == old(s)@ + d);
            assert(s@ =~= old(s)@ + (d + digit_text((v % base) as nat, upper)));
        }
    }
}

fn count_digits(v: u64, base: u64) -> (r: u64)
    requires
        base == 10 || base == 16,
    ensures
        r == ndigits(v as nat, base as nat),
        r <= v + 1,
    decreases v,
{
    if v < base {
        1
    } else {
        let r = count_digits(v / base, base);
        assert(v / base + 2 <= v + 1) by (nonlinear_arith)
            requires
                base >= 10,
                v >= base,
        ;
        1 + r
    }
}

/// `v` in base `base`, zero-padded to at least `w` digits.
pub(crate) fn padded_string(v: u64, w: u64, base: u64, upper: bool) -> (r: String)
    requires
        base == 10 || base == 16,
    ensures
        r@ == padded(v as nat, w as nat, base as nat, upper),
{
    let n = count_digits(v, base);
    let width = if n > w {
        n
    } else {
        w
    };
    let mut s = String::new();
    push_digits(&mut s, v, width, base, upper);
    assert(s@ =~= padded(v as nat, w as nat, base as nat, upper));
    s
}

fn signed_string(v: i32) -> (r: String)
    ensures
        r@ == signed_text(v as int),
{
    if v < 0 {
        let m = (-(v as i64)) as u64;
        let mut s = "-".to_owned();
        let t = padded_string(m, 1, 10, false);
        s.append(t.as_str());
        s
    } else {
        padded_string(v as u64, 1, 10, false)
    }
}

fn reg8_str(r: Reg8) -> (s: &'static str)
    ensures
        s@ == reg8_name(r),
{
    match r {
        Reg8::AL => "al",
        Reg8::CL => "cl",
        Reg8::DL => "dl",
        Reg8::BL => "bl",
        Reg8::AH => "ah",
        Reg8::CH => "ch",
        Reg8::DH => "dh",
        Reg8::BH => "bh",
    }
}

fn reg16_str(r: Reg16) -> (s: &'static str)
    ensures
        s@ == reg16_name(r),
{
    match r {
        Reg16::AX => "ax",
        Reg16::CX => "cx",
        Reg16::DX => "dx",
        Reg16::BX => "bx",
        Reg16::SP => "sp",
        Reg16::BP => "bp",
        Reg16::SI => "si",
        Reg16::DI => "di",
    }
}

fn reg16_debug_str(r: Reg16) -> (s: &'static str)
    ensures
        s@ == reg16_debug(r),
{
    match r {
        Reg16::AX => "AX",
        Reg16::CX => "CX",
        Reg16::DX => "DX",
        Reg16::BX => "BX",
        Reg16::SP => "SP",
        Reg16::BP => "BP",
        Reg16::SI => "SI",
        Reg16::DI => "DI",
    }
}

fn sreg_debug_str(r: Sreg) -> (s: &'static str)
    ensures
        s@ == sreg_debug(r),
{
    match r {
        Sreg::ES => "ES",
        Sreg::CS => "CS",
        Sreg::SS => "SS",
        Sreg::DS => "DS",
    }
}

fn cc_str(cc: Cc) -> (s: &'static str)
    ensures
        s@ == cc_name(cc),
{
    match cc {
        Cc::O => "o",
        Cc::NO => "no",
        Cc::B => "b",
        Cc::NB => "nb",
        Cc::E => "e",
        Cc::NE => "ne",
        Cc::BE => "be",
        Cc::NBE => "nbe",
        Cc::S => "s",
        Cc::NS => "ns",
        Cc::P => "p",
        Cc::NP => "np",
        Cc::L => "l",
        Cc::NL => "nl",
        Cc::LE => "le",
        Cc::NLE => "nle",
    }
}

fn mem_string(m: Mem) -> (r: String)
    ensures
        r@ == mem_debug(m),
{
    let (name, reg, disp): (&str, Reg16, Option<i32>) = match m {
        Mem::Reg(r) => ("Reg(", r, None),
        Mem::RegOff(r, d) => ("RegOff(", r, Some(d as i32)),
        Mem::RegOff16(r, d) => ("RegOff16(", r, Some(d as i32)),
        Mem::RegOff32(r, d) => ("RegOff32(", r, Some(d)),
    };
    let mut s = name.to_owned();
    s.append(reg16_debug_str(reg));
    if let Some(d) = disp {
        s.append(", ");
        let t = signed_string(d);
        s.append(t.as_str());
    }
    s.append(")");
    s
}

/// The text of an operand.
pub fn arg_to_string(a: &Arg) -> (r: String)
    ensures
        r@ == arg_text(*a),
{
    match a {
        Arg::Reg8(r) => reg8_str(*r).to_owned(),
        Arg::Reg16(r) => reg16_str(*r).to_owned(),
        Arg::Imm8(_) | Arg::Uimm8(_) | Arg::Imm16(_) | Arg::Uimm16(_) => {
            let (v, w): (u64, u64) = match a {
                Arg::Imm8(i) => ((*i as u8) as u64, 2),
                Arg::Uimm8(u) => (*u as u64, 2),
                Arg::Imm16(i) => ((*i as u16) as u64, 4),
                Arg::Uimm16(u) => (*u as u64, 4),
                _ => (0, 0),
            };
            let mut s = "0x".to_owned();
            push_digits(&mut s, v, w, 16, true);
            s
        },
        Arg::Sreg(r) => {
            let mut s = "??? Sreg(".to_owned();
            s.append(sreg_debug_str(*r));
            s.append(")");
            s
        },
        Arg::Mem(m) => {
            let mut s = "??? Mem(".to_owned();
            let t = mem_string(*m);
            s.append(t.as_str());
            s.append(")");
            s
        },
    }
}

fn dyadic_string(name: &str, a1: &Arg, a2: &Arg) -> (r: String)
    ensures
        r@ == dyadic_text(name@, *a1, *a2),
{
    let mut s = name.to_owned();
    let t1 = arg_to_string(a1);
    s.append(t1.as_str());
    s.append(", ");
    let t2 = arg_to_string(a2);
    s.append(t2.as_str());
    s
}

fn unary_string(name: &str, a: &Arg) -> (r: String)
    ensures
        r@ == name@ + arg_text(*a),
{
    let mut s = name.to_owned();
    let t = arg_to_string(a);
    s.append(t.as_str());
    s
}

fn base_string(b: u8) -> (r: String)
    ensures
        r@ == base_text(b),
{
    if b != 10 {
        let mut s = "0x".to_owned();
        push_digits(&mut s, b as u64, 2, 16, false);
        s
    } else {
        String::new()
    }
}

fn branch_target_exec(pc: MemAddrT, size: u8, d: i8) -> (r: u32)
    ensures
        r as nat == branch_target(pc, size, d),
{
    let t: i64 = pc as i64 + size as i64 + d as i64;
    if t < 0 {
        (t + 0x1_0000_0000) as u32
    } else if t >= 0x1_0000_0000 {
        (t - 0x1_0000_0000) as u32
    } else {
        t as u32
    }
}

fn op_to_string(pc: MemAddrT, inst: &Inst) -> (r: String)
    ensures
        r@ == op_text(pc, *inst),
{
    match &inst.op {
        Op::Nop => "nop".to_owned(),
        Op::Add(a1, a2) => dyadic_string("add ", a1, a2),
        Op::Adc(a1, a2) => dyadic_string("adc ", a1, a2),
        Op::Sbb(a1, a2) => dyadic_string("sbb ", a1, a2),
        Op::Sub(a1, a2) => dyadic_string("sub ", a1, a2),
        Op::And(a1, a2) => dyadic_string("and ", a1, a2),
        Op::Or(a1, a2) => dyadic_string("or ", a1, a2),
        Op::Xor(a1, a2) => dyadic_string("xor ", a1, a2),
        Op::Cmp(a1, a2) => dyadic_string("cmp ", a1, a2),
        Op::Test(a1, a2) => dyadic_string("test ", a1, a2),
        Op::Xchg(a1, a2) => dyadic_string("xchg ", a1, a2),
        Op::Mov(a1, a2) => dyadic_string("mov ", a1, a2),
        Op::In(a1, a2) => dyadic_string("in ", a1, a2),
        Op::Out(a1, a2) => dyadic_string("out ", a1, a2),
        Op::Push(a) => unary_string("push ", a),
        Op::Pop(a) => unary_string("pop ", a),
        Op::Call(a) => unary_string("call ", a),
        Op::Ret => "ret".to_owned(),
        Op::Aaa => "aaa".to_owned(),
        Op::Aad(b) => {
            let mut s = "aad ".to_owned();
            let t = base_string(*b);
            s.append(t.as_str());
            s
        },
        Op::Aam(b) => {
            let mut s = "aam ".to_owned();
            let t = base_string(*b);
            s.append(t.as_str());
            s
        },
        Op::Aas => "aas".to_owned(),
        Op::Daa => "daa".to_owned(),
        Op::Das => "das".to_owned(),
        Op::Inc(_) => "inc".to_owned(),
        Op::Dec(_) => "dec".to_owned(),
        Op::Jcc(cc, disp) => {
            let mut s = "j".to_owned();
            s.append(cc_str(*cc));
            s.append(" ");
            s.append("0x");
            let t = padded_string(branch_target_exec(pc, inst.size, *disp) as u64, 4, 16, false);
            s.append(t.as_str());
            s
        },
        Op::JmpFar(a1, a2) => {
            let mut s = "jmp far ".to_owned();
            let t1 = arg_to_string(a1);
            s.append(t1.as_str());
            s.append(":");
            let t2 = arg_to_string(a2);
            s.append(t2.as_str());
            s
        },
        Op::Lea(_, _) => "lea".to_owned(),
        Op::Cbw => "cbw".to_owned(),
        Op::Cwd => "cwd".to_owned(),
        Op::Hlt => "hlt".to_owned(),
        Op::Cmc => "cmc".to_owned(),
        Op::Clc => "clc".to_owned(),
        Op::Stc => "stc".to_owned(),
        Op::Cli => "cli".to_owned(),
        Op::Sti => "sti".to_owned(),
        Op::Cld => "cld".to_owned(),
        Op::Std => "std".to_owned(),
        Op::Error => "error".to_owned(),
        Op::Invalid(_) => "invalid".to_owned(),
    }
}

/// A listing line for `inst` at `pc`: the lock and repeat prefixes, the mnemonic, and the
/// operands (a branch shows its target address).
pub fn inst_to_string(pc: MemAddrT, inst: &Inst) -> (r: String)
    ensures
        r@ == inst_text(pc, *inst),
{
    let mut s = String::new();
    if inst.lock {
        s.append("lock ");
    }
    match inst.rep {
        Some(Rep::Rep) => s.append("rep "),
        Some(Rep::Repne) => s.append("repne "),
        None => {},
    }
    proof {
        assert(s@ =~= prefix_text(*inst));
    }
    let body = op_to_string(pc, inst);
    s.append(body.as_str());
    s
}

} // verus!
