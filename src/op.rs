//! Instruction-set data model: operations, operands, registers and condition codes.
use vstd::prelude::*;

verus! {

/// One decoded instruction: its prefixes, its operation and the number of bytes it took.
#[derive(Debug, Clone, Copy, PartialEq, Eq, Structural)]
pub struct Inst {
    pub lock: bool,
    pub rep: Option<Rep>,
    pub seg: Option<Sreg>,
    pub op: Op,
    pub size: u8,
}

#[derive(Debug, Clone, Copy, PartialEq, Eq, Structural)]
pub enum Rep {
    Rep,
    Repne,
}

#[derive(Debug, Clone, Copy, PartialEq, Eq, Structural)]
pub enum Op {
    Nop,
    Add(Arg, Arg),
    Adc(Arg, Arg),
    Sbb(Arg, Arg),
    Sub(Arg, Arg),
    And(Arg, Arg),
    Or(Arg, Arg),
    Xor(Arg, Arg),
    Cmp(Arg, Arg),
    Push(Arg),
    Pop(Arg),
    Aaa,
    Aad(u8),
    Aam(u8),
    Aas,
    Daa,
    Das,
    Inc(Arg),
    Dec(Arg),
    Jcc(Cc, i8),
    Call(Arg),
    Ret,
    /// Far jump: segment first, then offset.
    JmpFar(Arg, Arg),
    Test(Arg, Arg),
    Xchg(Arg, Arg),
    Mov(Arg, Arg),
    Lea(Arg, Arg),
    In(Arg, Arg),
    Out(Arg, Arg),
    Cbw,
    Cwd,
    Hlt,
    Cmc,
    Clc,
    Stc,
    Cli,
    Sti,
    Cld,
    Std,
    Error,
    Invalid(Invalid),
}

/// The sixteen branch conditions, in the order of their encoding nibble.
#[derive(Debug, Clone, Copy, PartialEq, Eq, Structural)]
pub enum Cc {
    O,
    NO,
    B,
    NB,
    E,
    NE,
    BE,
    NBE,
    S,
    NS,
    P,
    NP,
    L,
    NL,
    LE,
    NLE,
}

/// Why a byte sequence does not form an executable instruction.
#[derive(Debug, Clone, Copy, PartialEq, Eq, Structural)]
pub enum Invalid {
    Unknown,
    TooManyPrefix,
    UnexpectedByte(u8),
    UnexpectedBytes(u8, u8),
}

#[derive(Debug, Clone, Copy, PartialEq, Eq, Structural)]
pub enum Arg {
    Reg8(Reg8),
    Reg16(Reg16),
    Imm8(i8),
    Uimm8(u8),
    Imm16(i16),
    Uimm16(u16),
    Sreg(Sreg),
    Mem(Mem),
}

#[derive(Debug, Clone, Copy, PartialEq, Eq, Structural)]
pub enum Sreg {
    ES,
    CS,
    SS,
    DS,
}

#[derive(Debug, Clone, Copy, PartialEq, Eq, Structural)]
pub enum Reg8 {
    AL,
    CL,
    DL,
    BL,
    AH,
    CH,
    DH,
    BH,
}

#[derive(Debug, Clone, Copy, PartialEq, Eq, Structural)]
pub enum Reg16 {
    AX,
    CX,
    DX,
    BX,
    SP,
    BP,
    SI,
    DI,
}

#[derive(Debug, Clone, Copy, PartialEq, Eq, Structural)]
pub enum Mem {
    Reg(Reg16),
    RegOff(Reg16, i8),
    RegOff16(Reg16, i16),
    RegOff32(Reg16, i32),
}

/// The condition that an encoding nibble selects.
pub open spec fn cc_of(n: u8) -> Cc {
    if n == 0 { Cc::O }
    else if n == 1 { Cc::NO }
    else if n == 2 { Cc::B }
    else if n == 3 { Cc::NB }
    else if n == 4 { Cc::E }
    else if n == 5 { Cc::NE }
    else if n == 6 { Cc::BE }
    else if n == 7 { Cc::NBE }
    else if n == 8 { Cc::S }
    else if n == 9 { Cc::NS }
    else if n == 10 { Cc::P }
    else if n == 11 { Cc::NP }
    else if n == 12 { Cc::L }
    else if n == 13 { Cc::NL }
    else if n == 14 { Cc::LE }
    else { Cc::NLE }
}

/// The 8-bit register that a 3-bit selector names.
pub open spec fn reg8_of(n: u8) -> Reg8 {
    if n == 0 { Reg8::AL }
    else if n == 1 { Reg8::CL }
    else if n == 2 { Reg8::DL }
    else if n == 3 { Reg8::BL }
    else if n == 4 { Reg8::AH }
    else if n == 5 { Reg8::CH }
    else if n == 6 { Reg8::DH }
    else { Reg8::BH }
}

/// The 16-bit register that a 3-bit selector names.
pub open spec fn reg16_of(n: u8) -> Reg16 {
    if n == 0 { Reg16::AX }
    else if n == 1 { Reg16::CX }
    else if n == 2 { Reg16::DX }
    else if n == 3 { Reg16::BX }
    else if n == 4 { Reg16::SP }
    else if n == 5 { Reg16::BP }
    else if n == 6 { Reg16::SI }
    else { Reg16::DI }
}

/// The segment register that a 2-bit selector names.
pub open spec fn sreg_of(n: u8) -> Sreg {
    if n == 0 { Sreg::ES }
    else if n == 1 { Sreg::CS }
    else if n == 2 { Sreg::SS }
    else { Sreg::DS }
}

pub open spec fn reg8_index(r: Reg8) -> u8 {
    match r {
        Reg8::AL => 0,
        Reg8::CL => 1,
        Reg8::DL => 2,
        Reg8::BL => 3,
        Reg8::AH => 4,
        Reg8::CH => 5,
        Reg8::DH => 6,
        Reg8::BH => 7,
    }
}

pub open spec fn reg16_index(r: Reg16) -> u8 {
    match r {
        Reg16::AX => 0,
        Reg16::CX => 1,
        Reg16::DX => 2,
        Reg16::BX => 3,
        Reg16::SP => 4,
        Reg16::BP => 5,
        Reg16::SI => 6,
        Reg16::DI => 7,
    }
}

impl Cc {
    /// The condition encoded by the low nibble `n` of a conditional-branch opcode.
    pub fn from_nibble(n: u8) -> (r: Cc)
        requires
            n < 16,
        ensures
            r == cc_of(n),
    {
        match n {
            0 => Cc::O,
            1 => Cc::NO,
            2 => Cc::B,
            3 => Cc::NB,
            4 => Cc::E,
            5 => Cc::NE,
            6 => Cc::BE,
            7 => Cc::NBE,
            8 => Cc::S,
            9 => Cc::NS,
            10 => Cc::P,
            11 => Cc::NP,
            12 => Cc::L,
            13 => Cc::NL,
            14 => Cc::LE,
            _ => Cc::NLE,
        }
    }
}

impl Reg8 {
    pub fn from_index(n: u8) -> (r: Reg8)
        requires
            n < 8,
        ensures
            r == reg8_of(n),
            reg8_index(r) == n,
    {
        match n {
            0 => Reg8::AL,
            1 => Reg8::CL,
            2 => Reg8::DL,
            3 => Reg8::BL,
            4 => Reg8::AH,
            5 => Reg8::CH,
            6 => Reg8::DH,
            _ => Reg8::BH,
        }
    }

    pub fn index(self) -> (r: u8)
        ensures
            r == reg8_index(self),
            reg8_of(r) == self,
    {
        match self {
            Reg8::AL => 0,
            Reg8::CL => 1,
            Reg8::DL => 2,
            Reg8::BL => 3,
            Reg8::AH => 4,
            Reg8::CH => 5,
            Reg8::DH => 6,
            Reg8::BH => 7,
        }
    }
}

impl Reg16 {
    pub fn from_index(n: u8) -> (r: Reg16)
        requires
            n < 8,
        ensures
            r == reg16_of(n),
            reg16_index(r) == n,
    {
        match n {
            0 => Reg16::AX,
            1 => Reg16::CX,
            2 => Reg16::DX,
            3 => Reg16::BX,
            4 => Reg16::SP,
            5 => Reg16::BP,
            6 => Reg16::SI,
            _ => Reg16::DI,
        }
    }

    pub fn index(self) -> (r: u8)
        ensures
            r == reg16_index(self),
            reg16_of(r) == self,
    {
        match self {
            Reg16::AX => 0,
            Reg16::CX => 1,
            Reg16::DX => 2,
            Reg16::BX => 3,
            Reg16::SP => 4,
            Reg16::BP => 5,
            Reg16::SI => 6,
            Reg16::DI => 7,
        }
    }
}

impl Sreg {
    pub fn from_index(n: u8) -> (r: Sreg)
        requires
            n < 4,
        ensures
            r == sreg_of(n),
    {
        match n {
            0 => Sreg::ES,
            1 => Sreg::CS,
            2 => Sreg::SS,
            _ => Sreg::DS,
        }
    }
}

} // verus!
