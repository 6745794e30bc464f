//! Instruction descriptors and the decoder that produces them from bytes.
use vstd::prelude::*;

verus! {

/// The eight 8-bit registers.
#[derive(Clone, Copy, Debug, PartialEq, Eq, Structural)]
pub enum Reg {
    A,
    B,
    C,
    D,
    E,
    F,
    H,
    L,
}

/// The 16-bit register pairs and the stack pointer.
#[derive(Clone, Copy, Debug, PartialEq, Eq, Structural)]
pub enum Pair {
    AF,
    BC,
    DE,
    HL,
    SP,
}

/// The condition of a conditional jump, call or return.
#[derive(Clone, Copy, Debug, PartialEq, Eq, Structural)]
pub enum Cond {
    Always,
    NotZero,
    Zero,
    NotCarry,
    Carry,
}

/// The second operand of an 8-bit arithmetic or logical operation on A.
#[derive(Clone, Copy, Debug, PartialEq, Eq, Structural)]
pub enum Operand {
    Reg(Reg),
    /// The byte at the address held in HL.
    AtHl,
    Imm(u8),
}

/// One decoded instruction with its operands.
#[derive(Clone, Copy, Debug, PartialEq, Eq, Structural)]
pub enum Instruction {
    Nop,
    /// Clears the interrupt latch.
    Di,
    /// Sets the interrupt latch.
    Ei,
    /// Loads a 16-bit constant into a pair.
    LdPairImm(Pair, u16),
    /// Loads an 8-bit constant into a register.
    LdRegImm(Reg, u8),
    /// Copies the second register into the first.
    LdRegReg(Reg, Reg),
    /// Stores an 8-bit constant at the address in HL.
    LdAtHlImm(u8),
    /// Stores A at the address in HL.
    LdAtHlA,
    /// Loads A from the address held in a pair.
    LdAAtPair(Pair),
    /// Stores A at a 16-bit address.
    LdAtAddrA(u16),
    /// Stores A at the address in HL, then decrements HL.
    LddAtHlA,
    /// Stores A at the address in HL, then increments HL.
    LdiAtHlA,
    /// Loads A from the address in HL, then increments HL.
    LdiAAtHl,
    /// Stores A at 0xFF00 plus an 8-bit constant.
    LdhAtImmA(u8),
    /// Loads A from 0xFF00 plus an 8-bit constant.
    LdhAAtImm(u8),
    /// Stores A at 0xFF00 plus C.
    LdhAtCA,
    Xor(Operand),
    Add(Operand),
    Sub(Operand),
    /// Subtracts without keeping the result.
    Cp(Operand),
    Inc(Reg),
    Dec(Reg),
    /// Decrements the byte at the address in HL.
    DecAtHl,
    /// Increments HL as a 16-bit value, reporting Zero and Half-carry.
    /// Opcode 0x34 decodes to this. Whether 0x34 should instead increment
    /// the byte at the address in HL is an open question; this library keeps
    /// the 16-bit increment of HL with flags, at 4 cycles and one byte.
    IncHlFlags,
    /// Increments a pair, touching no flag.
    Inc16(Pair),
    /// Relative jump by a signed displacement.
    Jr(Cond, i8),
    /// Absolute jump.
    Jp(u16),
    Call(Cond, u16),
    Ret,
    Push(Pair),
    Pop(Pair),
    /// Rotates A left through the carry (short form).
    Rla,
    /// Rotates a register left through the carry.
    RlReg(Reg),
    /// Rotates the byte at the address in HL left through the carry.
    RlAtHl,
    /// Tests the bits of `mask` in a register.
    BitReg(Reg, u8),
    /// Tests the bits of `mask` in the byte at the address in HL.
    BitAtHl(u8),
}

/// The first byte of a two-level opcode.
pub const PREFIX: u8 = 0xCB;

/// Register selected by the low three bits of an opcode; index 6 names (HL).
pub open spec fn reg_at(idx: u8) -> Reg {
    if idx == 0 {
        Reg::B
    } else if idx == 1 {
        Reg::C
    } else if idx == 2 {
        Reg::D
    } else if idx == 3 {
        Reg::E
    } else if idx == 4 {
        Reg::H
    } else if idx == 5 {
        Reg::L
    } else {
        Reg::A
    }
}

/// Operand selected by a three-bit index.
pub open spec fn operand_at(idx: u8) -> Operand {
    if idx == 6 {
        Operand::AtHl
    } else {
        Operand::Reg(reg_at(idx))
    }
}

/// Single-bit mask of bit `b`.
pub open spec fn bit_mask_of(b: u8) -> u8 {
    if b == 0 {
        1
    } else if b == 1 {
        2
    } else if b == 2 {
        4
    } else if b == 3 {
        8
    } else if b == 4 {
        0x10
    } else if b == 5 {
        0x20
    } else if b == 6 {
        0x40
    } else {
        0x80
    }
}

/// The 16-bit immediate that follows an opcode: low byte first.
pub open spec fn imm16(lo: u8, hi: u8) -> u16 {
    (hi as int * 256 + lo as int) as u16
}

/// Decoding of the byte that follows the prefix.
pub open spec fn decode_prefixed(op: u8) -> Option<Instruction> {
    if 0x10 <= op && op <= 0x17 {
        if op == 0x16 {
            Some(Instruction::RlAtHl)
        } else {
            Some(Instruction::RlReg(reg_at((op - 0x10) as u8)))
        }
    } else if (0x40 <= op && op <= 0x5F) || op == 0x7C {
        let mask = bit_mask_of(((op - 0x40) / 8) as u8);
        if op % 8 == 6 {
            Some(Instruction::BitAtHl(mask))
        } else {
            Some(Instruction::BitReg(reg_at(op % 8), mask))
        }
    } else {
        None
    }
}

/// Decoding of an instruction that starts with `b0` and is followed by
/// `b1` and `b2`; `None` for an opcode outside the modeled set.
pub open spec fn decode_spec(b0: u8, b1: u8, b2: u8) -> Option<Instruction> {
    let d16 = imm16(b1, b2);
    if b0 == 0xCB {
        decode_prefixed(b1)
    } else if b0 == 0x00 {
        Some(Instruction::Nop)
    } else if b0 == 0xF3 {
        Some(Instruction::Di)
    } else if b0 == 0xFB {
        Some(Instruction::Ei)
    } else if b0 == 0x01 {
        Some(Instruction::LdPairImm(Pair::BC, d16))
    } else if b0 == 0x11 {
        Some(Instruction::LdPairImm(Pair::DE, d16))
    } else if b0 == 0x21 {
        Some(Instruction::LdPairImm(Pair::HL, d16))
    } else if b0 == 0x31 {
        Some(Instruction::LdPairImm(Pair::SP, d16))
    } else if b0 == 0xE0 {
        Some(Instruction::LdhAtImmA(b1))
    } else if b0 == 0xF0 {
        Some(Instruction::LdhAAtImm(b1))
    } else if b0 == 0xE2 {
        Some(Instruction::LdhAtCA)
    } else if b0 == 0x18 {
        Some(Instruction::Jr(Cond::Always, b1 as i8))
    } else if b0 == 0x20 {
        Some(Instruction::Jr(Cond::NotZero, b1 as i8))
    } else if b0 == 0x28 {
        Some(Instruction::Jr(Cond::Zero, b1 as i8))
    } else if b0 == 0x30 {
        Some(Instruction::Jr(Cond::NotCarry, b1 as i8))
    } else if b0 == 0x38 {
        Some(Instruction::Jr(Cond::Carry, b1 as i8))
    } else if b0 == 0xC3 {
        Some(Instruction::Jp(d16))
    } else if b0 == 0x36 {
        Some(Instruction::LdAtHlImm(b1))
    } else if b0 <= 0x3E && b0 % 8 == 6 {
        Some(Instruction::LdRegImm(reg_at(b0 / 8), b1))
    } else if b0 == 0x77 {
        Some(Instruction::LdAtHlA)
    } else if 0x78 <= b0 && b0 <= 0x7F && b0 != 0x7E {
        Some(Instruction::LdRegReg(Reg::A, reg_at((b0 - 0x78) as u8)))
    } else if 0x47 <= b0 && b0 <= 0x6F && b0 % 8 == 7 {
        Some(Instruction::LdRegReg(reg_at(((b0 - 0x40) / 8) as u8), Reg::A))
    } else if b0 == 0x1A {
        Some(Instruction::LdAAtPair(Pair::DE))
    } else if b0 == 0x0A {
        Some(Instruction::LdAAtPair(Pair::BC))
    } else if b0 == 0xEA {
        Some(Instruction::LdAtAddrA(d16))
    } else if b0 == 0x32 {
        Some(Instruction::LddAtHlA)
    } else if b0 == 0x22 {
        Some(Instruction::LdiAtHlA)
    } else if b0 == 0x2A {
        Some(Instruction::LdiAAtHl)
    } else if 0xA8 <= b0 && b0 <= 0xAF {
        Some(Instruction::Xor(operand_at((b0 - 0xA8) as u8)))
    } else if b0 == 0xEE {
        Some(Instruction::Xor(Operand::Imm(b1)))
    } else if b0 == 0x34 {
        Some(Instruction::IncHlFlags)
    } else if b0 <= 0x3C && b0 % 8 == 4 {
        Some(Instruction::Inc(reg_at(b0 / 8)))
    } else if b0 == 0x35 {
        Some(Instruction::DecAtHl)
    } else if b0 <= 0x3D && b0 % 8 == 5 {
        Some(Instruction::Dec(reg_at(b0 / 8)))
    } else if b0 == 0x03 {
        Some(Instruction::Inc16(Pair::BC))
    } else if b0 == 0x13 {
        Some(Instruction::Inc16(Pair::DE))
    } else if b0 == 0x23 {
        Some(Instruction::Inc16(Pair::HL))
    } else if b0 == 0x33 {
        Some(Instruction::Inc16(Pair::SP))
    } else if 0x90 <= b0 && b0 <= 0x97 {
        Some(Instruction::Sub(operand_at((b0 - 0x90) as u8)))
    } else if b0 == 0xD6 {
        Some(Instruction::Sub(Operand::Imm(b1)))
    } else if 0x80 <= b0 && b0 <= 0x87 {
        Some(Instruction::Add(operand_at((b0 - 0x80) as u8)))
    } else if b0 == 0xC6 {
        Some(Instruction::Add(Operand::Imm(b1)))
    } else if 0xB8 <= b0 && b0 <= 0xBF {
        Some(Instruction::Cp(operand_at((b0 - 0xB8) as u8)))
    } else if b0 == 0xFE {
        Some(Instruction::Cp(Operand::Imm(b1)))
    } else if b0 == 0xC4 {
        Some(Instruction::Call(Cond::NotZero, d16))
    } else if b0 == 0xD4 {
        Some(Instruction::Call(Cond::NotCarry, d16))
    } else if b0 == 0xCC {
        Some(Instruction::Call(Cond::Zero, d16))
    } else if b0 == 0xDC {
        Some(Instruction::Call(Cond::Carry, d16))
    } else if b0 == 0xCD {
        Some(Instruction::Call(Cond::Always, d16))
    } else if b0 == 0xC9 {
        Some(Instruction::Ret)
    } else if b0 == 0xF5 {
        Some(Instruction::Push(Pair::AF))
    } else if b0 == 0xC5 {
        Some(Instruction::Push(Pair::BC))
    } else if b0 == 0xD5 {
        Some(Instruction::Push(Pair::DE))
    } else if b0 == 0xE5 {
        Some(Instruction::Push(Pair::HL))
    } else if b0 == 0xF1 {
        Some(Instruction::Pop(Pair::AF))
    } else if b0 == 0xC1 {
        Some(Instruction::Pop(Pair::BC))
    } else if b0 == 0xD1 {
        Some(Instruction::Pop(Pair::DE))
    } else if b0 == 0xE1 {
        Some(Instruction::Pop(Pair::HL))
    } else if b0 == 0x17 {
        Some(Instruction::Rla)
    } else {
        None
    }
}

fn reg_at_exec(idx: u8) -> (r: Reg)
    ensures
        r == reg_at(idx),
{
    match idx {
        0 => Reg::B,
        1 => Reg::C,
        2 => Reg::D,
        3 => Reg::E,
        4 => Reg::H,
        5 => Reg::L,
        _ => Reg::A,
    }
}

fn operand_at_exec(idx: u8) -> (r: Operand)
    ensures
        r == operand_at(idx),
{
    if idx == 6 {
        Operand::AtHl
    } else {
        Operand::Reg(reg_at_exec(idx))
    }
}

/// Single-bit mask of bit `b`, for `b` below 8.
pub fn bit_mask(b: u8) -> (r: u8)
    requires
        b < 8,
    ensures
        r == bit_mask_of(b),
        r == 1u8 << b,
{
    assert(b == 0 ==> 1u8 << b == 1) by (bit_vector);
    assert(b == 1 ==> 1u8 << b == 2) by (bit_vector);
    assert(b == 2 ==> 1u8 << b == 4) by (bit_vector);
    assert(b == 3 ==> 1u8 << b == 8) by (bit_vector);
    assert(b == 4 ==> 1u8 << b == 0x10) by (bit_vector);
    assert(b == 5 ==> 1u8 << b == 0x20) by (bit_vector);
    assert(b == 6 ==> 1u8 << b == 0x40) by (bit_vector);
    assert(b == 7 ==> 1u8 << b == 0x80) by (bit_vector);
    1u8 << b
}

/// Decodes the byte after the prefix.
pub fn decode_prefixed_opcode(op: u8) -> (r: Option<Instruction>)
    ensures
        r == decode_prefixed(op),
{
    if 0x10 <= op && op <= 0x17 {
        if op == 0x16 {
            Some(Instruction::RlAtHl)
        } else {
            Some(Instruction::RlReg(reg_at_exec(op - 0x10)))
        }
    } else if (0x40 <= op && op <= 0x5F) || op == 0x7C {
        let mask = bit_mask((op - 0x40) / 8);
        if op % 8 == 6 {
            Some(Instruction::BitAtHl(mask))
        } else {
            Some(Instruction::BitReg(reg_at_exec(op % 8), mask))
        }
    } else {
        None
    }
}

/// Assembles a 16-bit immediate from its two bytes, low byte first.
pub fn make_imm16(lo: u8, hi: u8) -> (r: u16)
    ensures
        r == imm16(lo, hi),
        r as int == hi as int * 256 + lo as int,
{
    (hi as u16) * 256 + (lo as u16)
}

/// Decodes the instruction that starts with `b0`, followed in memory by
/// `b1` and `b2`. Returns `None` exactly for an opcode outside the modeled set.
pub fn decode_opcode(b0: u8, b1: u8, b2: u8) -> (r: Option<Instruction>)
    ensures
        r == decode_spec(b0, b1, b2),
{
    let d16 = make_imm16(b1, b2);
    if b0 == 0xCB {
        decode_prefixed_opcode(b1)
    } else if b0 == 0x36 {
        Some(Instruction::LdAtHlImm(b1))
    } else if b0 <= 0x3E && b0 % 8 == 6 {
        Some(Instruction::LdRegImm(reg_at_exec(b0 / 8), b1))
    } else if 0x78 <= b0 && b0 <= 0x7F && b0 != 0x7E {
        Some(Instruction::LdRegReg(Reg::A, reg_at_exec(b0 - 0x78)))
    } else if 0x47 <= b0 && b0 <= 0x6F && b0 % 8 == 7 {
        Some(Instruction::LdRegReg(reg_at_exec((b0 - 0x40) / 8), Reg::A))
    } else if 0xA8 <= b0 && b0 <= 0xAF {
        Some(Instruction::Xor(operand_at_exec(b0 - 0xA8)))
    } else if b0 == 0x34 {
        Some(Instruction::IncHlFlags)
    } else if b0 <= 0x3C && b0 % 8 == 4 {
        Some(Instruction::Inc(reg_at_exec(b0 / 8)))
    } else if b0 == 0x35 {
        Some(Instruction::DecAtHl)
    } else if b0 <= 0x3D && b0 % 8 == 5 {
        Some(Instruction::Dec(reg_at_exec(b0 / 8)))
    } else if 0x90 <= b0 && b0 <= 0x97 {
        Some(Instruction::Sub(operand_at_exec(b0 - 0x90)))
    } else if 0x80 <= b0 && b0 <= 0x87 {
        Some(Instruction::Add(operand_at_exec(b0 - 0x80)))
    } else if 0xB8 <= b0 && b0 <= 0xBF {
        Some(Instruction::Cp(operand_at_exec(b0 - 0xB8)))
    } else {
        match b0 {
            0x00 => Some(Instruction::Nop),
            0xF3 => Some(Instruction::Di),
            0xFB => Some(Instruction::Ei),
            0x01 => Some(Instruction::LdPairImm(Pair::BC, d16)),
            0x11 => Some(Instruction::LdPairImm(Pair::DE, d16)),
            0x21 => Some(Instruction::LdPairImm(Pair::HL, d16)),
            0x31 => Some(Instruction::LdPairImm(Pair::SP, d16)),
            0xE0 => Some(Instruction::LdhAtImmA(b1)),
            0xF0 => Some(Instruction::LdhAAtImm(b1)),
            0xE2 => Some(Instruction::LdhAtCA),
            0x18 => Some(Instruction::Jr(Cond::Always, b1 as i8)),
            0x20 => Some(Instruction::Jr(Cond::NotZero, b1 as i8)),
            0x28 => Some(Instruction::Jr(Cond::Zero, b1 as i8)),
            0x30 => Some(Instruction::Jr(Cond::NotCarry, b1 as i8)),
            0x38 => Some(Instruction::Jr(Cond::Carry, b1 as i8)),
            0xC3 => Some(Instruction::Jp(d16)),
            0x77 => Some(Instruction::LdAtHlA),
            0x1A => Some(Instruction::LdAAtPair(Pair::DE)),
            0x0A => Some(Instruction::LdAAtPair(Pair::BC)),
            0xEA => Some(Instruction::LdAtAddrA(d16)),
            0x32 => Some(Instruction::LddAtHlA),
            0x22 => Some(Instruction::LdiAtHlA),
            0x2A => Some(Instruction::LdiAAtHl),
            0xEE => Some(Instruction::Xor(Operand::Imm(b1))),
            0x03 => Some(Instruction::Inc16(Pair::BC)),
            0x13 => Some(Instruction::Inc16(Pair::DE)),
            0x23 => Some(Instruction::Inc16(Pair::HL)),
            0x33 => Some(Instruction::Inc16(Pair::SP)),
            0xD6 => Some(Instruction::Sub(Operand::Imm(b1))),
            0xC6 => Some(Instruction::Add(Operand::Imm(b1))),
            0xFE => Some(Instruction::Cp(Operand::Imm(b1))),
            0xC4 => Some(Instruction::Call(Cond::NotZero, d16)),
            0xD4 => Some(Instruction::Call(Cond::NotCarry, d16)),
            0xCC => Some(Instruction::Call(Cond::Zero, d16)),
            0xDC => Some(Instruction::Call(Cond::Carry, d16)),
            0xCD => Some(Instruction::Call(Cond::Always, d16)),
            0xC9 => Some(Instruction::Ret),
            0xF5 => Some(Instruction::Push(Pair::AF)),
            0xC5 => Some(Instruction::Push(Pair::BC)),
            0xD5 => Some(Instruction::Push(Pair::DE)),
            0xE5 => Some(Instruction::Push(Pair::HL)),
            0xF1 => Some(Instruction::Pop(Pair::AF)),
            0xC1 => Some(Instruction::Pop(Pair::BC)),
            0xD1 => Some(Instruction::Pop(Pair::DE)),
            0xE1 => Some(Instruction::Pop(Pair::HL)),
            0x17 => Some(Instruction::Rla),
            _ => None,
        }
    }
}

} // verus!
