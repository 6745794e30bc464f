//! The CPU: register file, the instruction executor and the fetch-decode-execute step.
use vstd::prelude::*;
use crate::alu::{
    add8, sub8, add_flags, sub_flags, xor_flags, rl8, rl_carry, rl_flags, bit_flags, inc16,
    inc16_flags, flags_wf, z_of, n_of, h_of, c_of, half_carry_add8, half_carry_sub8,
    lemma_flags_of, make_flags, get_flag, calc_half_carry_on_u8_sum,
    calc_half_carry_on_u8_sub, calc_half_carry_on_u16_sum, Z_MASK, N_MASK, H_MASK, C_MASK,
};
use crate::instruction::{Reg, Pair, Cond, Operand, Instruction, decode_spec, decode_opcode};
use crate::mmu::{MMU, MemView};
use crate::ppu::{PPU, stepped};

verus! {

/// The mathematical model of the CPU.
pub ghost struct CpuState {
    pub a: u8,
    pub b: u8,
    pub c: u8,
    pub d: u8,
    pub e: u8,
    pub f: u8,
    pub h: u8,
    pub l: u8,
    pub pc: u16,
    pub sp: u16,
    /// Cumulative elapsed cycles, wrapping at 2^64.
    pub t: u64,
    /// The interrupt-enable latch.
    pub ime: bool,
    pub debug: bool,
}

/// `x` reduced to 16 bits.
pub open spec fn wrap16(x: int) -> u16 {
    (x % 65536) as u16
}

/// The cycle counter `t` advanced by `k`, wrapping at 2^64.
pub open spec fn add_cycles(t: u64, k: int) -> u64 {
    ((t + k) % 0x1_0000_0000_0000_0000) as u64
}

pub open spec fn hi_byte(v: u16) -> u8 {
    (v / 256) as u8
}

pub open spec fn lo_byte(v: u16) -> u8 {
    (v % 256) as u8
}

/// A 16-bit value from its high and low byte.
pub open spec fn join(hi: u8, lo: u8) -> u16 {
    (hi as int * 256 + lo as int) as u16
}

impl CpuState {
    /// The low nibble of the flag register is zero.
    pub open spec fn wf(self) -> bool {
        flags_wf(self.f)
    }

    pub open spec fn reg(self, r: Reg) -> u8 {
        match r {
            Reg::A => self.a,
            Reg::B => self.b,
            Reg::C => self.c,
            Reg::D => self.d,
            Reg::E => self.e,
            Reg::F => self.f,
            Reg::H => self.h,
            Reg::L => self.l,
        }
    }

    /// The state with register `r` set to `v`; the flag register keeps its
    /// low nibble zero.
    pub open spec fn with_reg(self, r: Reg, v: u8) -> CpuState {
        match r {
            Reg::A => CpuState { a: v, ..self },
            Reg::B => CpuState { b: v, ..self },
            Reg::C => CpuState { c: v, ..self },
            Reg::D => CpuState { d: v, ..self },
            Reg::E => CpuState { e: v, ..self },
            Reg::F => CpuState { f: v & 0xF0, ..self },
            Reg::H => CpuState { h: v, ..self },
            Reg::L => CpuState { l: v, ..self },
        }
    }

    /// A register pair: high byte in the first-named register.
    pub open spec fn pair(self, p: Pair) -> u16 {
        match p {
            Pair::AF => join(self.a, self.f),
            Pair::BC => join(self.b, self.c),
            Pair::DE => join(self.d, self.e),
            Pair::HL => join(self.h, self.l),
            Pair::SP => self.sp,
        }
    }

    pub open spec fn with_pair(self, p: Pair, v: u16) -> CpuState {
        match p {
            Pair::AF => CpuState { a: hi_byte(v), f: lo_byte(v) & 0xF0, ..self },
            Pair::BC => CpuState { b: hi_byte(v), c: lo_byte(v), ..self },
            Pair::DE => CpuState { d: hi_byte(v), e: lo_byte(v), ..self },
            Pair::HL => CpuState { h: hi_byte(v), l: lo_byte(v), ..self },
            Pair::SP => CpuState { sp: v, ..self },
        }
    }

    pub open spec fn hl(self) -> u16 {
        self.pair(Pair::HL)
    }

    /// The state with the program counter and the cycle counter advanced.
    pub open spec fn advance(self, len: int, cycles: int) -> CpuState {
        CpuState { pc: wrap16(self.pc + len), t: add_cycles(self.t, cycles), ..self }
    }

    pub open spec fn with_flags(self, f: u8) -> CpuState {
        CpuState { f: f, ..self }
    }

    pub open spec fn holds(self, c: Cond) -> bool {
        match c {
            Cond::Always => true,
            Cond::NotZero => !z_of(self.f),
            Cond::Zero => z_of(self.f),
            Cond::NotCarry => !c_of(self.f),
            Cond::Carry => c_of(self.f),
        }
    }
}

/// The value of an 8-bit operand.
pub open spec fn operand_value(s: CpuState, m: MemView, o: Operand) -> u8 {
    match o {
        Operand::Reg(r) => s.reg(r),
        Operand::AtHl => m.read(s.hl()),
        Operand::Imm(v) => v,
    }
}

/// Length in bytes of an instruction with this operand.
pub open spec fn operand_len(o: Operand) -> int {
    match o {
        Operand::Imm(_) => 2,
        _ => 1,
    }
}

/// Cycles of an instruction with this operand.
pub open spec fn operand_cycles(o: Operand) -> int {
    match o {
        Operand::Reg(_) => 4,
        _ => 8,
    }
}

/// A push: the stack pointer is decremented before each write, the high
/// byte goes to the higher address.
pub open spec fn push_spec(s: CpuState, m: MemView, v: u16) -> (CpuState, MemView) {
    let sp1 = wrap16(s.sp - 1);
    let sp2 = wrap16(s.sp - 2);
    (CpuState { sp: sp2, ..s }, m.write(sp1, hi_byte(v)).write(sp2, lo_byte(v)))
}

/// A pop: the low byte is read at the stack pointer, the high byte above it,
/// and the stack pointer moves up by two.
pub open spec fn pop_spec(s: CpuState, m: MemView) -> (CpuState, u16) {
    (CpuState { sp: wrap16(s.sp + 2), ..s }, join(m.read(wrap16(s.sp + 1)), m.read(s.sp)))
}

/// The cycle cost charged for executing `i` in state `s`.
pub open spec fn cost_of(s: CpuState, i: Instruction) -> int {
    match i {
        Instruction::Nop | Instruction::Di | Instruction::Ei => 4,
        Instruction::LdPairImm(_, _) => 12,
        Instruction::LdRegImm(_, _) => 8,
        Instruction::LdRegReg(_, _) => 4,
        Instruction::LdAtHlImm(_) => 12,
        Instruction::LdAtHlA | Instruction::LdAAtPair(_) => 8,
        Instruction::LdAtAddrA(_) => 16,
        Instruction::LddAtHlA | Instruction::LdiAtHlA | Instruction::LdiAAtHl => 8,
        Instruction::LdhAtImmA(_) | Instruction::LdhAAtImm(_) => 12,
        Instruction::LdhAtCA => 8,
        Instruction::Xor(o) | Instruction::Add(o) | Instruction::Sub(o) | Instruction::Cp(o) =>
            operand_cycles(o),
        Instruction::Inc(_) | Instruction::Dec(_) => 4,
        Instruction::DecAtHl => 12,
        Instruction::IncHlFlags => 4,
        Instruction::Inc16(_) => 8,
        Instruction::Jr(c, _) => if s.holds(c) { 12 } else { 8 },
        Instruction::Jp(_) => 16,
        Instruction::Call(c, _) => if s.holds(c) { 24 } else { 12 },
        Instruction::Ret => 16,
        Instruction::Push(_) => 16,
        Instruction::Pop(_) => 12,
        Instruction::Rla => 4,
        Instruction::RlReg(_) => 8,
        Instruction::RlAtHl => 16,
        Instruction::BitReg(_, _) => 8,
        Instruction::BitAtHl(_) => 12,
    }
}

/// The effect of executing `i` on the CPU and the store, the cycle counter
/// advanced by `cost_of(s, i)`.
pub open spec fn exec_spec(s: CpuState, m: MemView, i: Instruction) -> (CpuState, MemView) {
    let k = cost_of(s, i);
    let hl = s.hl();
    match i {
        Instruction::Nop => (s.advance(1, k), m),
        Instruction::Di => (CpuState { ime: false, ..s }.advance(1, k), m),
        Instruction::Ei => (CpuState { ime: true, ..s }.advance(1, k), m),
        Instruction::LdPairImm(p, v) => (s.with_pair(p, v).advance(3, k), m),
        Instruction::LdRegImm(r, v) => (s.with_reg(r, v).advance(2, k), m),
        Instruction::LdRegReg(to, from) => (s.with_reg(to, s.reg(from)).advance(1, k), m),
        Instruction::LdAtHlImm(v) => (s.advance(2, k), m.write(hl, v)),
        Instruction::LdAtHlA => (s.advance(1, k), m.write(hl, s.a)),
        Instruction::LdAAtPair(p) => (s.with_reg(Reg::A, m.read(s.pair(p))).advance(1, k), m),
        Instruction::LdAtAddrA(addr) => (s.advance(3, k), m.write(addr, s.a)),
        Instruction::LddAtHlA => (
            s.with_pair(Pair::HL, wrap16(hl - 1)).advance(1, k),
            m.write(hl, s.a),
        ),
        Instruction::LdiAtHlA => (
            s.with_pair(Pair::HL, wrap16(hl + 1)).advance(1, k),
            m.write(hl, s.a),
        ),
        Instruction::LdiAAtHl => (
            s.with_reg(Reg::A, m.read(hl)).with_pair(Pair::HL, wrap16(hl + 1)).advance(1, k),
            m,
        ),
        Instruction::LdhAtImmA(n) => (s.advance(2, k), m.write((0xFF00 + n) as u16, s.a)),
        Instruction::LdhAAtImm(n) => (
            s.with_reg(Reg::A, m.read((0xFF00 + n) as u16)).advance(2, k),
            m,
        ),
        Instruction::LdhAtCA => (s.advance(1, k), m.write((0xFF00 + s.c) as u16, s.a)),
        Instruction::Xor(o) => {
            let r = s.a ^ operand_value(s, m, o);
            (CpuState { a: r, f: xor_flags(r), ..s }.advance(operand_len(o), k), m)
        },
        Instruction::Add(o) => {
            let v = operand_value(s, m, o);
            (
                CpuState { a: add8(s.a, v), f: add_flags(s.a, v, s.f), ..s }.advance(
                    operand_len(o),
                    k,
                ),
                m,
            )
        },
        Instruction::Sub(o) => {
            let v = operand_value(s, m, o);
            (
                CpuState { a: sub8(s.a, v), f: sub_flags(s.a, v, s.f), ..s }.advance(
                    operand_len(o),
                    k,
                ),
                m,
            )
        },
        Instruction::Cp(o) => {
            let v = operand_value(s, m, o);
            (s.with_flags(sub_flags(s.a, v, s.f)).advance(operand_len(o), k), m)
        },
        Instruction::Inc(r) => (
            s.with_flags(add_flags(s.reg(r), 1, s.f)).with_reg(r, add8(s.reg(r), 1)).advance(1, k),
            m,
        ),
        Instruction::Dec(r) => (
            s.with_flags(sub_flags(s.reg(r), 1, s.f)).with_reg(r, sub8(s.reg(r), 1)).advance(1, k),
            m,
        ),
        Instruction::DecAtHl => {
            let v = m.read(hl);
            (s.with_flags(sub_flags(v, 1, s.f)).advance(1, k), m.write(hl, sub8(v, 1)))
        },
        Instruction::IncHlFlags => (
            s.with_flags(inc16_flags(hl, s.f)).with_pair(Pair::HL, inc16(hl)).advance(1, k),
            m,
        ),
        Instruction::Inc16(p) => (s.with_pair(p, inc16(s.pair(p))).advance(1, k), m),
        Instruction::Jr(c, d) => if s.holds(c) {
            (s.advance(2 + d, k), m)
        } else {
            (s.advance(2, k), m)
        },
        Instruction::Jp(addr) => (CpuState { pc: addr, t: add_cycles(s.t, k), ..s }, m),
        Instruction::Call(c, addr) => if s.holds(c) {
            let s1 = s.advance(3, k);
            let (s2, m2) = push_spec(s1, m, s1.pc);
            (CpuState { pc: addr, ..s2 }, m2)
        } else {
            (s.advance(3, k), m)
        },
        Instruction::Ret => {
            let (s1, v) = pop_spec(s, m);
            (CpuState { pc: v, t: add_cycles(s.t, k), ..s1 }, m)
        },
        Instruction::Push(p) => {
            let (s1, m1) = push_spec(s, m, s.pair(p));
            (s1.advance(1, k), m1)
        },
        Instruction::Pop(p) => {
            let (s1, v) = pop_spec(s, m);
            (s1.with_pair(p, v).advance(1, k), m)
        },
        Instruction::Rla => (
            CpuState { a: rl8(s.a, c_of(s.f)), f: rl_flags(s.a, s.f), ..s }.advance(1, k),
            m,
        ),
        Instruction::RlReg(r) => (
            s.with_flags(rl_flags(s.reg(r), s.f)).with_reg(r, rl8(s.reg(r), c_of(s.f))).advance(
                2,
                k,
            ),
            m,
        ),
        Instruction::RlAtHl => {
            let v = m.read(hl);
            (s.with_flags(rl_flags(v, s.f)).advance(2, k), m.write(hl, rl8(v, c_of(s.f))))
        },
        Instruction::BitReg(r, mask) => (
            s.with_flags(bit_flags(s.reg(r), mask, s.f)).advance(2, k),
            m,
        ),
        Instruction::BitAtHl(mask) => (s.with_flags(bit_flags(m.read(hl), mask, s.f)).advance(2, k), m),
    }
}

/// The three bytes fetched at the program counter.
pub open spec fn fetch(s: CpuState, m: MemView) -> (u8, u8, u8) {
    (m.read(s.pc), m.read(wrap16(s.pc + 1)), m.read(wrap16(s.pc + 2)))
}

/// What decoding at the program counter gives: the instruction, or the
/// fatal error that names the unrecognized byte.
pub open spec fn decode_result(s: CpuState, m: MemView) -> Result<Instruction, FatalError> {
    let (b0, b1, b2) = fetch(s, m);
    match decode_spec(b0, b1, b2) {
        Some(i) => Ok(i),
        None => Err(
            FatalError {
                opcode: if b0 == 0xCB { b1 } else { b0 },
                prefixed: b0 == 0xCB,
                registers: registers_of(s),
            },
        ),
    }
}

/// A relative jump with displacement 0 leaves the program counter just past
/// the two-byte instruction whether or not the branch is taken; a taken
/// branch costs 12 cycles and one not taken 8.
pub proof fn lemma_jr_zero_displacement(s: CpuState, m: MemView, c: Cond)
    ensures
        exec_spec(s, m, Instruction::Jr(c, 0)).0.pc == wrap16(s.pc + 2),
        s.holds(c) ==> cost_of(s, Instruction::Jr(c, 0)) == 12,
        !s.holds(c) ==> cost_of(s, Instruction::Jr(c, 0)) == 8,
        s.pc <= 0xFFFD ==> exec_spec(s, m, Instruction::Jr(c, 0)).0.pc == s.pc + 2,
        s.holds(c) && s.t <= 0xFFFF_FFFF_FFFF_FFFF - 12 ==> exec_spec(
            s,
            m,
            Instruction::Jr(c, 0),
        ).0.t == s.t + 12,
        !s.holds(c) && s.t <= 0xFFFF_FFFF_FFFF_FFFF - 8 ==> exec_spec(
            s,
            m,
            Instruction::Jr(c, 0),
        ).0.t == s.t + 8,
{
}

/// Exclusive-or of A with itself always clears A and sets Zero, whatever
/// A held.
pub proof fn lemma_xor_self(s: CpuState, m: MemView)
    ensures
        exec_spec(s, m, Instruction::Xor(Operand::Reg(Reg::A))).0.a == 0,
        z_of(exec_spec(s, m, Instruction::Xor(Operand::Reg(Reg::A))).0.f),
{
    let a = s.a;
    assert(a ^ a == 0) by (bit_vector);
    lemma_flags_of(true, false, false, false);
}

/// Pushing a 16-bit value and popping it again gives back the value and
/// leaves the stack pointer where it was, as long as the boot overlay does
/// not shadow the two stack bytes.
pub proof fn lemma_push_pop(s: CpuState, m: MemView, v: u16)
    requires
        m.wf(),
        m.ram[0xFF50] != 0 || (wrap16(s.sp - 1) > 0xFF && wrap16(s.sp - 2) > 0xFF),
    ensures
        ({
            let (s1, m1) = push_spec(s, m, v);
            let (s2, r) = pop_spec(s1, m1);
            r == v && s2.sp == s.sp && s2 == s
        }),
{
    let (s1, m1) = push_spec(s, m, v);
    let sp1 = wrap16(s.sp - 1);
    let sp2 = wrap16(s.sp - 2);
    assert(wrap16(sp2 + 1) == sp1);
    assert(wrap16(sp2 + 2) == s.sp);
    assert(m1.read(sp2) == lo_byte(v));
    assert(m1.read(sp1) == hi_byte(v));
    assert(join(hi_byte(v), lo_byte(v)) == v);
}

/// A snapshot of the register file.
#[derive(Clone, Copy, Debug, PartialEq, Eq, Structural)]
pub struct Registers {
    pub a: u8,
    pub b: u8,
    pub c: u8,
    pub d: u8,
    pub e: u8,
    pub f: u8,
    pub h: u8,
    pub l: u8,
    pub pc: u16,
    pub sp: u16,
}

/// An opcode outside the modeled set: emulation cannot go on.
#[derive(Clone, Copy, Debug, PartialEq, Eq, Structural)]
pub struct FatalError {
    /// The unrecognized byte: the opcode, or the byte after the prefix.
    pub opcode: u8,
    /// Whether the byte followed the two-level prefix.
    pub prefixed: bool,
    /// The registers when the opcode was fetched.
    pub registers: Registers,
}

pub struct CPU {
    a: u8,
    b: u8,
    c: u8,
    d: u8,
    e: u8,
    f: u8,
    h: u8,
    l: u8,
    pc: u16,
    sp: u16,
    t: u64,
    ime: bool,
    debug: bool,
}

impl View for CPU {
    type V = CpuState;

    closed spec fn view(&self) -> CpuState {
        CpuState {
            a: self.a,
            b: self.b,
            c: self.c,
            d: self.d,
            e: self.e,
            f: self.f,
            h: self.h,
            l: self.l,
            pc: self.pc,
            sp: self.sp,
            t: self.t,
            ime: self.ime,
            debug: self.debug,
        }
    }
}

/// The register snapshot of a CPU state.
pub open spec fn registers_of(s: CpuState) -> Registers {
    Registers { a: s.a, b: s.b, c: s.c, d: s.d, e: s.e, f: s.f, h: s.h, l: s.l, pc: s.pc, sp: s.sp }
}

impl CPU {
    /// Powers on with every field zeroed.
    pub fn new() -> (r: CPU)
        ensures
            r@ == (CpuState {
                a: 0,
                b: 0,
                c: 0,
                d: 0,
                e: 0,
                f: 0,
                h: 0,
                l: 0,
                pc: 0,
                sp: 0,
                t: 0,
                ime: false,
                debug: false,
            }),
            r@.wf(),
    {
        assert(0u8 & 0x0F == 0) by (bit_vector);
        CPU {
            a: 0,
            b: 0,
            c: 0,
            d: 0,
            e: 0,
            f: 0,
            h: 0,
            l: 0,
            pc: 0,
            sp: 0,
            t: 0,
            ime: false,
            debug: false,
        }
    }

    pub fn set_debug_flag(&mut self)
        ensures
            final(self)@ == (CpuState { debug: true, ..old(self)@ }),
    {
        self.debug = true;
    }

    pub fn reset_debug_flag(&mut self)
        ensures
            final(self)@ == (CpuState { debug: false, ..old(self)@ }),
    {
        self.debug = false;
    }

    pub fn is_debug(&self) -> (r: bool)
        ensures
            r == self@.debug,
    {
        self.debug
    }

    pub fn registers(&self) -> (r: Registers)
        ensures
            r == registers_of(self@),
    {
        Registers {
            a: self.a,
            b: self.b,
            c: self.c,
            d: self.d,
            e: self.e,
            f: self.f,
            h: self.h,
            l: self.l,
            pc: self.pc,
            sp: self.sp,
        }
    }

    pub fn get_pc(&self) -> (r: u16)
        ensures
            r == self@.pc,
    {
        self.pc
    }

    pub fn get_sp(&self) -> (r: u16)
        ensures
            r == self@.sp,
    {
        self.sp
    }

    /// Cumulative elapsed cycles.
    pub fn get_cycles(&self) -> (r: u64)
        ensures
            r == self@.t,
    {
        self.t
    }

    /// The interrupt-enable latch.
    pub fn get_ime(&self) -> (r: bool)
        ensures
            r == self@.ime,
    {
        self.ime
    }

    pub fn get_z_flag(&self) -> (r: bool)
        ensures
            r == z_of(self@.f),
    {
        get_flag(self.f, Z_MASK)
    }

    pub fn get_n_flag(&self) -> (r: bool)
        ensures
            r == n_of(self@.f),
    {
        get_flag(self.f, N_MASK)
    }

    pub fn get_h_flag(&self) -> (r: bool)
        ensures
            r == h_of(self@.f),
    {
        get_flag(self.f, H_MASK)
    }

    pub fn get_c_flag(&self) -> (r: bool)
        ensures
            r == c_of(self@.f),
    {
        get_flag(self.f, C_MASK)
    }

    /// Reads a register.
    pub fn get_register(&self, register: Reg) -> (r: u8)
        ensures
            r == self@.reg(register),
    {
        match register {
            Reg::A => self.a,
            Reg::B => self.b,
            Reg::C => self.c,
            Reg::D => self.d,
            Reg::E => self.e,
            Reg::F => self.f,
            Reg::H => self.h,
            Reg::L => self.l,
        }
    }

    /// Writes a register; a write to the flag register clears its low nibble.
    pub fn set_register(&mut self, register: Reg, value: u8)
        ensures
            final(self)@ == old(self)@.with_reg(register, value),
            old(self)@.wf() ==> final(self)@.wf(),
    {
        assert((value & 0xF0) & 0x0F == 0) by (bit_vector);
        match register {
            Reg::A => self.a = value,
            Reg::B => self.b = value,
            Reg::C => self.c = value,
            Reg::D => self.d = value,
            Reg::E => self.e = value,
            Reg::F => self.f = value & 0xF0,
            Reg::H => self.h = value,
            Reg::L => self.l = value,
        }
    }

    /// Reads a register pair, high byte first.
    pub fn get_pair(&self, pair: Pair) -> (r: u16)
        ensures
            r == self@.pair(pair),
    {
        match pair {
            Pair::AF => (self.a as u16) * 256 + (self.f as u16),
            Pair::BC => (self.b as u16) * 256 + (self.c as u16),
            Pair::DE => (self.d as u16) * 256 + (self.e as u16),
            Pair::HL => (self.h as u16) * 256 + (self.l as u16),
            Pair::SP => self.sp,
        }
    }

    /// Writes a register pair, high byte into the first-named register.
    pub fn set_pair(&mut self, pair: Pair, value: u16)
        ensures
            final(self)@ == old(self)@.with_pair(pair, value),
            old(self)@.wf() ==> final(self)@.wf(),
    {
        let hi = (value / 256) as u8;
        let lo = (value % 256) as u8;
        assert((lo & 0xF0) & 0x0F == 0) by (bit_vector);
        match pair {
            Pair::AF => {
                self.a = hi;
                self.f = lo & 0xF0;
            },
            Pair::BC => {
                self.b = hi;
                self.c = lo;
            },
            Pair::DE => {
                self.d = hi;
                self.e = lo;
            },
            Pair::HL => {
                self.h = hi;
                self.l = lo;
            },
            Pair::SP => self.sp = value,
        }
    }

    /// Advances the program counter by `pc` bytes and the cycle counter by `t`.
    fn inc_pc_t(&mut self, pc: u16, t: usize)
        ensures
            final(self)@ == old(self)@.advance(pc as int, t as int),
    {
        self.pc = self.pc.wrapping_add(pc);
        self.t = self.t.wrapping_add(t as u64);
    }

    /// Wrapping 8-bit addition; sets Zero, clears Subtract, sets Half-carry
    /// from bit 3, keeps Carry; then advances by `len` bytes and `cycles`.
    pub fn do_add(&mut self, value_a: u8, value_b: u8, len: u16, cycles: usize) -> (r: u8)
        ensures
            r == add8(value_a, value_b),
            r as int == (value_a + value_b) % 256,
            final(self)@ == old(self)@.with_flags(add_flags(value_a, value_b, old(self)@.f)).advance(
                len as int,
                cycles as int,
            ),
            z_of(final(self)@.f) == (r == 0),
            !n_of(final(self)@.f),
            h_of(final(self)@.f) == half_carry_add8(value_a, value_b),
            c_of(final(self)@.f) == c_of(old(self)@.f),
            final(self)@.wf(),
    {
        let h = calc_half_carry_on_u8_sum(value_a, value_b);
        let r = value_a.wrapping_add(value_b);
        let c = get_flag(self.f, C_MASK);
        self.f = make_flags(r == 0, false, h, c);
        self.inc_pc_t(len, cycles);
        r
    }

    /// Wrapping 8-bit subtraction; sets Zero, sets Subtract, sets
    /// Half-carry on a borrow from bit 4, keeps Carry; then advances by
    /// `len` bytes and `cycles`.
    pub fn do_sub(&mut self, value_a: u8, value_b: u8, len: u16, cycles: usize) -> (r: u8)
        ensures
            r == sub8(value_a, value_b),
            r as int == (value_a - value_b) % 256,
            final(self)@ == old(self)@.with_flags(sub_flags(value_a, value_b, old(self)@.f)).advance(
                len as int,
                cycles as int,
            ),
            z_of(final(self)@.f) == (r == 0),
            n_of(final(self)@.f),
            h_of(final(self)@.f) == half_carry_sub8(value_a, value_b),
            c_of(final(self)@.f) == c_of(old(self)@.f),
            final(self)@.wf(),
    {
        let h = calc_half_carry_on_u8_sub(value_a, value_b);
        let r = value_a.wrapping_sub(value_b);
        let c = get_flag(self.f, C_MASK);
        self.f = make_flags(r == 0, true, h, c);
        self.inc_pc_t(len, cycles);
        r
    }

    /// Exclusive-or; Zero is set exactly when the result is zero, the other
    /// flags are cleared.
    pub fn do_xor(&mut self, value_a: u8, value_b: u8, len: u16, cycles: usize) -> (r: u8)
        ensures
            r == value_a ^ value_b,
            final(self)@ == old(self)@.with_flags(xor_flags(r)).advance(len as int, cycles as int),
            z_of(final(self)@.f) == (r == 0),
            final(self)@.wf(),
    {
        let r = value_a ^ value_b;
        self.f = make_flags(r == 0, false, false, false);
        self.inc_pc_t(len, cycles);
        r
    }

    /// Rotates left through the carry: the carry receives bit 7 and bit 0
    /// receives the previous carry. Zero reflects the result, Subtract and
    /// Half-carry are cleared.
    pub fn do_rl_n(&mut self, register_value: u8, len: u16, cycles: usize) -> (r: u8)
        ensures
            r == rl8(register_value, c_of(old(self)@.f)),
            final(self)@ == old(self)@.with_flags(rl_flags(register_value, old(self)@.f)).advance(
                len as int,
                cycles as int,
            ),
            c_of(final(self)@.f) == rl_carry(register_value),
            z_of(final(self)@.f) == (r == 0),
            final(self)@.wf(),
    {
        let old_c_flag = get_flag(self.f, C_MASK);
        let new_c_flag = (register_value & 0x80) == 0x80;
        let r = (register_value << 1u8) | (if old_c_flag { 1u8 } else { 0u8 });
        self.f = make_flags(r == 0, false, false, new_c_flag);
        self.inc_pc_t(len, cycles);
        r
    }

    /// Tests the bits of `bit_mask` in `reg_value`: Zero is set when the masked
    /// value differs from the mask, Subtract is cleared, Half-carry is set and
    /// Carry is kept.
    pub fn do_bit_opcode(&mut self, reg_value: u8, bit_mask: u8, len: u16, cycles: usize)
        ensures
            final(self)@ == old(self)@.with_flags(bit_flags(reg_value, bit_mask, old(self)@.f)).advance(
                len as int,
                cycles as int,
            ),
            z_of(final(self)@.f) == (reg_value & bit_mask != bit_mask),
            !n_of(final(self)@.f),
            h_of(final(self)@.f),
            c_of(final(self)@.f) == c_of(old(self)@.f),
            final(self)@.wf(),
    {
        let bit_test: u8 = reg_value & bit_mask;
        let c = get_flag(self.f, C_MASK);
        self.f = make_flags(bit_test != bit_mask, false, true, c);
        self.inc_pc_t(len, cycles);
    }

    /// 16-bit increment that reports Zero and the bit-11 Half-carry, clears
    /// Subtract and keeps Carry.
    pub fn do_inc_d16(&mut self, register_value: u16, len: u16, cycles: usize) -> (r: u16)
        ensures
            r == inc16(register_value),
            final(self)@ == old(self)@.with_flags(inc16_flags(register_value, old(self)@.f)).advance(
                len as int,
                cycles as int,
            ),
            final(self)@.wf(),
    {
        let h = calc_half_carry_on_u16_sum(register_value, 1);
        let r = register_value.wrapping_add(1);
        let c = get_flag(self.f, C_MASK);
        self.f = make_flags(r == 0, false, h, c);
        self.inc_pc_t(len, cycles);
        r
    }

    /// Relative jump over a two-byte instruction: the displacement is added
    /// after the program counter has moved past the instruction. A taken
    /// branch costs 12 cycles, one not taken 8.
    pub fn do_jump(&mut self, jump: bool, n1: i8)
        ensures
            jump ==> final(self)@ == old(self)@.advance(2 + n1, 12),
            !jump ==> final(self)@ == old(self)@.advance(2, 8),
            n1 == 0 && old(self)@.pc <= 0xFFFD ==> final(self)@.pc == old(self)@.pc + 2,
            jump && old(self)@.t <= 0xFFFF_FFFF_FFFF_FFFF - 12 ==> final(self)@.t == old(self)@.t
                + 12,
            !jump && old(self)@.t <= 0xFFFF_FFFF_FFFF_FFFF - 8 ==> final(self)@.t == old(self)@.t
                + 8,
    {
        self.pc = self.pc.wrapping_add(2);
        if jump {
            self.pc = self.pc.wrapping_add_signed(n1 as i16);
            self.t = self.t.wrapping_add(12);
        } else {
            self.t = self.t.wrapping_add(8);
        }
    }

    /// Copies register `from` into register `to`.
    fn do_ld_reg_to_reg(&mut self, to: Reg, from: Reg)
        ensures
            final(self)@ == old(self)@.with_reg(to, old(self)@.reg(from)).advance(1, 4),
            old(self)@.wf() ==> final(self)@.wf(),
    {
        let v = self.get_register(from);
        self.set_register(to, v);
        self.inc_pc_t(1, 4);
    }

    /// Increments an 8-bit value as an addition of one.
    fn do_inc_n(&mut self, register_value: u8) -> (r: u8)
        ensures
            r == add8(register_value, 1),
            final(self)@ == old(self)@.with_flags(add_flags(register_value, 1, old(self)@.f)).advance(1, 4),
            final(self)@.wf(),
    {
        self.do_add(register_value, 1, 1, 4)
    }

    /// Decrements an 8-bit value as a subtraction of one.
    fn do_dec_n(&mut self, register_value: u8) -> (r: u8)
        ensures
            r == sub8(register_value, 1),
            final(self)@ == old(self)@.with_flags(sub_flags(register_value, 1, old(self)@.f)).advance(1, 4),
            final(self)@.wf(),
    {
        self.do_sub(register_value, 1, 1, 4)
    }

    /// Pushes a 16-bit value: the stack pointer is decremented before each
    /// write, high byte first.
    pub fn push_to_stack(&mut self, mmu: &mut MMU, addr: u16)
        requires
            old(mmu).wf(),
        ensures
            final(mmu).wf(),
            (final(self)@, final(mmu)@) == push_spec(old(self)@, old(mmu)@, addr),
    {
        let hi = (addr / 256) as u8;
        let lo = (addr % 256) as u8;
        self.sp = self.sp.wrapping_sub(1);
        mmu.write_byte(self.sp, hi);
        self.sp = self.sp.wrapping_sub(1);
        mmu.write_byte(self.sp, lo);
    }

    /// Pops a 16-bit value: low byte at the stack pointer, high byte above it.
    pub fn pop_from_stack(&mut self, mmu: &mut MMU) -> (r: u16)
        requires
            old(mmu).wf(),
        ensures
            final(mmu)@ == old(mmu)@,
            final(mmu).wf(),
            (final(self)@, r) == pop_spec(old(self)@, old(mmu)@),
    {
        let lo = mmu.read_byte(self.sp);
        self.sp = self.sp.wrapping_add(1);
        let hi = mmu.read_byte(self.sp);
        self.sp = self.sp.wrapping_add(1);
        (hi as u16) * 256 + (lo as u16)
    }

    fn cond_holds(&self, cond: Cond) -> (r: bool)
        ensures
            r == self@.holds(cond),
    {
        match cond {
            Cond::Always => true,
            Cond::NotZero => !self.get_z_flag(),
            Cond::Zero => self.get_z_flag(),
            Cond::NotCarry => !self.get_c_flag(),
            Cond::Carry => self.get_c_flag(),
        }
    }

    fn operand_value(&self, operand: Operand, mmu: &MMU) -> (r: u8)
        requires
            mmu.wf(),
        ensures
            r == operand_value(self@, mmu@, operand),
    {
        match operand {
            Operand::Reg(register) => self.get_register(register),
            Operand::AtHl => mmu.read_byte(self.get_pair(Pair::HL)),
            Operand::Imm(v) => v,
        }
    }

    /// Length and cycles of an arithmetic instruction with this operand.
    fn operand_cost(operand: Operand) -> (r: (u16, usize))
        ensures
            r.0 as int == operand_len(operand),
            r.1 as int == operand_cycles(operand),
    {
        match operand {
            Operand::Reg(_) => (1, 4),
            Operand::AtHl => (1, 8),
            Operand::Imm(_) => (2, 8),
        }
    }

    /// Decodes the instruction at the program counter. An opcode outside the
    /// modeled set, at either level, is a fatal error that carries the byte
    /// and the registers.
    pub fn decode(&self, mmu: &MMU) -> (r: Result<Instruction, FatalError>)
        requires
            mmu.wf(),
        ensures
            r == decode_result(self@, mmu@),
    {
        let b0 = mmu.read_byte(self.pc);
        let b1 = mmu.read_byte(self.pc.wrapping_add(1));
        let b2 = mmu.read_byte(self.pc.wrapping_add(2));
        match decode_opcode(b0, b1, b2) {
            Some(i) => Ok(i),
            None => Err(
                FatalError {
                    opcode: if b0 == 0xCB { b1 } else { b0 },
                    prefixed: b0 == 0xCB,
                    registers: self.registers(),
                },
            ),
        }
    }

    /// Loads of constants and register moves; stores and loads through HL, a pair or an address.
    #[verifier::spinoff_prover]
    fn exec_load(&mut self, instruction: Instruction, mmu: &mut MMU) -> (r: usize)
        requires
            old(mmu).wf(),
            matches!(instruction, Instruction::Nop | Instruction::Di | Instruction::Ei | Instruction::LdPairImm(..) | Instruction::LdRegImm(..) | Instruction::LdRegReg(..) | Instruction::LdAtHlImm(..) | Instruction::LdAtHlA | Instruction::LdAAtPair(..) | Instruction::LdAtAddrA(..)),
        ensures
            final(mmu).wf(),
            (final(self)@, final(mmu)@) == exec_spec(old(self)@, old(mmu)@, instruction),
            r as int == cost_of(old(self)@, instruction),
            old(self)@.wf() ==> final(self)@.wf(),
    {
        match instruction {
            Instruction::Nop => {
                self.inc_pc_t(1, 4);
                4
            },
            Instruction::Di => {
                self.ime = false;
                self.inc_pc_t(1, 4);
                4
            },
            Instruction::Ei => {
                self.ime = true;
                self.inc_pc_t(1, 4);
                4
            },
            Instruction::LdPairImm(p, v) => {
                self.set_pair(p, v);
                self.inc_pc_t(3, 12);
                12
            },
            Instruction::LdRegImm(register, v) => {
                self.set_register(register, v);
                self.inc_pc_t(2, 8);
                8
            },
            Instruction::LdRegReg(to, from) => {
                self.do_ld_reg_to_reg(to, from);
                4
            },
            Instruction::LdAtHlImm(v) => {
                let hl = self.get_pair(Pair::HL);
                mmu.write_byte(hl, v);
                self.inc_pc_t(2, 12);
                12
            },
            Instruction::LdAtHlA => {
                let hl = self.get_pair(Pair::HL);
                mmu.write_byte(hl, self.a);
                self.inc_pc_t(1, 8);
                8
            },
            Instruction::LdAAtPair(p) => {
                let addr = self.get_pair(p);
                self.a = mmu.read_byte(addr);
                self.inc_pc_t(1, 8);
                8
            },
            Instruction::LdAtAddrA(addr) => {
                mmu.write_byte(addr, self.a);
                self.inc_pc_t(3, 16);
                16
            },
            // other instructions are excluded by the precondition
            _ => 0,
        }
    }

    /// Loads and stores with a post-adjusted HL or an address in the 0xFF00 page.
    #[verifier::spinoff_prover]
    #[verifier::rlimit(100)]
    fn exec_load_io(&mut self, instruction: Instruction, mmu: &mut MMU) -> (r: usize)
        requires
            old(mmu).wf(),
            matches!(instruction, Instruction::LddAtHlA | Instruction::LdiAtHlA | Instruction::LdiAAtHl | Instruction::LdhAtImmA(..) | Instruction::LdhAAtImm(..) | Instruction::LdhAtCA),
        ensures
            final(mmu).wf(),
            (final(self)@, final(mmu)@) == exec_spec(old(self)@, old(mmu)@, instruction),
            r as int == cost_of(old(self)@, instruction),
            old(self)@.wf() ==> final(self)@.wf(),
    {
        match instruction {
            Instruction::LddAtHlA => {
                let hl = self.get_pair(Pair::HL);
                mmu.write_byte(hl, self.a);
                let next = hl.wrapping_sub(1);
                assert(next == wrap16(hl - 1));
                self.set_pair(Pair::HL, next);
                self.inc_pc_t(1, 8);
                8
            },
            Instruction::LdiAtHlA => {
                let hl = self.get_pair(Pair::HL);
                mmu.write_byte(hl, self.a);
                let next = hl.wrapping_add(1);
                assert(next == wrap16(hl + 1));
                self.set_pair(Pair::HL, next);
                self.inc_pc_t(1, 8);
                8
            },
            Instruction::LdiAAtHl => {
                let hl = self.get_pair(Pair::HL);
                self.a = mmu.read_byte(hl);
                let next = hl.wrapping_add(1);
                assert(next == wrap16(hl + 1));
                self.set_pair(Pair::HL, next);
                self.inc_pc_t(1, 8);
                8
            },
            Instruction::LdhAtImmA(n) => {
                mmu.write_byte(0xFF00 + n as u16, self.a);
                self.inc_pc_t(2, 12);
                12
            },
            Instruction::LdhAAtImm(n) => {
                self.a = mmu.read_byte(0xFF00 + n as u16);
                self.inc_pc_t(2, 12);
                12
            },
            Instruction::LdhAtCA => {
                mmu.write_byte(0xFF00 + self.c as u16, self.a);
                self.inc_pc_t(1, 8);
                8
            },
            // other instructions are excluded by the precondition
            _ => 0,
        }
    }

    /// Exclusive-or, addition, subtraction and compare on A.
    #[verifier::spinoff_prover]
    #[verifier::rlimit(100)]
    fn exec_arith(&mut self, instruction: Instruction, mmu: &mut MMU) -> (r: usize)
        requires
            old(mmu).wf(),
            matches!(instruction, Instruction::Xor(..) | Instruction::Add(..) | Instruction::Sub(..) | Instruction::Cp(..)),
        ensures
            final(mmu).wf(),
            (final(self)@, final(mmu)@) == exec_spec(old(self)@, old(mmu)@, instruction),
            r as int == cost_of(old(self)@, instruction),
            old(self)@.wf() ==> final(self)@.wf(),
    {
        match instruction {
            Instruction::Xor(o) => {
                let v = self.operand_value(o, mmu);
                let (len, cycles) = Self::operand_cost(o);
                self.a = self.do_xor(self.a, v, len, cycles);
                cycles
            },
            Instruction::Add(o) => {
                let v = self.operand_value(o, mmu);
                let (len, cycles) = Self::operand_cost(o);
                self.a = self.do_add(self.a, v, len, cycles);
                cycles
            },
            Instruction::Sub(o) => {
                let v = self.operand_value(o, mmu);
                let (len, cycles) = Self::operand_cost(o);
                self.a = self.do_sub(self.a, v, len, cycles);
                cycles
            },
            Instruction::Cp(o) => {
                let v = self.operand_value(o, mmu);
                let (len, cycles) = Self::operand_cost(o);
                let _ = self.do_sub(self.a, v, len, cycles);
                cycles
            },
            // other instructions are excluded by the precondition
            _ => 0,
        }
    }

    /// Increments and decrements of a register.
    #[verifier::spinoff_prover]
    #[verifier::rlimit(100)]
    fn exec_inc_dec(&mut self, instruction: Instruction, mmu: &mut MMU) -> (r: usize)
        requires
            old(mmu).wf(),
            matches!(instruction, Instruction::Inc(..) | Instruction::Dec(..)),
        ensures
            final(mmu).wf(),
            (final(self)@, final(mmu)@) == exec_spec(old(self)@, old(mmu)@, instruction),
            r as int == cost_of(old(self)@, instruction),
            old(self)@.wf() ==> final(self)@.wf(),
    {
        match instruction {
            Instruction::Inc(register) => {
                let v = self.get_register(register);
                let r = self.do_inc_n(v);
                self.set_register(register, r);
                4
            },
            Instruction::Dec(register) => {
                let v = self.get_register(register);
                let r = self.do_dec_n(v);
                self.set_register(register, r);
                4
            },
            // other instructions are excluded by the precondition
            _ => 0,
        }
    }

    /// Decrement of the byte at the address in HL.
    #[verifier::spinoff_prover]
    #[verifier::rlimit(100)]
    fn exec_dec_at_hl(&mut self, instruction: Instruction, mmu: &mut MMU) -> (r: usize)
        requires
            old(mmu).wf(),
            matches!(instruction, Instruction::DecAtHl),
        ensures
            final(mmu).wf(),
            (final(self)@, final(mmu)@) == exec_spec(old(self)@, old(mmu)@, instruction),
            r as int == cost_of(old(self)@, instruction),
            old(self)@.wf() ==> final(self)@.wf(),
    {
        match instruction {
            Instruction::DecAtHl => {
                let ghost s0 = self@;
                let ghost m0 = mmu@;
                let hl = self.get_pair(Pair::HL);
                let v = mmu.read_byte(hl);
                let r = self.do_sub(v, 1, 1, 12);
                mmu.write_byte(hl, r);
                assert(self@ == s0.with_flags(sub_flags(v, 1, s0.f)).advance(1, 12));
                assert(mmu@ == m0.write(hl, sub8(v, 1)));
                12
            },
            // other instructions are excluded by the precondition
            _ => 0,
        }
    }

    /// 16-bit increment of HL that reports flags.
    #[verifier::spinoff_prover]
    #[verifier::rlimit(100)]
    fn exec_inc_hl_flags(&mut self, instruction: Instruction, mmu: &mut MMU) -> (r: usize)
        requires
            old(mmu).wf(),
            matches!(instruction, Instruction::IncHlFlags),
        ensures
            final(mmu).wf(),
            (final(self)@, final(mmu)@) == exec_spec(old(self)@, old(mmu)@, instruction),
            r as int == cost_of(old(self)@, instruction),
            old(self)@.wf() ==> final(self)@.wf(),
    {
        match instruction {
            Instruction::IncHlFlags => {
                let ghost s0 = self@;
                let hl = self.get_pair(Pair::HL);
                let r = self.do_inc_d16(hl, 1, 4);
                self.set_pair(Pair::HL, r);
                assert(self@ == s0.with_flags(inc16_flags(hl, s0.f)).with_pair(Pair::HL, inc16(hl)).advance(1, 4));
                4
            },
            // other instructions are excluded by the precondition
            _ => 0,
        }
    }

    /// 16-bit increment of a pair, without flags.
    #[verifier::spinoff_prover]
    #[verifier::rlimit(100)]
    fn exec_inc16(&mut self, instruction: Instruction, mmu: &mut MMU) -> (r: usize)
        requires
            old(mmu).wf(),
            matches!(instruction, Instruction::Inc16(..)),
        ensures
            final(mmu).wf(),
            (final(self)@, final(mmu)@) == exec_spec(old(self)@, old(mmu)@, instruction),
            r as int == cost_of(old(self)@, instruction),
            old(self)@.wf() ==> final(self)@.wf(),
    {
        match instruction {
            Instruction::Inc16(p) => {
                let v = self.get_pair(p);
                let next = v.wrapping_add(1);
                assert(next == inc16(v));
                self.set_pair(p, next);
                self.inc_pc_t(1, 8);
                8
            },
            // other instructions are excluded by the precondition
            _ => 0,
        }
    }

    /// Jumps, calls, returns and stack transfers.
    #[verifier::spinoff_prover]
    #[verifier::rlimit(100)]
    fn exec_flow(&mut self, instruction: Instruction, mmu: &mut MMU) -> (r: usize)
        requires
            old(mmu).wf(),
            matches!(instruction, Instruction::Jr(..) | Instruction::Jp(..) | Instruction::Call(..) | Instruction::Ret | Instruction::Push(..) | Instruction::Pop(..)),
        ensures
            final(mmu).wf(),
            (final(self)@, final(mmu)@) == exec_spec(old(self)@, old(mmu)@, instruction),
            r as int == cost_of(old(self)@, instruction),
            old(self)@.wf() ==> final(self)@.wf(),
    {
        match instruction {
            Instruction::Jr(cond, d) => {
                let jump = self.cond_holds(cond);
                self.do_jump(jump, d);
                if jump {
                    12
                } else {
                    8
                }
            },
            Instruction::Jp(addr) => {
                self.pc = addr;
                self.t = self.t.wrapping_add(16);
                16
            },
            Instruction::Call(cond, addr) => {
                if self.cond_holds(cond) {
                    self.inc_pc_t(3, 24);
                    let ret = self.pc;
                    self.push_to_stack(mmu, ret);
                    self.pc = addr;
                    24
                } else {
                    self.inc_pc_t(3, 12);
                    12
                }
            },
            Instruction::Ret => {
                let addr = self.pop_from_stack(mmu);
                self.pc = addr;
                self.t = self.t.wrapping_add(16);
                16
            },
            Instruction::Push(p) => {
                let v = self.get_pair(p);
                self.push_to_stack(mmu, v);
                self.inc_pc_t(1, 16);
                16
            },
            Instruction::Pop(p) => {
                let v = self.pop_from_stack(mmu);
                self.set_pair(p, v);
                self.inc_pc_t(1, 12);
                12
            },
            // other instructions are excluded by the precondition
            _ => 0,
        }
    }

    /// Rotations and bit tests.
    #[verifier::spinoff_prover]
    fn exec_bits(&mut self, instruction: Instruction, mmu: &mut MMU) -> (r: usize)
        requires
            old(mmu).wf(),
            matches!(instruction, Instruction::Rla | Instruction::RlReg(..) | Instruction::RlAtHl | Instruction::BitReg(..) | Instruction::BitAtHl(..)),
        ensures
            final(mmu).wf(),
            (final(self)@, final(mmu)@) == exec_spec(old(self)@, old(mmu)@, instruction),
            r as int == cost_of(old(self)@, instruction),
            old(self)@.wf() ==> final(self)@.wf(),
    {
        match instruction {
            Instruction::Rla => {
                self.a = self.do_rl_n(self.a, 1, 4);
                4
            },
            Instruction::RlReg(register) => {
                let v = self.get_register(register);
                let r = self.do_rl_n(v, 2, 8);
                self.set_register(register, r);
                8
            },
            Instruction::RlAtHl => {
                let hl = self.get_pair(Pair::HL);
                let v = mmu.read_byte(hl);
                let r = self.do_rl_n(v, 2, 16);
                mmu.write_byte(hl, r);
                16
            },
            Instruction::BitReg(register, mask) => {
                let v = self.get_register(register);
                self.do_bit_opcode(v, mask, 2, 8);
                8
            },
            Instruction::BitAtHl(mask) => {
                let hl = self.get_pair(Pair::HL);
                let v = mmu.read_byte(hl);
                self.do_bit_opcode(v, mask, 2, 12);
                12
            },
            // other instructions are excluded by the precondition
            _ => 0,
        }
    }

    /// Executes one instruction and returns the cycles charged for it.
    pub fn execute(&mut self, instruction: Instruction, mmu: &mut MMU) -> (r: usize)
        requires
            old(mmu).wf(),
        ensures
            final(mmu).wf(),
            (final(self)@, final(mmu)@) == exec_spec(old(self)@, old(mmu)@, instruction),
            r as int == cost_of(old(self)@, instruction),
            old(self)@.wf() ==> final(self)@.wf(),
    {
        match instruction {
            Instruction::Nop | Instruction::Di | Instruction::Ei | Instruction::LdPairImm(..) | Instruction::LdRegImm(..) | Instruction::LdRegReg(..) | Instruction::LdAtHlImm(..) | Instruction::LdAtHlA | Instruction::LdAAtPair(..) | Instruction::LdAtAddrA(..) => self.exec_load(instruction, mmu),
            Instruction::LddAtHlA | Instruction::LdiAtHlA | Instruction::LdiAAtHl | Instruction::LdhAtImmA(..) | Instruction::LdhAAtImm(..) | Instruction::LdhAtCA => self.exec_load_io(instruction, mmu),
            Instruction::Xor(..) | Instruction::Add(..) | Instruction::Sub(..) | Instruction::Cp(..) => self.exec_arith(instruction, mmu),
            Instruction::Inc(..) | Instruction::Dec(..) => self.exec_inc_dec(instruction, mmu),
            Instruction::DecAtHl => self.exec_dec_at_hl(instruction, mmu),
            Instruction::IncHlFlags => self.exec_inc_hl_flags(instruction, mmu),
            Instruction::Inc16(..) => self.exec_inc16(instruction, mmu),
            Instruction::Jr(..) | Instruction::Jp(..) | Instruction::Call(..) | Instruction::Ret | Instruction::Push(..) | Instruction::Pop(..) => self.exec_flow(instruction, mmu),
            Instruction::Rla | Instruction::RlReg(..) | Instruction::RlAtHl | Instruction::BitReg(..) | Instruction::BitAtHl(..) => self.exec_bits(instruction, mmu),
        }
    }

    /// Fetches, decodes and executes the instruction at the program counter,
    /// then advances the display controller by the cycles it cost. An opcode
    /// outside the modeled set changes nothing and is returned as a fatal error.
    pub fn run_instruction(&mut self, mmu: &mut MMU, ppu: &mut PPU) -> (r: Result<usize, FatalError>)
        requires
            old(mmu).wf(),
            old(ppu).wf(),
        ensures
            final(mmu).wf(),
            final(ppu).wf(),
            old(self)@.wf() ==> final(self)@.wf(),
            match decode_result(old(self)@, old(mmu)@) {
                Err(e) => {
                    &&& r == Err::<usize, FatalError>(e)
                    &&& final(self)@ == old(self)@
                    &&& final(mmu)@ == old(mmu)@
                    &&& final(ppu)@ == old(ppu)@
                },
                Ok(i) => {
                    let (s1, m1) = exec_spec(old(self)@, old(mmu)@, i);
                    &&& r == Ok::<usize, FatalError>(cost_of(old(self)@, i) as usize)
                    &&& final(self)@ == s1
                    &&& stepped(old(ppu)@, m1, cost_of(old(self)@, i), final(ppu)@, final(mmu)@)
                },
            },
    {
        let instruction = match self.decode(mmu) {
            Ok(i) => i,
            Err(e) => {
                return Err(e);
            },
        };
        let cycles = self.execute(instruction, mmu);
        ppu.step(cycles, mmu);
        Ok(cycles)
    }
}

} // verus!
