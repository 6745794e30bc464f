use gbrustemu::cpu::{FatalError, CPU};
use gbrustemu::instruction::{Cond, Instruction, Operand, Pair, Reg};
use gbrustemu::mmu::MMU;
use gbrustemu::ppu::PPU;

/// A store with the boot overlay turned off and `program` at address 0.
fn store_with(program: &[u8]) -> MMU {
    let mut mmu = MMU::new();
    mmu.write_byte(0xFF50, 1);
    mmu.from_rom_file(program);
    mmu
}

fn run(cpu: &mut CPU, mmu: &mut MMU, i: Instruction) -> usize {
    cpu.execute(i, mmu)
}

#[test]
fn new_cpu_is_zeroed() {
    let cpu = CPU::new();
    let r = cpu.registers();
    assert_eq!((r.a, r.b, r.c, r.d, r.e, r.f, r.h, r.l), (0, 0, 0, 0, 0, 0, 0, 0));
    assert_eq!((r.pc, r.sp), (0, 0));
    assert_eq!(cpu.get_cycles(), 0);
    assert!(!cpu.get_ime());
    assert!(!cpu.is_debug());
}

#[test]
fn debug_flag_toggles() {
    let mut cpu = CPU::new();
    cpu.set_debug_flag();
    assert!(cpu.is_debug());
    cpu.reset_debug_flag();
    assert!(!cpu.is_debug());
}

#[test]
fn subtract_wraps_and_sets_zero() {
    let mut mmu = store_with(&[]);
    let mut cpu = CPU::new();
    cpu.set_register(Reg::A, 0x10);
    let cost = run(&mut cpu, &mut mmu, Instruction::Sub(Operand::Imm(0x20)));
    assert_eq!(cost, 8);
    assert_eq!(cpu.get_register(Reg::A), 0xF0);
    assert!(!cpu.get_z_flag());
    assert!(cpu.get_n_flag());
    assert_eq!(cpu.get_pc(), 2);

    cpu.set_register(Reg::A, 0x37);
    cpu.set_register(Reg::B, 0x37);
    run(&mut cpu, &mut mmu, Instruction::Sub(Operand::Reg(Reg::B)));
    assert_eq!(cpu.get_register(Reg::A), 0);
    assert!(cpu.get_z_flag());
}

#[test]
fn subtract_all_pairs_matches_modular_difference() {
    let mut mmu = store_with(&[]);
    for a in [0u8, 1, 0x0F, 0x10, 0x80, 0xFF] {
        for b in [0u8, 1, 0x0F, 0x10, 0x80, 0xFF] {
            let mut cpu = CPU::new();
            cpu.set_register(Reg::A, a);
            run(&mut cpu, &mut mmu, Instruction::Sub(Operand::Imm(b)));
            let r = a.wrapping_sub(b);
            assert_eq!(cpu.get_register(Reg::A), r);
            assert_eq!(cpu.get_z_flag(), r == 0);
            assert_eq!(cpu.get_h_flag(), (a & 0xF) < (b & 0xF));
        }
    }
}

#[test]
fn half_carry_on_add_and_subtract() {
    let mut mmu = store_with(&[]);
    let mut cpu = CPU::new();
    cpu.set_register(Reg::A, 0x0F);
    run(&mut cpu, &mut mmu, Instruction::Add(Operand::Imm(0x01)));
    assert_eq!(cpu.get_register(Reg::A), 0x10);
    assert!(cpu.get_h_flag());
    assert!(!cpu.get_n_flag());

    cpu.set_register(Reg::A, 0x0E);
    run(&mut cpu, &mut mmu, Instruction::Add(Operand::Imm(0x01)));
    assert!(!cpu.get_h_flag());

    cpu.set_register(Reg::A, 0x10);
    run(&mut cpu, &mut mmu, Instruction::Sub(Operand::Imm(0x01)));
    assert!(cpu.get_h_flag());

    cpu.set_register(Reg::A, 0x1F);
    run(&mut cpu, &mut mmu, Instruction::Sub(Operand::Imm(0x01)));
    assert!(!cpu.get_h_flag());
}

#[test]
fn add_keeps_carry_and_wraps() {
    let mut mmu = store_with(&[]);
    let mut cpu = CPU::new();
    cpu.set_register(Reg::F, 0x10);
    cpu.set_register(Reg::A, 0xFF);
    cpu.set_register(Reg::C, 0x01);
    let cost = run(&mut cpu, &mut mmu, Instruction::Add(Operand::Reg(Reg::C)));
    assert_eq!(cost, 4);
    assert_eq!(cpu.get_register(Reg::A), 0);
    assert!(cpu.get_z_flag());
    assert!(cpu.get_c_flag());
    assert!(cpu.get_h_flag());
}

#[test]
fn rotate_left_through_carry_nine_times_is_identity() {
    let mut mmu = store_with(&[]);
    for v in [0u8, 1, 0x80, 0xA5, 0xFF] {
        for carry in [false, true] {
            let mut cpu = CPU::new();
            cpu.set_register(Reg::F, if carry { 0x10 } else { 0 });
            cpu.set_register(Reg::B, v);
            for _ in 0..9 {
                run(&mut cpu, &mut mmu, Instruction::RlReg(Reg::B));
            }
            assert_eq!(cpu.get_register(Reg::B), v);
            assert_eq!(cpu.get_c_flag(), carry);
        }
    }
}

#[test]
fn rotate_left_moves_carry_into_bit_zero() {
    let mut mmu = store_with(&[]);
    let mut cpu = CPU::new();
    cpu.set_register(Reg::F, 0x10);
    cpu.set_register(Reg::A, 0x80);
    let cost = run(&mut cpu, &mut mmu, Instruction::Rla);
    assert_eq!(cost, 4);
    assert_eq!(cpu.get_pc(), 1);
    assert_eq!(cpu.get_register(Reg::A), 0x01);
    assert!(cpu.get_c_flag());
    assert!(!cpu.get_z_flag());

    let mut cpu = CPU::new();
    cpu.set_register(Reg::C, 0x80);
    let cost = run(&mut cpu, &mut mmu, Instruction::RlReg(Reg::C));
    assert_eq!(cost, 8);
    assert_eq!(cpu.get_pc(), 2);
    assert_eq!(cpu.get_register(Reg::C), 0);
    assert!(cpu.get_z_flag());
    assert!(cpu.get_c_flag());
}

#[test]
fn relative_jump_zero_displacement() {
    let mut mmu = store_with(&[]);
    let mut cpu = CPU::new();
    cpu.set_register(Reg::F, 0x80);
    let cost = run(&mut cpu, &mut mmu, Instruction::Jr(Cond::Zero, 0));
    assert_eq!(cpu.get_pc(), 2);
    assert_eq!(cost, 12);

    let mut cpu = CPU::new();
    let cost = run(&mut cpu, &mut mmu, Instruction::Jr(Cond::Zero, 0));
    assert_eq!(cpu.get_pc(), 2);
    assert_eq!(cost, 8);
}

#[test]
fn relative_jump_applies_signed_displacement() {
    let mut mmu = store_with(&[]);
    let mut cpu = CPU::new();
    cpu.set_pair(Pair::SP, 0);
    run(&mut cpu, &mut mmu, Instruction::Jp(0x0100));
    assert_eq!(cpu.get_pc(), 0x0100);
    run(&mut cpu, &mut mmu, Instruction::Jr(Cond::Always, -2));
    assert_eq!(cpu.get_pc(), 0x0100);
    run(&mut cpu, &mut mmu, Instruction::Jr(Cond::NotZero, 0x10));
    assert_eq!(cpu.get_pc(), 0x0112);
    assert_eq!(cpu.get_cycles(), 16 + 12 + 12);
}

#[test]
fn push_then_pop_restores_value_and_stack_pointer() {
    let mut mmu = store_with(&[]);
    let mut cpu = CPU::new();
    cpu.set_pair(Pair::SP, 0xFFFE);
    cpu.push_to_stack(&mut mmu, 0xBEEF);
    assert_eq!(cpu.get_sp(), 0xFFFC);
    assert_eq!(mmu.read_byte(0xFFFD), 0xBE);
    assert_eq!(mmu.read_byte(0xFFFC), 0xEF);
    let v = cpu.pop_from_stack(&mut mmu);
    assert_eq!(v, 0xBEEF);
    assert_eq!(cpu.get_sp(), 0xFFFE);
}

#[test]
fn push_pop_pairs_through_instructions() {
    let mut mmu = store_with(&[]);
    let mut cpu = CPU::new();
    run(&mut cpu, &mut mmu, Instruction::LdPairImm(Pair::SP, 0xD000));
    run(&mut cpu, &mut mmu, Instruction::LdPairImm(Pair::BC, 0x1234));
    let cost = run(&mut cpu, &mut mmu, Instruction::Push(Pair::BC));
    assert_eq!(cost, 16);
    let cost = run(&mut cpu, &mut mmu, Instruction::Pop(Pair::DE));
    assert_eq!(cost, 12);
    assert_eq!(cpu.get_pair(Pair::DE), 0x1234);
    assert_eq!(cpu.get_sp(), 0xD000);
    run(&mut cpu, &mut mmu, Instruction::Push(Pair::BC));
    run(&mut cpu, &mut mmu, Instruction::Pop(Pair::AF));
    assert_eq!(cpu.get_register(Reg::A), 0x12);
    assert_eq!(cpu.get_register(Reg::F), 0x30);
}

#[test]
fn call_and_return() {
    let mut mmu = store_with(&[]);
    let mut cpu = CPU::new();
    run(&mut cpu, &mut mmu, Instruction::LdPairImm(Pair::SP, 0xFFFE));
    let cost = run(&mut cpu, &mut mmu, Instruction::Call(Cond::Always, 0x4000));
    assert_eq!(cost, 24);
    assert_eq!(cpu.get_pc(), 0x4000);
    assert_eq!(cpu.get_sp(), 0xFFFC);
    let cost = run(&mut cpu, &mut mmu, Instruction::Ret);
    assert_eq!(cost, 16);
    assert_eq!(cpu.get_pc(), 6);
    assert_eq!(cpu.get_sp(), 0xFFFE);
    let cost = run(&mut cpu, &mut mmu, Instruction::Call(Cond::Carry, 0x4000));
    assert_eq!(cost, 12);
    assert_eq!(cpu.get_pc(), 9);
}

#[test]
fn bit_test_flags() {
    let mut mmu = store_with(&[]);
    let mut cpu = CPU::new();
    cpu.set_register(Reg::F, 0x10);
    cpu.set_register(Reg::H, 0x80);
    let cost = run(&mut cpu, &mut mmu, Instruction::BitReg(Reg::H, 0x80));
    assert_eq!(cost, 8);
    assert!(!cpu.get_z_flag());
    assert!(cpu.get_h_flag());
    assert!(!cpu.get_n_flag());
    assert!(cpu.get_c_flag());
    assert_eq!(cpu.get_register(Reg::H), 0x80);

    cpu.set_register(Reg::H, 0x7F);
    run(&mut cpu, &mut mmu, Instruction::BitReg(Reg::H, 0x80));
    assert!(cpu.get_z_flag());
    assert!(cpu.get_h_flag());
}

#[test]
fn load_zero_then_xor_self_sets_zero() {
    let mut mmu = store_with(&[0x3E, 0x00, 0xAF]);
    let mut cpu = CPU::new();
    let mut ppu = PPU::new();
    assert_eq!(cpu.run_instruction(&mut mmu, &mut ppu), Ok(8));
    assert_eq!(cpu.run_instruction(&mut mmu, &mut ppu), Ok(4));
    assert_eq!(cpu.get_register(Reg::A), 0x00);
    assert!(cpu.get_z_flag());
    assert_eq!(cpu.get_pc(), 3);
    assert_eq!(cpu.get_cycles(), 12);
}

#[test]
fn xor_self_of_nonzero_clears_and_sets_zero() {
    let mut mmu = store_with(&[0x3E, 0x5A, 0xAF]);
    let mut cpu = CPU::new();
    let mut ppu = PPU::new();
    cpu.run_instruction(&mut mmu, &mut ppu).unwrap();
    assert_eq!(cpu.get_register(Reg::A), 0x5A);
    cpu.run_instruction(&mut mmu, &mut ppu).unwrap();
    assert_eq!(cpu.get_register(Reg::A), 0);
    assert!(cpu.get_z_flag());
    assert!(!cpu.get_c_flag());
}

const MODELED: &[u8] = &[
    0x00, 0xF3, 0xFB, 0x01, 0x11, 0x21, 0x31, 0xE0, 0xF0, 0xE2, 0x18, 0x20, 0x28, 0x30, 0x38,
    0xC3, 0x36, 0x06, 0x0E, 0x16, 0x1E, 0x26, 0x2E, 0x3E, 0x77, 0x78, 0x79, 0x7A, 0x7B, 0x7C,
    0x7D, 0x7F, 0x47, 0x4F, 0x57, 0x5F, 0x67, 0x6F, 0x1A, 0x0A, 0xEA, 0x32, 0x22, 0x2A, 0xA8,
    0xA9, 0xAA, 0xAB, 0xAC, 0xAD, 0xAE, 0xAF, 0xEE, 0x34, 0x04, 0x0C, 0x14, 0x1C, 0x24, 0x2C,
    0x3C, 0x35, 0x05, 0x0D, 0x15, 0x1D, 0x25, 0x2D, 0x3D, 0x03, 0x13, 0x23, 0x33, 0x90, 0x91,
    0x92, 0x93, 0x94, 0x95, 0x96, 0x97, 0xD6, 0x80, 0x81, 0x82, 0x83, 0x84, 0x85, 0x86, 0x87,
    0xC6, 0xB8, 0xB9, 0xBA, 0xBB, 0xBC, 0xBD, 0xBE, 0xBF, 0xFE, 0xC4, 0xD4, 0xCC, 0xDC, 0xCD,
    0xC9, 0xF5, 0xC5, 0xD5, 0xE5, 0xF1, 0xC1, 0xD1, 0xE1, 0x17,
];

#[test]
fn unknown_opcodes_are_fatal() {
    for b in 0u8..=255 {
        if b == 0xCB {
            continue;
        }
        let mmu = store_with(&[b, 0x00, 0x00]);
        let cpu = CPU::new();
        let r = cpu.decode(&mmu);
        if MODELED.contains(&b) {
            assert!(r.is_ok(), "opcode {:#X} should decode", b);
        } else {
            let e = r.unwrap_err();
            assert_eq!(e.opcode, b);
            assert!(!e.prefixed);
            assert_eq!(e.registers, cpu.registers());
        }
    }
}

#[test]
fn unknown_prefixed_opcodes_are_fatal() {
    for op in 0u8..=255 {
        let mmu = store_with(&[0xCB, op, 0x00]);
        let cpu = CPU::new();
        let r = cpu.decode(&mmu);
        let modeled = (0x10..=0x17).contains(&op) || (0x40..=0x5F).contains(&op) || op == 0x7C;
        if modeled {
            assert!(r.is_ok(), "prefixed opcode {:#X} should decode", op);
        } else {
            let e = r.unwrap_err();
            assert_eq!(e.opcode, op);
            assert!(e.prefixed);
        }
    }
}

#[test]
fn run_instruction_reports_fatal_error_and_changes_nothing() {
    let mut mmu = store_with(&[0xD3]);
    let mut cpu = CPU::new();
    let mut ppu = PPU::new();
    let r = cpu.run_instruction(&mut mmu, &mut ppu);
    assert_eq!(
        r,
        Err(FatalError { opcode: 0xD3, prefixed: false, registers: CPU::new().registers() })
    );
    assert_eq!(cpu.get_pc(), 0);
    assert_eq!(cpu.get_cycles(), 0);
}

#[test]
fn decode_reads_operands() {
    let mmu = store_with(&[0x21, 0x34, 0x12]);
    let cpu = CPU::new();
    assert_eq!(cpu.decode(&mmu), Ok(Instruction::LdPairImm(Pair::HL, 0x1234)));
    let mmu = store_with(&[0xCB, 0x7C]);
    assert_eq!(cpu.decode(&mmu), Ok(Instruction::BitReg(Reg::H, 0x80)));
    let mmu = store_with(&[0xCB, 0x46]);
    assert_eq!(cpu.decode(&mmu), Ok(Instruction::BitAtHl(0x01)));
    let mmu = store_with(&[0xCB, 0x11]);
    assert_eq!(cpu.decode(&mmu), Ok(Instruction::RlReg(Reg::C)));
    let mmu = store_with(&[0x20, 0xFB]);
    assert_eq!(cpu.decode(&mmu), Ok(Instruction::Jr(Cond::NotZero, -5)));
    let mmu = store_with(&[0x7B]);
    assert_eq!(cpu.decode(&mmu), Ok(Instruction::LdRegReg(Reg::A, Reg::E)));
    let mmu = store_with(&[0x4F]);
    assert_eq!(cpu.decode(&mmu), Ok(Instruction::LdRegReg(Reg::C, Reg::A)));
    let mmu = store_with(&[0xBE]);
    assert_eq!(cpu.decode(&mmu), Ok(Instruction::Cp(Operand::AtHl)));
}

#[test]
fn memory_loads_and_stores_through_hl() {
    let mut mmu = store_with(&[]);
    let mut cpu = CPU::new();
    run(&mut cpu, &mut mmu, Instruction::LdPairImm(Pair::HL, 0xC000));
    run(&mut cpu, &mut mmu, Instruction::LdRegImm(Reg::A, 0x42));
    let cost = run(&mut cpu, &mut mmu, Instruction::LddAtHlA);
    assert_eq!(cost, 8);
    assert_eq!(mmu.read_byte(0xC000), 0x42);
    assert_eq!(cpu.get_pair(Pair::HL), 0xBFFF);
    run(&mut cpu, &mut mmu, Instruction::LdiAtHlA);
    assert_eq!(mmu.read_byte(0xBFFF), 0x42);
    assert_eq!(cpu.get_pair(Pair::HL), 0xC000);
    run(&mut cpu, &mut mmu, Instruction::LdRegImm(Reg::A, 0));
    run(&mut cpu, &mut mmu, Instruction::LdiAAtHl);
    assert_eq!(cpu.get_register(Reg::A), 0x42);
    assert_eq!(cpu.get_pair(Pair::HL), 0xC001);
    run(&mut cpu, &mut mmu, Instruction::LdAtHlImm(0x99));
    assert_eq!(mmu.read_byte(0xC001), 0x99);
    let cost = run(&mut cpu, &mut mmu, Instruction::DecAtHl);
    assert_eq!(cost, 12);
    assert_eq!(mmu.read_byte(0xC001), 0x98);
    assert!(cpu.get_n_flag());
}

#[test]
fn port_loads_and_stores() {
    let mut mmu = store_with(&[]);
    let mut cpu = CPU::new();
    run(&mut cpu, &mut mmu, Instruction::LdRegImm(Reg::A, 0x91));
    let cost = run(&mut cpu, &mut mmu, Instruction::LdhAtImmA(0x40));
    assert_eq!(cost, 12);
    assert_eq!(mmu.read_byte(0xFF40), 0x91);
    run(&mut cpu, &mut mmu, Instruction::LdRegImm(Reg::C, 0x42));
    run(&mut cpu, &mut mmu, Instruction::LdhAtCA);
    assert_eq!(mmu.read_byte(0xFF42), 0x91);
    assert!(mmu.is_viewport_dirty());
    run(&mut cpu, &mut mmu, Instruction::LdRegImm(Reg::A, 0));
    run(&mut cpu, &mut mmu, Instruction::LdhAAtImm(0x40));
    assert_eq!(cpu.get_register(Reg::A), 0x91);
    run(&mut cpu, &mut mmu, Instruction::LdAtAddrA(0x9000));
    assert_eq!(mmu.read_byte(0x9000), 0x91);
    assert!(mmu.is_vram_dirty());
    run(&mut cpu, &mut mmu, Instruction::LdPairImm(Pair::DE, 0x9000));
    run(&mut cpu, &mut mmu, Instruction::LdRegImm(Reg::A, 0));
    run(&mut cpu, &mut mmu, Instruction::LdAAtPair(Pair::DE));
    assert_eq!(cpu.get_register(Reg::A), 0x91);
}

#[test]
fn increments_and_decrements() {
    let mut mmu = store_with(&[]);
    let mut cpu = CPU::new();
    cpu.set_register(Reg::F, 0x10);
    cpu.set_register(Reg::D, 0xFF);
    run(&mut cpu, &mut mmu, Instruction::Inc(Reg::D));
    assert_eq!(cpu.get_register(Reg::D), 0);
    assert!(cpu.get_z_flag());
    assert!(cpu.get_h_flag());
    assert!(cpu.get_c_flag());
    run(&mut cpu, &mut mmu, Instruction::Dec(Reg::D));
    assert_eq!(cpu.get_register(Reg::D), 0xFF);
    assert!(!cpu.get_z_flag());
    assert!(cpu.get_n_flag());
    assert!(cpu.get_h_flag());
    cpu.set_pair(Pair::BC, 0x00FF);
    let before = cpu.get_register(Reg::F);
    let cost = run(&mut cpu, &mut mmu, Instruction::Inc16(Pair::BC));
    assert_eq!(cost, 8);
    assert_eq!(cpu.get_pair(Pair::BC), 0x0100);
    assert_eq!(cpu.get_register(Reg::F), before);
    cpu.set_pair(Pair::HL, 0x0FFF);
    run(&mut cpu, &mut mmu, Instruction::IncHlFlags);
    assert_eq!(cpu.get_pair(Pair::HL), 0x1000);
    assert!(cpu.get_h_flag());
    assert!(!cpu.get_z_flag());
}

#[test]
fn compare_keeps_accumulator() {
    let mut mmu = store_with(&[]);
    let mut cpu = CPU::new();
    cpu.set_register(Reg::A, 0x90);
    run(&mut cpu, &mut mmu, Instruction::Cp(Operand::Imm(0x90)));
    assert_eq!(cpu.get_register(Reg::A), 0x90);
    assert!(cpu.get_z_flag());
    assert!(cpu.get_n_flag());
}

#[test]
fn interrupt_latch_and_register_moves() {
    let mut mmu = store_with(&[]);
    let mut cpu = CPU::new();
    run(&mut cpu, &mut mmu, Instruction::Ei);
    assert!(cpu.get_ime());
    run(&mut cpu, &mut mmu, Instruction::Di);
    assert!(!cpu.get_ime());
    cpu.set_register(Reg::A, 0x3C);
    let cost = run(&mut cpu, &mut mmu, Instruction::LdRegReg(Reg::L, Reg::A));
    assert_eq!(cost, 4);
    assert_eq!(cpu.get_register(Reg::L), 0x3C);
    assert_eq!(cpu.get_pc(), 3);
}

#[test]
fn flag_register_low_nibble_stays_clear() {
    let mut cpu = CPU::new();
    cpu.set_register(Reg::F, 0xFF);
    assert_eq!(cpu.get_register(Reg::F), 0xF0);
    cpu.set_pair(Pair::AF, 0x12FF);
    assert_eq!(cpu.get_pair(Pair::AF), 0x12F0);
}
