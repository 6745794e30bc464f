//! Core of an 8-bit handheld console emulator: the CPU interpreter
//! (register file, flag algebra, decoder, executor) and the display
//! controller (timing state machine and pixel pipeline), over a 64K
//! addressable store.
pub mod alu;
pub mod cpu;
pub mod instruction;
pub mod mmu;
pub mod ppu;

pub use cpu::CPU;
pub use instruction::Instruction;
pub use mmu::MMU;
pub use ppu::PPU;
