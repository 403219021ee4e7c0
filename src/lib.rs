//! An emulator core for an 8-bit game console: a cycle-counted MOS 6502, its bus, the
//! cartridge mapper, the picture processing unit's registers and the cartridge image format.

pub mod addressable;
pub mod alu;
pub mod addressing;
pub mod bus;
pub mod cartridge;
pub mod cpu;
pub mod cycle;
pub mod dma;
pub mod error;
pub mod execute;
pub mod instruction;
pub mod interrupt;
pub mod laws;
pub mod nes;
pub mod opcode;
pub mod ppu;
pub mod rom;
pub mod stack;
pub mod status;
pub mod texture;
pub mod world;
