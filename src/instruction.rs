use vstd::prelude::*;

use crate::addressing::{spec_read_addressing, Addressing, AddressingMode};
use crate::bus::{next_address, Bus};
use crate::error::Error;
use crate::opcode::Opcode;

verus! {

/// A decoded instruction: its operation and its operand.
#[derive(PartialEq, Eq, Clone, Copy, Debug, Structural)]
pub struct Instruction {
    pub opcode: Opcode,
    pub addressing: Addressing,
}

/// What an opcode byte means: an operation and the addressing mode of its operand.
#[derive(PartialEq, Eq, Clone, Copy, Debug, Structural)]
pub struct InstructionSignature {
    pub opcode: Opcode,
    pub addressing_mode: AddressingMode,
}

/// The decoding table, unofficial opcodes included; `None` for a byte that is no instruction.
pub open spec fn signature_of(byte: u8) -> Option<InstructionSignature> {
    match byte {
        0x00 => Some(InstructionSignature { opcode: Opcode::BRK, addressing_mode: AddressingMode::Implied }),
        0x01 => Some(InstructionSignature { opcode: Opcode::ORA, addressing_mode: AddressingMode::IndexedIndirect }),
        0x03 => Some(InstructionSignature { opcode: Opcode::SLO, addressing_mode: AddressingMode::IndexedIndirect }),
        0x04 => Some(InstructionSignature { opcode: Opcode::NOP, addressing_mode: AddressingMode::ZeroPage }),
        0x05 => Some(InstructionSignature { opcode: Opcode::ORA, addressing_mode: AddressingMode::ZeroPage }),
        0x06 => Some(InstructionSignature { opcode: Opcode::ASL, addressing_mode: AddressingMode::ZeroPage }),
        0x07 => Some(InstructionSignature { opcode: Opcode::SLO, addressing_mode: AddressingMode::ZeroPage }),
        0x08 => Some(InstructionSignature { opcode: Opcode::PHP, addressing_mode: AddressingMode::Implied }),
        0x09 => Some(InstructionSignature { opcode: Opcode::ORA, addressing_mode: AddressingMode::Immediate }),
        0x0A => Some(InstructionSignature { opcode: Opcode::ASL, addressing_mode: AddressingMode::Accumulator }),
        0x0C => Some(InstructionSignature { opcode: Opcode::NOP, addressing_mode: AddressingMode::Absolute }),
        0x0D => Some(InstructionSignature { opcode: Opcode::ORA, addressing_mode: AddressingMode::Absolute }),
        0x0E => Some(InstructionSignature { opcode: Opcode::ASL, addressing_mode: AddressingMode::Absolute }),
        0x0F => Some(InstructionSignature { opcode: Opcode::SLO, addressing_mode: AddressingMode::Absolute }),
        0x10 => Some(InstructionSignature { opcode: Opcode::BPL, addressing_mode: AddressingMode::Relative }),
        0x11 => Some(InstructionSignature { opcode: Opcode::ORA, addressing_mode: AddressingMode::IndirectIndexed }),
        0x13 => Some(InstructionSignature { opcode: Opcode::SLO, addressing_mode: AddressingMode::IndirectIndexed }),
        0x14 => Some(InstructionSignature { opcode: Opcode::NOP, addressing_mode: AddressingMode::ZeroPageX }),
        0x15 => Some(InstructionSignature { opcode: Opcode::ORA, addressing_mode: AddressingMode::ZeroPageX }),
        0x16 => Some(InstructionSignature { opcode: Opcode::ASL, addressing_mode: AddressingMode::ZeroPageX }),
        0x17 => Some(InstructionSignature { opcode: Opcode::SLO, addressing_mode: AddressingMode::ZeroPageX }),
        0x18 => Some(InstructionSignature { opcode: Opcode::CLC, addressing_mode: AddressingMode::Implied }),
        0x19 => Some(InstructionSignature { opcode: Opcode::ORA, addressing_mode: AddressingMode::AbsoluteY }),
        0x1A => Some(InstructionSignature { opcode: Opcode::NOP, addressing_mode: AddressingMode::Implied }),
        0x1B => Some(InstructionSignature { opcode: Opcode::SLO, addressing_mode: AddressingMode::AbsoluteY }),
        0x1C => Some(InstructionSignature { opcode: Opcode::NOP, addressing_mode: AddressingMode::AbsoluteX }),
        0x1D => Some(InstructionSignature { opcode: Opcode::ORA, addressing_mode: AddressingMode::AbsoluteX }),
        0x1E => Some(InstructionSignature { opcode: Opcode::ASL, addressing_mode: AddressingMode::AbsoluteX }),
        0x1F => Some(InstructionSignature { opcode: Opcode::SLO, addressing_mode: AddressingMode::AbsoluteX }),
        0x20 => Some(InstructionSignature { opcode: Opcode::JSR, addressing_mode: AddressingMode::Absolute }),
        0x21 => Some(InstructionSignature { opcode: Opcode::AND, addressing_mode: AddressingMode::IndexedIndirect }),
        0x23 => Some(InstructionSignature { opcode: Opcode::RLA, addressing_mode: AddressingMode::IndexedIndirect }),
        0x24 => Some(InstructionSignature { opcode: Opcode::BIT, addressing_mode: AddressingMode::ZeroPage }),
        0x25 => Some(InstructionSignature { opcode: Opcode::AND, addressing_mode: AddressingMode::ZeroPage }),
        0x26 => Some(InstructionSignature { opcode: Opcode::ROL, addressing_mode: AddressingMode::ZeroPage }),
        0x27 => Some(InstructionSignature { opcode: Opcode::RLA, addressing_mode: AddressingMode::ZeroPage }),
        0x28 => Some(InstructionSignature { opcode: Opcode::PLP, addressing_mode: AddressingMode::Implied }),
        0x29 => Some(InstructionSignature { opcode: Opcode::AND, addressing_mode: AddressingMode::Immediate }),
        0x2A => Some(InstructionSignature { opcode: Opcode::ROL, addressing_mode: AddressingMode::Accumulator }),
        0x2C => Some(InstructionSignature { opcode: Opcode::BIT, addressing_mode: AddressingMode::Absolute }),
        0x2D => Some(InstructionSignature { opcode: Opcode::AND, addressing_mode: AddressingMode::Absolute }),
        0x2E => Some(InstructionSignature { opcode: Opcode::ROL, addressing_mode: AddressingMode::Absolute }),
        0x2F => Some(InstructionSignature { opcode: Opcode::RLA, addressing_mode: AddressingMode::Absolute }),
        0x30 => Some(InstructionSignature { opcode: Opcode::BMI, addressing_mode: AddressingMode::Relative }),
        0x31 => Some(InstructionSignature { opcode: Opcode::AND, addressing_mode: AddressingMode::IndirectIndexed }),
        0x33 => Some(InstructionSignature { opcode: Opcode::RLA, addressing_mode: AddressingMode::IndirectIndexed }),
        0x34 => Some(InstructionSignature { opcode: Opcode::NOP, addressing_mode: AddressingMode::ZeroPageX }),
        0x35 => Some(InstructionSignature { opcode: Opcode::AND, addressing_mode: AddressingMode::ZeroPageX }),
        0x36 => Some(InstructionSignature { opcode: Opcode::ROL, addressing_mode: AddressingMode::ZeroPageX }),
        0x37 => Some(InstructionSignature { opcode: Opcode::RLA, addressing_mode: AddressingMode::ZeroPageX }),
        0x38 => Some(InstructionSignature { opcode: Opcode::SEC, addressing_mode: AddressingMode::Implied }),
        0x39 => Some(InstructionSignature { opcode: Opcode::AND, addressing_mode: AddressingMode::AbsoluteY }),
        0x3A => Some(InstructionSignature { opcode: Opcode::NOP, addressing_mode: AddressingMode::Implied }),
        0x3B => Some(InstructionSignature { opcode: Opcode::RLA, addressing_mode: AddressingMode::AbsoluteY }),
        0x3C => Some(InstructionSignature { opcode: Opcode::NOP, addressing_mode: AddressingMode::AbsoluteX }),
        0x3D => Some(InstructionSignature { opcode: Opcode::AND, addressing_mode: AddressingMode::AbsoluteX }),
        0x3E => Some(InstructionSignature { opcode: Opcode::ROL, addressing_mode: AddressingMode::AbsoluteX }),
        0x3F => Some(InstructionSignature { opcode: Opcode::RLA, addressing_mode: AddressingMode::AbsoluteX }),
        0x40 => Some(InstructionSignature { opcode: Opcode::RTI, addressing_mode: AddressingMode::Implied }),
        0x41 => Some(InstructionSignature { opcode: Opcode::EOR, addressing_mode: AddressingMode::IndexedIndirect }),
        0x43 => Some(InstructionSignature { opcode: Opcode::SRE, addressing_mode: AddressingMode::IndexedIndirect }),
        0x44 => Some(InstructionSignature { opcode: Opcode::NOP, addressing_mode: AddressingMode::ZeroPage }),
        0x45 => Some(InstructionSignature { opcode: Opcode::EOR, addressing_mode: AddressingMode::ZeroPage }),
        0x46 => Some(InstructionSignature { opcode: Opcode::LSR, addressing_mode: AddressingMode::ZeroPage }),
        0x47 => Some(InstructionSignature { opcode: Opcode::SRE, addressing_mode: AddressingMode::ZeroPage }),
        0x48 => Some(InstructionSignature { opcode: Opcode::PHA, addressing_mode: AddressingMode::Implied }),
        0x49 => Some(InstructionSignature { opcode: Opcode::EOR, addressing_mode: AddressingMode::Immediate }),
        0x4A => Some(InstructionSignature { opcode: Opcode::LSR, addressing_mode: AddressingMode::Accumulator }),
        0x4C => Some(InstructionSignature { opcode: Opcode::JMP, addressing_mode: AddressingMode::Absolute }),
        0x4D => Some(InstructionSignature { opcode: Opcode::EOR, addressing_mode: AddressingMode::Absolute }),
        0x4E => Some(InstructionSignature { opcode: Opcode::LSR, addressing_mode: AddressingMode::Absolute }),
        0x4F => Some(InstructionSignature { opcode: Opcode::SRE, addressing_mode: AddressingMode::Absolute }),
        0x50 => Some(InstructionSignature { opcode: Opcode::BVC, addressing_mode: AddressingMode::Relative }),
        0x51 => Some(InstructionSignature { opcode: Opcode::EOR, addressing_mode: AddressingMode::IndirectIndexed }),
        0x53 => Some(InstructionSignature { opcode: Opcode::SRE, addressing_mode: AddressingMode::IndirectIndexed }),
        0x54 => Some(InstructionSignature { opcode: Opcode::NOP, addressing_mode: AddressingMode::ZeroPageX }),
        0x55 => Some(InstructionSignature { opcode: Opcode::EOR, addressing_mode: AddressingMode::ZeroPageX }),
        0x56 => Some(InstructionSignature { opcode: Opcode::LSR, addressing_mode: AddressingMode::ZeroPageX }),
        0x57 => Some(InstructionSignature { opcode: Opcode::SRE, addressing_mode: AddressingMode::ZeroPageX }),
        0x58 => Some(InstructionSignature { opcode: Opcode::CLI, addressing_mode: AddressingMode::Implied }),
        0x59 => Some(InstructionSignature { opcode: Opcode::EOR, addressing_mode: AddressingMode::AbsoluteY }),
        0x5A => Some(InstructionSignature { opcode: Opcode::NOP, addressing_mode: AddressingMode::Implied }),
        0x5B => Some(InstructionSignature { opcode: Opcode::SRE, addressing_mode: AddressingMode::AbsoluteY }),
        0x5C => Some(InstructionSignature { opcode: Opcode::NOP, addressing_mode: AddressingMode::AbsoluteX }),
        0x5D => Some(InstructionSignature { opcode: Opcode::EOR, addressing_mode: AddressingMode::AbsoluteX }),
        0x5E => Some(InstructionSignature { opcode: Opcode::LSR, addressing_mode: AddressingMode::AbsoluteX }),
        0x5F => Some(InstructionSignature { opcode: Opcode::SRE, addressing_mode: AddressingMode::AbsoluteX }),
        0x60 => Some(InstructionSignature { opcode: Opcode::RTS, addressing_mode: AddressingMode::Implied }),
        0x61 => Some(InstructionSignature { opcode: Opcode::ADC, addressing_mode: AddressingMode::IndexedIndirect }),
        0x63 => Some(InstructionSignature { opcode: Opcode::RRA, addressing_mode: AddressingMode::IndexedIndirect }),
        0x64 => Some(InstructionSignature { opcode: Opcode::NOP, addressing_mode: AddressingMode::ZeroPage }),
        0x65 => Some(InstructionSignature { opcode: Opcode::ADC, addressing_mode: AddressingMode::ZeroPage }),
        0x66 => Some(InstructionSignature { opcode: Opcode::ROR, addressing_mode: AddressingMode::ZeroPage }),
        0x67 => Some(InstructionSignature { opcode: Opcode::RRA, addressing_mode: AddressingMode::ZeroPage }),
        0x68 => Some(InstructionSignature { opcode: Opcode::PLA, addressing_mode: AddressingMode::Implied }),
        0x69 => Some(InstructionSignature { opcode: Opcode::ADC, addressing_mode: AddressingMode::Immediate }),
        0x6A => Some(InstructionSignature { opcode: Opcode::ROR, addressing_mode: AddressingMode::Accumulator }),
        0x6C => Some(InstructionSignature { opcode: Opcode::JMP, addressing_mode: AddressingMode::Indirect }),
        0x6D => Some(InstructionSignature { opcode: Opcode::ADC, addressing_mode: AddressingMode::Absolute }),
        0x6E => Some(InstructionSignature { opcode: Opcode::ROR, addressing_mode: AddressingMode::Absolute }),
        0x6F => Some(InstructionSignature { opcode: Opcode::RRA, addressing_mode: AddressingMode::Absolute }),
        0x70 => Some(InstructionSignature { opcode: Opcode::BVS, addressing_mode: AddressingMode::Relative }),
        0x71 => Some(InstructionSignature { opcode: Opcode::ADC, addressing_mode: AddressingMode::IndirectIndexed }),
        0x73 => Some(InstructionSignature { opcode: Opcode::RRA, addressing_mode: AddressingMode::IndirectIndexed }),
        0x74 => Some(InstructionSignature { opcode: Opcode::NOP, addressing_mode: AddressingMode::ZeroPageX }),
        0x75 => Some(InstructionSignature { opcode: Opcode::ADC, addressing_mode: AddressingMode::ZeroPageX }),
        0x76 => Some(InstructionSignature { opcode: Opcode::ROR, addressing_mode: AddressingMode::ZeroPageX }),
        0x77 => Some(InstructionSignature { opcode: Opcode::RRA, addressing_mode: AddressingMode::ZeroPageX }),
        0x78 => Some(InstructionSignature { opcode: Opcode::SEI, addressing_mode: AddressingMode::Implied }),
        0x79 => Some(InstructionSignature { opcode: Opcode::ADC, addressing_mode: AddressingMode::AbsoluteY }),
        0x7A => Some(InstructionSignature { opcode: Opcode::NOP, addressing_mode: AddressingMode::Implied }),
        0x7B => Some(InstructionSignature { opcode: Opcode::RRA, addressing_mode: AddressingMode::AbsoluteY }),
        0x7C => Some(InstructionSignature { opcode: Opcode::NOP, addressing_mode: AddressingMode::AbsoluteX }),
        0x7D => Some(InstructionSignature { opcode: Opcode::ADC, addressing_mode: AddressingMode::AbsoluteX }),
        0x7E => Some(InstructionSignature { opcode: Opcode::ROR, addressing_mode: AddressingMode::AbsoluteX }),
        0x7F => Some(InstructionSignature { opcode: Opcode::RRA, addressing_mode: AddressingMode::AbsoluteX }),
        0x80 => Some(InstructionSignature { opcode: Opcode::NOP, addressing_mode: AddressingMode::Immediate }),
        0x81 => Some(InstructionSignature { opcode: Opcode::STA, addressing_mode: AddressingMode::IndexedIndirect }),
        0x83 => Some(InstructionSignature { opcode: Opcode::SAX, addressing_mode: AddressingMode::IndexedIndirect }),
        0x84 => Some(InstructionSignature { opcode: Opcode::STY, addressing_mode: AddressingMode::ZeroPage }),
        0x85 => Some(InstructionSignature { opcode: Opcode::STA, addressing_mode: AddressingMode::ZeroPage }),
        0x86 => Some(InstructionSignature { opcode: Opcode::STX, addressing_mode: AddressingMode::ZeroPage }),
        0x87 => Some(InstructionSignature { opcode: Opcode::SAX, addressing_mode: AddressingMode::ZeroPage }),
        0x88 => Some(InstructionSignature { opcode: Opcode::DEY, addressing_mode: AddressingMode::Implied }),
        0x8A => Some(InstructionSignature { opcode: Opcode::TXA, addressing_mode: AddressingMode::Implied }),
        0x8C => Some(InstructionSignature { opcode: Opcode::STY, addressing_mode: AddressingMode::Absolute }),
        0x8D => Some(InstructionSignature { opcode: Opcode::STA, addressing_mode: AddressingMode::Absolute }),
        0x8E => Some(InstructionSignature { opcode: Opcode::STX, addressing_mode: AddressingMode::Absolute }),
        0x8F => Some(InstructionSignature { opcode: Opcode::SAX, addressing_mode: AddressingMode::Absolute }),
        0x90 => Some(InstructionSignature { opcode: Opcode::BCC, addressing_mode: AddressingMode::Relative }),
        0x91 => Some(InstructionSignature { opcode: Opcode::STA, addressing_mode: AddressingMode::IndirectIndexed }),
        0x94 => Some(InstructionSignature { opcode: Opcode::STY, addressing_mode: AddressingMode::ZeroPageX }),
        0x95 => Some(InstructionSignature { opcode: Opcode::STA, addressing_mode: AddressingMode::ZeroPageX }),
        0x96 => Some(InstructionSignature { opcode: Opcode::STX, addressing_mode: AddressingMode::ZeroPageY }),
        0x97 => Some(InstructionSignature { opcode: Opcode::SAX, addressing_mode: AddressingMode::ZeroPageY }),
        0x98 => Some(InstructionSignature { opcode: Opcode::TYA, addressing_mode: AddressingMode::Implied }),
        0x99 => Some(InstructionSignature { opcode: Opcode::STA, addressing_mode: AddressingMode::AbsoluteY }),
        0x9A => Some(InstructionSignature { opcode: Opcode::TXS, addressing_mode: AddressingMode::Implied }),
        0x9D => Some(InstructionSignature { opcode: Opcode::STA, addressing_mode: AddressingMode::AbsoluteX }),
        0xA0 => Some(InstructionSignature { opcode: Opcode::LDY, addressing_mode: AddressingMode::Immediate }),
        0xA1 => Some(InstructionSignature { opcode: Opcode::LDA, addressing_mode: AddressingMode::IndexedIndirect }),
        0xA2 => Some(InstructionSignature { opcode: Opcode::LDX, addressing_mode: AddressingMode::Immediate }),
        0xA3 => Some(InstructionSignature { opcode: Opcode::LAX, addressing_mode: AddressingMode::IndexedIndirect }),
        0xA4 => Some(InstructionSignature { opcode: Opcode::LDY, addressing_mode: AddressingMode::ZeroPage }),
        0xA5 => Some(InstructionSignature { opcode: Opcode::LDA, addressing_mode: AddressingMode::ZeroPage }),
        0xA6 => Some(InstructionSignature { opcode: Opcode::LDX, addressing_mode: AddressingMode::ZeroPage }),
        0xA7 => Some(InstructionSignature { opcode: Opcode::LAX, addressing_mode: AddressingMode::ZeroPage }),
        0xA8 => Some(InstructionSignature { opcode: Opcode::TAY, addressing_mode: AddressingMode::Implied }),
        0xA9 => Some(InstructionSignature { opcode: Opcode::LDA, addressing_mode: AddressingMode::Immediate }),
        0xAA => Some(InstructionSignature { opcode: Opcode::TAX, addressing_mode: AddressingMode::Implied }),
        0xAC => Some(InstructionSignature { opcode: Opcode::LDY, addressing_mode: AddressingMode::Absolute }),
        0xAD => Some(InstructionSignature { opcode: Opcode::LDA, addressing_mode: AddressingMode::Absolute }),
        0xAE => Some(InstructionSignature { opcode: Opcode::LDX, addressing_mode: AddressingMode::Absolute }),
        0xAF => Some(InstructionSignature { opcode: Opcode::LAX, addressing_mode: AddressingMode::Absolute }),
        0xB0 => Some(InstructionSignature { opcode: Opcode::BCS, addressing_mode: AddressingMode::Relative }),
        0xB1 => Some(InstructionSignature { opcode: Opcode::LDA, addressing_mode: AddressingMode::IndirectIndexed }),
        0xB3 => Some(InstructionSignature { opcode: Opcode::LAX, addressing_mode: AddressingMode::IndirectIndexed }),
        0xB4 => Some(InstructionSignature { opcode: Opcode::LDY, addressing_mode: AddressingMode::ZeroPageX }),
        0xB5 => Some(InstructionSignature { opcode: Opcode::LDA, addressing_mode: AddressingMode::ZeroPageX }),
        0xB6 => Some(InstructionSignature { opcode: Opcode::LDX, addressing_mode: AddressingMode::ZeroPageY }),
        0xB7 => Some(InstructionSignature { opcode: Opcode::LAX, addressing_mode: AddressingMode::ZeroPageY }),
        0xB8 => Some(InstructionSignature { opcode: Opcode::CLV, addressing_mode: AddressingMode::Implied }),
        0xB9 => Some(InstructionSignature { opcode: Opcode::LDA, addressing_mode: AddressingMode::AbsoluteY }),
        0xBA => Some(InstructionSignature { opcode: Opcode::TSX, addressing_mode: AddressingMode::Implied }),
        0xBC => Some(InstructionSignature { opcode: Opcode::LDY, addressing_mode: AddressingMode::AbsoluteX }),
        0xBD => Some(InstructionSignature { opcode: Opcode::LDA, addressing_mode: AddressingMode::AbsoluteX }),
        0xBE => Some(InstructionSignature { opcode: Opcode::LDX, addressing_mode: AddressingMode::AbsoluteY }),
        0xBF => Some(InstructionSignature { opcode: Opcode::LAX, addressing_mode: AddressingMode::AbsoluteY }),
        0xC0 => Some(InstructionSignature { opcode: Opcode::CPY, addressing_mode: AddressingMode::Immediate }),
        0xC1 => Some(InstructionSignature { opcode: Opcode::CMP, addressing_mode: AddressingMode::IndexedIndirect }),
        0xC3 => Some(InstructionSignature { opcode: Opcode::DCP, addressing_mode: AddressingMode::IndexedIndirect }),
        0xC4 => Some(InstructionSignature { opcode: Opcode::CPY, addressing_mode: AddressingMode::ZeroPage }),
        0xC5 => Some(InstructionSignature { opcode: Opcode::CMP, addressing_mode: AddressingMode::ZeroPage }),
        0xC6 => Some(InstructionSignature { opcode: Opcode::DEC, addressing_mode: AddressingMode::ZeroPage }),
        0xC7 => Some(InstructionSignature { opcode: Opcode::DCP, addressing_mode: AddressingMode::ZeroPage }),
        0xC8 => Some(InstructionSignature { opcode: Opcode::INY, addressing_mode: AddressingMode::Implied }),
        0xC9 => Some(InstructionSignature { opcode: Opcode::CMP, addressing_mode: AddressingMode::Immediate }),
        0xCA => Some(InstructionSignature { opcode: Opcode::DEX, addressing_mode: AddressingMode::Implied }),
        0xCC => Some(InstructionSignature { opcode: Opcode::CPY, addressing_mode: AddressingMode::Absolute }),
        0xCD => Some(InstructionSignature { opcode: Opcode::CMP, addressing_mode: AddressingMode::Absolute }),
        0xCE => Some(InstructionSignature { opcode: Opcode::DEC, addressing_mode: AddressingMode::Absolute }),
        0xCF => Some(InstructionSignature { opcode: Opcode::DCP, addressing_mode: AddressingMode::Absolute }),
        0xD0 => Some(InstructionSignature { opcode: Opcode::BNE, addressing_mode: AddressingMode::Relative }),
        0xD1 => Some(InstructionSignature { opcode: Opcode::CMP, addressing_mode: AddressingMode::IndirectIndexed }),
        0xD3 => Some(InstructionSignature { opcode: Opcode::DCP, addressing_mode: AddressingMode::IndirectIndexed }),
        0xD4 => Some(InstructionSignature { opcode: Opcode::NOP, addressing_mode: AddressingMode::ZeroPageX }),
        0xD5 => Some(InstructionSignature { opcode: Opcode::CMP, addressing_mode: AddressingMode::ZeroPageX }),
        0xD6 => Some(InstructionSignature { opcode: Opcode::DEC, addressing_mode: AddressingMode::ZeroPageX }),
        0xD7 => Some(InstructionSignature { opcode: Opcode::DCP, addressing_mode: AddressingMode::ZeroPageX }),
        0xD8 => Some(InstructionSignature { opcode: Opcode::CLD, addressing_mode: AddressingMode::Implied }),
        0xD9 => Some(InstructionSignature { opcode: Opcode::CMP, addressing_mode: AddressingMode::AbsoluteY }),
        0xDA => Some(InstructionSignature { opcode: Opcode::NOP, addressing_mode: AddressingMode::Implied }),
        0xDB => Some(InstructionSignature { opcode: Opcode::DCP, addressing_mode: AddressingMode::AbsoluteY }),
        0xDC => Some(InstructionSignature { opcode: Opcode::NOP, addressing_mode: AddressingMode::AbsoluteX }),
        0xDD => Some(InstructionSignature { opcode: Opcode::CMP, addressing_mode: AddressingMode::AbsoluteX }),
        0xDE => Some(InstructionSignature { opcode: Opcode::DEC, addressing_mode: AddressingMode::AbsoluteX }),
        0xDF => Some(InstructionSignature { opcode: Opcode::DCP, addressing_mode: AddressingMode::AbsoluteX }),
        0xE0 => Some(InstructionSignature { opcode: Opcode::CPX, addressing_mode: AddressingMode::Immediate }),
        0xE1 => Some(InstructionSignature { opcode: Opcode::SBC, addressing_mode: AddressingMode::IndexedIndirect }),
        0xE3 => Some(InstructionSignature { opcode: Opcode::ISC, addressing_mode: AddressingMode::IndexedIndirect }),
        0xE4 => Some(InstructionSignature { opcode: Opcode::CPX, addressing_mode: AddressingMode::ZeroPage }),
        0xE5 => Some(InstructionSignature { opcode: Opcode::SBC, addressing_mode: AddressingMode::ZeroPage }),
        0xE6 => Some(InstructionSignature { opcode: Opcode::INC, addressing_mode: AddressingMode::ZeroPage }),
        0xE7 => Some(InstructionSignature { opcode: Opcode::ISC, addressing_mode: AddressingMode::ZeroPage }),
        0xE8 => Some(InstructionSignature { opcode: Opcode::INX, addressing_mode: AddressingMode::Implied }),
        0xE9 => Some(InstructionSignature { opcode: Opcode::SBC, addressing_mode: AddressingMode::Immediate }),
        0xEA => Some(InstructionSignature { opcode: Opcode::NOP, addressing_mode: AddressingMode::Implied }),
        0xEB => Some(InstructionSignature { opcode: Opcode::SBC, addressing_mode: AddressingMode::Immediate }),
        0xEC => Some(InstructionSignature { opcode: Opcode::CPX, addressing_mode: AddressingMode::Absolute }),
        0xED => Some(InstructionSignature { opcode: Opcode::SBC, addressing_mode: AddressingMode::Absolute }),
        0xEE => Some(InstructionSignature { opcode: Opcode::INC, addressing_mode: AddressingMode::Absolute }),
        0xEF => Some(InstructionSignature { opcode: Opcode::ISC, addressing_mode: AddressingMode::Absolute }),
        0xF0 => Some(InstructionSignature { opcode: Opcode::BEQ, addressing_mode: AddressingMode::Relative }),
        0xF1 => Some(InstructionSignature { opcode: Opcode::SBC, addressing_mode: AddressingMode::IndirectIndexed }),
        0xF3 => Some(InstructionSignature { opcode: Opcode::ISC, addressing_mode: AddressingMode::IndirectIndexed }),
        0xF4 => Some(InstructionSignature { opcode: Opcode::NOP, addressing_mode: AddressingMode::ZeroPageX }),
        0xF5 => Some(InstructionSignature { opcode: Opcode::SBC, addressing_mode: AddressingMode::ZeroPageX }),
        0xF6 => Some(InstructionSignature { opcode: Opcode::INC, addressing_mode: AddressingMode::ZeroPageX }),
        0xF7 => Some(InstructionSignature { opcode: Opcode::ISC, addressing_mode: AddressingMode::ZeroPageX }),
        0xF8 => Some(InstructionSignature { opcode: Opcode::SED, addressing_mode: AddressingMode::Implied }),
        0xF9 => Some(InstructionSignature { opcode: Opcode::SBC, addressing_mode: AddressingMode::AbsoluteY }),
        0xFA => Some(InstructionSignature { opcode: Opcode::NOP, addressing_mode: AddressingMode::Implied }),
        0xFB => Some(InstructionSignature { opcode: Opcode::ISC, addressing_mode: AddressingMode::AbsoluteY }),
        0xFC => Some(InstructionSignature { opcode: Opcode::NOP, addressing_mode: AddressingMode::AbsoluteX }),
        0xFD => Some(InstructionSignature { opcode: Opcode::SBC, addressing_mode: AddressingMode::AbsoluteX }),
        0xFE => Some(InstructionSignature { opcode: Opcode::INC, addressing_mode: AddressingMode::AbsoluteX }),
        0xFF => Some(InstructionSignature { opcode: Opcode::ISC, addressing_mode: AddressingMode::AbsoluteX }),
        _ => None,
    }
}

/// An instruction decoded at `start`: the instruction, the cycles its bytes took to read,
/// the bytes it takes up, and the bus state afterwards.
pub open spec fn spec_decode<B: Bus>(start: u16, state: B::V) -> (Result<(Instruction, u32, u16), Error>, B::V) {
    let byte = B::peek(state, start);
    let s1 = B::after_read(state, start);
    match signature_of(byte) {
        None => (Err(Error::InvalidInstruction(byte)), s1),
        Some(signature) => {
            let ((addressing, cycles, bytes), s2) = spec_read_addressing::<B>(
                signature.addressing_mode,
                next_address(start),
                s1,
            );
            (
                Ok(
                    (
                        Instruction { opcode: signature.opcode, addressing },
                        (cycles + 1) as u32,
                        (bytes + 1) as u16,
                    ),
                ),
                s2,
            )
        },
    }
}

impl Instruction {
    pub fn new(opcode: Opcode, addressing: Addressing) -> (r: Instruction)
        ensures
            r == (Instruction { opcode, addressing }),
    {
        Instruction { opcode, addressing }
    }

    /// Decodes the instruction at `start`, operand bytes included.
    pub fn try_from_bus<B: Bus>(start: u16, bus: &mut B) -> (r: Result<(Instruction, u32, u16), Error>)
        ensures
            (r, final(bus)@) == spec_decode::<B>(start, old(bus)@),
            B::inv(old(bus)@) ==> B::inv(final(bus)@),
    {
        let (signature, signature_cycles, signature_bytes) = InstructionSignature::try_from_bus(start, bus)?;
        let (addressing, addressing_cycles, addressing_bytes) = signature.addressing_mode.read_addressing(
            start.wrapping_add(signature_bytes),
            bus,
        );
        let instruction = Instruction { opcode: signature.opcode, addressing };
        Ok((instruction, signature_cycles + addressing_cycles, signature_bytes + addressing_bytes))
    }
}

impl InstructionSignature {
    pub fn new(opcode: Opcode, addressing_mode: AddressingMode) -> (r: InstructionSignature)
        ensures
            r == (InstructionSignature { opcode, addressing_mode }),
    {
        InstructionSignature { opcode, addressing_mode }
    }

    /// Looks `byte` up in the decoding table.
    pub fn try_from_byte(byte: u8) -> (r: Result<InstructionSignature, Error>)
        ensures
            r == match signature_of(byte) {
                Some(s) => Ok(s),
                None => Err(Error::InvalidInstruction(byte)),
            },
    {
        let entry = match byte {
            0x00 => Some(InstructionSignature { opcode: Opcode::BRK, addressing_mode: AddressingMode::Implied }),
            0x01 => Some(InstructionSignature { opcode: Opcode::ORA, addressing_mode: AddressingMode::IndexedIndirect }),
            0x03 => Some(InstructionSignature { opcode: Opcode::SLO, addressing_mode: AddressingMode::IndexedIndirect }),
            0x04 => Some(InstructionSignature { opcode: Opcode::NOP, addressing_mode: AddressingMode::ZeroPage }),
            0x05 => Some(InstructionSignature { opcode: Opcode::ORA, addressing_mode: AddressingMode::ZeroPage }),
            0x06 => Some(InstructionSignature { opcode: Opcode::ASL, addressing_mode: AddressingMode::ZeroPage }),
            0x07 => Some(InstructionSignature { opcode: Opcode::SLO, addressing_mode: AddressingMode::ZeroPage }),
            0x08 => Some(InstructionSignature { opcode: Opcode::PHP, addressing_mode: AddressingMode::Implied }),
            0x09 => Some(InstructionSignature { opcode: Opcode::ORA, addressing_mode: AddressingMode::Immediate }),
            0x0A => Some(InstructionSignature { opcode: Opcode::ASL, addressing_mode: AddressingMode::Accumulator }),
            0x0C => Some(InstructionSignature { opcode: Opcode::NOP, addressing_mode: AddressingMode::Absolute }),
            0x0D => Some(InstructionSignature { opcode: Opcode::ORA, addressing_mode: AddressingMode::Absolute }),
            0x0E => Some(InstructionSignature { opcode: Opcode::ASL, addressing_mode: AddressingMode::Absolute }),
            0x0F => Some(InstructionSignature { opcode: Opcode::SLO, addressing_mode: AddressingMode::Absolute }),
            0x10 => Some(InstructionSignature { opcode: Opcode::BPL, addressing_mode: AddressingMode::Relative }),
            0x11 => Some(InstructionSignature { opcode: Opcode::ORA, addressing_mode: AddressingMode::IndirectIndexed }),
            0x13 => Some(InstructionSignature { opcode: Opcode::SLO, addressing_mode: AddressingMode::IndirectIndexed }),
            0x14 => Some(InstructionSignature { opcode: Opcode::NOP, addressing_mode: AddressingMode::ZeroPageX }),
            0x15 => Some(InstructionSignature { opcode: Opcode::ORA, addressing_mode: AddressingMode::ZeroPageX }),
            0x16 => Some(InstructionSignature { opcode: Opcode::ASL, addressing_mode: AddressingMode::ZeroPageX }),
            0x17 => Some(InstructionSignature { opcode: Opcode::SLO, addressing_mode: AddressingMode::ZeroPageX }),
            0x18 => Some(InstructionSignature { opcode: Opcode::CLC, addressing_mode: AddressingMode::Implied }),
            0x19 => Some(InstructionSignature { opcode: Opcode::ORA, addressing_mode: AddressingMode::AbsoluteY }),
            0x1A => Some(InstructionSignature { opcode: Opcode::NOP, addressing_mode: AddressingMode::Implied }),
            0x1B => Some(InstructionSignature { opcode: Opcode::SLO, addressing_mode: AddressingMode::AbsoluteY }),
            0x1C => Some(InstructionSignature { opcode: Opcode::NOP, addressing_mode: AddressingMode::AbsoluteX }),
            0x1D => Some(InstructionSignature { opcode: Opcode::ORA, addressing_mode: AddressingMode::AbsoluteX }),
            0x1E => Some(InstructionSignature { opcode: Opcode::ASL, addressing_mode: AddressingMode::AbsoluteX }),
            0x1F => Some(InstructionSignature { opcode: Opcode::SLO, addressing_mode: AddressingMode::AbsoluteX }),
            0x20 => Some(InstructionSignature { opcode: Opcode::JSR, addressing_mode: AddressingMode::Absolute }),
            0x21 => Some(InstructionSignature { opcode: Opcode::AND, addressing_mode: AddressingMode::IndexedIndirect }),
            0x23 => Some(InstructionSignature { opcode: Opcode::RLA, addressing_mode: AddressingMode::IndexedIndirect }),
            0x24 => Some(InstructionSignature { opcode: Opcode::BIT, addressing_mode: AddressingMode::ZeroPage }),
            0x25 => Some(InstructionSignature { opcode: Opcode::AND, addressing_mode: AddressingMode::ZeroPage }),
            0x26 => Some(InstructionSignature { opcode: Opcode::ROL, addressing_mode: AddressingMode::ZeroPage }),
            0x27 => Some(InstructionSignature { opcode: Opcode::RLA, addressing_mode: AddressingMode::ZeroPage }),
            0x28 => Some(InstructionSignature { opcode: Opcode::PLP, addressing_mode: AddressingMode::Implied }),
            0x29 => Some(InstructionSignature { opcode: Opcode::AND, addressing_mode: AddressingMode::Immediate }),
            0x2A => Some(InstructionSignature { opcode: Opcode::ROL, addressing_mode: AddressingMode::Accumulator }),
            0x2C => Some(InstructionSignature { opcode: Opcode::BIT, addressing_mode: AddressingMode::Absolute }),
            0x2D => Some(InstructionSignature { opcode: Opcode::AND, addressing_mode: AddressingMode::Absolute }),
            0x2E => Some(InstructionSignature { opcode: Opcode::ROL, addressing_mode: AddressingMode::Absolute }),
            0x2F => Some(InstructionSignature { opcode: Opcode::RLA, addressing_mode: AddressingMode::Absolute }),
            0x30 => Some(InstructionSignature { opcode: Opcode::BMI, addressing_mode: AddressingMode::Relative }),
            0x31 => Some(InstructionSignature { opcode: Opcode::AND, addressing_mode: AddressingMode::IndirectIndexed }),
            0x33 => Some(InstructionSignature { opcode: Opcode::RLA, addressing_mode: AddressingMode::IndirectIndexed }),
            0x34 => Some(InstructionSignature { opcode: Opcode::NOP, addressing_mode: AddressingMode::ZeroPageX }),
            0x35 => Some(InstructionSignature { opcode: Opcode::AND, addressing_mode: AddressingMode::ZeroPageX }),
            0x36 => Some(InstructionSignature { opcode: Opcode::ROL, addressing_mode: AddressingMode::ZeroPageX }),
            0x37 => Some(InstructionSignature { opcode: Opcode::RLA, addressing_mode: AddressingMode::ZeroPageX }),
            0x38 => Some(InstructionSignature { opcode: Opcode::SEC, addressing_mode: AddressingMode::Implied }),
            0x39 => Some(InstructionSignature { opcode: Opcode::AND, addressing_mode: AddressingMode::AbsoluteY }),
            0x3A => Some(InstructionSignature { opcode: Opcode::NOP, addressing_mode: AddressingMode::Implied }),
            0x3B => Some(InstructionSignature { opcode: Opcode::RLA, addressing_mode: AddressingMode::AbsoluteY }),
            0x3C => Some(InstructionSignature { opcode: Opcode::NOP, addressing_mode: AddressingMode::AbsoluteX }),
            0x3D => Some(InstructionSignature { opcode: Opcode::AND, addressing_mode: AddressingMode::AbsoluteX }),
            0x3E => Some(InstructionSignature { opcode: Opcode::ROL, addressing_mode: AddressingMode::AbsoluteX }),
            0x3F => Some(InstructionSignature { opcode: Opcode::RLA, addressing_mode: AddressingMode::AbsoluteX }),
            0x40 => Some(InstructionSignature { opcode: Opcode::RTI, addressing_mode: AddressingMode::Implied }),
            0x41 => Some(InstructionSignature { opcode: Opcode::EOR, addressing_mode: AddressingMode::IndexedIndirect }),
            0x43 => Some(InstructionSignature { opcode: Opcode::SRE, addressing_mode: AddressingMode::IndexedIndirect }),
            0x44 => Some(InstructionSignature { opcode: Opcode::NOP, addressing_mode: AddressingMode::ZeroPage }),
            0x45 => Some(InstructionSignature { opcode: Opcode::EOR, addressing_mode: AddressingMode::ZeroPage }),
            0x46 => Some(InstructionSignature { opcode: Opcode::LSR, addressing_mode: AddressingMode::ZeroPage }),
            0x47 => Some(InstructionSignature { opcode: Opcode::SRE, addressing_mode: AddressingMode::ZeroPage }),
            0x48 => Some(InstructionSignature { opcode: Opcode::PHA, addressing_mode: AddressingMode::Implied }),
            0x49 => Some(InstructionSignature { opcode: Opcode::EOR, addressing_mode: AddressingMode::Immediate }),
            0x4A => Some(InstructionSignature { opcode: Opcode::LSR, addressing_mode: AddressingMode::Accumulator }),
            0x4C => Some(InstructionSignature { opcode: Opcode::JMP, addressing_mode: AddressingMode::Absolute }),
            0x4D => Some(InstructionSignature { opcode: Opcode::EOR, addressing_mode: AddressingMode::Absolute }),
            0x4E => Some(InstructionSignature { opcode: Opcode::LSR, addressing_mode: AddressingMode::Absolute }),
            0x4F => Some(InstructionSignature { opcode: Opcode::SRE, addressing_mode: AddressingMode::Absolute }),
            0x50 => Some(InstructionSignature { opcode: Opcode::BVC, addressing_mode: AddressingMode::Relative }),
            0x51 => Some(InstructionSignature { opcode: Opcode::EOR, addressing_mode: AddressingMode::IndirectIndexed }),
            0x53 => Some(InstructionSignature { opcode: Opcode::SRE, addressing_mode: AddressingMode::IndirectIndexed }),
            0x54 => Some(InstructionSignature { opcode: Opcode::NOP, addressing_mode: AddressingMode::ZeroPageX }),
            0x55 => Some(InstructionSignature { opcode: Opcode::EOR, addressing_mode: AddressingMode::ZeroPageX }),
            0x56 => Some(InstructionSignature { opcode: Opcode::LSR, addressing_mode: AddressingMode::ZeroPageX }),
            0x57 => Some(InstructionSignature { opcode: Opcode::SRE, addressing_mode: AddressingMode::ZeroPageX }),
            0x58 => Some(InstructionSignature { opcode: Opcode::CLI, addressing_mode: AddressingMode::Implied }),
            0x59 => Some(InstructionSignature { opcode: Opcode::EOR, addressing_mode: AddressingMode::AbsoluteY }),
            0x5A => Some(InstructionSignature { opcode: Opcode::NOP, addressing_mode: AddressingMode::Implied }),
            0x5B => Some(InstructionSignature { opcode: Opcode::SRE, addressing_mode: AddressingMode::AbsoluteY }),
            0x5C => Some(InstructionSignature { opcode: Opcode::NOP, addressing_mode: AddressingMode::AbsoluteX }),
            0x5D => Some(InstructionSignature { opcode: Opcode::EOR, addressing_mode: AddressingMode::AbsoluteX }),
            0x5E => Some(InstructionSignature { opcode: Opcode::LSR, addressing_mode: AddressingMode::AbsoluteX }),
            0x5F => Some(InstructionSignature { opcode: Opcode::SRE, addressing_mode: AddressingMode::AbsoluteX }),
            0x60 => Some(InstructionSignature { opcode: Opcode::RTS, addressing_mode: AddressingMode::Implied }),
            0x61 => Some(InstructionSignature { opcode: Opcode::ADC, addressing_mode: AddressingMode::IndexedIndirect }),
            0x63 => Some(InstructionSignature { opcode: Opcode::RRA, addressing_mode: AddressingMode::IndexedIndirect }),
            0x64 => Some(InstructionSignature { opcode: Opcode::NOP, addressing_mode: AddressingMode::ZeroPage }),
            0x65 => Some(InstructionSignature { opcode: Opcode::ADC, addressing_mode: AddressingMode::ZeroPage }),
            0x66 => Some(InstructionSignature { opcode: Opcode::ROR, addressing_mode: AddressingMode::ZeroPage }),
            0x67 => Some(InstructionSignature { opcode: Opcode::RRA, addressing_mode: AddressingMode::ZeroPage }),
            0x68 => Some(InstructionSignature { opcode: Opcode::PLA, addressing_mode: AddressingMode::Implied }),
            0x69 => Some(InstructionSignature { opcode: Opcode::ADC, addressing_mode: AddressingMode::Immediate }),
            0x6A => Some(InstructionSignature { opcode: Opcode::ROR, addressing_mode: AddressingMode::Accumulator }),
            0x6C => Some(InstructionSignature { opcode: Opcode::JMP, addressing_mode: AddressingMode::Indirect }),
            0x6D => Some(InstructionSignature { opcode: Opcode::ADC, addressing_mode: AddressingMode::Absolute }),
            0x6E => Some(InstructionSignature { opcode: Opcode::ROR, addressing_mode: AddressingMode::Absolute }),
            0x6F => Some(InstructionSignature { opcode: Opcode::RRA, addressing_mode: AddressingMode::Absolute }),
            0x70 => Some(InstructionSignature { opcode: Opcode::BVS, addressing_mode: AddressingMode::Relative }),
            0x71 => Some(InstructionSignature { opcode: Opcode::ADC, addressing_mode: AddressingMode::IndirectIndexed }),
            0x73 => Some(InstructionSignature { opcode: Opcode::RRA, addressing_mode: AddressingMode::IndirectIndexed }),
            0x74 => Some(InstructionSignature { opcode: Opcode::NOP, addressing_mode: AddressingMode::ZeroPageX }),
            0x75 => Some(InstructionSignature { opcode: Opcode::ADC, addressing_mode: AddressingMode::ZeroPageX }),
            0x76 => Some(InstructionSignature { opcode: Opcode::ROR, addressing_mode: AddressingMode::ZeroPageX }),
            0x77 => Some(InstructionSignature { opcode: Opcode::RRA, addressing_mode: AddressingMode::ZeroPageX }),
            0x78 => Some(InstructionSignature { opcode: Opcode::SEI, addressing_mode: AddressingMode::Implied }),
            0x79 => Some(InstructionSignature { opcode: Opcode::ADC, addressing_mode: AddressingMode::AbsoluteY }),
            0x7A => Some(InstructionSignature { opcode: Opcode::NOP, addressing_mode: AddressingMode::Implied }),
            0x7B => Some(InstructionSignature { opcode: Opcode::RRA, addressing_mode: AddressingMode::AbsoluteY }),
            0x7C => Some(InstructionSignature { opcode: Opcode::NOP, addressing_mode: AddressingMode::AbsoluteX }),
            0x7D => Some(InstructionSignature { opcode: Opcode::ADC, addressing_mode: AddressingMode::AbsoluteX }),
            0x7E => Some(InstructionSignature { opcode: Opcode::ROR, addressing_mode: AddressingMode::AbsoluteX }),
            0x7F => Some(InstructionSignature { opcode: Opcode::RRA, addressing_mode: AddressingMode::AbsoluteX }),
            0x80 => Some(InstructionSignature { opcode: Opcode::NOP, addressing_mode: AddressingMode::Immediate }),
            0x81 => Some(InstructionSignature { opcode: Opcode::STA, addressing_mode: AddressingMode::IndexedIndirect }),
            0x83 => Some(InstructionSignature { opcode: Opcode::SAX, addressing_mode: AddressingMode::IndexedIndirect }),
            0x84 => Some(InstructionSignature { opcode: Opcode::STY, addressing_mode: AddressingMode::ZeroPage }),
            0x85 => Some(InstructionSignature { opcode: Opcode::STA, addressing_mode: AddressingMode::ZeroPage }),
            0x86 => Some(InstructionSignature { opcode: Opcode::STX, addressing_mode: AddressingMode::ZeroPage }),
            0x87 => Some(InstructionSignature { opcode: Opcode::SAX, addressing_mode: AddressingMode::ZeroPage }),
            0x88 => Some(InstructionSignature { opcode: Opcode::DEY, addressing_mode: AddressingMode::Implied }),
            0x8A => Some(InstructionSignature { opcode: Opcode::TXA, addressing_mode: AddressingMode::Implied }),
            0x8C => Some(InstructionSignature { opcode: Opcode::STY, addressing_mode: AddressingMode::Absolute }),
            0x8D => Some(InstructionSignature { opcode: Opcode::STA, addressing_mode: AddressingMode::Absolute }),
            0x8E => Some(InstructionSignature { opcode: Opcode::STX, addressing_mode: AddressingMode::Absolute }),
            0x8F => Some(InstructionSignature { opcode: Opcode::SAX, addressing_mode: AddressingMode::Absolute }),
            0x90 => Some(InstructionSignature { opcode: Opcode::BCC, addressing_mode: AddressingMode::Relative }),
            0x91 => Some(InstructionSignature { opcode: Opcode::STA, addressing_mode: AddressingMode::IndirectIndexed }),
            0x94 => Some(InstructionSignature { opcode: Opcode::STY, addressing_mode: AddressingMode::ZeroPageX }),
            0x95 => Some(InstructionSignature { opcode: Opcode::STA, addressing_mode: AddressingMode::ZeroPageX }),
            0x96 => Some(InstructionSignature { opcode: Opcode::STX, addressing_mode: AddressingMode::ZeroPageY }),
            0x97 => Some(InstructionSignature { opcode: Opcode::SAX, addressing_mode: AddressingMode::ZeroPageY }),
            0x98 => Some(InstructionSignature { opcode: Opcode::TYA, addressing_mode: AddressingMode::Implied }),
            0x99 => Some(InstructionSignature { opcode: Opcode::STA, addressing_mode: AddressingMode::AbsoluteY }),
            0x9A => Some(InstructionSignature { opcode: Opcode::TXS, addressing_mode: AddressingMode::Implied }),
            0x9D => Some(InstructionSignature { opcode: Opcode::STA, addressing_mode: AddressingMode::AbsoluteX }),
            0xA0 => Some(InstructionSignature { opcode: Opcode::LDY, addressing_mode: AddressingMode::Immediate }),
            0xA1 => Some(InstructionSignature { opcode: Opcode::LDA, addressing_mode: AddressingMode::IndexedIndirect }),
            0xA2 => Some(InstructionSignature { opcode: Opcode::LDX, addressing_mode: AddressingMode::Immediate }),
            0xA3 => Some(InstructionSignature { opcode: Opcode::LAX, addressing_mode: AddressingMode::IndexedIndirect }),
            0xA4 => Some(InstructionSignature { opcode: Opcode::LDY, addressing_mode: AddressingMode::ZeroPage }),
            0xA5 => Some(InstructionSignature { opcode: Opcode::LDA, addressing_mode: AddressingMode::ZeroPage }),
            0xA6 => Some(InstructionSignature { opcode: Opcode::LDX, addressing_mode: AddressingMode::ZeroPage }),
            0xA7 => Some(InstructionSignature { opcode: Opcode::LAX, addressing_mode: AddressingMode::ZeroPage }),
            0xA8 => Some(InstructionSignature { opcode: Opcode::TAY, addressing_mode: AddressingMode::Implied }),
            0xA9 => Some(InstructionSignature { opcode: Opcode::LDA, addressing_mode: AddressingMode::Immediate }),
            0xAA => Some(InstructionSignature { opcode: Opcode::TAX, addressing_mode: AddressingMode::Implied }),
            0xAC => Some(InstructionSignature { opcode: Opcode::LDY, addressing_mode: AddressingMode::Absolute }),
            0xAD => Some(InstructionSignature { opcode: Opcode::LDA, addressing_mode: AddressingMode::Absolute }),
            0xAE => Some(InstructionSignature { opcode: Opcode::LDX, addressing_mode: AddressingMode::Absolute }),
            0xAF => Some(InstructionSignature { opcode: Opcode::LAX, addressing_mode: AddressingMode::Absolute }),
            0xB0 => Some(InstructionSignature { opcode: Opcode::BCS, addressing_mode: AddressingMode::Relative }),
            0xB1 => Some(InstructionSignature { opcode: Opcode::LDA, addressing_mode: AddressingMode::IndirectIndexed }),
            0xB3 => Some(InstructionSignature { opcode: Opcode::LAX, addressing_mode: AddressingMode::IndirectIndexed }),
            0xB4 => Some(InstructionSignature { opcode: Opcode::LDY, addressing_mode: AddressingMode::ZeroPageX }),
            0xB5 => Some(InstructionSignature { opcode: Opcode::LDA, addressing_mode: AddressingMode::ZeroPageX }),
            0xB6 => Some(InstructionSignature { opcode: Opcode::LDX, addressing_mode: AddressingMode::ZeroPageY }),
            0xB7 => Some(InstructionSignature { opcode: Opcode::LAX, addressing_mode: AddressingMode::ZeroPageY }),
            0xB8 => Some(InstructionSignature { opcode: Opcode::CLV, addressing_mode: AddressingMode::Implied }),
            0xB9 => Some(InstructionSignature { opcode: Opcode::LDA, addressing_mode: AddressingMode::AbsoluteY }),
            0xBA => Some(InstructionSignature { opcode: Opcode::TSX, addressing_mode: AddressingMode::Implied }),
            0xBC => Some(InstructionSignature { opcode: Opcode::LDY, addressing_mode: AddressingMode::AbsoluteX }),
            0xBD => Some(InstructionSignature { opcode: Opcode::LDA, addressing_mode: AddressingMode::AbsoluteX }),
            0xBE => Some(InstructionSignature { opcode: Opcode::LDX, addressing_mode: AddressingMode::AbsoluteY }),
            0xBF => Some(InstructionSignature { opcode: Opcode::LAX, addressing_mode: AddressingMode::AbsoluteY }),
            0xC0 => Some(InstructionSignature { opcode: Opcode::CPY, addressing_mode: AddressingMode::Immediate }),
            0xC1 => Some(InstructionSignature { opcode: Opcode::CMP, addressing_mode: AddressingMode::IndexedIndirect }),
            0xC3 => Some(InstructionSignature { opcode: Opcode::DCP, addressing_mode: AddressingMode::IndexedIndirect }),
            0xC4 => Some(InstructionSignature { opcode: Opcode::CPY, addressing_mode: AddressingMode::ZeroPage }),
            0xC5 => Some(InstructionSignature { opcode: Opcode::CMP, addressing_mode: AddressingMode::ZeroPage }),
            0xC6 => Some(InstructionSignature { opcode: Opcode::DEC, addressing_mode: AddressingMode::ZeroPage }),
            0xC7 => Some(InstructionSignature { opcode: Opcode::DCP, addressing_mode: AddressingMode::ZeroPage }),
            0xC8 => Some(InstructionSignature { opcode: Opcode::INY, addressing_mode: AddressingMode::Implied }),
            0xC9 => Some(InstructionSignature { opcode: Opcode::CMP, addressing_mode: AddressingMode::Immediate }),
            0xCA => Some(InstructionSignature { opcode: Opcode::DEX, addressing_mode: AddressingMode::Implied }),
            0xCC => Some(InstructionSignature { opcode: Opcode::CPY, addressing_mode: AddressingMode::Absolute }),
            0xCD => Some(InstructionSignature { opcode: Opcode::CMP, addressing_mode: AddressingMode::Absolute }),
            0xCE => Some(InstructionSignature { opcode: Opcode::DEC, addressing_mode: AddressingMode::Absolute }),
            0xCF => Some(InstructionSignature { opcode: Opcode::DCP, addressing_mode: AddressingMode::Absolute }),
            0xD0 => Some(InstructionSignature { opcode: Opcode::BNE, addressing_mode: AddressingMode::Relative }),
            0xD1 => Some(InstructionSignature { opcode: Opcode::CMP, addressing_mode: AddressingMode::IndirectIndexed }),
            0xD3 => Some(InstructionSignature { opcode: Opcode::DCP, addressing_mode: AddressingMode::IndirectIndexed }),
            0xD4 => Some(InstructionSignature { opcode: Opcode::NOP, addressing_mode: AddressingMode::ZeroPageX }),
            0xD5 => Some(InstructionSignature { opcode: Opcode::CMP, addressing_mode: AddressingMode::ZeroPageX }),
            0xD6 => Some(InstructionSignature { opcode: Opcode::DEC, addressing_mode: AddressingMode::ZeroPageX }),
            0xD7 => Some(InstructionSignature { opcode: Opcode::DCP, addressing_mode: AddressingMode::ZeroPageX }),
            0xD8 => Some(InstructionSignature { opcode: Opcode::CLD, addressing_mode: AddressingMode::Implied }),
            0xD9 => Some(InstructionSignature { opcode: Opcode::CMP, addressing_mode: AddressingMode::AbsoluteY }),
            0xDA => Some(InstructionSignature { opcode: Opcode::NOP, addressing_mode: AddressingMode::Implied }),
            0xDB => Some(InstructionSignature { opcode: Opcode::DCP, addressing_mode: AddressingMode::AbsoluteY }),
            0xDC => Some(InstructionSignature { opcode: Opcode::NOP, addressing_mode: AddressingMode::AbsoluteX }),
            0xDD => Some(InstructionSignature { opcode: Opcode::CMP, addressing_mode: AddressingMode::AbsoluteX }),
            0xDE => Some(InstructionSignature { opcode: Opcode::DEC, addressing_mode: AddressingMode::AbsoluteX }),
            0xDF => Some(InstructionSignature { opcode: Opcode::DCP, addressing_mode: AddressingMode::AbsoluteX }),
            0xE0 => Some(InstructionSignature { opcode: Opcode::CPX, addressing_mode: AddressingMode::Immediate }),
            0xE1 => Some(InstructionSignature { opcode: Opcode::SBC, addressing_mode: AddressingMode::IndexedIndirect }),
            0xE3 => Some(InstructionSignature { opcode: Opcode::ISC, addressing_mode: AddressingMode::IndexedIndirect }),
            0xE4 => Some(InstructionSignature { opcode: Opcode::CPX, addressing_mode: AddressingMode::ZeroPage }),
            0xE5 => Some(InstructionSignature { opcode: Opcode::SBC, addressing_mode: AddressingMode::ZeroPage }),
            0xE6 => Some(InstructionSignature { opcode: Opcode::INC, addressing_mode: AddressingMode::ZeroPage }),
            0xE7 => Some(InstructionSignature { opcode: Opcode::ISC, addressing_mode: AddressingMode::ZeroPage }),
            0xE8 => Some(InstructionSignature { opcode: Opcode::INX, addressing_mode: AddressingMode::Implied }),
            0xE9 => Some(InstructionSignature { opcode: Opcode::SBC, addressing_mode: AddressingMode::Immediate }),
            0xEA => Some(InstructionSignature { opcode: Opcode::NOP, addressing_mode: AddressingMode::Implied }),
            0xEB => Some(InstructionSignature { opcode: Opcode::SBC, addressing_mode: AddressingMode::Immediate }),
            0xEC => Some(InstructionSignature { opcode: Opcode::CPX, addressing_mode: AddressingMode::Absolute }),
            0xED => Some(InstructionSignature { opcode: Opcode::SBC, addressing_mode: AddressingMode::Absolute }),
            0xEE => Some(InstructionSignature { opcode: Opcode::INC, addressing_mode: AddressingMode::Absolute }),
            0xEF => Some(InstructionSignature { opcode: Opcode::ISC, addressing_mode: AddressingMode::Absolute }),
            0xF0 => Some(InstructionSignature { opcode: Opcode::BEQ, addressing_mode: AddressingMode::Relative }),
            0xF1 => Some(InstructionSignature { opcode: Opcode::SBC, addressing_mode: AddressingMode::IndirectIndexed }),
            0xF3 => Some(InstructionSignature { opcode: Opcode::ISC, addressing_mode: AddressingMode::IndirectIndexed }),
            0xF4 => Some(InstructionSignature { opcode: Opcode::NOP, addressing_mode: AddressingMode::ZeroPageX }),
            0xF5 => Some(InstructionSignature { opcode: Opcode::SBC, addressing_mode: AddressingMode::ZeroPageX }),
            0xF6 => Some(InstructionSignature { opcode: Opcode::INC, addressing_mode: AddressingMode::ZeroPageX }),
            0xF7 => Some(InstructionSignature { opcode: Opcode::ISC, addressing_mode: AddressingMode::ZeroPageX }),
            0xF8 => Some(InstructionSignature { opcode: Opcode::SED, addressing_mode: AddressingMode::Implied }),
            0xF9 => Some(InstructionSignature { opcode: Opcode::SBC, addressing_mode: AddressingMode::AbsoluteY }),
            0xFA => Some(InstructionSignature { opcode: Opcode::NOP, addressing_mode: AddressingMode::Implied }),
            0xFB => Some(InstructionSignature { opcode: Opcode::ISC, addressing_mode: AddressingMode::AbsoluteY }),
            0xFC => Some(InstructionSignature { opcode: Opcode::NOP, addressing_mode: AddressingMode::AbsoluteX }),
            0xFD => Some(InstructionSignature { opcode: Opcode::SBC, addressing_mode: AddressingMode::AbsoluteX }),
            0xFE => Some(InstructionSignature { opcode: Opcode::INC, addressing_mode: AddressingMode::AbsoluteX }),
            0xFF => Some(InstructionSignature { opcode: Opcode::ISC, addressing_mode: AddressingMode::AbsoluteX }),
            _ => None,
        };
        match entry {
            Some(signature) => Ok(signature),
            None => Err(Error::InvalidInstruction(byte)),
        }
    }

    /// Reads and decodes the opcode byte at `address`, which takes one cycle and one byte.
    pub fn try_from_bus<B: Bus>(address: u16, bus: &mut B) -> (r: Result<(InstructionSignature, u32, u16), Error>)
        ensures
            final(bus)@ == B::after_read(old(bus)@, address),
            r == match signature_of(B::peek(old(bus)@, address)) {
                Some(s) => Ok((s, 1u32, 1u16)),
                None => Err(Error::InvalidInstruction(B::peek(old(bus)@, address))),
            },
            B::inv(old(bus)@) ==> B::inv(final(bus)@),
    {
        let byte = bus.read_u8(address);
        let signature = InstructionSignature::try_from_byte(byte)?;
        Ok((signature, 1, 1))
    }
}

} // verus!
