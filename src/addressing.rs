use vstd::prelude::*;

use crate::addressable::{Addressable, AddressableTarget};
use crate::bus::{hi_byte, lo_byte, make_word, next_address, word, Bus};
use crate::cpu::MOS6502;
use crate::error::Error;

verus! {

/// Where an instruction takes its operand from, before the operand bytes are read.
#[derive(PartialEq, Eq, Clone, Copy, Debug, Structural)]
pub enum AddressingMode {
    /// No operand (`INX`).
    Implied,
    /// The accumulator (`ROL A`).
    Accumulator,
    /// A literal byte (`LDA #$AA`).
    Immediate,
    /// An address in the first 256 bytes (`LDA $01`).
    ZeroPage,
    /// A zero-page address plus `X`, wrapping within the zero page (`LDA $00,X`).
    ZeroPageX,
    /// A zero-page address plus `Y`, wrapping within the zero page (`LDX $00,Y`).
    ZeroPageY,
    /// A signed offset from the program counter (branches).
    Relative,
    /// A 16-bit pointer to the target address (`JMP ($1234)`).
    Indirect,
    /// A zero-page pointer found at an operand plus `X` (`LDA ($20,X)`).
    IndexedIndirect,
    /// A zero-page pointer, plus `Y` after it is followed (`LDA ($20),Y`).
    IndirectIndexed,
    /// A 16-bit address (`LDA $1234`).
    Absolute,
    /// A 16-bit address plus `X` (`LDA $1234,X`).
    AbsoluteX,
    /// A 16-bit address plus `Y` (`LDA $1234,Y`).
    AbsoluteY,
}

/// An addressing mode together with the operand bytes read for it.
#[derive(PartialEq, Eq, Clone, Copy, Debug, Structural)]
pub enum Addressing {
    Implied,
    Accumulator,
    Immediate(u8),
    ZeroPage(u8),
    ZeroPageX(u8),
    ZeroPageY(u8),
    Relative(u8),
    IndexedIndirect(u8),
    IndirectIndexed(u8),
    Indirect(u16),
    Absolute(u16),
    AbsoluteX(u16),
    AbsoluteY(u16),
}

/// The operand read for `mode` from the bytes that follow an opcode at `start`: the
/// addressing, the cycles taken, the bytes used, and the bus state afterwards. `Implied`
/// and `Accumulator` use no byte but still read the one at `start`.
pub open spec fn spec_read_addressing<B: Bus>(mode: AddressingMode, start: u16, state: B::V) -> (
    (Addressing, u32, u16),
    B::V,
) {
    let byte = B::peek(state, start);
    let after_byte = B::after_read(state, start);
    let next = next_address(start);
    let w = word(byte, B::peek(after_byte, next));
    let after_word = B::after_read(after_byte, next);
    match mode {
        AddressingMode::Implied => ((Addressing::Implied, 1, 0), after_byte),
        AddressingMode::Accumulator => ((Addressing::Accumulator, 1, 0), after_byte),
        AddressingMode::Immediate => ((Addressing::Immediate(byte), 1, 1), after_byte),
        AddressingMode::ZeroPage => ((Addressing::ZeroPage(byte), 1, 1), after_byte),
        AddressingMode::ZeroPageX => ((Addressing::ZeroPageX(byte), 1, 1), after_byte),
        AddressingMode::ZeroPageY => ((Addressing::ZeroPageY(byte), 1, 1), after_byte),
        AddressingMode::Relative => ((Addressing::Relative(byte), 1, 1), after_byte),
        AddressingMode::IndexedIndirect => ((Addressing::IndexedIndirect(byte), 1, 1), after_byte),
        AddressingMode::IndirectIndexed => ((Addressing::IndirectIndexed(byte), 1, 1), after_byte),
        AddressingMode::Indirect => ((Addressing::Indirect(w), 2, 2), after_word),
        AddressingMode::Absolute => ((Addressing::Absolute(w), 2, 2), after_word),
        AddressingMode::AbsoluteX => ((Addressing::AbsoluteX(w), 2, 2), after_word),
        AddressingMode::AbsoluteY => ((Addressing::AbsoluteY(w), 2, 2), after_word),
    }
}

impl AddressingMode {
    /// Reads the operand bytes of this mode from `start` onwards.
    pub fn read_addressing<B: Bus>(&self, start: u16, bus: &mut B) -> (r: (Addressing, u32, u16))
        ensures
            (r, final(bus)@) == spec_read_addressing::<B>(*self, start, old(bus)@),
            B::inv(old(bus)@) ==> B::inv(final(bus)@),
    {
        match self {
            AddressingMode::Implied => {
                let _ = bus.read_u8(start);
                (Addressing::Implied, 1, 0)
            },
            AddressingMode::Accumulator => {
                let _ = bus.read_u8(start);
                (Addressing::Accumulator, 1, 0)
            },
            AddressingMode::Immediate => (Addressing::Immediate(bus.read_u8(start)), 1, 1),
            AddressingMode::ZeroPage => (Addressing::ZeroPage(bus.read_u8(start)), 1, 1),
            AddressingMode::ZeroPageX => (Addressing::ZeroPageX(bus.read_u8(start)), 1, 1),
            AddressingMode::ZeroPageY => (Addressing::ZeroPageY(bus.read_u8(start)), 1, 1),
            AddressingMode::Relative => (Addressing::Relative(bus.read_u8(start)), 1, 1),
            AddressingMode::IndexedIndirect => (Addressing::IndexedIndirect(bus.read_u8(start)), 1, 1),
            AddressingMode::IndirectIndexed => (Addressing::IndirectIndexed(bus.read_u8(start)), 1, 1),
            AddressingMode::Indirect => (Addressing::Indirect(bus.read_u16(start)), 2, 2),
            AddressingMode::Absolute => (Addressing::Absolute(bus.read_u16(start)), 2, 2),
            AddressingMode::AbsoluteX => (Addressing::AbsoluteX(bus.read_u16(start)), 2, 2),
            AddressingMode::AbsoluteY => (Addressing::AbsoluteY(bus.read_u16(start)), 2, 2),
        }
    }
}

/// The zero-page address `m + index`, wrapping within the zero page.
pub open spec fn zero_page_indexed(m: u8, index: u8) -> u16 {
    ((m + index) % 256) as u16
}

/// The target of a branch with offset byte `offset` (a two's-complement value) taken at `pc`.
pub open spec fn relative_target(pc: u16, offset: u8) -> u16 {
    if offset < 128 {
        ((pc + offset) % 0x10000) as u16
    } else {
        ((pc + offset + 0x10000 - 256) % 0x10000) as u16
    }
}

/// Where the indirect jump through `a` takes the high byte of its target: `a + 1`, except
/// that the low byte wraps within the page, so `$xxFF` is followed by `$xx00`.
pub open spec fn indirect_hi_address(a: u16) -> u16 {
    (hi_byte(a) * 256 + (lo_byte(a) + 1) % 256) as u16
}

/// `base + index` with wrap-around, and whether adding `index` to the low byte carried.
pub open spec fn indexed(base: u16, index: u8) -> (u16, bool) {
    (((base + index) % 0x10000) as u16, lo_byte(base) + index > 255)
}

pub open spec fn memory_target(
    addressing: Addressing,
    address: u16,
    crossed: bool,
    cycles: u32,
) -> Result<(Addressable, u32), Error> {
    Ok(
        (
            Addressable {
                addressing,
                target: AddressableTarget::Memory(address),
                page_boundary_crossed: crossed,
            },
            cycles,
        ),
    )
}

/// The pointer at zero-page `m + x` (both bytes read within the zero page), followed.
pub open spec fn spec_indexed_indirect<B: Bus>(addressing: Addressing, m: u8, x: u8, state: B::V) -> (
    Result<(Addressable, u32), Error>,
    B::V,
) {
    let p = zero_page_indexed(m, x);
    let q = zero_page_indexed(p as u8, 1);
    let lo = B::peek(state, p);
    let s1 = B::after_read(state, p);
    let hi = B::peek(s1, q);
    (memory_target(addressing, word(lo, hi), false, 3), B::after_read(s1, q))
}

/// The pointer at zero-page `m` (both bytes read within the zero page), plus `y`.
pub open spec fn spec_indirect_indexed<B: Bus>(addressing: Addressing, m: u8, y: u8, state: B::V) -> (
    Result<(Addressable, u32), Error>,
    B::V,
) {
    let q = zero_page_indexed(m, 1);
    let lo = B::peek(state, m as u16);
    let s1 = B::after_read(state, m as u16);
    let hi = B::peek(s1, q);
    let (target, crossed) = indexed(word(lo, hi), y);
    (memory_target(addressing, target, crossed, 2), B::after_read(s1, q))
}

/// The pointer at `a`, its high byte read from `indirect_hi_address(a)`.
pub open spec fn spec_indirect<B: Bus>(addressing: Addressing, a: u16, state: B::V) -> (
    Result<(Addressable, u32), Error>,
    B::V,
) {
    let lo = B::peek(state, a);
    let s1 = B::after_read(state, a);
    let hi = B::peek(s1, indirect_hi_address(a));
    (memory_target(addressing, word(lo, hi), false, 2), B::after_read(s1, indirect_hi_address(a)))
}

/// What `read_addressable` resolves `addressing` to, for a processor with index registers
/// `x` and `y` and program counter `pc`, with the bus in `state`: the target, the page
/// crossing flag and the cycles the resolution takes, and the bus state afterwards.
pub open spec fn spec_resolve<B: Bus>(addressing: Addressing, x: u8, y: u8, pc: u16, state: B::V) -> (
    Result<(Addressable, u32), Error>,
    B::V,
) {
    match addressing {
        Addressing::Implied => (Err(Error::InvalidTargetAddressAttempt(addressing)), state),
        Addressing::Accumulator => (
            Ok(
                (
                    Addressable {
                        addressing,
                        target: AddressableTarget::Accumulator,
                        page_boundary_crossed: false,
                    },
                    0,
                ),
            ),
            state,
        ),
        Addressing::Immediate(v) => (
            Ok(
                (
                    Addressable {
                        addressing,
                        target: AddressableTarget::Immediate(v),
                        page_boundary_crossed: false,
                    },
                    0,
                ),
            ),
            state,
        ),
        Addressing::ZeroPage(m) => (memory_target(addressing, m as u16, false, 0), state),
        Addressing::ZeroPageX(m) => (
            memory_target(addressing, zero_page_indexed(m, x), false, 1),
            B::after_read(state, m as u16),
        ),
        Addressing::ZeroPageY(m) => (
            memory_target(addressing, zero_page_indexed(m, y), false, 1),
            B::after_read(state, m as u16),
        ),
        Addressing::Relative(offset) => {
            let target = relative_target(pc, offset);
            (memory_target(addressing, target, hi_byte(target) != hi_byte(pc), 0), state)
        },
        Addressing::IndexedIndirect(m) => spec_indexed_indirect::<B>(addressing, m, x, state),
        Addressing::IndirectIndexed(m) => spec_indirect_indexed::<B>(addressing, m, y, state),
        Addressing::Indirect(a) => spec_indirect::<B>(addressing, a, state),
        Addressing::Absolute(a) => (memory_target(addressing, a, false, 0), state),
        Addressing::AbsoluteX(a) => {
            let (target, crossed) = indexed(a, x);
            (memory_target(addressing, target, crossed, 0), state)
        },
        Addressing::AbsoluteY(a) => {
            let (target, crossed) = indexed(a, y);
            (memory_target(addressing, target, crossed, 0), state)
        },
    }
}

fn zero_page_add(m: u8, index: u8) -> (r: u16)
    ensures
        r == zero_page_indexed(m, index),
{
    m.wrapping_add(index) as u16
}

fn index_address(base: u16, index: u8) -> (r: (u16, bool))
    ensures
        r == indexed(base, index),
{
    let crossed = (base % 256) + (index as u16) > 255;
    (base.wrapping_add(index as u16), crossed)
}

fn target_indexed_indirect<B: Bus>(addressing: Addressing, m: u8, x: u8, bus: &mut B) -> (r: Result<
    (Addressable, u32),
    Error,
>)
    ensures
        (r, final(bus)@) == spec_indexed_indirect::<B>(addressing, m, x, old(bus)@),
        B::inv(old(bus)@) ==> B::inv(final(bus)@),
{
    let p = zero_page_add(m, x);
    let q = zero_page_add(p as u8, 1);
    let lo = bus.read_u8(p);
    let hi = bus.read_u8(q);
    Ok((Addressable::memory(addressing, make_word(lo, hi), false), 3))
}

fn target_indirect_indexed<B: Bus>(addressing: Addressing, m: u8, y: u8, bus: &mut B) -> (r: Result<
    (Addressable, u32),
    Error,
>)
    ensures
        (r, final(bus)@) == spec_indirect_indexed::<B>(addressing, m, y, old(bus)@),
        B::inv(old(bus)@) ==> B::inv(final(bus)@),
{
    let q = zero_page_add(m, 1);
    let lo = bus.read_u8(m as u16);
    let hi = bus.read_u8(q);
    let (target, crossed) = index_address(make_word(lo, hi), y);
    Ok((Addressable::memory(addressing, target, crossed), 2))
}

fn indirect_hi(a: u16) -> (r: u16)
    ensures
        r == indirect_hi_address(a),
{
    (a / 256) * 256 + (a % 256 + 1) % 256
}

fn target_indirect<B: Bus>(addressing: Addressing, a: u16, bus: &mut B) -> (r: Result<(Addressable, u32), Error>)
    ensures
        (r, final(bus)@) == spec_indirect::<B>(addressing, a, old(bus)@),
        B::inv(old(bus)@) ==> B::inv(final(bus)@),
{
    let lo = bus.read_u8(a);
    let hi = bus.read_u8(indirect_hi(a));
    Ok((Addressable::memory(addressing, make_word(lo, hi), false), 2))
}

fn relative(pc: u16, offset: u8) -> (r: u16)
    ensures
        r == relative_target(pc, offset),
{
    if offset < 128 {
        pc.wrapping_add(offset as u16)
    } else {
        pc.wrapping_sub(256u16 - offset as u16)
    }
}

impl Addressing {
    /// Resolves the operand into a target. Zero-page indexing reads the unindexed address
    /// once and throws the byte away, as the hardware does.
    pub fn read_addressable<B: Bus>(self, cpu: &MOS6502, bus: &mut B) -> (r: Result<(Addressable, u32), Error>)
        ensures
            (r, final(bus)@) == spec_resolve::<B>(self, cpu.x, cpu.y, cpu.pc, old(bus)@),
            B::inv(old(bus)@) ==> B::inv(final(bus)@),
    {
        match self {
            Addressing::Implied => Err(Error::InvalidTargetAddressAttempt(self)),
            Addressing::Accumulator => Ok(
                (
                    Addressable {
                        addressing: self,
                        target: AddressableTarget::Accumulator,
                        page_boundary_crossed: false,
                    },
                    0,
                ),
            ),
            Addressing::Immediate(v) => Ok(
                (
                    Addressable {
                        addressing: self,
                        target: AddressableTarget::Immediate(v),
                        page_boundary_crossed: false,
                    },
                    0,
                ),
            ),
            Addressing::ZeroPage(m) => Ok((Addressable::memory(self, m as u16, false), 0)),
            Addressing::ZeroPageX(m) => {
                let _ = bus.read_u8(m as u16);
                Ok((Addressable::memory(self, zero_page_add(m, cpu.x), false), 1))
            },
            Addressing::ZeroPageY(m) => {
                let _ = bus.read_u8(m as u16);
                Ok((Addressable::memory(self, zero_page_add(m, cpu.y), false), 1))
            },
            Addressing::Relative(offset) => {
                let target = relative(cpu.pc, offset);
                let crossed = target / 256 != cpu.pc / 256;
                Ok((Addressable::memory(self, target, crossed), 0))
            },
            Addressing::IndexedIndirect(m) => target_indexed_indirect(self, m, cpu.x, bus),
            Addressing::IndirectIndexed(m) => target_indirect_indexed(self, m, cpu.y, bus),
            Addressing::Indirect(a) => target_indirect(self, a, bus),
            Addressing::Absolute(a) => Ok((Addressable::memory(self, a, false), 0)),
            Addressing::AbsoluteX(a) => {
                let (target, crossed) = index_address(a, cpu.x);
                Ok((Addressable::memory(self, target, crossed), 0))
            },
            Addressing::AbsoluteY(a) => {
                let (target, crossed) = index_address(a, cpu.y);
                Ok((Addressable::memory(self, target, crossed), 0))
            },
        }
    }
}

} // verus!
