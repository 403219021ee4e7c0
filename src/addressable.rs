use vstd::prelude::*;

use crate::addressing::Addressing;
use crate::bus::Bus;
use crate::cpu::{with_nz, Register, MOS6502};
use crate::error::Error;

verus! {

/// What a resolved operand refers to.
#[derive(PartialEq, Eq, Clone, Copy, Debug, Structural)]
pub enum AddressableTarget {
    Accumulator,
    Immediate(u8),
    Memory(u16),
}

/// A resolved operand: the addressing it came from, its target, and whether resolving it
/// crossed a page boundary.
#[derive(PartialEq, Eq, Clone, Copy, Debug, Structural)]
pub struct Addressable {
    pub addressing: Addressing,
    pub target: AddressableTarget,
    pub page_boundary_crossed: bool,
}

/// The change that a read-modify-write instruction makes to its operand.
#[derive(PartialEq, Eq, Clone, Copy, Debug, Structural)]
pub enum Modification {
    Increment,
    Decrement,
    ShiftLeft,
    ShiftRight,
    /// Rotate left; the carry bit that enters at bit 0.
    RotateLeft(bool),
    /// Rotate right; the carry bit that enters at bit 7.
    RotateRight(bool),
}

impl Modification {
    pub open spec fn spec_apply(self, v: u8) -> u8 {
        match self {
            Modification::Increment => ((v + 1) % 256) as u8,
            Modification::Decrement => ((v + 255) % 256) as u8,
            Modification::ShiftLeft => ((v * 2) % 256) as u8,
            Modification::ShiftRight => (v / 2) as u8,
            Modification::RotateLeft(c) => ((v * 2) % 256 + if c { 1int } else { 0 }) as u8,
            Modification::RotateRight(c) => (v / 2 + if c { 128int } else { 0 }) as u8,
        }
    }

    pub fn apply(self, v: u8) -> (r: u8)
        ensures
            r == self.spec_apply(v),
    {
        match self {
            Modification::Increment => v.wrapping_add(1),
            Modification::Decrement => v.wrapping_sub(1),
            Modification::ShiftLeft => ((v as u16 * 2) % 256) as u8,
            Modification::ShiftRight => v / 2,
            Modification::RotateLeft(c) => ((v as u16 * 2) % 256) as u8 + if c { 1 } else { 0 },
            Modification::RotateRight(c) => v / 2 + if c { 128 } else { 0 },
        }
    }
}

/// The extra cycle that `AbsoluteX`, `AbsoluteY` and `IndirectIndexed` pay on every write
/// and every modify, crossed page or not.
pub open spec fn indexed_write_penalty(addressing: Addressing) -> int {
    match addressing {
        Addressing::AbsoluteX(_) => 1,
        Addressing::AbsoluteY(_) => 1,
        Addressing::IndirectIndexed(_) => 1,
        _ => 0,
    }
}

fn write_penalty(addressing: Addressing) -> (r: u32)
    ensures
        r == indexed_write_penalty(addressing),
{
    match addressing {
        Addressing::AbsoluteX(_) => 1,
        Addressing::AbsoluteY(_) => 1,
        Addressing::IndirectIndexed(_) => 1,
        _ => 0,
    }
}

impl Addressable {
    pub open spec fn spec_memory(addressing: Addressing, address: u16, crossed: bool) -> Addressable {
        Addressable {
            addressing,
            target: AddressableTarget::Memory(address),
            page_boundary_crossed: crossed,
        }
    }

    pub fn memory(addressing: Addressing, address: u16, crossed: bool) -> (r: Addressable)
        ensures
            r == Addressable::spec_memory(addressing, address, crossed),
    {
        Addressable { addressing, target: AddressableTarget::Memory(address), page_boundary_crossed: crossed }
    }

    pub open spec fn spec_address(self) -> Result<u16, Error> {
        match self.target {
            AddressableTarget::Memory(a) => Ok(a),
            _ => Err(Error::InvalidAddressAttempt(self.target)),
        }
    }

    /// The address of a memory target; registers and literals have none.
    pub fn address(&self) -> (r: Result<u16, Error>)
        ensures
            r == self.spec_address(),
    {
        match self.target {
            AddressableTarget::Memory(address) => Ok(address),
            _ => Err(Error::InvalidAddressAttempt(self.target)),
        }
    }

    /// The byte a read returns, the processor and the bus afterwards. A memory read costs a
    /// cycle, and another when the page boundary was crossed; registers and literals cost none.
    pub open spec fn spec_read<B: Bus>(self, cpu: MOS6502, state: B::V) -> (u8, MOS6502, B::V) {
        match self.target {
            AddressableTarget::Accumulator => (cpu.a, cpu, state),
            AddressableTarget::Immediate(v) => (v, cpu, state),
            AddressableTarget::Memory(a) => (
                B::peek(state, a),
                cpu.spec_with_wait(1 + if self.page_boundary_crossed { 1int } else { 0 }),
                B::after_read(state, a),
            ),
        }
    }

    pub fn read<B: Bus>(&self, cpu: &mut MOS6502, bus: &mut B) -> (r: u8)
        requires
            old(cpu).wait_cycles <= 0xFFFF_FF00,
        ensures
            (r, *final(cpu), final(bus)@) == self.spec_read::<B>(*old(cpu), old(bus)@),
            B::inv(old(bus)@) ==> B::inv(final(bus)@),
    {
        match self.target {
            AddressableTarget::Accumulator => cpu.a,
            AddressableTarget::Immediate(value) => value,
            AddressableTarget::Memory(address) => {
                let value = cpu.read_u8(bus, address);
                if self.page_boundary_crossed {
                    cpu.wait_cycles = cpu.wait_cycles + 1;
                }
                value
            },
        }
    }

    /// The outcome of writing `value`, the processor and the bus afterwards.
    pub open spec fn spec_write<B: Bus>(self, cpu: MOS6502, state: B::V, value: u8) -> (
        Result<(), Error>,
        MOS6502,
        B::V,
    ) {
        match self.target {
            AddressableTarget::Immediate(_) => (Err(Error::InvalidAddressableWrite(self.target, value)), cpu, state),
            AddressableTarget::Accumulator => (Ok(()), cpu.spec_write_register(Register::A, value), state),
            AddressableTarget::Memory(a) => {
                let (c1, s1) = cpu.spec_write_u8::<B>(a, value, state);
                (Ok(()), c1.spec_with_wait(indexed_write_penalty(self.addressing)), s1)
            },
        }
    }

    pub fn try_write<B: Bus>(&self, cpu: &mut MOS6502, bus: &mut B, value: u8) -> (r: Result<(), Error>)
        requires
            old(cpu).wf(),
            old(cpu).wait_cycles <= 0xFFFF_FF00,
        ensures
            (r, *final(cpu), final(bus)@) == self.spec_write::<B>(*old(cpu), old(bus)@, value),
            final(cpu).wf(),
            B::inv(old(bus)@) ==> B::inv(final(bus)@),
    {
        match self.target {
            AddressableTarget::Immediate(_) => Err(Error::InvalidAddressableWrite(self.target, value)),
            AddressableTarget::Accumulator => {
                cpu.write_register(Register::A, value);
                Ok(())
            },
            AddressableTarget::Memory(address) => {
                cpu.write_u8(bus, address, value);
                cpu.wait_cycles = cpu.wait_cycles + write_penalty(self.addressing);
                Ok(())
            },
        }
    }

    /// The outcome of a read-modify-write with `m`: the byte before and after, the processor
    /// and the bus afterwards. Memory is read once, written with the old byte, then with the
    /// new one; `Zero` and `Negative` describe the new byte.
    pub open spec fn spec_modify<B: Bus>(self, cpu: MOS6502, state: B::V, m: Modification) -> (
        Result<(u8, u8), Error>,
        MOS6502,
        B::V,
    ) {
        match self.target {
            AddressableTarget::Immediate(_) => (Err(Error::InvalidAddressableModify(self.target)), cpu, state),
            AddressableTarget::Accumulator => {
                let output = m.spec_apply(cpu.a);
                (Ok((cpu.a, output)), cpu.spec_write_register(Register::A, output), state)
            },
            AddressableTarget::Memory(a) => {
                let input = B::peek(state, a);
                let output = m.spec_apply(input);
                let c1 = cpu.spec_with_wait(1 + indexed_write_penalty(self.addressing));
                let (c2, s2) = c1.spec_write_u8::<B>(a, input, B::after_read(state, a));
                let (c3, s3) = c2.spec_write_u8::<B>(a, output, s2);
                (Ok((input, output)), MOS6502 { p: with_nz(c3.p, output), ..c3 }, s3)
            },
        }
    }

    pub fn try_modify<B: Bus>(&self, cpu: &mut MOS6502, bus: &mut B, m: Modification) -> (r: Result<(u8, u8), Error>)
        requires
            old(cpu).wf(),
            old(cpu).wait_cycles <= 0xFFFF_FF00,
        ensures
            (r, *final(cpu), final(bus)@) == self.spec_modify::<B>(*old(cpu), old(bus)@, m),
            final(cpu).wf(),
            B::inv(old(bus)@) ==> B::inv(final(bus)@),
    {
        match self.target {
            AddressableTarget::Immediate(_) => Err(Error::InvalidAddressableModify(self.target)),
            AddressableTarget::Accumulator => {
                let input = cpu.a;
                let output = m.apply(input);
                cpu.write_register(Register::A, output);
                Ok((input, output))
            },
            AddressableTarget::Memory(address) => {
                let input = cpu.read_u8(bus, address);
                cpu.wait_cycles = cpu.wait_cycles + write_penalty(self.addressing);
                let output = m.apply(input);
                cpu.write_u8(bus, address, input);
                cpu.write_u8(bus, address, output);
                cpu.set_nz(output);
                Ok((input, output))
            },
        }
    }
}

} // verus!
