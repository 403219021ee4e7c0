use vstd::prelude::*;

use crate::bus::Bus;
use std::collections::HashMap;

use crate::dma::{dma_at, ActiveDMA, DMA};
use crate::status::{Status, StatusFlag};

verus! {

broadcast use vstd::std_specs::hash::group_hash_axioms;

/// The start of the page that holds the stack.
pub const STACK_START_ADDRESS: u16 = 0x0100;

/// The registers that instructions name.
#[derive(PartialEq, Eq, Clone, Copy, Debug, Structural)]
pub enum Register {
    A,
    X,
    Y,
    P,
    SP,
}

/// `p` with `Zero` and `Negative` describing `value`.
pub open spec fn with_nz(p: Status, value: u8) -> Status {
    p.spec_set(StatusFlag::Zero, value == 0).spec_set(StatusFlag::Negative, value >= 128)
}

/// A MOS 6502 processor: its registers, its interrupt lines, its cycle counters and the
/// direct-memory-access channels wired to it.
#[derive(Debug)]
pub struct MOS6502 {
    /// The accumulator.
    pub a: u8,
    /// Index register `X`.
    pub x: u8,
    /// Index register `Y`.
    pub y: u8,
    /// The status register.
    pub p: Status,
    /// The program counter.
    pub pc: u16,
    /// The stack pointer: the stack is the page at `0x0100` and grows downwards.
    pub sp: u8,
    /// The non-maskable interrupt line.
    pub nmi: bool,
    /// The maskable interrupt line.
    pub irq: bool,
    /// Cycles since the processor started, wrapping at 2^64.
    pub elapsed_cycles: u64,
    /// Cycles to idle before the next instruction starts.
    pub wait_cycles: u32,
    /// The direct-memory-access channels, looked up by trigger address.
    pub dma: HashMap<u16, DMA>,
    /// The copy in progress, if any.
    pub active_dma: Option<ActiveDMA>,
}

impl MOS6502 {
    /// The always-one bit of `P` is set and a copy in progress has not run past its end.
    pub open spec fn wf(&self) -> bool {
        &&& self.p.spec_get(StatusFlag::Unused)
        &&& match self.active_dma {
            Some(d) => d.wf(),
            None => true,
        }
    }

    /// All registers zero but for the always-one bit of `P`, the interrupt lines low, no
    /// cycle elapsed or pending and no copy in progress.
    pub open spec fn is_power_on(&self) -> bool {
        &&& self.a == 0 && self.x == 0 && self.y == 0 && self.pc == 0 && self.sp == 0
        &&& self.p == Status(0x20)
        &&& !self.nmi && !self.irq
        &&& self.elapsed_cycles == 0 && self.wait_cycles == 0
        &&& self.active_dma is None
    }

    /// A processor with all registers zero but for the always-one bit of `P`, and no
    /// direct-memory-access channel.
    pub fn new() -> (r: MOS6502)
        ensures
            r.wf(),
            r.is_power_on(),
            r.a == 0 && r.x == 0 && r.y == 0 && r.pc == 0 && r.sp == 0,
            r.p == Status(0x20),
            !r.nmi && !r.irq,
            r.elapsed_cycles == 0 && r.wait_cycles == 0,
            r.dma@ == Map::<u16, DMA>::empty(),
            r.active_dma is None,
    {
        let r = MOS6502 {
            a: 0,
            x: 0,
            y: 0,
            p: Status(0x20),
            pc: 0,
            sp: 0,
            nmi: false,
            irq: false,
            elapsed_cycles: 0,
            wait_cycles: 0,
            dma: HashMap::new(),
            active_dma: None,
        };
        assert(r.p.spec_get(StatusFlag::Unused)) by {
            assert(0x20u8 & (1u8 << 5u8) != 0) by (bit_vector);
        }
        r
    }

    pub open spec fn spec_with_wait(self, extra: int) -> MOS6502 {
        MOS6502 { wait_cycles: (self.wait_cycles + extra) as u32, ..self }
    }

    pub open spec fn spec_read_register(self, register: Register) -> u8 {
        match register {
            Register::A => self.a,
            Register::X => self.x,
            Register::Y => self.y,
            Register::P => self.p.0,
            Register::SP => self.sp,
        }
    }

    /// The processor after `value` is written to `register`. Writing `A`, `X` or `Y`
    /// updates `Zero` and `Negative`; writing `P` drops `Break` and sets the always-one bit.
    pub open spec fn spec_write_register(self, register: Register, value: u8) -> MOS6502 {
        match register {
            Register::A => MOS6502 { a: value, p: with_nz(self.p, value), ..self },
            Register::X => MOS6502 { x: value, p: with_nz(self.p, value), ..self },
            Register::Y => MOS6502 { y: value, p: with_nz(self.p, value), ..self },
            Register::P => MOS6502 { p: Status::spec_from_pulled(value), ..self },
            Register::SP => MOS6502 { sp: value, ..self },
        }
    }

    /// The processor and the bus after the processor writes `value` to `address`. A write
    /// to a trigger address starts a copy from page `value` instead of reaching the bus;
    /// it costs one cycle more, and one more again when the elapsed cycle count is odd.
    pub open spec fn spec_write_u8<B: Bus>(self, address: u16, value: u8, state: B::V) -> (MOS6502, B::V) {
        match dma_at(self.dma@, address) {
            Some(d) => (
                MOS6502 {
                    active_dma: Some(ActiveDMA::spec_from_dma(d, (value as u16 * 256) as u16)),
                    wait_cycles: (self.wait_cycles + dma_start_cycles(self.elapsed_cycles) + 1) as u32,
                    ..self
                },
                state,
            ),
            None => (self.spec_with_wait(1), B::after_write(state, address, value)),
        }
    }

    pub(crate) fn read_register(&self, register: Register) -> (r: u8)
        ensures
            r == self.spec_read_register(register),
    {
        match register {
            Register::A => self.a,
            Register::X => self.x,
            Register::Y => self.y,
            Register::P => self.p.0,
            Register::SP => self.sp,
        }
    }

    pub(crate) fn write_register(&mut self, register: Register, value: u8)
        requires
            old(self).wf(),
        ensures
            *final(self) == old(self).spec_write_register(register, value),
            final(self).wf(),
    {
        match register {
            Register::A => {
                self.a = value;
                self.set_nz(value);
            },
            Register::X => {
                self.x = value;
                self.set_nz(value);
            },
            Register::Y => {
                self.y = value;
                self.set_nz(value);
            },
            Register::P => {
                self.p = Status::from_pulled(value);
            },
            Register::SP => {
                self.sp = value;
            },
        }
    }

    /// Sets `Zero` and `Negative` from `value`.
    pub(crate) fn set_nz(&mut self, value: u8)
        requires
            old(self).wf(),
        ensures
            *final(self) == (MOS6502 { p: with_nz(old(self).p, value), ..*old(self) }),
            final(self).wf(),
    {
        self.p.set(StatusFlag::Zero, value == 0);
        self.p.set(StatusFlag::Negative, value >= 128);
    }

    /// Reads a byte for the running instruction, which costs a cycle.
    pub(crate) fn read_u8<B: Bus>(&mut self, bus: &mut B, address: u16) -> (r: u8)
        requires
            old(self).wait_cycles <= 0xFFFF_FFF0,
        ensures
            r == B::peek(old(bus)@, address),
            final(bus)@ == B::after_read(old(bus)@, address),
            *final(self) == old(self).spec_with_wait(1),
            B::inv(old(bus)@) ==> B::inv(final(bus)@),
    {
        let byte = bus.read_u8(address);
        self.wait_cycles = self.wait_cycles + 1;
        byte
    }

    /// Writes a byte for the running instruction, or starts a copy when `address` is a
    /// trigger address.
    pub(crate) fn write_u8<B: Bus>(&mut self, bus: &mut B, address: u16, value: u8)
        requires
            old(self).wf(),
            old(self).wait_cycles <= 0xFFFF_FFF0,
        ensures
            (*final(self), final(bus)@) == old(self).spec_write_u8::<B>(address, value, old(bus)@),
            final(self).wf(),
            B::inv(old(bus)@) ==> B::inv(final(bus)@),
    {
        match self.dma.get(&address) {
            Some(dma) => {
                self.active_dma = Some(ActiveDMA::from_dma(dma, (value as u16) * 256));
                self.wait_cycles = self.wait_cycles + 1;
                if self.elapsed_cycles % 2 != 0 {
                    self.wait_cycles = self.wait_cycles + 1;
                }
            },
            None => {
                bus.write_u8(address, value);
            },
        }
        self.wait_cycles = self.wait_cycles + 1;
    }
}

/// The cycles that latching a copy costs: one, and one more on an odd cycle count.
pub open spec fn dma_start_cycles(elapsed_cycles: u64) -> int {
    if elapsed_cycles % 2 == 1 {
        2
    } else {
        1
    }
}

} // verus!
