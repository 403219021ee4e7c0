use vstd::prelude::*;

use crate::bus::{hi_byte, lo_byte, split_word, word, make_word, Bus};
use crate::cpu::{MOS6502, STACK_START_ADDRESS};

verus! {

/// The stack address that stack pointer `sp` designates.
pub open spec fn stack_address(sp: u8) -> u16 {
    (0x100 + sp) as u16
}

impl MOS6502 {
    /// Pushing writes at the stack pointer, then moves it down one, wrapping within the page.
    pub open spec fn spec_push_u8<B: Bus>(self, value: u8, state: B::V) -> (MOS6502, B::V) {
        let (c1, s1) = self.spec_write_u8::<B>(stack_address(self.sp), value, state);
        (MOS6502 { sp: ((self.sp + 255) % 256) as u8, ..c1 }, s1)
    }

    /// A word goes on the stack high byte first.
    pub open spec fn spec_push_u16<B: Bus>(self, value: u16, state: B::V) -> (MOS6502, B::V) {
        let (c1, s1) = self.spec_push_u8::<B>(hi_byte(value), state);
        c1.spec_push_u8::<B>(lo_byte(value), s1)
    }

    /// Moves the stack pointer up one and reads the byte there.
    pub open spec fn spec_pull_byte<B: Bus>(self, state: B::V) -> (u8, MOS6502, B::V) {
        let sp = ((self.sp + 1) % 256) as u8;
        (
            B::peek(state, stack_address(sp)),
            MOS6502 { sp, wait_cycles: (self.wait_cycles + 1) as u32, ..self },
            B::after_read(state, stack_address(sp)),
        )
    }

    /// Pulling a byte costs a cycle for the pointer increment and one for the read.
    pub open spec fn spec_pull_u8<B: Bus>(self, state: B::V) -> (u8, MOS6502, B::V) {
        self.spec_with_wait(1).spec_pull_byte::<B>(state)
    }

    /// A word comes off the stack low byte first.
    pub open spec fn spec_pull_u16<B: Bus>(self, state: B::V) -> (u16, MOS6502, B::V) {
        let (lo, c1, s1) = self.spec_with_wait(1).spec_pull_byte::<B>(state);
        let (hi, c2, s2) = c1.spec_pull_byte::<B>(s1);
        (word(lo, hi), c2, s2)
    }

    pub(crate) fn push_stack_u8<B: Bus>(&mut self, bus: &mut B, value: u8)
        requires
            old(self).wf(),
            old(self).wait_cycles <= 0xFFFF_FFF0,
        ensures
            (*final(self), final(bus)@) == old(self).spec_push_u8::<B>(value, old(bus)@),
            final(self).wf(),
            B::inv(old(bus)@) ==> B::inv(final(bus)@),
    {
        self.write_u8(bus, STACK_START_ADDRESS + self.sp as u16, value);
        self.sp = self.sp.wrapping_sub(1);
    }

    pub(crate) fn push_stack_u16<B: Bus>(&mut self, bus: &mut B, value: u16)
        requires
            old(self).wf(),
            old(self).wait_cycles <= 0xFFFF_FF00,
        ensures
            (*final(self), final(bus)@) == old(self).spec_push_u16::<B>(value, old(bus)@),
            final(self).wf(),
            B::inv(old(bus)@) ==> B::inv(final(bus)@),
    {
        let (lo, hi) = split_word(value);
        self.push_stack_u8(bus, hi);
        self.push_stack_u8(bus, lo);
    }

    pub(crate) fn pull_stack_byte<B: Bus>(&mut self, bus: &mut B) -> (r: u8)
        requires
            old(self).wait_cycles <= 0xFFFF_FFF0,
        ensures
            (r, *final(self), final(bus)@) == old(self).spec_pull_byte::<B>(old(bus)@),
            B::inv(old(bus)@) ==> B::inv(final(bus)@),
    {
        self.sp = self.sp.wrapping_add(1);
        self.read_u8(bus, STACK_START_ADDRESS + self.sp as u16)
    }

    pub(crate) fn pull_stack_u8<B: Bus>(&mut self, bus: &mut B) -> (r: u8)
        requires
            old(self).wait_cycles <= 0xFFFF_FF00,
        ensures
            (r, *final(self), final(bus)@) == old(self).spec_pull_u8::<B>(old(bus)@),
            B::inv(old(bus)@) ==> B::inv(final(bus)@),
    {
        self.wait_cycles = self.wait_cycles + 1;
        self.pull_stack_byte(bus)
    }

    pub(crate) fn pull_stack_u16<B: Bus>(&mut self, bus: &mut B) -> (r: u16)
        requires
            old(self).wait_cycles <= 0xFFFF_FF00,
        ensures
            (r, *final(self), final(bus)@) == old(self).spec_pull_u16::<B>(old(bus)@),
            B::inv(old(bus)@) ==> B::inv(final(bus)@),
    {
        self.wait_cycles = self.wait_cycles + 1;
        let lo = self.pull_stack_byte(bus);
        let hi = self.pull_stack_byte(bus);
        make_word(lo, hi)
    }
}

} // verus!
