use vstd::prelude::*;

use crate::addressable::{Addressable, Modification};
use crate::addressing::spec_resolve;
use crate::alu::{
    add_with_carry, compare, spec_add_with_carry, spec_compare, spec_subtract_with_borrow,
    subtract_with_borrow,
};
use crate::bus::Bus;
use crate::cpu::{Register, MOS6502};
use crate::error::Error;
use crate::instruction::Instruction;
use crate::status::StatusFlag;

verus! {

/// The bitwise operations of `AND`, `EOR` and `ORA`.
#[derive(PartialEq, Eq, Clone, Copy, Debug, Structural)]
pub enum Logic {
    And,
    Eor,
    Ora,
}

impl Logic {
    pub open spec fn spec_apply(self, a: u8, m: u8) -> u8 {
        match self {
            Logic::And => a & m,
            Logic::Eor => a ^ m,
            Logic::Ora => a | m,
        }
    }

    pub fn apply(self, a: u8, m: u8) -> (r: u8)
        ensures
            r == self.spec_apply(a, m),
    {
        match self {
            Logic::And => a & m,
            Logic::Eor => a ^ m,
            Logic::Ora => a | m,
        }
    }
}

/// Whether a shift or rotation moves bits to the left.
pub open spec fn shifts_left(m: Modification) -> bool {
    match m {
        Modification::ShiftLeft => true,
        Modification::RotateLeft(_) => true,
        _ => false,
    }
}

/// The bit a shift or rotation of `input` pushes out, which becomes the carry.
pub open spec fn shifted_out(m: Modification, input: u8) -> bool {
    if shifts_left(m) {
        input >= 128
    } else {
        input % 2 == 1
    }
}

impl MOS6502 {
    /// Resolves the instruction's operand, paying the resolution's cycles.
    pub open spec fn spec_resolve_operand<B: Bus>(self, instruction: Instruction, state: B::V) -> (
        Result<Addressable, Error>,
        MOS6502,
        B::V,
    ) {
        let (res, s1) = spec_resolve::<B>(instruction.addressing, self.x, self.y, self.pc, state);
        match res {
            Ok((addressable, cycles)) => (Ok(addressable), self.spec_with_wait(cycles as int), s1),
            Err(e) => (Err(e), self, s1),
        }
    }

    /// Resolves and reads the operand.
    pub open spec fn spec_read_operand<B: Bus>(self, instruction: Instruction, state: B::V) -> (
        Result<u8, Error>,
        MOS6502,
        B::V,
    ) {
        let (res, c1, s1) = self.spec_resolve_operand::<B>(instruction, state);
        match res {
            Ok(addressable) => {
                let (v, c2, s2) = addressable.spec_read::<B>(c1, s1);
                (Ok(v), c2, s2)
            },
            Err(e) => (Err(e), c1, s1),
        }
    }

    /// Resolves the operand and writes `value` to it.
    pub open spec fn spec_write_operand<B: Bus>(self, instruction: Instruction, value: u8, state: B::V) -> (
        Result<(), Error>,
        MOS6502,
        B::V,
    ) {
        let (res, c1, s1) = self.spec_resolve_operand::<B>(instruction, state);
        match res {
            Ok(addressable) => addressable.spec_write::<B>(c1, s1, value),
            Err(e) => (Err(e), c1, s1),
        }
    }

    /// Resolves the operand and applies `m` to it.
    pub open spec fn spec_modify_operand<B: Bus>(
        self,
        instruction: Instruction,
        m: Modification,
        state: B::V,
    ) -> (Result<(u8, u8), Error>, MOS6502, B::V) {
        let (res, c1, s1) = self.spec_resolve_operand::<B>(instruction, state);
        match res {
            Ok(addressable) => addressable.spec_modify::<B>(c1, s1, m),
            Err(e) => (Err(e), c1, s1),
        }
    }

    /// Resolves the operand to an address, with its page crossing flag.
    pub open spec fn spec_target_address<B: Bus>(self, instruction: Instruction, state: B::V) -> (
        Result<(u16, bool), Error>,
        MOS6502,
        B::V,
    ) {
        let (res, c1, s1) = self.spec_resolve_operand::<B>(instruction, state);
        match res {
            Ok(addressable) => match addressable.spec_address() {
                Ok(address) => (Ok((address, addressable.page_boundary_crossed)), c1, s1),
                Err(e) => (Err(e), c1, s1),
            },
            Err(e) => (Err(e), c1, s1),
        }
    }

    /// `A` after adding `m` with carry, with `Carry`, `Overflow`, `Zero` and `Negative` set.
    pub open spec fn spec_add(self, m: u8) -> MOS6502 {
        let (result, carry, overflow) = spec_add_with_carry(self.a, m, self.p.spec_get(StatusFlag::Carry));
        let p = self.p.spec_set(StatusFlag::Carry, carry).spec_set(StatusFlag::Overflow, overflow);
        MOS6502 { p, ..self }.spec_write_register(Register::A, result)
    }

    /// `A` after subtracting `m` with borrow, with the flags set as for `spec_add`.
    pub open spec fn spec_subtract(self, m: u8) -> MOS6502 {
        let (result, carry, overflow) = spec_subtract_with_borrow(
            self.a,
            m,
            self.p.spec_get(StatusFlag::Carry),
        );
        let p = self.p.spec_set(StatusFlag::Carry, carry).spec_set(StatusFlag::Overflow, overflow);
        MOS6502 { p, ..self }.spec_write_register(Register::A, result)
    }

    /// The flags after comparing `register` with `m`.
    pub open spec fn spec_compare_with(self, register: u8, m: u8) -> MOS6502 {
        let (carry, zero, negative) = spec_compare(register, m);
        MOS6502 {
            p: self.p.spec_set(StatusFlag::Carry, carry).spec_set(StatusFlag::Zero, zero).spec_set(
                StatusFlag::Negative,
                negative,
            ),
            ..self
        }
    }

    pub(crate) fn add(&mut self, m: u8)
        requires
            old(self).wf(),
        ensures
            *final(self) == old(self).spec_add(m),
            final(self).wf(),
    {
        let (result, carry, overflow) = add_with_carry(self.a, m, self.p.get(StatusFlag::Carry));
        self.p.set(StatusFlag::Carry, carry);
        self.p.set(StatusFlag::Overflow, overflow);
        self.write_register(Register::A, result);
    }

    pub(crate) fn subtract(&mut self, m: u8)
        requires
            old(self).wf(),
        ensures
            *final(self) == old(self).spec_subtract(m),
            final(self).wf(),
    {
        let (result, carry, overflow) = subtract_with_borrow(self.a, m, self.p.get(StatusFlag::Carry));
        self.p.set(StatusFlag::Carry, carry);
        self.p.set(StatusFlag::Overflow, overflow);
        self.write_register(Register::A, result);
    }

    pub(crate) fn compare_with(&mut self, register: u8, m: u8)
        requires
            old(self).wf(),
        ensures
            *final(self) == old(self).spec_compare_with(register, m),
            final(self).wf(),
    {
        let (carry, zero, negative) = compare(register, m);
        self.p.set(StatusFlag::Carry, carry);
        self.p.set(StatusFlag::Zero, zero);
        self.p.set(StatusFlag::Negative, negative);
    }

    pub(crate) fn resolve_operand<B: Bus>(&mut self, bus: &mut B, instruction: Instruction) -> (r: Result<
        Addressable,
        Error,
    >)
        requires
            old(self).wait_cycles <= 0xFFFF_0000,
        ensures
            (r, *final(self), final(bus)@) == old(self).spec_resolve_operand::<B>(instruction, old(bus)@),
            B::inv(old(bus)@) ==> B::inv(final(bus)@),
    {
        let (addressable, cycles) = instruction.addressing.read_addressable(self, bus)?;
        self.wait_cycles = self.wait_cycles + cycles;
        Ok(addressable)
    }

    pub(crate) fn read_operand<B: Bus>(&mut self, bus: &mut B, instruction: Instruction) -> (r: Result<u8, Error>)
        requires
            old(self).wait_cycles <= 0xFFFF_0000,
        ensures
            (r, *final(self), final(bus)@) == old(self).spec_read_operand::<B>(instruction, old(bus)@),
            B::inv(old(bus)@) ==> B::inv(final(bus)@),
    {
        let addressable = self.resolve_operand(bus, instruction)?;
        Ok(addressable.read(self, bus))
    }

    pub(crate) fn write_operand<B: Bus>(&mut self, bus: &mut B, instruction: Instruction, value: u8) -> (r: Result<
        (),
        Error,
    >)
        requires
            old(self).wf(),
            old(self).wait_cycles <= 0xFFFF_0000,
        ensures
            (r, *final(self), final(bus)@) == old(self).spec_write_operand::<B>(instruction, value, old(bus)@),
            final(self).wf(),
            B::inv(old(bus)@) ==> B::inv(final(bus)@),
    {
        let addressable = self.resolve_operand(bus, instruction)?;
        addressable.try_write(self, bus, value)
    }

    pub(crate) fn modify_operand<B: Bus>(&mut self, bus: &mut B, instruction: Instruction, m: Modification) -> (r:
        Result<(u8, u8), Error>)
        requires
            old(self).wf(),
            old(self).wait_cycles <= 0xFFFF_0000,
        ensures
            (r, *final(self), final(bus)@) == old(self).spec_modify_operand::<B>(instruction, m, old(bus)@),
            final(self).wf(),
            B::inv(old(bus)@) ==> B::inv(final(bus)@),
    {
        let addressable = self.resolve_operand(bus, instruction)?;
        addressable.try_modify(self, bus, m)
    }

    pub(crate) fn target_address<B: Bus>(&mut self, bus: &mut B, instruction: Instruction) -> (r: Result<
        (u16, bool),
        Error,
    >)
        requires
            old(self).wait_cycles <= 0xFFFF_0000,
        ensures
            (r, *final(self), final(bus)@) == old(self).spec_target_address::<B>(instruction, old(bus)@),
            B::inv(old(bus)@) ==> B::inv(final(bus)@),
    {
        let addressable = self.resolve_operand(bus, instruction)?;
        let address = addressable.address()?;
        Ok((address, addressable.page_boundary_crossed))
    }
}

impl MOS6502 {
    pub open spec fn spec_op_load<B: Bus>(self, register: Register, instruction: Instruction, state: B::V) -> (
        Result<(), Error>,
        MOS6502,
        B::V,
    ) {
        let (r, c, s) = self.spec_read_operand::<B>(instruction, state);
        match r {
            Ok(v) => (Ok(()), c.spec_write_register(register, v), s),
            Err(e) => (Err(e), c, s),
        }
    }

    pub open spec fn spec_op_lax<B: Bus>(self, instruction: Instruction, state: B::V) -> (
        Result<(), Error>,
        MOS6502,
        B::V,
    ) {
        let (r, c, s) = self.spec_read_operand::<B>(instruction, state);
        match r {
            Ok(v) => (Ok(()), c.spec_write_register(Register::A, v).spec_write_register(Register::X, v), s),
            Err(e) => (Err(e), c, s),
        }
    }

    pub open spec fn spec_op_transfer(self, source: Register, target: Register) -> MOS6502 {
        self.spec_write_register(target, self.spec_read_register(source))
    }

    pub open spec fn spec_op_pull<B: Bus>(self, register: Register, state: B::V) -> (MOS6502, B::V) {
        let (v, c, s) = self.spec_pull_u8::<B>(state);
        (c.spec_write_register(register, v), s)
    }

    pub open spec fn spec_op_logical<B: Bus>(self, logic: Logic, instruction: Instruction, state: B::V) -> (
        Result<(), Error>,
        MOS6502,
        B::V,
    ) {
        let (r, c, s) = self.spec_read_operand::<B>(instruction, state);
        match r {
            Ok(v) => (Ok(()), c.spec_write_register(Register::A, logic.spec_apply(c.a, v)), s),
            Err(e) => (Err(e), c, s),
        }
    }

    /// `BIT`: `Zero` from `A & M`, `Overflow` from bit 6 of `M`, `Negative` from bit 7.
    pub open spec fn spec_op_bit<B: Bus>(self, instruction: Instruction, state: B::V) -> (
        Result<(), Error>,
        MOS6502,
        B::V,
    ) {
        let (r, c, s) = self.spec_read_operand::<B>(instruction, state);
        match r {
            Ok(v) => (
                Ok(()),
                MOS6502 {
                    p: c.p.spec_set(StatusFlag::Zero, v & c.a == 0).spec_set(
                        StatusFlag::Overflow,
                        v & 0x40 != 0,
                    ).spec_set(StatusFlag::Negative, v >= 128),
                    ..c
                },
                s,
            ),
            Err(e) => (Err(e), c, s),
        }
    }

    pub open spec fn spec_op_add<B: Bus>(self, subtract: bool, instruction: Instruction, state: B::V) -> (
        Result<(), Error>,
        MOS6502,
        B::V,
    ) {
        let (r, c, s) = self.spec_read_operand::<B>(instruction, state);
        match r {
            Ok(v) => (Ok(()), if subtract { c.spec_subtract(v) } else { c.spec_add(v) }, s),
            Err(e) => (Err(e), c, s),
        }
    }

    pub open spec fn spec_op_compare<B: Bus>(self, register: Register, instruction: Instruction, state: B::V) -> (
        Result<(), Error>,
        MOS6502,
        B::V,
    ) {
        let (r, c, s) = self.spec_read_operand::<B>(instruction, state);
        match r {
            Ok(v) => (Ok(()), c.spec_compare_with(self.spec_read_register(register), v), s),
            Err(e) => (Err(e), c, s),
        }
    }

    pub open spec fn spec_modify_register(self, register: Register, m: Modification) -> MOS6502 {
        self.spec_write_register(register, m.spec_apply(self.spec_read_register(register)))
    }

    /// `DCP` (decrement, then compare with `A`) and `ISC` (increment, then subtract).
    pub open spec fn spec_op_modify_then<B: Bus>(self, increment: bool, instruction: Instruction, state: B::V) -> (
        Result<(), Error>,
        MOS6502,
        B::V,
    ) {
        let m = if increment { Modification::Increment } else { Modification::Decrement };
        let (r, c, s) = self.spec_modify_operand::<B>(instruction, m, state);
        match r {
            Ok((_, out)) => (Ok(()), if increment { c.spec_subtract(out) } else { c.spec_compare_with(c.a, out) }, s),
            Err(e) => (Err(e), c, s),
        }
    }

    /// A shift or rotation of the operand; the bit shifted out becomes the carry.
    pub open spec fn spec_op_shift<B: Bus>(self, m: Modification, instruction: Instruction, state: B::V) -> (
        Result<u8, Error>,
        MOS6502,
        B::V,
    ) {
        let (r, c, s) = self.spec_modify_operand::<B>(instruction, m, state);
        match r {
            Ok((input, out)) => (Ok(out), MOS6502 { p: c.p.spec_set(StatusFlag::Carry, shifted_out(m, input)), ..c }, s),
            Err(e) => (Err(e), c, s),
        }
    }

    /// `SLO`, `SRE`, `RLA`: a shift or rotation, then a logical operation of the result into `A`.
    pub open spec fn spec_op_shift_then_logical<B: Bus>(
        self,
        m: Modification,
        logic: Logic,
        instruction: Instruction,
        state: B::V,
    ) -> (Result<(), Error>, MOS6502, B::V) {
        let (r, c, s) = self.spec_op_shift::<B>(m, instruction, state);
        match r {
            Ok(out) => (Ok(()), c.spec_write_register(Register::A, logic.spec_apply(c.a, out)), s),
            Err(e) => (Err(e), c, s),
        }
    }

    /// `RRA`: a rotation right, then an addition of the result to `A`.
    pub open spec fn spec_op_rotate_then_add<B: Bus>(self, instruction: Instruction, state: B::V) -> (
        Result<(), Error>,
        MOS6502,
        B::V,
    ) {
        let m = Modification::RotateRight(self.p.spec_get(StatusFlag::Carry));
        let (r, c, s) = self.spec_op_shift::<B>(m, instruction, state);
        match r {
            Ok(out) => (Ok(()), c.spec_add(out), s),
            Err(e) => (Err(e), c, s),
        }
    }

    pub open spec fn spec_op_jump<B: Bus>(self, instruction: Instruction, state: B::V) -> (
        Result<(), Error>,
        MOS6502,
        B::V,
    ) {
        let (r, c, s) = self.spec_target_address::<B>(instruction, state);
        match r {
            Ok((address, _)) => (Ok(()), MOS6502 { pc: address, ..c }, s),
            Err(e) => (Err(e), c, s),
        }
    }

    /// `JSR` pushes the address of its own last byte (the program counter minus one), high
    /// byte first, and jumps; working out that address costs a cycle.
    pub open spec fn spec_op_jump_subroutine<B: Bus>(self, instruction: Instruction, state: B::V) -> (
        Result<(), Error>,
        MOS6502,
        B::V,
    ) {
        let (r, c, s) = self.spec_target_address::<B>(instruction, state);
        match r {
            Ok((address, _)) => {
                let return_address = (if c.pc == 0 { 0xFFFFint } else { c.pc - 1 }) as u16;
                let (c2, s2) = c.spec_with_wait(1).spec_push_u16::<B>(return_address, s);
                (Ok(()), MOS6502 { pc: address, ..c2 }, s2)
            },
            Err(e) => (Err(e), c, s),
        }
    }

    /// `RTS` pulls an address and continues one byte after it; adding one costs a cycle.
    pub open spec fn spec_op_return<B: Bus>(self, state: B::V) -> (MOS6502, B::V) {
        let (address, c, s) = self.spec_pull_u16::<B>(state);
        (MOS6502 { pc: ((address + 1) % 0x10000) as u16, ..c.spec_with_wait(1) }, s)
    }

    /// `RTI` pulls `P`, then the program counter low byte, then its high byte, and
    /// continues at that address exactly.
    pub open spec fn spec_op_return_from_interrupt<B: Bus>(self, state: B::V) -> (MOS6502, B::V) {
        let (p, c1, s1) = self.spec_with_wait(1).spec_pull_byte::<B>(state);
        let (lo, c2, s2) = c1.spec_pull_byte::<B>(s1);
        let (hi, c3, s3) = c2.spec_pull_byte::<B>(s2);
        (MOS6502 { pc: crate::bus::word(lo, hi), ..c3.spec_write_register(Register::P, p) }, s3)
    }

    /// A taken branch costs a cycle, and another when it crosses a page boundary.
    pub open spec fn spec_op_branch<B: Bus>(self, condition: bool, instruction: Instruction, state: B::V) -> (
        Result<(), Error>,
        MOS6502,
        B::V,
    ) {
        let (r, c, s) = self.spec_target_address::<B>(instruction, state);
        match r {
            Ok((address, crossed)) => (
                Ok(()),
                if condition {
                    MOS6502 { pc: address, ..c.spec_with_wait(1 + if crossed { 1int } else { 0 }) }
                } else {
                    c
                },
                s,
            ),
            Err(e) => (Err(e), c, s),
        }
    }

    pub open spec fn spec_op_flag(self, flag: StatusFlag, value: bool) -> MOS6502 {
        MOS6502 { p: self.p.spec_set(flag, value), ..self }
    }

    /// `NOP` reads its operand, if it has one, and drops it.
    pub open spec fn spec_op_nop<B: Bus>(self, instruction: Instruction, state: B::V) -> (MOS6502, B::V) {
        let (_, c, s) = self.spec_read_operand::<B>(instruction, state);
        (c, s)
    }

    pub(crate) fn op_load<B: Bus>(&mut self, bus: &mut B, register: Register, instruction: Instruction) -> (r: Result<(), Error>)
        requires
            old(self).wf(),
            old(self).wait_cycles <= 0xFFFF_0000,
        ensures
            (r, *final(self), final(bus)@) == old(self).spec_op_load::<B>(register, instruction, old(bus)@),
            final(self).wf(),
            B::inv(old(bus)@) ==> B::inv(final(bus)@),
    {
        let value = self.read_operand(bus, instruction)?;
        self.write_register(register, value);
        Ok(())
    }

    pub(crate) fn op_lax<B: Bus>(&mut self, bus: &mut B, instruction: Instruction) -> (r: Result<(), Error>)
        requires
            old(self).wf(),
            old(self).wait_cycles <= 0xFFFF_0000,
        ensures
            (r, *final(self), final(bus)@) == old(self).spec_op_lax::<B>(instruction, old(bus)@),
            final(self).wf(),
            B::inv(old(bus)@) ==> B::inv(final(bus)@),
    {
        let value = self.read_operand(bus, instruction)?;
        self.write_register(Register::A, value);
        self.write_register(Register::X, value);
        Ok(())
    }

    pub(crate) fn op_transfer(&mut self, source: Register, target: Register)
        requires
            old(self).wf(),
        ensures
            *final(self) == old(self).spec_op_transfer(source, target),
            final(self).wf(),
    {
        let value = self.read_register(source);
        self.write_register(target, value);
    }

    pub(crate) fn op_pull<B: Bus>(&mut self, bus: &mut B, register: Register)
        requires
            old(self).wf(),
            old(self).wait_cycles <= 0xFFFF_0000,
        ensures
            (*final(self), final(bus)@) == old(self).spec_op_pull::<B>(register, old(bus)@),
            final(self).wf(),
            B::inv(old(bus)@) ==> B::inv(final(bus)@),
    {
        let value = self.pull_stack_u8(bus);
        self.write_register(register, value);
    }

    pub(crate) fn op_logical<B: Bus>(&mut self, bus: &mut B, logic: Logic, instruction: Instruction) -> (r: Result<(), Error>)
        requires
            old(self).wf(),
            old(self).wait_cycles <= 0xFFFF_0000,
        ensures
            (r, *final(self), final(bus)@) == old(self).spec_op_logical::<B>(logic, instruction, old(bus)@),
            final(self).wf(),
            B::inv(old(bus)@) ==> B::inv(final(bus)@),
    {
        let value = self.read_operand(bus, instruction)?;
        let result = logic.apply(self.a, value);
        self.write_register(Register::A, result);
        Ok(())
    }

    pub(crate) fn op_bit<B: Bus>(&mut self, bus: &mut B, instruction: Instruction) -> (r: Result<(), Error>)
        requires
            old(self).wf(),
            old(self).wait_cycles <= 0xFFFF_0000,
        ensures
            (r, *final(self), final(bus)@) == old(self).spec_op_bit::<B>(instruction, old(bus)@),
            final(self).wf(),
            B::inv(old(bus)@) ==> B::inv(final(bus)@),
    {
        let value = self.read_operand(bus, instruction)?;
        let a = self.a;
        self.p.set(StatusFlag::Zero, value & a == 0);
        self.p.set(StatusFlag::Overflow, value & 0x40 != 0);
        self.p.set(StatusFlag::Negative, value >= 128);
        Ok(())
    }

    pub(crate) fn op_add<B: Bus>(&mut self, bus: &mut B, subtract: bool, instruction: Instruction) -> (r: Result<(), Error>)
        requires
            old(self).wf(),
            old(self).wait_cycles <= 0xFFFF_0000,
        ensures
            (r, *final(self), final(bus)@) == old(self).spec_op_add::<B>(subtract, instruction, old(bus)@),
            final(self).wf(),
            B::inv(old(bus)@) ==> B::inv(final(bus)@),
    {
        let value = self.read_operand(bus, instruction)?;
        if subtract {
            self.subtract(value);
        } else {
            self.add(value);
        }
        Ok(())
    }

    pub(crate) fn op_compare<B: Bus>(&mut self, bus: &mut B, register: Register, instruction: Instruction) -> (r: Result<
        (),
        Error,
    >)
        requires
            old(self).wf(),
            old(self).wait_cycles <= 0xFFFF_0000,
        ensures
            (r, *final(self), final(bus)@) == old(self).spec_op_compare::<B>(register, instruction, old(bus)@),
            final(self).wf(),
            B::inv(old(bus)@) ==> B::inv(final(bus)@),
    {
        let register_value = self.read_register(register);
        let value = self.read_operand(bus, instruction)?;
        self.compare_with(register_value, value);
        Ok(())
    }

    pub(crate) fn modify_register(&mut self, register: Register, m: Modification)
        requires
            old(self).wf(),
        ensures
            *final(self) == old(self).spec_modify_register(register, m),
            final(self).wf(),
    {
        let value = self.read_register(register);
        self.write_register(register, m.apply(value));
    }

    pub(crate) fn op_modify_then<B: Bus>(&mut self, bus: &mut B, increment: bool, instruction: Instruction) -> (r: Result<
        (),
        Error,
    >)
        requires
            old(self).wf(),
            old(self).wait_cycles <= 0xFFFF_0000,
        ensures
            (r, *final(self), final(bus)@) == old(self).spec_op_modify_then::<B>(increment, instruction, old(bus)@),
            final(self).wf(),
            B::inv(old(bus)@) ==> B::inv(final(bus)@),
    {
        let m = if increment { Modification::Increment } else { Modification::Decrement };
        let (_, output) = self.modify_operand(bus, instruction, m)?;
        if increment {
            self.subtract(output);
        } else {
            let a = self.a;
            self.compare_with(a, output);
        }
        Ok(())
    }

    pub(crate) fn op_shift<B: Bus>(&mut self, bus: &mut B, m: Modification, instruction: Instruction) -> (r: Result<u8, Error>)
        requires
            old(self).wf(),
            old(self).wait_cycles <= 0xFFFF_0000,
        ensures
            (r, *final(self), final(bus)@) == old(self).spec_op_shift::<B>(m, instruction, old(bus)@),
            final(self).wf(),
            B::inv(old(bus)@) ==> B::inv(final(bus)@),
    {
        let (input, output) = self.modify_operand(bus, instruction, m)?;
        let carry = match m {
            Modification::ShiftLeft => input >= 128,
            Modification::RotateLeft(_) => input >= 128,
            _ => input % 2 == 1,
        };
        self.p.set(StatusFlag::Carry, carry);
        Ok(output)
    }

    pub(crate) fn op_shift_then_logical<B: Bus>(&mut self, bus: &mut B, m: Modification, logic: Logic, instruction: Instruction) -> (r:
        Result<(), Error>)
        requires
            old(self).wf(),
            old(self).wait_cycles <= 0xFFFF_0000,
        ensures
            (r, *final(self), final(bus)@) == old(self).spec_op_shift_then_logical::<B>(m, logic, instruction, old(bus)@),
            final(self).wf(),
            B::inv(old(bus)@) ==> B::inv(final(bus)@),
    {
        let output = self.op_shift(bus, m, instruction)?;
        let result = logic.apply(self.a, output);
        self.write_register(Register::A, result);
        Ok(())
    }

    pub(crate) fn op_rotate_then_add<B: Bus>(&mut self, bus: &mut B, instruction: Instruction) -> (r: Result<(), Error>)
        requires
            old(self).wf(),
            old(self).wait_cycles <= 0xFFFF_0000,
        ensures
            (r, *final(self), final(bus)@) == old(self).spec_op_rotate_then_add::<B>(instruction, old(bus)@),
            final(self).wf(),
            B::inv(old(bus)@) ==> B::inv(final(bus)@),
    {
        let m = Modification::RotateRight(self.p.get(StatusFlag::Carry));
        let output = self.op_shift(bus, m, instruction)?;
        self.add(output);
        Ok(())
    }

    pub(crate) fn op_jump<B: Bus>(&mut self, bus: &mut B, instruction: Instruction) -> (r: Result<(), Error>)
        requires
            old(self).wf(),
            old(self).wait_cycles <= 0xFFFF_0000,
        ensures
            (r, *final(self), final(bus)@) == old(self).spec_op_jump::<B>(instruction, old(bus)@),
            final(self).wf(),
            B::inv(old(bus)@) ==> B::inv(final(bus)@),
    {
        let (address, _) = self.target_address(bus, instruction)?;
        self.pc = address;
        Ok(())
    }

    #[verifier::rlimit(30)]
    pub(crate) fn op_jump_subroutine<B: Bus>(&mut self, bus: &mut B, instruction: Instruction) -> (r: Result<(), Error>)
        requires
            old(self).wf(),
            old(self).wait_cycles <= 0xFFFF_0000,
        ensures
            (r, *final(self), final(bus)@) == old(self).spec_op_jump_subroutine::<B>(instruction, old(bus)@),
            final(self).wf(),
            B::inv(old(bus)@) ==> B::inv(final(bus)@),
    {
        let (address, _) = self.target_address(bus, instruction)?;
        let return_address = self.pc.wrapping_sub(1);
        self.wait_cycles = self.wait_cycles + 1;
        self.push_stack_u16(bus, return_address);
        self.pc = address;
        Ok(())
    }

    pub(crate) fn op_return<B: Bus>(&mut self, bus: &mut B)
        requires
            old(self).wf(),
            old(self).wait_cycles <= 0xFFFF_0000,
        ensures
            (*final(self), final(bus)@) == old(self).spec_op_return::<B>(old(bus)@),
            final(self).wf(),
            B::inv(old(bus)@) ==> B::inv(final(bus)@),
    {
        let address = self.pull_stack_u16(bus);
        self.pc = address.wrapping_add(1);
        self.wait_cycles = self.wait_cycles + 1;
    }

    pub(crate) fn op_return_from_interrupt<B: Bus>(&mut self, bus: &mut B)
        requires
            old(self).wf(),
            old(self).wait_cycles <= 0xFFFF_0000,
        ensures
            (*final(self), final(bus)@) == old(self).spec_op_return_from_interrupt::<B>(old(bus)@),
            final(self).wf(),
            B::inv(old(bus)@) ==> B::inv(final(bus)@),
    {
        self.wait_cycles = self.wait_cycles + 1;
        let p = self.pull_stack_byte(bus);
        let lo = self.pull_stack_byte(bus);
        let hi = self.pull_stack_byte(bus);
        self.write_register(Register::P, p);
        self.pc = crate::bus::make_word(lo, hi);
    }

    pub(crate) fn op_branch<B: Bus>(&mut self, bus: &mut B, condition: bool, instruction: Instruction) -> (r: Result<(), Error>)
        requires
            old(self).wf(),
            old(self).wait_cycles <= 0xFFFF_0000,
        ensures
            (r, *final(self), final(bus)@) == old(self).spec_op_branch::<B>(condition, instruction, old(bus)@),
            final(self).wf(),
            B::inv(old(bus)@) ==> B::inv(final(bus)@),
    {
        let (address, crossed) = self.target_address(bus, instruction)?;
        if condition {
            self.pc = address;
            self.wait_cycles = self.wait_cycles + 1;
            if crossed {
                self.wait_cycles = self.wait_cycles + 1;
            }
        }
        Ok(())
    }

    pub(crate) fn op_nop<B: Bus>(&mut self, bus: &mut B, instruction: Instruction)
        requires
            old(self).wf(),
            old(self).wait_cycles <= 0xFFFF_0000,
        ensures
            (*final(self), final(bus)@) == old(self).spec_op_nop::<B>(instruction, old(bus)@),
            final(self).wf(),
            B::inv(old(bus)@) ==> B::inv(final(bus)@),
    {
        let _ = self.read_operand(bus, instruction);
    }
}

} // verus!
