use vstd::prelude::*;

use crate::addressable::Modification;
use crate::bus::{next_address, word, Bus};
use crate::cpu::{Register, MOS6502};
use crate::dma::{dma_at, ActiveDMA, DMAStatus, DMA};
use crate::error::Error;
use crate::execute::Logic;
use crate::instruction::{spec_decode, Instruction};
use crate::interrupt::Interrupt;
use crate::opcode::Opcode;
use crate::status::StatusFlag;

verus! {

broadcast use vstd::std_specs::hash::group_hash_axioms;

/// `Ok(())` for a success, the same error for a failure.
pub open spec fn drop_value<T>(r: Result<T, Error>) -> Result<(), Error> {
    match r {
        Ok(_) => Ok(()),
        Err(e) => Err(e),
    }
}

/// `Ok(())` is the only success without a value.
pub proof fn lemma_unit_result(r: Result<(), Error>)
    requires
        r is Ok,
    ensures
        r == Ok::<(), Error>(()),
{
    let u: () = r->Ok_0;
    assert(u == ());
}

/// The elapsed cycle count `n` cycles later, wrapping at 2^64.
pub open spec fn ticks(elapsed: u64, n: nat) -> u64
    decreases n,
{
    if n == 0 {
        elapsed
    } else {
        tick(ticks(elapsed, (n - 1) as nat))
    }
}

/// The processor once the wait of the running instruction is over: each waited cycle
/// counts as elapsed.
pub open spec fn drained(c: MOS6502) -> MOS6502 {
    MOS6502 { wait_cycles: 0, elapsed_cycles: ticks(c.elapsed_cycles, c.wait_cycles as nat), ..c }
}

/// Up to `n` cycles, each followed by decoding the instruction at the program counter:
/// `Ok(true)` as soon as that instruction is `BRK`, `Ok(false)` when the `n` cycles ran out
/// first, the error of the first cycle or decode that failed; with the processor and bus
/// state reached.
pub open spec fn spec_until_brk<B: Bus>(cpu: MOS6502, state: B::V, n: nat) -> (Result<bool, Error>, MOS6502, B::V)
    decreases n,
{
    if n == 0 {
        (Ok(false), cpu, state)
    } else {
        let (r, c, s) = cpu.spec_cycle::<B>(state);
        match r {
            Err(e) => (Err(e), c, s),
            Ok(()) => {
                let (d, s2) = spec_decode::<B>(c.pc, s);
                match d {
                    Err(e) => (Err(e), c, s2),
                    Ok((instruction, _, _)) => if instruction.opcode == Opcode::BRK {
                        (Ok(true), c, s2)
                    } else {
                        spec_until_brk::<B>(c, s2, (n - 1) as nat)
                    },
                }
            },
        }
    }
}

/// The elapsed cycle count one cycle later, wrapping at 2^64.
pub open spec fn tick(elapsed: u64) -> u64 {
    if elapsed == u64::MAX {
        0
    } else {
        (elapsed + 1) as u64
    }
}

impl MOS6502 {
    /// Entering an interrupt handler. Apart from `BRK`, which has fetched its own bytes, the
    /// processor first reads the byte at the program counter twice and drops it. It then
    /// pushes the program counter, high byte first, and `P` with `Break` set for `BRK` only;
    /// `RESET` moves the stack pointer down three without writing. It loads the program
    /// counter from the vector and sets `InterruptDisable`. Seven cycles in all (five for `BRK`).
    pub open spec fn spec_interrupt<B: Bus>(self, kind: Interrupt, state: B::V) -> (MOS6502, B::V) {
        let (c1, s1) = if kind != Interrupt::BRK {
            (self.spec_with_wait(2), B::after_read(B::after_read(state, self.pc), self.pc))
        } else {
            (self, state)
        };
        let (c2, s2) = if kind == Interrupt::RESET {
            (MOS6502 { sp: ((c1.sp + 253) % 256) as u8, ..c1.spec_with_wait(3) }, s1)
        } else {
            let (c3, s3) = c1.spec_push_u16::<B>(c1.pc, s1);
            c3.spec_push_u8::<B>(c3.p.spec_pushed(kind == Interrupt::BRK), s3)
        };
        let v = kind.spec_vector_address();
        let lo = B::peek(s2, v);
        let s3 = B::after_read(s2, v);
        let hi = B::peek(s3, next_address(v));
        (
            MOS6502 {
                pc: word(lo, hi),
                p: c2.p.spec_set(StatusFlag::InterruptDisable, true),
                ..c2.spec_with_wait(2)
            },
            B::after_read(s3, next_address(v)),
        )
    }

    /// The effect of executing `instruction`, whose bytes have been read.
    #[verifier::opaque]
    pub open spec fn spec_execute<B: Bus>(self, instruction: Instruction, state: B::V) -> (
        Result<(), Error>,
        MOS6502,
        B::V,
    ) {
        match instruction.opcode {
            Opcode::LDA | Opcode::LDX | Opcode::LDY | Opcode::LAX | Opcode::STA | Opcode::STX | Opcode::STY | Opcode::SAX | Opcode::TAX | Opcode::TAY | Opcode::TXA | Opcode::TYA | Opcode::TSX | Opcode::TXS | Opcode::PHA | Opcode::PHP | Opcode::PLA | Opcode::PLP => self.spec_execute_transfer::<B>(instruction, state),
            Opcode::AND | Opcode::EOR | Opcode::ORA | Opcode::BIT | Opcode::ADC | Opcode::SBC | Opcode::CMP | Opcode::CPX | Opcode::CPY | Opcode::INC | Opcode::DEC | Opcode::INX | Opcode::INY | Opcode::DEX | Opcode::DEY | Opcode::ISC | Opcode::DCP => self.spec_execute_arithmetic::<B>(instruction, state),
            Opcode::ASL | Opcode::LSR | Opcode::ROL | Opcode::ROR | Opcode::SLO | Opcode::SRE | Opcode::RLA | Opcode::RRA => self.spec_execute_shift::<B>(instruction, state),
            Opcode::JMP | Opcode::JSR | Opcode::RTS | Opcode::RTI | Opcode::NOP | Opcode::BRK => self.spec_execute_control::<B>(instruction, state),
            Opcode::BCS | Opcode::BCC | Opcode::BEQ | Opcode::BNE | Opcode::BMI | Opcode::BPL | Opcode::BVS | Opcode::BVC | Opcode::CLC | Opcode::CLD | Opcode::CLI | Opcode::CLV | Opcode::SEC | Opcode::SED | Opcode::SEI => self.spec_execute_branch::<B>(instruction, state),
        }
    }

    /// The effect of the loads, stores, transfers and stack operations.
    pub open spec fn spec_execute_transfer<B: Bus>(self, instruction: Instruction, state: B::V) -> (
        Result<(), Error>,
        MOS6502,
        B::V,
    ) {
        match instruction.opcode {
            Opcode::LDA => self.spec_op_load::<B>(Register::A, instruction, state),
            Opcode::LDX => self.spec_op_load::<B>(Register::X, instruction, state),
            Opcode::LDY => self.spec_op_load::<B>(Register::Y, instruction, state),
            Opcode::LAX => self.spec_op_lax::<B>(instruction, state),
            Opcode::STA => self.spec_write_operand::<B>(instruction, self.a, state),
            Opcode::STX => self.spec_write_operand::<B>(instruction, self.x, state),
            Opcode::STY => self.spec_write_operand::<B>(instruction, self.y, state),
            Opcode::SAX => self.spec_write_operand::<B>(instruction, self.a & self.x, state),
            Opcode::TAX => (Ok(()), self.spec_op_transfer(Register::A, Register::X), state),
            Opcode::TAY => (Ok(()), self.spec_op_transfer(Register::A, Register::Y), state),
            Opcode::TXA => (Ok(()), self.spec_op_transfer(Register::X, Register::A), state),
            Opcode::TYA => (Ok(()), self.spec_op_transfer(Register::Y, Register::A), state),
            Opcode::TSX => (Ok(()), self.spec_op_transfer(Register::SP, Register::X), state),
            Opcode::TXS => (Ok(()), self.spec_op_transfer(Register::X, Register::SP), state),
            Opcode::PHA => {
                let (c, s) = self.spec_push_u8::<B>(self.a, state);
                (Ok(()), c, s)
            },
            Opcode::PHP => {
                let (c, s) = self.spec_push_u8::<B>(self.p.spec_pushed(true), state);
                (Ok(()), c, s)
            },
            Opcode::PLA => {
                let (c, s) = self.spec_op_pull::<B>(Register::A, state);
                (Ok(()), c, s)
            },
            Opcode::PLP => {
                let (c, s) = self.spec_op_pull::<B>(Register::P, state);
                (Ok(()), c, s)
            },
            _ => (Ok(()), self, state),
        }
    }

    /// The effect of the logic, arithmetic, comparisons, increments and decrements.
    pub open spec fn spec_execute_arithmetic<B: Bus>(self, instruction: Instruction, state: B::V) -> (
        Result<(), Error>,
        MOS6502,
        B::V,
    ) {
        match instruction.opcode {
            Opcode::AND => self.spec_op_logical::<B>(Logic::And, instruction, state),
            Opcode::EOR => self.spec_op_logical::<B>(Logic::Eor, instruction, state),
            Opcode::ORA => self.spec_op_logical::<B>(Logic::Ora, instruction, state),
            Opcode::BIT => self.spec_op_bit::<B>(instruction, state),
            Opcode::ADC => self.spec_op_add::<B>(false, instruction, state),
            Opcode::SBC => self.spec_op_add::<B>(true, instruction, state),
            Opcode::CMP => self.spec_op_compare::<B>(Register::A, instruction, state),
            Opcode::CPX => self.spec_op_compare::<B>(Register::X, instruction, state),
            Opcode::CPY => self.spec_op_compare::<B>(Register::Y, instruction, state),
            Opcode::INC => {
                let (r, c, s) = self.spec_modify_operand::<B>(instruction, Modification::Increment, state);
                (drop_value(r), c, s)
            },
            Opcode::DEC => {
                let (r, c, s) = self.spec_modify_operand::<B>(instruction, Modification::Decrement, state);
                (drop_value(r), c, s)
            },
            Opcode::INX => (Ok(()), self.spec_modify_register(Register::X, Modification::Increment), state),
            Opcode::INY => (Ok(()), self.spec_modify_register(Register::Y, Modification::Increment), state),
            Opcode::DEX => (Ok(()), self.spec_modify_register(Register::X, Modification::Decrement), state),
            Opcode::DEY => (Ok(()), self.spec_modify_register(Register::Y, Modification::Decrement), state),
            Opcode::ISC => self.spec_op_modify_then::<B>(true, instruction, state),
            Opcode::DCP => self.spec_op_modify_then::<B>(false, instruction, state),
            _ => (Ok(()), self, state),
        }
    }

    /// The effect of the shifts and rotations.
    pub open spec fn spec_execute_shift<B: Bus>(self, instruction: Instruction, state: B::V) -> (
        Result<(), Error>,
        MOS6502,
        B::V,
    ) {
        let carry = self.p.spec_get(StatusFlag::Carry);
        match instruction.opcode {
            Opcode::ASL => {
                let (r, c, s) = self.spec_op_shift::<B>(Modification::ShiftLeft, instruction, state);
                (drop_value(r), c, s)
            },
            Opcode::LSR => {
                let (r, c, s) = self.spec_op_shift::<B>(Modification::ShiftRight, instruction, state);
                (drop_value(r), c, s)
            },
            Opcode::ROL => {
                let (r, c, s) = self.spec_op_shift::<B>(Modification::RotateLeft(carry), instruction, state);
                (drop_value(r), c, s)
            },
            Opcode::ROR => {
                let (r, c, s) = self.spec_op_shift::<B>(Modification::RotateRight(carry), instruction, state);
                (drop_value(r), c, s)
            },
            Opcode::SLO => self.spec_op_shift_then_logical::<B>(Modification::ShiftLeft, Logic::Ora, instruction, state),
            Opcode::SRE => self.spec_op_shift_then_logical::<B>(Modification::ShiftRight, Logic::Eor, instruction, state),
            Opcode::RLA => self.spec_op_shift_then_logical::<B>(
                Modification::RotateLeft(carry),
                Logic::And,
                instruction,
                state,
            ),
            Opcode::RRA => self.spec_op_rotate_then_add::<B>(instruction, state),
            _ => (Ok(()), self, state),
        }
    }

    /// The effect of the jumps and system instructions.
    pub open spec fn spec_execute_control<B: Bus>(self, instruction: Instruction, state: B::V) -> (
        Result<(), Error>,
        MOS6502,
        B::V,
    ) {
        match instruction.opcode {
            Opcode::JMP => self.spec_op_jump::<B>(instruction, state),
            Opcode::JSR => self.spec_op_jump_subroutine::<B>(instruction, state),
            Opcode::RTS => {
                let (c, s) = self.spec_op_return::<B>(state);
                (Ok(()), c, s)
            },
            Opcode::RTI => {
                let (c, s) = self.spec_op_return_from_interrupt::<B>(state);
                (Ok(()), c, s)
            },
            Opcode::NOP => {
                let (c, s) = self.spec_op_nop::<B>(instruction, state);
                (Ok(()), c, s)
            },
            Opcode::BRK => {
                let skipped = MOS6502 { pc: next_address(self.pc), ..self };
                let (c, s) = skipped.spec_interrupt::<B>(Interrupt::BRK, state);
                (Ok(()), c, s)
            },
            _ => (Ok(()), self, state),
        }
    }

    /// The effect of the branches and flag changes.
    pub open spec fn spec_execute_branch<B: Bus>(self, instruction: Instruction, state: B::V) -> (
        Result<(), Error>,
        MOS6502,
        B::V,
    ) {
        let carry = self.p.spec_get(StatusFlag::Carry);
        let zero = self.p.spec_get(StatusFlag::Zero);
        let negative = self.p.spec_get(StatusFlag::Negative);
        let overflow = self.p.spec_get(StatusFlag::Overflow);
        match instruction.opcode {
            Opcode::BCS => self.spec_op_branch::<B>(carry, instruction, state),
            Opcode::BCC => self.spec_op_branch::<B>(!carry, instruction, state),
            Opcode::BEQ => self.spec_op_branch::<B>(zero, instruction, state),
            Opcode::BNE => self.spec_op_branch::<B>(!zero, instruction, state),
            Opcode::BMI => self.spec_op_branch::<B>(negative, instruction, state),
            Opcode::BPL => self.spec_op_branch::<B>(!negative, instruction, state),
            Opcode::BVS => self.spec_op_branch::<B>(overflow, instruction, state),
            Opcode::BVC => self.spec_op_branch::<B>(!overflow, instruction, state),
            Opcode::CLC => (Ok(()), self.spec_op_flag(StatusFlag::Carry, false), state),
            Opcode::CLD => (Ok(()), self.spec_op_flag(StatusFlag::DecimalMode, false), state),
            Opcode::CLI => (Ok(()), self.spec_op_flag(StatusFlag::InterruptDisable, false), state),
            Opcode::CLV => (Ok(()), self.spec_op_flag(StatusFlag::Overflow, false), state),
            Opcode::SEC => (Ok(()), self.spec_op_flag(StatusFlag::Carry, true), state),
            Opcode::SED => (Ok(()), self.spec_op_flag(StatusFlag::DecimalMode, true), state),
            Opcode::SEI => (Ok(()), self.spec_op_flag(StatusFlag::InterruptDisable, true), state),
            _ => (Ok(()), self, state),
        }
    }

    /// Fetching and executing the instruction at the program counter. The fetch's first
    /// cycle is the current one; the rest are left to wait out.
    pub open spec fn spec_step_instruction<B: Bus>(self, state: B::V) -> (Result<(), Error>, MOS6502, B::V) {
        let (res, s1) = spec_decode::<B>(self.pc, state);
        match res {
            Err(e) => (Err(e), self, s1),
            Ok((instruction, cycles, bytes)) => {
                let fetched = MOS6502 {
                    pc: ((self.pc + bytes) % 0x10000) as u16,
                    ..self.spec_with_wait(cycles - 1)
                };
                fetched.spec_execute::<B>(instruction, s1)
            },
        }
    }

    /// One byte of a copy in progress: read from the source, written to the target, two cycles.
    pub open spec fn spec_step_dma<B: Bus>(self, d: ActiveDMA, state: B::V) -> (MOS6502, B::V) {
        let source = ((d.start_address + d.bytes_transferred) % 0x10000) as u16;
        let done = (d.bytes_transferred + 1) as u16;
        let next = if done >= d.bytes_to_transfer {
            None
        } else {
            Some(ActiveDMA { bytes_transferred: done, ..d })
        };
        let byte = B::peek(state, source);
        (
            MOS6502 { active_dma: next, ..self.spec_with_wait(1) },
            B::after_write(B::after_read(state, source), d.target_address, byte),
        )
    }

    /// A hardware interrupt taken in this cycle: its first cycle is the current one.
    pub open spec fn spec_service<B: Bus>(self, kind: Interrupt, state: B::V) -> (MOS6502, B::V) {
        let (c, s) = self.spec_interrupt::<B>(kind, state);
        (c.spec_with_wait(-1), s)
    }

    /// One clock cycle, which does exactly one of these, in this order of priority: wait
    /// out a cycle of the running instruction; move a byte of a copy in progress; enter
    /// the non-maskable interrupt handler (and clear its line); enter the maskable one,
    /// unless `InterruptDisable` is set; fetch and execute the next instruction. The
    /// elapsed cycle count goes up by one unless the step fails.
    #[verifier::opaque]
    pub open spec fn spec_cycle<B: Bus>(self, state: B::V) -> (Result<(), Error>, MOS6502, B::V) {
        if self.wait_cycles > 0 {
            (
                Ok(()),
                MOS6502 {
                    wait_cycles: (self.wait_cycles - 1) as u32,
                    elapsed_cycles: tick(self.elapsed_cycles),
                    ..self
                },
                state,
            )
        } else if self.active_dma is Some {
            let (c, s) = self.spec_step_dma::<B>(self.active_dma->Some_0, state);
            (Ok(()), MOS6502 { elapsed_cycles: tick(self.elapsed_cycles), ..c }, s)
        } else if self.nmi {
            let (c, s) = self.spec_service::<B>(Interrupt::NMI, state);
            (Ok(()), MOS6502 { nmi: false, elapsed_cycles: tick(self.elapsed_cycles), ..c }, s)
        } else if self.irq && !self.p.spec_get(StatusFlag::InterruptDisable) {
            let (c, s) = self.spec_service::<B>(Interrupt::IRQ, state);
            (Ok(()), MOS6502 { elapsed_cycles: tick(self.elapsed_cycles), ..c }, s)
        } else {
            let (r, c, s) = self.spec_step_instruction::<B>(state);
            match r {
                Ok(()) => (Ok(()), MOS6502 { elapsed_cycles: tick(c.elapsed_cycles), ..c }, s),
                Err(e) => (Err(e), c, s),
            }
        }
    }
}

impl MOS6502 {
    fn interrupt<B: Bus>(&mut self, bus: &mut B, kind: Interrupt)
        requires
            old(self).wf(),
            old(self).wait_cycles <= 0xFFFF_0000,
        ensures
            (*final(self), final(bus)@) == old(self).spec_interrupt::<B>(kind, old(bus)@),
            final(self).wf(),
            B::inv(old(bus)@) ==> B::inv(final(bus)@),
    {
        if kind != Interrupt::BRK {
            let pc = self.pc;
            let _ = self.read_u8(bus, pc);
            let _ = self.read_u8(bus, pc);
        }
        if kind == Interrupt::RESET {
            self.sp = self.sp.wrapping_sub(3);
            self.wait_cycles = self.wait_cycles + 3;
        } else {
            let pc = self.pc;
            self.push_stack_u16(bus, pc);
            let pushed = self.p.pushed(kind == Interrupt::BRK);
            self.push_stack_u8(bus, pushed);
        }
        let target = bus.read_u16(kind.vector_address());
        self.wait_cycles = self.wait_cycles + 2;
        self.p.set(StatusFlag::InterruptDisable, true);
        self.pc = target;
    }

    /// Simulates the reset input: the processor enters the handler whose address is stored
    /// at `0xFFFC`, with the seven cycles of the sequence left to wait out.
    pub fn reset<B: Bus>(&mut self, bus: &mut B) -> (r: Result<(), Error>)
        requires
            old(self).wf(),
            old(self).wait_cycles <= 0xFFFF_0000,
        ensures
            r is Ok,
            (*final(self), final(bus)@) == old(self).spec_interrupt::<B>(Interrupt::RESET, old(bus)@),
            final(self).wf(),
            B::inv(old(bus)@) ==> B::inv(final(bus)@),
    {
        self.interrupt(bus, Interrupt::RESET);
        Ok(())
    }

    /// Adds a direct-memory-access channel; it replaces an earlier one with the same
    /// trigger address.
    pub fn with_dma(self, dma: DMA) -> (r: MOS6502)
        ensures
            r == (MOS6502 { dma: r.dma, ..self }),
            r.dma@ == self.dma@.insert(dma.trigger_address, dma),
            dma_at(r.dma@, dma.trigger_address) == Some(dma),
            forall|a: u16| a != dma.trigger_address ==> dma_at(r.dma@, a) == dma_at(self.dma@, a),
    {
        let mut cpu = self;
        let _ = cpu.dma.insert(dma.trigger_address, dma);
        cpu
    }

    /// Moves one byte of the copy in progress, if there is one.
    pub fn step_active_dma<B: Bus>(&mut self, bus: &mut B) -> (r: DMAStatus)
        requires
            old(self).wf(),
            old(self).wait_cycles <= 0xFFFF_0000,
        ensures
            r == (if old(self).active_dma is Some { DMAStatus::Active } else { DMAStatus::Inactive }),
            old(self).active_dma is Some ==> (*final(self), final(bus)@) == old(self).spec_step_dma::<B>(
                old(self).active_dma->Some_0,
                old(bus)@,
            ),
            old(self).active_dma is None ==> *final(self) == *old(self) && final(bus)@ == old(bus)@,
            final(self).wf(),
            B::inv(old(bus)@) ==> B::inv(final(bus)@),
    {
        match self.active_dma {
            Some(active) => {
                let source = active.start_address.wrapping_add(active.bytes_transferred);
                let done = active.bytes_transferred + 1;
                if done >= active.bytes_to_transfer {
                    self.active_dma = None;
                } else {
                    self.active_dma = Some(ActiveDMA { bytes_transferred: done, ..active });
                }
                let byte = bus.read_u8(source);
                bus.write_u8(active.target_address, byte);
                self.wait_cycles = self.wait_cycles + 1;
                DMAStatus::Active
            },
            None => DMAStatus::Inactive,
        }
    }

    /// Decodes the instruction at the program counter without executing it.
    pub fn next_instruction<B: Bus>(&self, bus: &mut B) -> (r: Result<Instruction, Error>)
        ensures
            final(bus)@ == spec_decode::<B>(self.pc, old(bus)@).1,
            r == match spec_decode::<B>(self.pc, old(bus)@).0 {
                Ok((instruction, _, _)) => Ok(instruction),
                Err(e) => Err(e),
            },
            B::inv(old(bus)@) ==> B::inv(final(bus)@),
    {
        let (instruction, _, _) = Instruction::try_from_bus(self.pc, bus)?;
        Ok(instruction)
    }

    fn step_instruction<B: Bus>(&mut self, bus: &mut B) -> (r: Result<(), Error>)
        requires
            old(self).wf(),
            old(self).wait_cycles == 0,
        ensures
            (r, *final(self), final(bus)@) == old(self).spec_step_instruction::<B>(old(bus)@),
            final(self).wf(),
            B::inv(old(bus)@) ==> B::inv(final(bus)@),
    {
        let (instruction, cycles, bytes) = Instruction::try_from_bus(self.pc, bus)?;
        self.pc = self.pc.wrapping_add(bytes);
        self.wait_cycles = self.wait_cycles + cycles - 1;
        self.execute_instruction(bus, instruction)
    }

    /// Executes one clock cycle.
    pub fn cycle<B: Bus>(&mut self, bus: &mut B) -> (r: Result<(), Error>)
        requires
            old(self).wf(),
        ensures
            (r, *final(self), final(bus)@) == old(self).spec_cycle::<B>(old(bus)@),
            final(self).wf(),
            final(self).p.spec_get(StatusFlag::Unused),
            B::inv(old(bus)@) ==> B::inv(final(bus)@),
    {
        reveal(MOS6502::spec_cycle);
        if self.wait_cycles > 0 {
            self.wait_cycles = self.wait_cycles - 1;
            self.elapsed_cycles = self.elapsed_cycles.wrapping_add(1);
            return Ok(());
        }
        if self.step_active_dma(bus) == DMAStatus::Active {
            self.elapsed_cycles = self.elapsed_cycles.wrapping_add(1);
            return Ok(());
        }
        if self.nmi {
            self.interrupt(bus, Interrupt::NMI);
            self.wait_cycles = self.wait_cycles - 1;
            self.nmi = false;
            self.elapsed_cycles = self.elapsed_cycles.wrapping_add(1);
            return Ok(());
        }
        if self.irq && !self.p.get(StatusFlag::InterruptDisable) {
            self.interrupt(bus, Interrupt::IRQ);
            self.wait_cycles = self.wait_cycles - 1;
            self.elapsed_cycles = self.elapsed_cycles.wrapping_add(1);
            return Ok(());
        }
        self.step_instruction(bus)?;
        self.elapsed_cycles = self.elapsed_cycles.wrapping_add(1);
        Ok(())
    }

    /// Cycles until the instruction under way and its wait are over: one cycle, then as
    /// many as it left to wait. The next cycle will start something new.
    pub fn cycle_to_next_instruction<B: Bus>(&mut self, bus: &mut B) -> (r: Result<(), Error>)
        requires
            old(self).wf(),
        ensures
            final(self).wf(),
            ({
                let (res, c, s) = old(self).spec_cycle::<B>(old(bus)@);
                &&& r == res
                &&& final(bus)@ == s
                &&& *final(self) == (if res is Ok { drained(c) } else { c })
            }),
            B::inv(old(bus)@) ==> B::inv(final(bus)@),
    {
        let ghost s0 = bus@;
        let r = self.cycle(bus);
        if r.is_err() {
            return r;
        }
        let ghost c = *self;
        while self.wait_cycles > 0
            invariant
                self.wf(),
                bus@ == old(self).spec_cycle::<B>(s0).2,
                B::inv(old(bus)@) ==> B::inv(bus@),
                s0 == old(bus)@,
                c == old(self).spec_cycle::<B>(s0).1,
                self.wait_cycles <= c.wait_cycles,
                *self == (MOS6502 {
                    wait_cycles: self.wait_cycles,
                    elapsed_cycles: ticks(c.elapsed_cycles, (c.wait_cycles - self.wait_cycles) as nat),
                    ..c
                }),
            decreases self.wait_cycles,
        {
            proof {
                reveal(MOS6502::spec_cycle);
            }
            let _ = self.cycle(bus);
        }
        proof {
            lemma_unit_result(r);
        }
        r
    }

    /// Cycles until the next instruction is `BRK`, for at most `max_cycles` cycles; see
    /// `spec_until_brk`.
    pub fn cycle_until_brk<B: Bus>(&mut self, bus: &mut B, max_cycles: u64) -> (r: Result<bool, Error>)
        requires
            old(self).wf(),
        ensures
            final(self).wf(),
            (r, *final(self), final(bus)@) == spec_until_brk::<B>(*old(self), old(bus)@, max_cycles as nat),
            B::inv(old(bus)@) ==> B::inv(final(bus)@),
    {
        let ghost c0 = *self;
        let ghost s0 = bus@;
        let mut n: u64 = 0;
        while n < max_cycles
            invariant
                self.wf(),
                n <= max_cycles,
                B::inv(old(bus)@) ==> B::inv(bus@),
                c0 == *old(self),
                s0 == old(bus)@,
                spec_until_brk::<B>(c0, s0, max_cycles as nat) == spec_until_brk::<B>(
                    *self,
                    bus@,
                    (max_cycles - n) as nat,
                ),
            decreases max_cycles - n,
        {
            match self.cycle(bus) {
                Ok(()) => {},
                Err(e) => {
                    return Err(e);
                },
            }
            n = n + 1;
            let next = match self.next_instruction(bus) {
                Ok(instruction) => instruction,
                Err(e) => {
                    return Err(e);
                },
            };
            if next.opcode == Opcode::BRK {
                return Ok(true);
            }
        }
        Ok(false)
    }
}

impl MOS6502 {
    fn execute_instruction<B: Bus>(&mut self, bus: &mut B, instruction: Instruction) -> (r: Result<(), Error>)
        requires
            old(self).wf(),
            old(self).wait_cycles <= 0xFFFF_0000,
        ensures
            (r, *final(self), final(bus)@) == old(self).spec_execute::<B>(instruction, old(bus)@),
            final(self).wf(),
            B::inv(old(bus)@) ==> B::inv(final(bus)@),
    {
        reveal(MOS6502::spec_execute);
        match instruction.opcode {
            Opcode::LDA | Opcode::LDX | Opcode::LDY | Opcode::LAX | Opcode::STA | Opcode::STX | Opcode::STY | Opcode::SAX | Opcode::TAX | Opcode::TAY | Opcode::TXA | Opcode::TYA | Opcode::TSX | Opcode::TXS | Opcode::PHA | Opcode::PHP | Opcode::PLA | Opcode::PLP => self.execute_transfer(bus, instruction),
            Opcode::AND | Opcode::EOR | Opcode::ORA | Opcode::BIT | Opcode::ADC | Opcode::SBC | Opcode::CMP | Opcode::CPX | Opcode::CPY | Opcode::INC | Opcode::DEC | Opcode::INX | Opcode::INY | Opcode::DEX | Opcode::DEY | Opcode::ISC | Opcode::DCP => self.execute_arithmetic(bus, instruction),
            Opcode::ASL | Opcode::LSR | Opcode::ROL | Opcode::ROR | Opcode::SLO | Opcode::SRE | Opcode::RLA | Opcode::RRA => self.execute_shift(bus, instruction),
            Opcode::JMP | Opcode::JSR | Opcode::RTS | Opcode::RTI | Opcode::NOP | Opcode::BRK => self.execute_control(bus, instruction),
            Opcode::BCS | Opcode::BCC | Opcode::BEQ | Opcode::BNE | Opcode::BMI | Opcode::BPL | Opcode::BVS | Opcode::BVC | Opcode::CLC | Opcode::CLD | Opcode::CLI | Opcode::CLV | Opcode::SEC | Opcode::SED | Opcode::SEI => self.execute_branch(bus, instruction),
        }
    }

    fn execute_transfer<B: Bus>(&mut self, bus: &mut B, instruction: Instruction) -> (r: Result<(), Error>)
        requires
            old(self).wf(),
            old(self).wait_cycles <= 0xFFFF_0000,
        ensures
            (r, *final(self), final(bus)@) == old(self).spec_execute_transfer::<B>(instruction, old(bus)@),
            final(self).wf(),
            B::inv(old(bus)@) ==> B::inv(final(bus)@),
    {
        match instruction.opcode {
            Opcode::LDA => self.op_load(bus, Register::A, instruction),
            Opcode::LDX => self.op_load(bus, Register::X, instruction),
            Opcode::LDY => self.op_load(bus, Register::Y, instruction),
            Opcode::LAX => self.op_lax(bus, instruction),
            Opcode::STA => {
                let value = self.a;
                self.write_operand(bus, instruction, value)
            },
            Opcode::STX => {
                let value = self.x;
                self.write_operand(bus, instruction, value)
            },
            Opcode::STY => {
                let value = self.y;
                self.write_operand(bus, instruction, value)
            },
            Opcode::SAX => {
                let value = self.a & self.x;
                self.write_operand(bus, instruction, value)
            },
            Opcode::TAX => {
                self.op_transfer(Register::A, Register::X);
                Ok(())
            },
            Opcode::TAY => {
                self.op_transfer(Register::A, Register::Y);
                Ok(())
            },
            Opcode::TXA => {
                self.op_transfer(Register::X, Register::A);
                Ok(())
            },
            Opcode::TYA => {
                self.op_transfer(Register::Y, Register::A);
                Ok(())
            },
            Opcode::TSX => {
                self.op_transfer(Register::SP, Register::X);
                Ok(())
            },
            Opcode::TXS => {
                self.op_transfer(Register::X, Register::SP);
                Ok(())
            },
            Opcode::PHA => {
                let value = self.a;
                self.push_stack_u8(bus, value);
                Ok(())
            },
            Opcode::PHP => {
                let value = self.p.pushed(true);
                self.push_stack_u8(bus, value);
                Ok(())
            },
            Opcode::PLA => {
                self.op_pull(bus, Register::A);
                Ok(())
            },
            Opcode::PLP => {
                self.op_pull(bus, Register::P);
                Ok(())
            },
            _ => Ok(()),
        }
    }

    fn execute_arithmetic<B: Bus>(&mut self, bus: &mut B, instruction: Instruction) -> (r: Result<(), Error>)
        requires
            old(self).wf(),
            old(self).wait_cycles <= 0xFFFF_0000,
        ensures
            (r, *final(self), final(bus)@) == old(self).spec_execute_arithmetic::<B>(instruction, old(bus)@),
            final(self).wf(),
            B::inv(old(bus)@) ==> B::inv(final(bus)@),
    {
        match instruction.opcode {
            Opcode::AND => self.op_logical(bus, Logic::And, instruction),
            Opcode::EOR => self.op_logical(bus, Logic::Eor, instruction),
            Opcode::ORA => self.op_logical(bus, Logic::Ora, instruction),
            Opcode::BIT => self.op_bit(bus, instruction),
            Opcode::ADC => self.op_add(bus, false, instruction),
            Opcode::SBC => self.op_add(bus, true, instruction),
            Opcode::CMP => self.op_compare(bus, Register::A, instruction),
            Opcode::CPX => self.op_compare(bus, Register::X, instruction),
            Opcode::CPY => self.op_compare(bus, Register::Y, instruction),
            Opcode::INC => match self.modify_operand(bus, instruction, Modification::Increment) {
                Ok(_) => Ok(()),
                Err(e) => Err(e),
            },
            Opcode::DEC => match self.modify_operand(bus, instruction, Modification::Decrement) {
                Ok(_) => Ok(()),
                Err(e) => Err(e),
            },
            Opcode::INX => {
                self.modify_register(Register::X, Modification::Increment);
                Ok(())
            },
            Opcode::INY => {
                self.modify_register(Register::Y, Modification::Increment);
                Ok(())
            },
            Opcode::DEX => {
                self.modify_register(Register::X, Modification::Decrement);
                Ok(())
            },
            Opcode::DEY => {
                self.modify_register(Register::Y, Modification::Decrement);
                Ok(())
            },
            Opcode::ISC => self.op_modify_then(bus, true, instruction),
            Opcode::DCP => self.op_modify_then(bus, false, instruction),
            _ => Ok(()),
        }
    }

    fn execute_shift<B: Bus>(&mut self, bus: &mut B, instruction: Instruction) -> (r: Result<(), Error>)
        requires
            old(self).wf(),
            old(self).wait_cycles <= 0xFFFF_0000,
        ensures
            (r, *final(self), final(bus)@) == old(self).spec_execute_shift::<B>(instruction, old(bus)@),
            final(self).wf(),
            B::inv(old(bus)@) ==> B::inv(final(bus)@),
    {
        let carry = self.p.get(StatusFlag::Carry);
        match instruction.opcode {
            Opcode::ASL => match self.op_shift(bus, Modification::ShiftLeft, instruction) {
                Ok(_) => Ok(()),
                Err(e) => Err(e),
            },
            Opcode::LSR => match self.op_shift(bus, Modification::ShiftRight, instruction) {
                Ok(_) => Ok(()),
                Err(e) => Err(e),
            },
            Opcode::ROL => match self.op_shift(bus, Modification::RotateLeft(carry), instruction) {
                Ok(_) => Ok(()),
                Err(e) => Err(e),
            },
            Opcode::ROR => match self.op_shift(bus, Modification::RotateRight(carry), instruction) {
                Ok(_) => Ok(()),
                Err(e) => Err(e),
            },
            Opcode::SLO => self.op_shift_then_logical(bus, Modification::ShiftLeft, Logic::Ora, instruction),
            Opcode::SRE => self.op_shift_then_logical(bus, Modification::ShiftRight, Logic::Eor, instruction),
            Opcode::RLA => self.op_shift_then_logical(bus, Modification::RotateLeft(carry), Logic::And, instruction),
            Opcode::RRA => self.op_rotate_then_add(bus, instruction),
            _ => Ok(()),
        }
    }

    #[verifier::rlimit(100)]
    fn execute_control<B: Bus>(&mut self, bus: &mut B, instruction: Instruction) -> (r: Result<(), Error>)
        requires
            old(self).wf(),
            old(self).wait_cycles <= 0xFFFF_0000,
        ensures
            (r, *final(self), final(bus)@) == old(self).spec_execute_control::<B>(instruction, old(bus)@),
            final(self).wf(),
            B::inv(old(bus)@) ==> B::inv(final(bus)@),
    {
        match instruction.opcode {
            Opcode::JMP => self.op_jump(bus, instruction),
            Opcode::JSR => self.op_jump_subroutine(bus, instruction),
            Opcode::RTS => {
                self.op_return(bus);
                Ok(())
            },
            Opcode::RTI => {
                self.op_return_from_interrupt(bus);
                Ok(())
            },
            Opcode::NOP => {
                self.op_nop(bus, instruction);
                Ok(())
            },
            Opcode::BRK => {
                self.pc = self.pc.wrapping_add(1);
                self.interrupt(bus, Interrupt::BRK);
                Ok(())
            },
            _ => Ok(()),
        }
    }

    fn execute_branch<B: Bus>(&mut self, bus: &mut B, instruction: Instruction) -> (r: Result<(), Error>)
        requires
            old(self).wf(),
            old(self).wait_cycles <= 0xFFFF_0000,
        ensures
            (r, *final(self), final(bus)@) == old(self).spec_execute_branch::<B>(instruction, old(bus)@),
            final(self).wf(),
            B::inv(old(bus)@) ==> B::inv(final(bus)@),
    {
        let carry = self.p.get(StatusFlag::Carry);
        let zero = self.p.get(StatusFlag::Zero);
        let negative = self.p.get(StatusFlag::Negative);
        let overflow = self.p.get(StatusFlag::Overflow);
        match instruction.opcode {
            Opcode::BCS => self.op_branch(bus, carry, instruction),
            Opcode::BCC => self.op_branch(bus, !carry, instruction),
            Opcode::BEQ => self.op_branch(bus, zero, instruction),
            Opcode::BNE => self.op_branch(bus, !zero, instruction),
            Opcode::BMI => self.op_branch(bus, negative, instruction),
            Opcode::BPL => self.op_branch(bus, !negative, instruction),
            Opcode::BVS => self.op_branch(bus, overflow, instruction),
            Opcode::BVC => self.op_branch(bus, !overflow, instruction),
            Opcode::CLC => {
                self.p.set(StatusFlag::Carry, false);
                Ok(())
            },
            Opcode::CLD => {
                self.p.set(StatusFlag::DecimalMode, false);
                Ok(())
            },
            Opcode::CLI => {
                self.p.set(StatusFlag::InterruptDisable, false);
                Ok(())
            },
            Opcode::CLV => {
                self.p.set(StatusFlag::Overflow, false);
                Ok(())
            },
            Opcode::SEC => {
                self.p.set(StatusFlag::Carry, true);
                Ok(())
            },
            Opcode::SED => {
                self.p.set(StatusFlag::DecimalMode, true);
                Ok(())
            },
            Opcode::SEI => {
                self.p.set(StatusFlag::InterruptDisable, true);
                Ok(())
            },
            _ => Ok(()),
        }
    }

}

} // verus!
