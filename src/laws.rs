use vstd::prelude::*;

use crate::addressable::Addressable;
use crate::addressing::{spec_resolve, Addressing};
use crate::bus::{hi_byte, lo_byte, word, Bus, RamBus16kb};
use crate::cpu::{dma_start_cycles, MOS6502};
use crate::instruction::Instruction;
use crate::opcode::Opcode;
use crate::stack::stack_address;
use crate::status::{lemma_set_keeps_other_flags, Status, StatusFlag};

verus! {

/// `Break` has no storage in `P`: the copy of `P` that `PHP` and `BRK` push has it set,
/// the copy a hardware interrupt pushes has it clear, and `P` loaded from the stack by
/// `PLP` or `RTI` has it clear. Every one of them has the always-one bit set.
pub proof fn lemma_break_and_always_one_bits(p: Status, software: bool, byte: u8)
    ensures
        Status(p.spec_pushed(software)).spec_get(StatusFlag::Break) == software,
        Status(p.spec_pushed(software)).spec_get(StatusFlag::Unused),
        !Status::spec_from_pulled(byte).spec_get(StatusFlag::Break),
        Status::spec_from_pulled(byte).spec_get(StatusFlag::Unused),
{
    lemma_set_keeps_other_flags(p.0, StatusFlag::Break, software);
    lemma_set_keeps_other_flags(p.spec_set(StatusFlag::Break, software).0, StatusFlag::Unused, true);
    lemma_set_keeps_other_flags(byte, StatusFlag::Break, false);
    lemma_set_keeps_other_flags(Status(byte).spec_set(StatusFlag::Break, false).0, StatusFlag::Unused, true);
}

/// Reading an operand from plain RAM leaves the memory as it was, so a second read from the
/// same processor state gives the same value, the same cycle count and the same processor
/// state, for every addressing mode.
pub proof fn lemma_read_is_repeatable(cpu: MOS6502, memory: Seq<u8>, instruction: Instruction)
    ensures
        ({
            let (r1, c1, m1) = cpu.spec_read_operand::<RamBus16kb>(instruction, memory);
            &&& m1 == memory
            &&& cpu.spec_read_operand::<RamBus16kb>(instruction, m1) == (r1, c1, m1)
        }),
{
}

/// `PHA` followed by `PLA` leaves `A` and the stack pointer as they were, on a RAM bus,
/// unless the stack slot is a trigger address of a direct-memory-access channel.
pub proof fn lemma_push_pull_round_trip(cpu: MOS6502, memory: Seq<u8>)
    requires
        memory.len() == 0x10000,
        !cpu.dma@.contains_key(stack_address(cpu.sp)),
    ensures
        ({
            let pha = Instruction { opcode: Opcode::PHA, addressing: Addressing::Implied };
            let pla = Instruction { opcode: Opcode::PLA, addressing: Addressing::Implied };
            let (_, c1, s1) = cpu.spec_execute::<RamBus16kb>(pha, memory);
            let (_, c2, _) = c1.spec_execute::<RamBus16kb>(pla, s1);
            c2.a == cpu.a && c2.sp == cpu.sp
        }),
{
    reveal(MOS6502::spec_execute);
}

/// A word pushed high byte first and pulled low byte first comes back unchanged, on a RAM
/// bus, unless one of its two stack slots is a trigger address of a direct-memory-access
/// channel.
pub proof fn lemma_push_pull_u16_round_trip(cpu: MOS6502, memory: Seq<u8>, v: u16)
    requires
        memory.len() == 0x10000,
        !cpu.dma@.contains_key(stack_address(cpu.sp)),
        !cpu.dma@.contains_key(stack_address(((cpu.sp + 255) % 256) as u8)),
    ensures
        ({
            let (c1, s1) = cpu.spec_push_u16::<RamBus16kb>(v, memory);
            let (w, c2, _) = c1.spec_pull_u16::<RamBus16kb>(s1);
            w == v && c2.sp == cpu.sp
        }),
{
    assert(word(lo_byte(v), hi_byte(v)) == v);
}

/// The indirect jump's page bug: through a pointer at `$xxFF` the high byte of the target
/// comes from `$xx00`, the start of the same page, and not from the next page.
pub proof fn lemma_indirect_jump_page_wrap(x: u8, y: u8, pc: u16, memory: Seq<u8>, a: u16)
    requires
        memory.len() == 0x10000,
        a % 256 == 0xFF,
    ensures
        spec_resolve::<RamBus16kb>(Addressing::Indirect(a), x, y, pc, memory).0 == Ok::<_, crate::error::Error>(
            (
                Addressable::spec_memory(
                    Addressing::Indirect(a),
                    word(memory[a as int], memory[(a & 0xFF00) as int]),
                    false,
                ),
                2u32,
            ),
        ),
{
    assert(a & 0xFF00 == a - 0xFF) by (bit_vector)
        requires a % 256 == 0xFF;
}

/// Zero-page indexing wraps within the zero page: the target is `(m + index) mod 256`, also
/// when `m + index` passes `0xFF`.
pub proof fn lemma_zero_page_wrap<B: Bus>(m: u8, x: u8, y: u8, pc: u16, state: B::V)
    ensures
        spec_resolve::<B>(Addressing::ZeroPageX(m), x, y, pc, state).0 == Ok::<_, crate::error::Error>(
            (Addressable::spec_memory(Addressing::ZeroPageX(m), ((m + x) % 256) as u16, false), 1u32),
        ),
        spec_resolve::<B>(Addressing::ZeroPageY(m), x, y, pc, state).0 == Ok::<_, crate::error::Error>(
            (Addressable::spec_memory(Addressing::ZeroPageY(m), ((m + y) % 256) as u16, false), 1u32),
        ),
        m + x > 0xFF ==> ((m + x) % 256) == m + x - 256,
{
}

/// Starting a copy costs exactly one cycle more when the elapsed cycle count is odd than
/// when it is even; the pending-cycle counter shows the difference unless it is so close to
/// its 32-bit limit that it wraps.
pub proof fn lemma_dma_odd_cycle_stall<B: Bus>(cpu: MOS6502, address: u16, value: u8, state: B::V)
    requires
        cpu.dma@.contains_key(address),
        cpu.elapsed_cycles % 2 == 0,
        cpu.elapsed_cycles < u64::MAX,
    ensures
        dma_start_cycles((cpu.elapsed_cycles + 1) as u64) == dma_start_cycles(cpu.elapsed_cycles) + 1,
        cpu.wait_cycles <= 0xFFFF_0000 ==> ({
            let odd = MOS6502 { elapsed_cycles: (cpu.elapsed_cycles + 1) as u64, ..cpu };
            odd.spec_write_u8::<B>(address, value, state).0.wait_cycles == cpu.spec_write_u8::<B>(
                address,
                value,
                state,
            ).0.wait_cycles + 1
        }),
{
}

} // verus!
