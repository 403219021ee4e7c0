use nestalgic::addressable::{Addressable, AddressableTarget};
use nestalgic::addressing::Addressing;
use nestalgic::bus::{Bus, RamBus16kb};
use nestalgic::cpu::MOS6502;
use nestalgic::error::Error;
use nestalgic::status::{Status, StatusFlag};

fn cpu_at(pc: u16) -> MOS6502 {
    let mut cpu = MOS6502::new();
    cpu.pc = pc;
    cpu
}

#[test]
fn reset_vector_scenario() {
    let mut bus = RamBus16kb::new();
    bus.memory[0xFFFC] = 0x00;
    bus.memory[0xFFFD] = 0xFF;
    let mut cpu = MOS6502::new();
    cpu.reset(&mut bus).unwrap();
    assert_eq!(cpu.pc, 0xFF00);
    assert_eq!(cpu.sp, 0xFD);
    assert!(cpu.p.get(StatusFlag::InterruptDisable));
    cpu.cycle_to_next_instruction(&mut bus).unwrap();
    assert_eq!(cpu.elapsed_cycles, 7);
}

#[test]
fn immediate_loads_with_trailing_brk() {
    let mut bus = RamBus16kb::new().with_memory_at(0x0400, vec![0xA9, 0xBB, 0xA2, 0x55, 0xA0, 0x25, 0x00]);
    let mut cpu = cpu_at(0x0400);
    assert!(cpu.cycle_until_brk(&mut bus, 1000).unwrap());
    assert_eq!((cpu.a, cpu.x, cpu.y), (0xBB, 0x55, 0x25));
}

#[test]
fn zero_page_stores_with_trailing_brk() {
    let program = vec![0xA9, 0xBE, 0xA2, 0x40, 0xA0, 0xFF, 0x85, 0x00, 0x86, 0x01, 0x84, 0x02, 0x00];
    let mut bus = RamBus16kb::new().with_memory_at(0x0400, program);
    let mut cpu = cpu_at(0x0400);
    assert!(cpu.cycle_until_brk(&mut bus, 1000).unwrap());
    assert_eq!(&bus.memory[0..3], &[0xBE, 0x40, 0xFF]);
}

#[test]
fn indirect_jump_page_bug() {
    let mut bus = RamBus16kb::new()
        .with_memory_at(0x02FF, vec![0x03, 0x02])
        .with_memory_at(0x0300, vec![0xAA, 0xBB])
        .with_memory_at(0x0200, vec![0xCC, 0xDD])
        .with_memory_at(0x0600, vec![0x6C, 0xFF, 0x02]);
    // 0x0300 received 0x02 from the first copy and then 0xAA from the second.
    assert_eq!(bus.memory[0x0300], 0xAA);
    let mut cpu = cpu_at(0x0600);
    cpu.cycle_to_next_instruction(&mut bus).unwrap();
    assert_eq!(cpu.pc, 0xCC03);
}

#[test]
fn indirect_jump_without_page_end_reads_next_byte() {
    let mut bus = RamBus16kb::new()
        .with_memory_at(0x0210, vec![0x34, 0x12])
        .with_memory_at(0x0600, vec![0x6C, 0x10, 0x02]);
    let mut cpu = cpu_at(0x0600);
    cpu.cycle_to_next_instruction(&mut bus).unwrap();
    assert_eq!(cpu.pc, 0x1234);
}

#[test]
fn zero_page_x_wraps_within_page() {
    // LDX #$20; LDA $F0,X reads 0x0010, not 0x0110.
    let mut bus = RamBus16kb::new().with_memory_at(0x0600, vec![0xA2, 0x20, 0xB5, 0xF0]);
    bus.memory[0x0010] = 0x77;
    bus.memory[0x0110] = 0x11;
    let mut cpu = cpu_at(0x0600);
    cpu.cycle_to_next_instruction(&mut bus).unwrap();
    cpu.cycle_to_next_instruction(&mut bus).unwrap();
    assert_eq!(cpu.a, 0x77);
    assert_eq!(cpu.elapsed_cycles, 2 + 4);
}

#[test]
fn zero_page_x_resolves_to_wrapped_address() {
    let mut bus = RamBus16kb::new();
    let mut cpu = MOS6502::new();
    cpu.x = 0x20;
    let (addressable, cycles) = Addressing::ZeroPageX(0xF0).read_addressable(&cpu, &mut bus).unwrap();
    assert_eq!(addressable.target, AddressableTarget::Memory(0x0010));
    assert_eq!(cycles, 1);
}

#[test]
fn pha_then_pla_restores_accumulator_and_stack_pointer() {
    let mut bus = RamBus16kb::new().with_memory_at(0x0600, vec![0x48, 0xA9, 0x00, 0x68]);
    let mut cpu = cpu_at(0x0600);
    cpu.sp = 0x80;
    cpu.a = 0x5A;
    for _ in 0..2 {
        cpu.cycle_to_next_instruction(&mut bus).unwrap();
    }
    assert_eq!(cpu.a, 0x00);
    cpu.cycle_to_next_instruction(&mut bus).unwrap();
    assert_eq!(cpu.a, 0x5A);
    assert_eq!(cpu.sp, 0x80);
}

#[test]
fn jsr_rts_round_trips_sixteen_bit_return_address() {
    let mut bus = RamBus16kb::new()
        .with_memory_at(0x12FE, vec![0x20, 0x00, 0x03])
        .with_memory_at(0x0300, vec![0x60]);
    let mut cpu = cpu_at(0x12FE);
    cpu.sp = 0xFF;
    cpu.cycle_to_next_instruction(&mut bus).unwrap();
    assert_eq!(cpu.pc, 0x0300);
    assert_eq!(bus.memory[0x01FF], 0x13);
    assert_eq!(bus.memory[0x01FE], 0x00);
    cpu.cycle_to_next_instruction(&mut bus).unwrap();
    assert_eq!(cpu.pc, 0x1301);
    assert_eq!(cpu.sp, 0xFF);
}

#[test]
fn php_pushes_break_set_and_plp_clears_it() {
    // SEC; PHP; PLP
    let mut bus = RamBus16kb::new().with_memory_at(0x0600, vec![0x38, 0x08, 0x28]);
    let mut cpu = cpu_at(0x0600);
    cpu.sp = 0xFF;
    cpu.cycle_to_next_instruction(&mut bus).unwrap();
    cpu.cycle_to_next_instruction(&mut bus).unwrap();
    assert_eq!(bus.memory[0x01FF], 0b0011_0001);
    cpu.cycle_to_next_instruction(&mut bus).unwrap();
    assert_eq!(cpu.p, Status(0b0010_0001));
}

#[test]
fn hardware_interrupt_pushes_break_clear() {
    let mut bus = RamBus16kb::new();
    bus.write_u16(0xFFFA, 0x8000);
    let mut cpu = cpu_at(0x1234);
    cpu.sp = 0xFF;
    cpu.nmi = true;
    cpu.cycle(&mut bus).unwrap();
    assert!(!cpu.nmi);
    assert_eq!(cpu.pc, 0x8000);
    assert_eq!(bus.memory[0x01FF], 0x12);
    assert_eq!(bus.memory[0x01FE], 0x34);
    assert_eq!(bus.memory[0x01FD], 0b0010_0000);
    assert!(cpu.p.get(StatusFlag::InterruptDisable));
    assert_eq!(cpu.wait_cycles, 6);
}

#[test]
fn brk_pushes_break_set_and_rti_returns() {
    // BRK at 0x0600, handler at 0x0700 is RTI.
    let mut bus = RamBus16kb::new().with_memory_at(0x0600, vec![0x00, 0xEA]).with_memory_at(0x0700, vec![0x40]);
    bus.write_u16(0xFFFE, 0x0700);
    let mut cpu = cpu_at(0x0600);
    cpu.sp = 0xFF;
    cpu.cycle_to_next_instruction(&mut bus).unwrap();
    assert_eq!(cpu.pc, 0x0700);
    assert_eq!(cpu.elapsed_cycles, 7);
    assert_eq!(bus.memory[0x01FD] & 0b0011_0000, 0b0011_0000);
    cpu.cycle_to_next_instruction(&mut bus).unwrap();
    assert_eq!(cpu.pc, 0x0602);
    assert!(!cpu.p.get(StatusFlag::Break));
    assert!(cpu.p.get(StatusFlag::Unused));
}

#[test]
fn masked_irq_is_ignored() {
    let mut bus = RamBus16kb::new().with_memory_at(0x0600, vec![0xEA]);
    let mut cpu = cpu_at(0x0600);
    cpu.irq = true;
    cpu.p.set(StatusFlag::InterruptDisable, true);
    cpu.cycle_to_next_instruction(&mut bus).unwrap();
    assert_eq!(cpu.pc, 0x0601);
}

#[test]
fn reading_twice_from_the_same_state_gives_the_same_result() {
    let run = || {
        let mut bus = RamBus16kb::new().with_memory_at(0x0600, vec![0xBD, 0xF0, 0x12]);
        bus.memory[0x1310] = 0x42;
        let mut cpu = cpu_at(0x0600);
        cpu.x = 0x20;
        cpu.cycle_to_next_instruction(&mut bus).unwrap();
        (cpu.a, cpu.elapsed_cycles)
    };
    assert_eq!(run(), run());
    // LDA $12F0,X crosses a page: 4 cycles plus 1.
    assert_eq!(run(), (0x42, 5));
}

#[test]
fn absolute_x_store_always_pays_the_fix_up_cycle() {
    // STA $1200,X without a page crossing still takes 5 cycles.
    let mut bus = RamBus16kb::new().with_memory_at(0x0600, vec![0x9D, 0x00, 0x12]);
    let mut cpu = cpu_at(0x0600);
    cpu.a = 9;
    cpu.x = 1;
    cpu.cycle_to_next_instruction(&mut bus).unwrap();
    assert_eq!(bus.memory[0x1201], 9);
    assert_eq!(cpu.elapsed_cycles, 5);
}

#[test]
fn taken_branch_across_page_costs_two_more_cycles() {
    // SEC at 0x06FC; BCS +4 at 0x06FD lands at 0x0703.
    let mut bus = RamBus16kb::new().with_memory_at(0x06FC, vec![0x38, 0xB0, 0x04]);
    let mut cpu = cpu_at(0x06FC);
    cpu.cycle_to_next_instruction(&mut bus).unwrap();
    cpu.cycle_to_next_instruction(&mut bus).unwrap();
    assert_eq!(cpu.pc, 0x0703);
    assert_eq!(cpu.elapsed_cycles, 2 + 4);
}

#[test]
fn modify_writes_old_then_new_value() {
    // INC $10 takes 5 cycles and sets the flags from the new value.
    let mut bus = RamBus16kb::new().with_memory_at(0x0600, vec![0xE6, 0x10]);
    bus.memory[0x10] = 0xFF;
    let mut cpu = cpu_at(0x0600);
    cpu.cycle_to_next_instruction(&mut bus).unwrap();
    assert_eq!(bus.memory[0x10], 0x00);
    assert!(cpu.p.get(StatusFlag::Zero));
    assert_eq!(cpu.elapsed_cycles, 5);
}

#[test]
fn unofficial_opcodes_execute() {
    // LAX $10; SAX $11; DCP $12; ISC $13
    let mut bus = RamBus16kb::new().with_memory_at(0x0600, vec![0xA7, 0x10, 0x87, 0x11, 0xC7, 0x12, 0xE7, 0x13]);
    bus.memory[0x10] = 0x0F;
    bus.memory[0x12] = 0x10;
    bus.memory[0x13] = 0x01;
    let mut cpu = cpu_at(0x0600);
    cpu.cycle_to_next_instruction(&mut bus).unwrap();
    assert_eq!((cpu.a, cpu.x), (0x0F, 0x0F));
    cpu.cycle_to_next_instruction(&mut bus).unwrap();
    assert_eq!(bus.memory[0x11], 0x0F);
    cpu.cycle_to_next_instruction(&mut bus).unwrap();
    assert_eq!(bus.memory[0x12], 0x0F);
    assert!(cpu.p.get(StatusFlag::Zero));
    assert!(cpu.p.get(StatusFlag::Carry));
    cpu.cycle_to_next_instruction(&mut bus).unwrap();
    assert_eq!(bus.memory[0x13], 0x02);
    assert_eq!(cpu.a, 0x0D);
}

#[test]
fn invalid_opcode_is_an_error() {
    let mut bus = RamBus16kb::new().with_memory_at(0x0600, vec![0x02]);
    let mut cpu = cpu_at(0x0600);
    assert_eq!(cpu.cycle(&mut bus), Err(Error::InvalidInstruction(0x02)));
}

#[test]
fn addressable_errors() {
    let mut bus = RamBus16kb::new();
    let mut cpu = MOS6502::new();
    assert_eq!(
        Addressing::Implied.read_addressable(&cpu, &mut bus),
        Err(Error::InvalidTargetAddressAttempt(Addressing::Implied))
    );
    let immediate = Addressable {
        addressing: Addressing::Immediate(4),
        target: AddressableTarget::Immediate(4),
        page_boundary_crossed: false,
    };
    assert_eq!(immediate.address(), Err(Error::InvalidAddressAttempt(AddressableTarget::Immediate(4))));
    assert_eq!(
        immediate.try_write(&mut cpu, &mut bus, 7),
        Err(Error::InvalidAddressableWrite(AddressableTarget::Immediate(4), 7))
    );
    assert_eq!(
        immediate.try_modify(&mut cpu, &mut bus, nestalgic::addressable::Modification::Increment),
        Err(Error::InvalidAddressableModify(AddressableTarget::Immediate(4)))
    );
}
