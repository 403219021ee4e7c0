use nestalgic::bus::{Bus, RamBus16kb};
use nestalgic::cpu::MOS6502;
use nestalgic::dma::DMA;

#[test]
fn mod_program_counter_is_initialized_correctly() {
    let mut bus = RamBus16kb::new();
    bus.write_u16(0xFFFC, 0xFF00);

    let mut cpu = MOS6502::new();
    cpu.reset(&mut bus).expect("CPU Reset Failed");

    assert_eq!(cpu.pc, 0xFF00);
}

#[test]
fn mod_op_load_immediate() {
    let program = vec![
        0xA9, 0xBB, // LDA #$BB
        0xA2, 0x55, // LDX #$55
        0xA0, 0x25, // LDY #$25
    ];
    let mut bus = RamBus16kb::new().with_program(program);

    let mut cpu = MOS6502::new();
    cpu.reset(&mut bus).expect("CPU Reset Failed");
    cpu.cycle_until_brk(&mut bus, 10_000).unwrap();

    assert_eq!(cpu.a, 0xBB);
    assert_eq!(cpu.x, 0x55);
    assert_eq!(cpu.y, 0x25);
}

#[test]
fn mod_op_store_zero_page() {
    let program = vec![
        0xA9, 0xBE, // LDA #$BE
        0xA2, 0x40, // LDX #$40
        0xA0, 0xFF, // LDY #$FF
        0x85, 0x00, // STA $00
        0x86, 0x01, // STX $01
        0x84, 0x02, // STY $02
    ];
    let mut bus = RamBus16kb::new().with_program(program);
    let mut cpu = MOS6502::new();
    cpu.reset(&mut bus).expect("CPU Reset Failed");
    cpu.cycle_until_brk(&mut bus, 10_000).unwrap();

    assert_eq!(bus.memory[0x00], 0xBE);
    assert_eq!(bus.memory[0x01], 0x40);
    assert_eq!(bus.memory[0x02], 0xFF);
}

#[test]
fn op_jump_subroutine_and_return() {
    let main_program = vec![
        0xA2, 0xFF, // 0xF000: LDX #$FF
        0x9A, // 0xF002: TXS
        0xA9, 0xBB, // 0xF003: LDA #$BB
        0x20, 0x00, 0x02, // 0xF005: JSR $0200
        0xA2, 0xBE, // 0xF008: LDX #$BE
    ];

    let sub_program = vec![
        0xA9, 0xFF, // 0x0200: LDA #$FF
        0x60, // 0x0202: RTS
    ];

    let mut bus = RamBus16kb::new()
        .with_memory_at(0xF000, main_program)
        .with_memory_at(0x0200, sub_program);
    let mut cpu = MOS6502::new();
    cpu.reset(&mut bus).expect("CPU Reset Failed");

    cpu.pc = 0xF000;
    cpu.wait_cycles = 0;

    cpu.cycle_to_next_instruction(&mut bus).unwrap(); // LDX #$FF
    cpu.cycle_to_next_instruction(&mut bus).unwrap(); // TXS
    cpu.cycle_to_next_instruction(&mut bus).unwrap(); // LDA #$BB
    assert_eq!(cpu.a, 0xBB);
    assert_eq!(cpu.sp, 0xFF);

    assert_eq!(cpu.pc, 0xF005);
    cpu.cycle_to_next_instruction(&mut bus).unwrap(); // JSR $0200
    assert_eq!(cpu.pc, 0x0200);
    assert_eq!(bus.memory[0x01FF], 0xF0, "found {:X} at SP 0xFF, expected {:X}", bus.memory[0x01FF], 0xF0);
    assert_eq!(bus.memory[0x01FE], 0x07, "found {:X} at SP 0xFE, expected {:X}", bus.memory[0x01FE], 0x07);

    cpu.cycle_to_next_instruction(&mut bus).unwrap(); // LDA #$FF
    cpu.cycle_to_next_instruction(&mut bus).unwrap(); // RTS
    assert_eq!(cpu.a, 0xFF);
    assert_eq!(cpu.pc, 0xF008);

    cpu.cycle_to_next_instruction(&mut bus).unwrap(); // LDX #$BE
    assert_eq!(cpu.x, 0xBE);
}

#[test]
fn op_push_pop() {
    let program = vec![
        0xA2, 0xFF, // LDX #$FF
        0x9A, // TXS
        0xA9, 0xE0, // LDA #$E0
        0x48, // PHA
        0xA9, 0xBB, // LDA #$BB
        0x48, // PHA
        0x8A, // TXA
        0x48, // PHA
        0xA9, 0x00, // LDA #$00
        0x68, // PLA
        0x68, // PLA
        0x68, // PLA
    ];

    let mut bus = RamBus16kb::new().with_program(program);
    let mut cpu = MOS6502::new();
    cpu.reset(&mut bus).expect("CPU Reset Failed");

    cpu.cycle_to_next_instruction(&mut bus).unwrap();

    cpu.cycle_to_next_instruction(&mut bus).unwrap();
    cpu.cycle_to_next_instruction(&mut bus).unwrap();
    assert_eq!(cpu.sp, 0xFF);

    cpu.cycle_to_next_instruction(&mut bus).unwrap();
    cpu.cycle_to_next_instruction(&mut bus).unwrap();
    assert_eq!(cpu.sp, 0xFE);
    assert_eq!(bus.memory[0x01FF], 0xE0);

    cpu.cycle_to_next_instruction(&mut bus).unwrap();
    cpu.cycle_to_next_instruction(&mut bus).unwrap();
    assert_eq!(cpu.sp, 0xFD);
    assert_eq!(bus.memory[0x01FE], 0xBB);

    cpu.cycle_to_next_instruction(&mut bus).unwrap();
    cpu.cycle_to_next_instruction(&mut bus).unwrap();
    assert_eq!(cpu.sp, 0xFC);
    assert_eq!(bus.memory[0x01FD], 0xFF);

    cpu.cycle_to_next_instruction(&mut bus).unwrap();
    cpu.cycle_to_next_instruction(&mut bus).unwrap();
    assert_eq!(cpu.sp, 0xFD);
    assert_eq!(cpu.a, 0xFF);

    cpu.cycle_to_next_instruction(&mut bus).unwrap();
    assert_eq!(cpu.sp, 0xFE);
    assert_eq!(cpu.a, 0xBB);

    cpu.cycle_to_next_instruction(&mut bus).unwrap();
    assert_eq!(cpu.sp, 0xFF);
    assert_eq!(cpu.a, 0xE0);
}

#[test]
fn nes_style_ppu_dma_on_odd_cycle() {
    let program = vec![
        0xA2, 0x02, // LDX #$02
        0x8E, 0x14, 0x40, // STX $4014
        0xA9, 0xE0, // LDA #$E0
    ];

    let oam_data: Vec<u8> = (0..=255).collect();

    let mut bus = RamBus16kb::new()
        .with_program(program)
        .with_memory_at(0x0200, oam_data.clone());

    let nes_dma = DMA { trigger_address: 0x4014, target_address: 0x2004, bytes_to_transfer: 256 };

    let mut cpu = MOS6502::new().with_dma(nes_dma);
    cpu.reset(&mut bus).expect("CPU Reset Failed");
    cpu.cycle_to_next_instruction(&mut bus).unwrap();

    cpu.cycle_to_next_instruction(&mut bus).unwrap();
    cpu.cycle_to_next_instruction(&mut bus).unwrap();

    assert_eq!(cpu.elapsed_cycles, 15);

    for byte in oam_data {
        cpu.cycle(&mut bus).unwrap();
        cpu.cycle(&mut bus).unwrap();
        assert_eq!(bus.memory[0x2004], byte);
    }

    assert_eq!(cpu.elapsed_cycles, 514 + 13);

    cpu.cycle_to_next_instruction(&mut bus).unwrap();
    assert_eq!(cpu.a, 0xE0);
}

#[test]
fn nes_style_ppu_dma_on_even_cycle() {
    let program = vec![
        0xA2, 0x02, // LDX #$02    (+2 cycles)
        0xA4, 0x00, // LDY $00     (+3 cycles)
        0x8E, 0x14, 0x40, // STX $4014   (+4 cycles)
    ];

    let mut bus = RamBus16kb::new().with_program(program);

    let nes_dma = DMA { trigger_address: 0x4014, target_address: 0x2004, bytes_to_transfer: 256 };

    let mut cpu = MOS6502::new().with_dma(nes_dma);
    cpu.reset(&mut bus).expect("CPU Reset Failed");
    cpu.cycle_to_next_instruction(&mut bus).unwrap();

    cpu.cycle_to_next_instruction(&mut bus).unwrap();
    cpu.cycle_to_next_instruction(&mut bus).unwrap();
    cpu.cycle_to_next_instruction(&mut bus).unwrap();

    assert_eq!(cpu.elapsed_cycles, 17);
}
