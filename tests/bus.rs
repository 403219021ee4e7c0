use nestalgic::bus::{Bus, RamBus16kb, NMI_VECTOR_ADDRESS, RESET_VECTOR_ADDRESS};

#[test]
fn read_u16_is_little_endian() {
    let mut bus = RamBus16kb::new();
    bus.memory[0xAAAA] = 0x01;
    bus.memory[0xAAAB] = 0xFF;

    let result = bus.read_u16(0xAAAA);
    assert_eq!(result, 0xFF01);
}

#[test]
fn write_u16_is_little_endian() {
    let mut bus = RamBus16kb::new();
    bus.write_u16(0xAAAA, 0xFF01);

    assert_eq!(bus.memory[0xAAAA], 0x01);
    assert_eq!(bus.memory[0xAAAB], 0xFF);
}

#[test]
fn write_u16_read_u16_roundtrip() {
    let mut bus = RamBus16kb::new();
    bus.write_u16(0xBBAA, 0xBEEF);

    let result = bus.read_u16(0xBBAA);
    assert_eq!(result, 0xBEEF);
}

#[test]
fn with_program_inserts_at_end() {
    let bus = RamBus16kb::new().with_program(vec![0xAA, 0xBB, 0xCC]);

    assert_eq!(bus.memory[0xFFF7], 0xAA);
    assert_eq!(bus.memory[0xFFF8], 0xBB);
    assert_eq!(bus.memory[0xFFF9], 0xCC);
}

#[test]
fn with_program_doesnt_override_nmi_vector_address() {
    let bus = RamBus16kb::new()
        .with_nmi_vector_address(0xBEEF)
        .with_program(vec![0x01, 0x02, 0x03]);

    let nmi_address = NMI_VECTOR_ADDRESS as usize;
    assert_eq!(bus.memory[nmi_address], 0xEF);
    assert_eq!(bus.memory[nmi_address + 1], 0xBE);
}

#[test]
fn with_program_writes_instruction_to_initialization_vector() {
    let bus = RamBus16kb::new().with_program(vec![0xAA, 0xBB, 0xCC]);

    let iv_address = RESET_VECTOR_ADDRESS as usize;
    assert_eq!(bus.memory[iv_address], 0xF7);
    assert_eq!(bus.memory[iv_address + 1], 0xFF);
}

#[test]
fn read_u16_wraps_at_end_of_address_space() {
    let mut bus = RamBus16kb::new();
    bus.memory[0xFFFF] = 0x34;
    bus.memory[0x0000] = 0x12;
    assert_eq!(bus.read_u16(0xFFFF), 0x1234);
}

#[test]
fn with_memory_copies_from_address_zero() {
    let bus = RamBus16kb::new().with_memory(vec![9, 8, 7]);
    assert_eq!(bus.memory[0], 9);
    assert_eq!(bus.memory[1], 8);
    assert_eq!(bus.memory[2], 7);
    assert_eq!(bus.memory[3], 0);
}

#[test]
fn ram_bus_reads_zero_past_its_memory() {
    let mut bus = RamBus16kb { memory: vec![5; 16] };
    assert_eq!(bus.read_u8(0x0010), 0);
    bus.write_u8(0x0010, 1);
    assert_eq!(bus.memory.len(), 16);
    assert_eq!(bus.read_u8(0x000F), 5);
}
