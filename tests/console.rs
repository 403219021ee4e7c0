use nestalgic::alu::{add_with_carry, compare, subtract_with_borrow};
use nestalgic::nes::{Nestalgic, Ticker};
use nestalgic::rom::NESROM;
use nestalgic::world::World;

fn image_with_program(program: &[u8]) -> Vec<u8> {
    let mut bytes = vec![0x4E, 0x45, 0x53, 0x1A, 0x01, 0x01, 0x00, 0x00, 0, 0, 0, 0, 0, 0, 0, 0];
    let mut prg = vec![0u8; 16384];
    prg[..program.len()].copy_from_slice(program);
    // Reset vector: 0x8000.
    prg[0x3FFC] = 0x00;
    prg[0x3FFD] = 0x80;
    bytes.extend(prg);
    let mut chr = vec![0u8; 8192];
    chr[0] = 0x80;
    chr[0x1008] = 0x01;
    bytes.extend(chr);
    bytes
}

#[test]
fn console_runs_a_program_from_the_cartridge() {
    // LDA #$07; STA $0003; LDA $0803 (a mirror of $0003)
    let image = image_with_program(&[0xA9, 0x07, 0x8D, 0x03, 0x00, 0xAD, 0x03, 0x08]);
    let mut nes = Nestalgic::new(NESROM::from_bytes(image).unwrap()).ok().unwrap();
    assert_eq!(nes.cpu.pc, 0x8000);
    for _ in 0..(7 + 2 + 4 + 4) {
        nes.cycle().unwrap();
    }
    assert_eq!(nes.bus.wram[3], 0x07);
    assert_eq!(nes.cpu.a, 0x07);
    // The PPU clocks drew the pattern data: tile 0, row 0 starts with a pixel of value 1.
    assert_eq!(nes.pixels()[0].red, 255);
}

#[test]
fn oam_dma_reaches_sprite_memory() {
    // LDA #$2A; STA $0210; LDX #$02; STX $4014
    let image = image_with_program(&[0xA9, 0x2A, 0x8D, 0x10, 0x02, 0xA2, 0x02, 0x8E, 0x14, 0x40]);
    let mut nes = Nestalgic::new(NESROM::from_bytes(image).unwrap()).ok().unwrap();
    for _ in 0..(7 + 2 + 4 + 2 + 6 + 512) {
        nes.cycle().unwrap();
    }
    assert_eq!(nes.bus.ppu.oam_data[0x10], 0x2A);
    assert_eq!(nes.bus.ppu.oam_addr, 0);
}

#[test]
fn tick_runs_whole_clock_periods() {
    let image = image_with_program(&[0xEA, 0xEA, 0xEA, 0xEA]);
    let mut nes = Nestalgic::new(NESROM::from_bytes(image).unwrap()).ok().unwrap();
    nes.tick(559 * 10 + 100).unwrap();
    assert_eq!(nes.cpu.elapsed_cycles, 10);
    assert_eq!(nes.ticker.tick_accumulator, 100);
}

#[test]
fn pattern_tables_decode_character_memory() {
    let image = image_with_program(&[]);
    let nes = Nestalgic::new(NESROM::from_bytes(image).unwrap()).ok().unwrap();
    let left = nes.pattern_table_left();
    assert_eq!((left.width, left.height, left.pixels.len()), (128, 128, 16384));
    assert_eq!(left.pixels[0].red, 255);
    assert_eq!(left.pixels[1].alpha, 0);
    let right = nes.pattern_table_right();
    assert_eq!(right.pixels[7].green, 255);
    assert_eq!(nes.pixels().len(), Nestalgic::SCREEN_PIXELS);
}

#[test]
fn new_rejects_unsupported_mapper() {
    let mut image = image_with_program(&[]);
    image[7] = 0x10;
    assert!(Nestalgic::new(NESROM::from_bytes(image).unwrap()).is_err());
}

#[test]
fn ticker_carries_the_remainder() {
    let mut ticker = Ticker { tick_speed: 10, tick_accumulator: 0 };
    assert_eq!(ticker.tick(25), 2);
    assert_eq!(ticker.tick_accumulator, 5);
    assert_eq!(ticker.tick(5), 1);
    assert_eq!(ticker.tick_accumulator, 0);
}

#[test]
fn add_with_carry_sets_carry_and_overflow() {
    assert_eq!(add_with_carry(0x50, 0x50, false), (0xA0, false, true));
    assert_eq!(add_with_carry(0xFF, 0x01, false), (0x00, true, false));
    assert_eq!(add_with_carry(0x01, 0x01, true), (0x03, false, false));
}

#[test]
fn subtract_with_borrow_sets_carry_and_overflow() {
    assert_eq!(subtract_with_borrow(0x50, 0xB0, true), (0xA0, false, true));
    assert_eq!(subtract_with_borrow(0x05, 0x03, true), (0x02, true, false));
    assert_eq!(subtract_with_borrow(0x05, 0x05, false), (0xFF, false, false));
}

#[test]
fn compare_flags() {
    assert_eq!(compare(0x10, 0x10), (true, true, false));
    assert_eq!(compare(0x10, 0x20), (false, false, true));
    assert_eq!(compare(0x20, 0x10), (true, false, false));
}

#[test]
fn world_bounces_off_edges() {
    let mut world = World::new(30, 20);
    for _ in 0..6 {
        world.update();
    }
    assert_eq!((world.box_x, world.box_y), (30, 20));
    assert_eq!(world.velocity_y, -1);
    world.update();
    assert_eq!((world.box_x, world.box_y), (31, 19));
    world.update();
    assert_eq!((world.box_x, world.box_y), (30, 18));
    world.resize(64, 48);
    assert_eq!((world.width, world.height), (64, 48));
    let mut frame = vec![0u8; 9];
    world.draw(&mut frame);
    assert_eq!(frame, vec![0x48, 0xB2, 0xE8, 0xFF, 0x48, 0xB2, 0xE8, 0xFF, 0]);
}
