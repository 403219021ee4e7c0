use nestalgic::ppu::{PPUCtrl, PPUCtrlFlag, PPUMask, PPUStatus, PpuError, RP2C02};
use nestalgic::texture::Pixel;
use nestalgic::bus::RamBus16kb;

#[test]
fn ppustatus_to_mixed_u8() {
    let status = PPUStatus {
        lsb_of_previous_ppu_register: 0b0001_0101,
        sprite_overflow: true,
        sprite_0_hit: true,
        in_vblank: true,
    };

    let status_u8: u8 = status.into();

    assert_eq!(status_u8, 0b1111_0101, "status was {:#08b}, expected {:#08b}", status_u8, 0b1111_0101);
}

#[test]
fn ppustatus_to_empty_u8() {
    let status = PPUStatus {
        lsb_of_previous_ppu_register: 0b0000_0000,
        sprite_overflow: false,
        sprite_0_hit: false,
        in_vblank: false,
    };

    let status_u8: u8 = status.into();

    assert_eq!(status_u8, 0b0000_0000, "status was {:#08b}, expected {:#08b}", status_u8, 0b0000_0000);
}

#[test]
fn ppumask_round_trips_through_a_byte() {
    let mask = PPUMask::from(0b1010_0110u8);
    assert!(mask.show_background_on_left_8_pixels);
    assert!(mask.show_sprites_on_left_8_pixels);
    assert!(mask.emphasise_red);
    assert!(mask.emphasise_blue);
    assert!(!mask.greyscale);
    assert_eq!(u8::from(mask), 0b1010_0110);
}

#[test]
fn ppuctrl_addresses() {
    let mut ctrl = PPUCtrl(0b0001_1110);
    assert_eq!(ctrl.base_nametable_address(), 0x2800);
    assert_eq!(ctrl.vram_address_increment(), 32);
    assert_eq!(ctrl.sprite_pattern_table_address(), 0x1000);
    assert_eq!(ctrl.background_pattern_table_address(), 0x1000);
    ctrl.set(PPUCtrlFlag::VramAddressIncrement, false);
    assert_eq!(ctrl.vram_address_increment(), 1);
    assert!(!ctrl.get(PPUCtrlFlag::GenerateNmiOnVblank));
}

#[test]
fn ppuaddr_takes_high_byte_first_and_status_read_resets_latch() {
    let mut ppu = RP2C02::new();
    let mut vram = RamBus16kb::new();
    ppu.cpu_mapped_write_u8(&mut vram, 0x2006, 0x21).unwrap();
    ppu.cpu_mapped_write_u8(&mut vram, 0x2006, 0x08).unwrap();
    assert_eq!(ppu.addr, 0x2108);
    ppu.cpu_mapped_write_u8(&mut vram, 0x2007, 0x99).unwrap();
    assert_eq!(vram.memory[0x2108], 0x99);
    assert_eq!(ppu.addr, 0x2109);
    ppu.cpu_mapped_write_u8(&mut vram, 0x2006, 0x30).unwrap();
    assert!(ppu.addr_latch);
    let _ = ppu.cpu_mapped_read_u8(&mut vram, 0x3FFA);
    assert!(!ppu.addr_latch);
}

#[test]
fn ppudata_read_advances_by_the_control_increment() {
    let mut ppu = RP2C02::new();
    let mut vram = RamBus16kb::new();
    vram.memory[0x0005] = 0x44;
    ppu.cpu_mapped_write_u8(&mut vram, 0x2000, 0b0000_0100).unwrap();
    ppu.addr = 0x0005;
    assert_eq!(ppu.cpu_mapped_read_u8(&mut vram, 0x2007), 0x44);
    assert_eq!(ppu.addr, 0x0025);
}

#[test]
fn ppuscroll_alternates_horizontal_and_vertical() {
    let mut ppu = RP2C02::new();
    ppu.write_ppuscroll(7);
    ppu.write_ppuscroll(9);
    assert_eq!((ppu.horizontal_scroll, ppu.vertical_scroll), (7, 9));
}

#[test]
fn oamdata_write_advances_and_wraps() {
    let mut ppu = RP2C02::new();
    let mut vram = RamBus16kb::new();
    ppu.cpu_mapped_write_u8(&mut vram, 0x2003, 0xFF).unwrap();
    ppu.cpu_mapped_write_u8(&mut vram, 0x2004, 0xAB).unwrap();
    assert_eq!(ppu.oam_data[0xFF], 0xAB);
    assert_eq!(ppu.oam_addr, 0x00);
    ppu.cpu_mapped_write_u8(&mut vram, 0x2003, 0xFF).unwrap();
    assert_eq!(ppu.cpu_mapped_read_u8(&mut vram, 0x2004), 0xAB);
}

#[test]
fn status_register_is_not_writable() {
    let mut ppu = RP2C02::new();
    let mut vram = RamBus16kb::new();
    assert_eq!(ppu.cpu_mapped_write_u8(&mut vram, 0x200A, 0xFF), Err(PpuError::NotWritable(0x200A)));
    assert_eq!(ppu.ppustatus, PPUStatus::default());
}

#[test]
fn a_ppu_clock_draws_the_pattern_table_and_leaves_registers_alone() {
    let mut ppu = RP2C02::new();
    let mut vram = RamBus16kb::new();
    // Tile 0, row 0: leftmost pixel value 1. Tile 16, row 0: rightmost pixel value 2.
    vram.memory[0x0000] = 0x80;
    vram.memory[16 * 16 + 8] = 0x01;
    ppu.ppuctrl = PPUCtrl(0x80);
    ppu.cycle(&mut vram);
    assert_eq!(ppu.pixels[0], Pixel::new(255, 0, 0, 255));
    assert_eq!(ppu.pixels[1], Pixel::empty());
    // Tile 16 goes to column 128, row 8.
    assert_eq!(ppu.pixels[8 * 256 + 128 + 7], Pixel::new(0, 255, 0, 255));
    assert_eq!(ppu.ppuctrl, PPUCtrl(0x80));
    assert_eq!(ppu.ppustatus, PPUStatus::default());
}
