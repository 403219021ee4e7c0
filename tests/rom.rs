use nestalgic::cartridge::{Cartridge, CartridgeError, Mapper};
use nestalgic::rom::{self, Error, FileType, Header, MirroringType, NESROM};

/// An image laid out like the `nestest` test cartridge: iNES, one 16 KiB program bank, one
/// 8 KiB character bank, horizontal mirroring, mapper 0.
fn nestest_like_image() -> Vec<u8> {
    let mut bytes = vec![0x4E, 0x45, 0x53, 0x1A, 0x01, 0x01, 0x00, 0x00, 0, 0, 0, 0, 0, 0, 0, 0];
    for i in 0..16384u32 {
        bytes.push((i % 251) as u8);
    }
    for i in 0..8192u32 {
        bytes.push((i % 13) as u8);
    }
    bytes
}

#[test]
fn load_nestest_with_expected_header() {
    let rom_file = nestest_like_image();
    let rom = NESROM::from_bytes(rom_file);
    let header = rom.map(|r| r.header);

    let expected_header = rom::Header {
        file_type: rom::FileType::INES,
        prg_rom_bytes: 16384,
        chr_rom_bytes: 8192,
        mirroring_type: rom::MirroringType::Horizontal,
        has_persistent_memory: false,
        has_trainer: false,
        mapper_number: 0,
    };

    assert_eq!(header, Ok(expected_header));
}

#[test]
fn load_nestest_with_consistent_header_and_data() {
    let rom_file = nestest_like_image();
    let rom = NESROM::from_bytes(rom_file).expect("Failed to load file");

    assert_eq!(rom.header.prg_rom_bytes as usize, rom.prg_rom.len());
    assert_eq!(rom.header.chr_rom_bytes as usize, rom.chr_rom.len());
}

#[test]
fn header_flags_and_mapper_number() {
    let bytes = vec![0x4E, 0x45, 0x53, 0x1A, 2, 0, 0b0101_0111, 0b1010_1000, 0, 0, 0, 0, 0, 0, 0, 0];
    let header = Header::from_bytes(&bytes).unwrap();
    assert_eq!(header.file_type, FileType::NES2);
    assert_eq!(header.prg_rom_bytes, 32768);
    assert_eq!(header.chr_rom_bytes, 0);
    assert_eq!(header.mirroring_type, MirroringType::Vertical);
    assert!(header.has_persistent_memory);
    assert!(header.has_trainer);
    assert_eq!(header.mapper_number, 0xA5);
}

#[test]
fn four_screen_bit_wins() {
    assert_eq!(MirroringType::from_ines_byte_6(0b0000_1001), MirroringType::FourScreen);
    assert_eq!(MirroringType::from_ines_byte_6(0b0000_0000), MirroringType::Horizontal);
}

#[test]
fn header_errors() {
    assert_eq!(Header::from_bytes(&[0x4E, 0x45, 0x53]), Err(Error::InvalidHeader));
    let not_a_rom = vec![0x4E, 0x45, 0x53, 0x00, 1, 1, 0, 0, 0, 0, 0, 0, 0, 0, 0, 0];
    assert_eq!(Header::from_bytes(&not_a_rom), Err(Error::UnknownFileType));
    assert_eq!(NESROM::from_bytes(not_a_rom).map(|r| r.header), Err(Error::UnknownFileType));
}

#[test]
fn trainer_and_short_sections() {
    let mut bytes = vec![0x4E, 0x45, 0x53, 0x1A, 1, 1, 0b0000_0100, 0, 0, 0, 0, 0, 0, 0, 0, 0];
    bytes.extend(vec![7u8; 512]);
    bytes.extend(vec![9u8; 100]);
    let rom = NESROM::from_bytes(bytes).unwrap();
    assert_eq!(rom.trainer, Some(vec![7u8; 512]));
    assert_eq!(rom.prg_rom, vec![9u8; 100]);
    assert!(rom.chr_rom.is_empty());
}

#[test]
fn nrom_maps_a_single_bank_twice_and_mirrors_program_ram() {
    let rom = NESROM::from_bytes(nestest_like_image()).unwrap();
    let cartridge = Cartridge::from_rom(rom).unwrap();
    let mut mapper = cartridge.mapper;
    assert_eq!(mapper.cpu_read_u8(0x8000), 0);
    assert_eq!(mapper.cpu_read_u8(0x8005), 5);
    assert_eq!(mapper.cpu_read_u8(0xC005), 5);
    mapper.cpu_write_u8(0x6001, 0x5A);
    assert_eq!(mapper.cpu_read_u8(0x7801), 0x5A);
    mapper.cpu_write_u8(0x8005, 0xFF);
    assert_eq!(mapper.cpu_read_u8(0x8005), 5);
    assert_eq!(mapper.ppu_read_u8(0x0014), 7);
    mapper.ppu_write_u8(0x0014, 0xEE);
    assert_eq!(mapper.ppu_read_u8(0x0014), 7);
}

#[test]
fn nametables_follow_the_mirroring() {
    let rom = NESROM::from_bytes(nestest_like_image()).unwrap();
    let mut mapper = Mapper::from_rom(&rom).unwrap();
    mapper.ppu_write_u8(0x2001, 0x11);
    mapper.ppu_write_u8(0x2801, 0x22);
    // Horizontal: 0x2000 and 0x2400 share a page, 0x2800 and 0x2C00 the other.
    assert_eq!(mapper.ppu_read_u8(0x2401), 0x11);
    assert_eq!(mapper.ppu_read_u8(0x2C01), 0x22);
}

#[test]
fn unsupported_mapper_is_reported() {
    let mut image = nestest_like_image();
    image[6] = 0x10;
    let rom = NESROM::from_bytes(image).unwrap();
    assert_eq!(Cartridge::from_rom(rom).err(), Some(CartridgeError::UnsupportedMapper(1)));
}
