use vstd::prelude::*;

verus! {

/// Why a cartridge image could not be read.
#[derive(PartialEq, Eq, Clone, Copy, Debug, Structural)]
pub enum Error {
    /// The image does not start with `NES` and `0x1A`.
    UnknownFileType,
    /// The image is shorter than its 16-byte header.
    InvalidHeader,
}

/// The two header formats: iNES and its extension NES 2.0.
#[derive(PartialEq, Eq, Clone, Copy, Debug, Structural)]
pub enum FileType {
    INES,
    NES2,
}

/// How the two nametable pages fill the four nametable slots.
#[derive(PartialEq, Eq, Clone, Copy, Debug, Structural)]
pub enum MirroringType {
    Horizontal,
    Vertical,
    FourScreen,
}

/// The image's leading four bytes are `N`, `E`, `S`, `0x1A`.
pub open spec fn has_magic(b: Seq<u8>) -> bool {
    b.len() >= 4 && b[0] == 0x4E && b[1] == 0x45 && b[2] == 0x53 && b[3] == 0x1A
}

/// The format a 16-byte header declares: bits 2 and 3 of byte 7 being `10` marks NES 2.0.
pub open spec fn spec_file_type(b: Seq<u8>) -> Result<FileType, Error> {
    if !has_magic(b) {
        Err(Error::UnknownFileType)
    } else if b[7] & 0x0C == 0x08 {
        Ok(FileType::NES2)
    } else {
        Ok(FileType::INES)
    }
}

impl FileType {
    /// Identifies the format of a header.
    pub fn from_bytes(rom_bytes: &[u8]) -> (r: Result<FileType, Error>)
        requires
            rom_bytes@.len() >= 16,
        ensures
            r == spec_file_type(rom_bytes@),
    {
        let magic = rom_bytes[0] == 0x4E && rom_bytes[1] == 0x45 && rom_bytes[2] == 0x53 && rom_bytes[3] == 0x1A;
        if !magic {
            Err(Error::UnknownFileType)
        } else if rom_bytes[7] & 0x0C == 0x08 {
            Ok(FileType::NES2)
        } else {
            Ok(FileType::INES)
        }
    }
}

/// Bit 3 of header byte 6 asks for four screens; otherwise bit 0 picks vertical (1) or
/// horizontal (0) mirroring.
pub open spec fn spec_mirroring(byte: u8) -> MirroringType {
    if byte & 0x08 != 0 {
        MirroringType::FourScreen
    } else if byte & 0x01 != 0 {
        MirroringType::Vertical
    } else {
        MirroringType::Horizontal
    }
}

impl MirroringType {
    pub fn from_ines_byte_6(byte: u8) -> (r: MirroringType)
        ensures
            r == spec_mirroring(byte),
    {
        if byte & 0x08 != 0 {
            MirroringType::FourScreen
        } else if byte & 0x01 != 0 {
            MirroringType::Vertical
        } else {
            MirroringType::Horizontal
        }
    }
}

/// What the 16-byte header of a cartridge image says.
#[derive(PartialEq, Eq, Clone, Copy, Debug, Structural)]
pub struct Header {
    pub file_type: FileType,
    /// Program ROM bytes: 16 KiB times header byte 4.
    pub prg_rom_bytes: u32,
    /// Character ROM bytes: 8 KiB times header byte 5.
    pub chr_rom_bytes: u32,
    pub mirroring_type: MirroringType,
    /// Bit 1 of byte 6: battery-backed RAM at `0x6000`-`0x7FFF`.
    pub has_persistent_memory: bool,
    /// Bit 2 of byte 6: a 512-byte trainer precedes the program ROM.
    pub has_trainer: bool,
    /// The high nibble of byte 7 over the high nibble of byte 6.
    pub mapper_number: u16,
}

/// The header fields of `b`, read the iNES way (NES 2.0 is read the same way).
pub open spec fn spec_header_fields(b: Seq<u8>, file_type: FileType) -> Header {
    Header {
        file_type,
        prg_rom_bytes: (b[4] * 16384) as u32,
        chr_rom_bytes: (b[5] * 8192) as u32,
        mirroring_type: spec_mirroring(b[6]),
        has_persistent_memory: b[6] & 0x02 != 0,
        has_trainer: b[6] & 0x04 != 0,
        mapper_number: ((b[7] & 0xF0) | (b[6] >> 4u8)) as u16,
    }
}

/// The header that `Header::from_bytes` reads from the image `b`.
pub open spec fn spec_header(b: Seq<u8>) -> Result<Header, Error> {
    if b.len() < 16 {
        Err(Error::InvalidHeader)
    } else {
        match spec_file_type(b) {
            Ok(file_type) => Ok(spec_header_fields(b, file_type)),
            Err(e) => Err(e),
        }
    }
}

impl Header {
    /// Reads the header at the start of a cartridge image.
    pub fn from_bytes(rom_bytes: &[u8]) -> (r: Result<Header, Error>)
        ensures
            r == spec_header(rom_bytes@),
    {
        if rom_bytes.len() < 16 {
            return Err(Error::InvalidHeader);
        }
        let file_type = FileType::from_bytes(rom_bytes)?;
        Ok(Header::from_bytes_ines(rom_bytes, file_type))
    }

    fn from_bytes_ines(rom_bytes: &[u8], file_type: FileType) -> (r: Header)
        requires
            rom_bytes@.len() >= 16,
        ensures
            r == spec_header_fields(rom_bytes@, file_type),
    {
        let byte_6 = rom_bytes[6];
        let byte_7 = rom_bytes[7];
        Header {
            file_type,
            prg_rom_bytes: rom_bytes[4] as u32 * 16384,
            chr_rom_bytes: rom_bytes[5] as u32 * 8192,
            mirroring_type: MirroringType::from_ines_byte_6(byte_6),
            has_persistent_memory: byte_6 & 0x02 != 0,
            has_trainer: byte_6 & 0x04 != 0,
            mapper_number: ((byte_7 & 0xF0) | (byte_6 >> 4u8)) as u16,
        }
    }
}

/// The canonical record of a cartridge image.
#[derive(PartialEq, Eq, Clone, Debug)]
pub struct NESROM {
    pub header: Header,
    /// The 512-byte trainer, when the header announces one.
    pub trainer: Option<Vec<u8>>,
    pub prg_rom: Vec<u8>,
    pub chr_rom: Vec<u8>,
}

/// The bytes of `b` from `start`, at most `n` of them: fewer where the image ends first.
pub open spec fn section(b: Seq<u8>, start: int, n: int) -> Seq<u8> {
    let from = if start < b.len() { start } else { b.len() as int };
    let to = if start + n < b.len() { start + n } else { b.len() as int };
    b.subrange(from, to)
}

/// Copies the section of `bytes` from `start`, at most `n` bytes of it.
fn copy_section(bytes: &Vec<u8>, start: usize, n: usize) -> (r: Vec<u8>)
    requires
        start + n <= usize::MAX,
    ensures
        r@ == section(bytes@, start as int, n as int),
{
    let from = if start < bytes.len() { start } else { bytes.len() };
    let to = if start + n < bytes.len() { start + n } else { bytes.len() };
    let mut r: Vec<u8> = Vec::new();
    let mut i = from;
    while i < to
        invariant
            from <= i <= to,
            to <= bytes@.len(),
            r@ == bytes@.subrange(from as int, i as int),
        decreases to - i,
    {
        r.push(bytes[i]);
        i = i + 1;
        assert(r@ =~= bytes@.subrange(from as int, i as int));
    }
    r
}

impl NESROM {
    /// Reads a cartridge image: the header, the trainer if announced, then the program and
    /// character ROM. A section cut short by the end of the image holds what is there.
    pub fn from_bytes(bytes: Vec<u8>) -> (r: Result<NESROM, Error>)
        ensures
            match spec_header(bytes@) {
                Err(e) => r == Err::<NESROM, Error>(e),
                Ok(header) => r is Ok && ({
                    let rom = r->Ok_0;
                    let trainer_len: int = if header.has_trainer { 512 } else { 0 };
                    &&& rom.header == header
                    &&& (rom.trainer is Some <==> header.has_trainer)
                    &&& header.has_trainer ==> rom.trainer->Some_0@ == section(bytes@, 16, 512)
                    &&& rom.prg_rom@ == section(bytes@, 16 + trainer_len, header.prg_rom_bytes as int)
                    &&& rom.chr_rom@ == section(
                        bytes@,
                        16 + trainer_len + header.prg_rom_bytes,
                        header.chr_rom_bytes as int,
                    )
                }),
            },
    {
        let header = Header::from_bytes(bytes.as_slice())?;
        let mut start: usize = 16;
        let trainer = if header.has_trainer {
            let t = copy_section(&bytes, start, 512);
            start = start + 512;
            Some(t)
        } else {
            None
        };
        let prg_rom = copy_section(&bytes, start, header.prg_rom_bytes as usize);
        start = start + header.prg_rom_bytes as usize;
        let chr_rom = copy_section(&bytes, start, header.chr_rom_bytes as usize);
        Ok(NESROM { header, trainer, prg_rom, chr_rom })
    }
}

} // verus!
