use vstd::prelude::*;

use crate::rom::{MirroringType, NESROM};

verus! {

/// Why no cartridge could be built from an image.
#[derive(PartialEq, Eq, Clone, Copy, Debug, Structural)]
pub enum CartridgeError {
    /// The image asks for a mapper that is not implemented.
    UnsupportedMapper(u16),
}

/// The byte at `i` of `s`, or `0` past its end.
pub open spec fn byte_at(s: Seq<u8>, i: int) -> u8 {
    if 0 <= i < s.len() {
        s[i]
    } else {
        0
    }
}

/// `s` with the byte at `i` replaced, or unchanged when `i` is past its end.
pub open spec fn set_byte(s: Seq<u8>, i: int, d: u8) -> Seq<u8> {
    if 0 <= i < s.len() {
        s.update(i, d)
    } else {
        s
    }
}

/// `n` bytes of `s` from `start`, with zeros where `s` ends first.
pub open spec fn padded(s: Seq<u8>, start: int, n: int) -> Seq<u8> {
    Seq::new(n as nat, |i: int| byte_at(s, start + i))
}

fn read_at(s: &Vec<u8>, i: usize) -> (r: u8)
    ensures
        r == byte_at(s@, i as int),
{
    if i < s.len() {
        s[i]
    } else {
        0
    }
}

fn write_at(s: &mut Vec<u8>, i: usize, d: u8)
    ensures
        final(s)@ == set_byte(old(s)@, i as int, d),
{
    if i < s.len() {
        s.set(i, d);
    }
}

fn padded_copy(s: &Vec<u8>, start: usize, n: usize) -> (r: Vec<u8>)
    requires
        start + n <= usize::MAX,
    ensures
        r@ == padded(s@, start as int, n as int),
{
    let mut r: Vec<u8> = Vec::new();
    let mut i: usize = 0;
    while i < n
        invariant
            i <= n,
            start + n <= usize::MAX,
            r@ == padded(s@, start as int, i as int),
        decreases n - i,
    {
        r.push(read_at(s, start + i));
        i = i + 1;
        assert(r@ =~= padded(s@, start as int, i as int));
    }
    r
}

/// The mutable and immutable storage of an NROM board, as sequences.
pub struct NromView {
    pub prg_rom_bank_1: Seq<u8>,
    pub prg_rom_bank_2: Seq<u8>,
    pub prg_ram: Seq<u8>,
    pub chr: Seq<u8>,
    pub chr_is_ram: bool,
    pub nametable_1: Seq<u8>,
    pub nametable_2: Seq<u8>,
    pub mirroring: MirroringType,
}

/// The board without bank switching: 16 or 32 KiB of program ROM, 2 KiB of program RAM,
/// 8 KiB of character ROM or RAM, and two 1 KiB nametable pages.
pub struct NROM {
    /// `0x8000`-`0xBFFF`: the first 16 KiB of program ROM.
    pub prg_rom_bank_1: Vec<u8>,
    /// `0xC000`-`0xFFFF`: the second 16 KiB, or the first again when there is only one bank.
    pub prg_rom_bank_2: Vec<u8>,
    /// `0x6000`-`0x7FFF`: 2 KiB, mirrored four times.
    pub prg_ram: Vec<u8>,
    /// PPU `0x0000`-`0x1FFF`: character ROM, or RAM when the image has none.
    pub chr_ram: Vec<u8>,
    /// Whether the character memory is writable.
    pub chr_is_ram: bool,
    pub nametable_1: Vec<u8>,
    pub nametable_2: Vec<u8>,
    /// How the two nametable pages fill the four slots at `0x2000`-`0x2FFF`.
    pub mirroring: MirroringType,
}

impl View for NROM {
    type V = NromView;

    open spec fn view(&self) -> NromView {
        NromView {
            prg_rom_bank_1: self.prg_rom_bank_1@,
            prg_rom_bank_2: self.prg_rom_bank_2@,
            prg_ram: self.prg_ram@,
            chr: self.chr_ram@,
            chr_is_ram: self.chr_is_ram,
            nametable_1: self.nametable_1@,
            nametable_2: self.nametable_2@,
            mirroring: self.mirroring,
        }
    }
}

/// The storage has the board's sizes: 16 KiB per program bank, 2 KiB of program RAM,
/// 8 KiB of character memory and 1 KiB per nametable page.
pub open spec fn nrom_wf(v: NromView) -> bool {
    &&& v.prg_rom_bank_1.len() == 0x4000
    &&& v.prg_rom_bank_2.len() == 0x4000
    &&& v.prg_ram.len() == 0x800
    &&& v.chr.len() == 0x2000
    &&& v.nametable_1.len() == 0x400
    &&& v.nametable_2.len() == 0x400
}

/// Whether nametable slot `slot` (0 to 3, for `0x2000`, `0x2400`, `0x2800`, `0x2C00`) shows
/// the second page. Vertical mirroring alternates the pages across, horizontal down; with
/// only two pages on the board, four-screen mirroring falls back to vertical.
pub open spec fn second_page(mirroring: MirroringType, slot: int) -> bool {
    match mirroring {
        MirroringType::Horizontal => slot >= 2,
        _ => slot % 2 == 1,
    }
}

/// The byte the CPU reads at `a`. Unmapped addresses read `0`.
pub open spec fn nrom_cpu_peek(v: NromView, a: u16) -> u8 {
    if 0x6000 <= a <= 0x7FFF {
        byte_at(v.prg_ram, (a - 0x6000) % 0x800)
    } else if 0x8000 <= a <= 0xBFFF {
        byte_at(v.prg_rom_bank_1, a - 0x8000)
    } else if 0xC000 <= a {
        byte_at(v.prg_rom_bank_2, a - 0xC000)
    } else {
        0
    }
}

/// The board after the CPU writes `d` to `a`: only program RAM takes writes.
pub open spec fn nrom_cpu_write(v: NromView, a: u16, d: u8) -> NromView {
    if 0x6000 <= a <= 0x7FFF {
        NromView { prg_ram: set_byte(v.prg_ram, (a - 0x6000) % 0x800, d), ..v }
    } else {
        v
    }
}

/// The byte the PPU reads at `a`. Unmapped addresses read `0`.
pub open spec fn nrom_ppu_peek(v: NromView, a: u16) -> u8 {
    if a < 0x2000 {
        byte_at(v.chr, a as int)
    } else if a < 0x3000 {
        if second_page(v.mirroring, (a - 0x2000) / 0x400) {
            byte_at(v.nametable_2, (a % 0x400) as int)
        } else {
            byte_at(v.nametable_1, (a % 0x400) as int)
        }
    } else {
        0
    }
}

/// The board after the PPU writes `d` to `a`. Character ROM ignores writes.
pub open spec fn nrom_ppu_write(v: NromView, a: u16, d: u8) -> NromView {
    if a < 0x2000 {
        if v.chr_is_ram {
            NromView { chr: set_byte(v.chr, a as int, d), ..v }
        } else {
            v
        }
    } else if a < 0x3000 {
        if second_page(v.mirroring, (a - 0x2000) / 0x400) {
            NromView { nametable_2: set_byte(v.nametable_2, (a % 0x400) as int, d), ..v }
        } else {
            NromView { nametable_1: set_byte(v.nametable_1, (a % 0x400) as int, d), ..v }
        }
    } else {
        v
    }
}

fn is_second_page(mirroring: MirroringType, a: u16) -> (r: bool)
    requires
        0x2000 <= a < 0x3000,
    ensures
        r == second_page(mirroring, (a - 0x2000) / 0x400),
{
    let slot = (a - 0x2000) / 0x400;
    match mirroring {
        MirroringType::Horizontal => slot >= 2,
        _ => slot % 2 == 1,
    }
}

/// The board that `NROM::from_rom` loads from `rom`: a single 16 KiB bank of program ROM
/// fills both windows; character memory takes the first 8 KiB of character ROM, or is RAM
/// when there is none; RAM and nametables start zeroed.
pub open spec fn spec_nrom_from_rom(rom: NESROM) -> NromView {
    NromView {
        prg_rom_bank_1: padded(rom.prg_rom@, 0, 0x4000),
        prg_rom_bank_2: if rom.prg_rom@.len() <= 0x4000 {
            padded(rom.prg_rom@, 0, 0x4000)
        } else {
            padded(rom.prg_rom@, 0x4000, 0x4000)
        },
        prg_ram: Seq::new(0x800, |i: int| 0u8),
        chr: padded(rom.chr_rom@, 0, 0x2000),
        chr_is_ram: rom.chr_rom@.len() == 0,
        nametable_1: Seq::new(0x400, |i: int| 0u8),
        nametable_2: Seq::new(0x400, |i: int| 0u8),
        mirroring: rom.header.mirroring_type,
    }
}

impl NROM {
    pub open spec fn wf(&self) -> bool {
        nrom_wf(self@)
    }

    /// A board with zeroed storage of the standard sizes.
    pub fn empty() -> (r: NROM)
        ensures
            r@.prg_rom_bank_1 == Seq::new(0x4000, |i: int| 0u8),
            r@.prg_rom_bank_2 == Seq::new(0x4000, |i: int| 0u8),
            r@.prg_ram == Seq::new(0x800, |i: int| 0u8),
            r@.chr == Seq::new(0x2000, |i: int| 0u8),
            r@.chr_is_ram,
            r@.nametable_1 == Seq::new(0x400, |i: int| 0u8),
            r@.nametable_2 == Seq::new(0x400, |i: int| 0u8),
            r@.mirroring == MirroringType::Horizontal,
            r.wf(),
    {
        let r = NROM {
            prg_rom_bank_1: vec![0u8; 0x4000],
            prg_rom_bank_2: vec![0u8; 0x4000],
            prg_ram: vec![0u8; 0x800],
            chr_ram: vec![0u8; 0x2000],
            chr_is_ram: true,
            nametable_1: vec![0u8; 0x400],
            nametable_2: vec![0u8; 0x400],
            mirroring: MirroringType::Horizontal,
        };
        assert(r@.prg_rom_bank_1 =~= Seq::new(0x4000, |i: int| 0u8));
        assert(r@.prg_rom_bank_2 =~= Seq::new(0x4000, |i: int| 0u8));
        assert(r@.prg_ram =~= Seq::new(0x800, |i: int| 0u8));
        assert(r@.chr =~= Seq::new(0x2000, |i: int| 0u8));
        assert(r@.nametable_1 =~= Seq::new(0x400, |i: int| 0u8));
        assert(r@.nametable_2 =~= Seq::new(0x400, |i: int| 0u8));
        r
    }

    /// Loads a board from an image: a single 16 KiB bank of program ROM fills both windows;
    /// character memory takes the first 8 KiB of character ROM, or is RAM when there is none.
    pub fn from_rom(rom: &NESROM) -> (r: NROM)
        ensures
            r@.prg_rom_bank_1 == padded(rom.prg_rom@, 0, 0x4000),
            r@.prg_rom_bank_2 == (if rom.prg_rom@.len() <= 0x4000 {
                padded(rom.prg_rom@, 0, 0x4000)
            } else {
                padded(rom.prg_rom@, 0x4000, 0x4000)
            }),
            r@.prg_ram == Seq::new(0x800, |i: int| 0u8),
            r@.chr == padded(rom.chr_rom@, 0, 0x2000),
            r@.chr_is_ram == (rom.chr_rom@.len() == 0),
            r@.nametable_1 == Seq::new(0x400, |i: int| 0u8),
            r@.nametable_2 == Seq::new(0x400, |i: int| 0u8),
            r@.mirroring == rom.header.mirroring_type,
            r@ == spec_nrom_from_rom(*rom),
            r.wf(),
    {
        let mut nrom = NROM::empty();
        nrom.prg_rom_bank_1 = padded_copy(&rom.prg_rom, 0, 0x4000);
        nrom.prg_rom_bank_2 = if rom.prg_rom.len() <= 0x4000 {
            padded_copy(&rom.prg_rom, 0, 0x4000)
        } else {
            padded_copy(&rom.prg_rom, 0x4000, 0x4000)
        };
        nrom.chr_ram = padded_copy(&rom.chr_rom, 0, 0x2000);
        nrom.chr_is_ram = rom.chr_rom.len() == 0;
        nrom.mirroring = rom.header.mirroring_type;
        assert(nrom@ == spec_nrom_from_rom(*rom));
        nrom
    }

    pub fn cpu_read_u8(&self, address: u16) -> (r: u8)
        ensures
            r == nrom_cpu_peek(self@, address),
    {
        if 0x6000 <= address && address <= 0x7FFF {
            read_at(&self.prg_ram, ((address - 0x6000) % 0x800) as usize)
        } else if 0x8000 <= address && address <= 0xBFFF {
            read_at(&self.prg_rom_bank_1, (address - 0x8000) as usize)
        } else if 0xC000 <= address {
            read_at(&self.prg_rom_bank_2, (address - 0xC000) as usize)
        } else {
            0
        }
    }

    pub fn cpu_write_u8(&mut self, address: u16, data: u8)
        ensures
            final(self)@ == nrom_cpu_write(old(self)@, address, data),
            old(self).wf() ==> final(self).wf(),
    {
        if 0x6000 <= address && address <= 0x7FFF {
            write_at(&mut self.prg_ram, ((address - 0x6000) % 0x800) as usize, data);
        }
    }

    pub fn ppu_read_u8(&self, address: u16) -> (r: u8)
        ensures
            r == nrom_ppu_peek(self@, address),
    {
        if address < 0x2000 {
            read_at(&self.chr_ram, address as usize)
        } else if address < 0x3000 {
            if is_second_page(self.mirroring, address) {
                read_at(&self.nametable_2, (address % 0x400) as usize)
            } else {
                read_at(&self.nametable_1, (address % 0x400) as usize)
            }
        } else {
            0
        }
    }

    pub fn ppu_write_u8(&mut self, address: u16, data: u8)
        ensures
            final(self)@ == nrom_ppu_write(old(self)@, address, data),
            old(self).wf() ==> final(self).wf(),
    {
        if address < 0x2000 {
            if self.chr_is_ram {
                write_at(&mut self.chr_ram, address as usize, data);
            }
        } else if address < 0x3000 {
            if is_second_page(self.mirroring, address) {
                write_at(&mut self.nametable_2, (address % 0x400) as usize, data);
            } else {
                write_at(&mut self.nametable_1, (address % 0x400) as usize, data);
            }
        }
    }
}

/// A board with nothing on it: every read is `0` and every write is dropped.
pub struct NullMapper {}

impl NullMapper {
    pub fn new() -> (r: NullMapper) {
        NullMapper {  }
    }
}

/// The cartridge hardware that maps CPU and PPU addresses to the cartridge's storage.
pub enum Mapper {
    NROM(NROM),
    Null(NullMapper),
}

impl View for Mapper {
    /// The board's storage; `None` for a board with none.
    type V = Option<NromView>;

    open spec fn view(&self) -> Option<NromView> {
        match self {
            Mapper::NROM(n) => Some(n@),
            Mapper::Null(_) => None,
        }
    }
}

/// A board with storage has the sizes `nrom_wf` gives.
pub open spec fn mapper_wf(v: Option<NromView>) -> bool {
    match v {
        Some(n) => nrom_wf(n),
        None => true,
    }
}

pub open spec fn mapper_cpu_peek(v: Option<NromView>, a: u16) -> u8 {
    match v {
        Some(n) => nrom_cpu_peek(n, a),
        None => 0,
    }
}

pub open spec fn mapper_cpu_write(v: Option<NromView>, a: u16, d: u8) -> Option<NromView> {
    match v {
        Some(n) => Some(nrom_cpu_write(n, a, d)),
        None => None,
    }
}

pub open spec fn mapper_ppu_peek(v: Option<NromView>, a: u16) -> u8 {
    match v {
        Some(n) => nrom_ppu_peek(n, a),
        None => 0,
    }
}

pub open spec fn mapper_ppu_write(v: Option<NromView>, a: u16, d: u8) -> Option<NromView> {
    match v {
        Some(n) => Some(nrom_ppu_write(n, a, d)),
        None => None,
    }
}

impl Mapper {
    /// The mapper that the image's header asks for; only mapper `0` (NROM) is implemented.
    pub fn from_rom(rom: &NESROM) -> (r: Result<Mapper, CartridgeError>)
        ensures
            r is Ok ==> mapper_wf(r->Ok_0@),
            rom.header.mapper_number == 0 ==> r is Ok && r->Ok_0 is NROM && r->Ok_0@ == Some(
                spec_nrom_from_rom(*rom),
            ),
            rom.header.mapper_number != 0 ==> r == Err::<Mapper, CartridgeError>(
                CartridgeError::UnsupportedMapper(rom.header.mapper_number),
            ),
    {
        if rom.header.mapper_number == 0 {
            Ok(Mapper::NROM(NROM::from_rom(rom)))
        } else {
            Err(CartridgeError::UnsupportedMapper(rom.header.mapper_number))
        }
    }

    pub fn cpu_read_u8(&self, address: u16) -> (r: u8)
        ensures
            r == mapper_cpu_peek(self@, address),
    {
        match self {
            Mapper::NROM(n) => n.cpu_read_u8(address),
            Mapper::Null(_) => 0,
        }
    }

    pub fn cpu_write_u8(&mut self, address: u16, data: u8)
        ensures
            final(self)@ == mapper_cpu_write(old(self)@, address, data),
            mapper_wf(old(self)@) ==> mapper_wf(final(self)@),
    {
        match self {
            Mapper::NROM(n) => n.cpu_write_u8(address, data),
            Mapper::Null(_) => {},
        }
    }

    pub fn ppu_read_u8(&self, address: u16) -> (r: u8)
        ensures
            r == mapper_ppu_peek(self@, address),
    {
        match self {
            Mapper::NROM(n) => n.ppu_read_u8(address),
            Mapper::Null(_) => 0,
        }
    }

    pub fn ppu_write_u8(&mut self, address: u16, data: u8)
        ensures
            final(self)@ == mapper_ppu_write(old(self)@, address, data),
            mapper_wf(old(self)@) ==> mapper_wf(final(self)@),
    {
        match self {
            Mapper::NROM(n) => n.ppu_write_u8(address, data),
            Mapper::Null(_) => {},
        }
    }
}

/// A cartridge: the image it was made from and the mapper that serves its storage.
pub struct Cartridge {
    pub rom: NESROM,
    pub mapper: Mapper,
}

impl Cartridge {
    /// Builds the cartridge for an image, or reports the mapper it lacks.
    pub fn from_rom(rom: NESROM) -> (r: Result<Cartridge, CartridgeError>)
        ensures
            rom.header.mapper_number == 0 ==> r is Ok && r->Ok_0.rom == rom && r->Ok_0.mapper is NROM
                && r->Ok_0.mapper@ == Some(spec_nrom_from_rom(rom)),
            r is Ok ==> mapper_wf(r->Ok_0.mapper@),
            rom.header.mapper_number != 0 ==> r is Err && r->Err_0 == CartridgeError::UnsupportedMapper(
                rom.header.mapper_number,
            ),
    {
        let mapper = Mapper::from_rom(&rom)?;
        Ok(Cartridge { rom, mapper })
    }
}

} // verus!
