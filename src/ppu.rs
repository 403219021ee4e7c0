use vstd::prelude::*;

use crate::bus::{hi_byte, lo_byte, spec_read_run, lemma_read_run_len, word, Bus};
use crate::cartridge::{byte_at, set_byte};
use crate::texture::{bit_of, colour, tile_colour, Pixel};

verus! {

/// The bits of the control register at `0x2000`.
#[derive(PartialEq, Eq, Clone, Copy, Debug, Structural)]
pub enum PPUCtrlFlag {
    NametableLo,
    NametableHi,
    VramAddressIncrement,
    SpritePatternTable,
    BackgroundPatternTable,
    SpriteSize,
    PpuSelect,
    GenerateNmiOnVblank,
}

impl PPUCtrlFlag {
    pub open spec fn spec_mask(self) -> u8 {
        match self {
            PPUCtrlFlag::NametableLo => 0x01,
            PPUCtrlFlag::NametableHi => 0x02,
            PPUCtrlFlag::VramAddressIncrement => 0x04,
            PPUCtrlFlag::SpritePatternTable => 0x08,
            PPUCtrlFlag::BackgroundPatternTable => 0x10,
            PPUCtrlFlag::SpriteSize => 0x20,
            PPUCtrlFlag::PpuSelect => 0x40,
            PPUCtrlFlag::GenerateNmiOnVblank => 0x80,
        }
    }

    pub fn mask(self) -> (r: u8)
        ensures
            r == self.spec_mask(),
    {
        match self {
            PPUCtrlFlag::NametableLo => 0x01,
            PPUCtrlFlag::NametableHi => 0x02,
            PPUCtrlFlag::VramAddressIncrement => 0x04,
            PPUCtrlFlag::SpritePatternTable => 0x08,
            PPUCtrlFlag::BackgroundPatternTable => 0x10,
            PPUCtrlFlag::SpriteSize => 0x20,
            PPUCtrlFlag::PpuSelect => 0x40,
            PPUCtrlFlag::GenerateNmiOnVblank => 0x80,
        }
    }
}

/// The control register at `0x2000`.
#[derive(PartialEq, Eq, Clone, Copy, Debug, Structural)]
pub struct PPUCtrl(pub u8);

impl PPUCtrl {
    pub open spec fn spec_get(self, flag: PPUCtrlFlag) -> bool {
        self.0 & flag.spec_mask() != 0
    }

    /// The VRAM address step after each access to `0x2007`: 32 (one row down) when the
    /// increment bit is set, else 1.
    pub open spec fn spec_increment(self) -> u16 {
        if self.spec_get(PPUCtrlFlag::VramAddressIncrement) {
            32
        } else {
            1
        }
    }

    pub fn get(&self, flag: PPUCtrlFlag) -> (r: bool)
        ensures
            r == self.spec_get(flag),
    {
        (self.0 & flag.mask()) != 0
    }

    pub fn set(&mut self, flag: PPUCtrlFlag, value: bool)
        ensures
            final(self).0 == (if value { old(self).0 | flag.spec_mask() } else { old(self).0 & !flag.spec_mask() }),
    {
        let mask = flag.mask();
        if value {
            self.0 = self.0 | mask;
        } else {
            self.0 = self.0 & !mask;
        }
    }

    /// `0x2000`, `0x2400`, `0x2800` or `0x2C00`, from the two low bits.
    pub fn base_nametable_address(&self) -> (r: u16)
        ensures
            r == 0x2000 + 0x400 * (self.0 % 4),
    {
        0x2000 + 0x400 * (self.0 % 4) as u16
    }

    pub fn vram_address_increment(&self) -> (r: u16)
        ensures
            r == self.spec_increment(),
    {
        if self.get(PPUCtrlFlag::VramAddressIncrement) {
            32
        } else {
            1
        }
    }

    pub fn sprite_pattern_table_address(&self) -> (r: u16)
        ensures
            r == (if self.spec_get(PPUCtrlFlag::SpritePatternTable) { 0x1000u16 } else { 0u16 }),
    {
        if self.get(PPUCtrlFlag::SpritePatternTable) {
            0x1000
        } else {
            0
        }
    }

    pub fn background_pattern_table_address(&self) -> (r: u16)
        ensures
            r == (if self.spec_get(PPUCtrlFlag::BackgroundPatternTable) { 0x1000u16 } else { 0u16 }),
    {
        if self.get(PPUCtrlFlag::BackgroundPatternTable) {
            0x1000
        } else {
            0
        }
    }
}

impl Default for PPUCtrl {
    fn default() -> (r: PPUCtrl)
        ensures
            r == PPUCtrl(0),
    {
        PPUCtrl(0)
    }
}

/// The mask register at `0x2001`, one field per bit from bit 0 up.
#[derive(PartialEq, Eq, Clone, Copy, Debug, Structural)]
pub struct PPUMask {
    pub greyscale: bool,
    pub show_background_on_left_8_pixels: bool,
    pub show_sprites_on_left_8_pixels: bool,
    pub show_background: bool,
    pub show_sprites: bool,
    pub emphasise_red: bool,
    pub emphasise_green: bool,
    pub emphasise_blue: bool,
}

pub open spec fn bit_set(byte: u8, mask: u8) -> bool {
    byte & mask != 0
}

pub open spec fn flag_value(b: bool, weight: int) -> int {
    if b {
        weight
    } else {
        0
    }
}

pub open spec fn spec_mask_from_byte(byte: u8) -> PPUMask {
    PPUMask {
        greyscale: bit_set(byte, 0x01),
        show_background_on_left_8_pixels: bit_set(byte, 0x02),
        show_sprites_on_left_8_pixels: bit_set(byte, 0x04),
        show_background: bit_set(byte, 0x08),
        show_sprites: bit_set(byte, 0x10),
        emphasise_red: bit_set(byte, 0x20),
        emphasise_green: bit_set(byte, 0x40),
        emphasise_blue: bit_set(byte, 0x80),
    }
}

pub open spec fn spec_mask_to_byte(m: PPUMask) -> u8 {
    (flag_value(m.greyscale, 1) + flag_value(m.show_background_on_left_8_pixels, 2) + flag_value(
        m.show_sprites_on_left_8_pixels,
        4,
    ) + flag_value(m.show_background, 8) + flag_value(m.show_sprites, 16) + flag_value(m.emphasise_red, 32)
        + flag_value(m.emphasise_green, 64) + flag_value(m.emphasise_blue, 128)) as u8
}

fn weight(b: bool, w: u8) -> (r: u8)
    ensures
        r == flag_value(b, w as int),
{
    if b {
        w
    } else {
        0
    }
}

/// Splits a mask register byte into its flags.
pub fn mask_from_byte(byte: u8) -> (r: PPUMask)
    ensures
        r == spec_mask_from_byte(byte),
{
    PPUMask {
        greyscale: byte & 0x01 != 0,
        show_background_on_left_8_pixels: byte & 0x02 != 0,
        show_sprites_on_left_8_pixels: byte & 0x04 != 0,
        show_background: byte & 0x08 != 0,
        show_sprites: byte & 0x10 != 0,
        emphasise_red: byte & 0x20 != 0,
        emphasise_green: byte & 0x40 != 0,
        emphasise_blue: byte & 0x80 != 0,
    }
}

/// Packs the mask register's flags into a byte.
pub fn mask_to_byte(mask: PPUMask) -> (r: u8)
    ensures
        r == spec_mask_to_byte(mask),
{
    weight(mask.greyscale, 1) + weight(mask.show_background_on_left_8_pixels, 2) + weight(
        mask.show_sprites_on_left_8_pixels,
        4,
    ) + weight(mask.show_background, 8) + weight(mask.show_sprites, 16) + weight(mask.emphasise_red, 32)
        + weight(mask.emphasise_green, 64) + weight(mask.emphasise_blue, 128)
}

/// Packs the status register into the byte a read of `0x2002` returns.
pub fn status_byte(status: PPUStatus) -> (r: u8)
    ensures
        r == spec_status_byte(status),
{
    weight(status.in_vblank, 128) + weight(status.sprite_0_hit, 64) + weight(status.sprite_overflow, 32)
        + status.lsb_of_previous_ppu_register % 32
}

impl From<u8> for PPUMask {
    fn from(byte: u8) -> (r: PPUMask) {
        mask_from_byte(byte)
    }
}

impl vstd::std_specs::convert::FromSpecImpl<u8> for PPUMask {
    open spec fn obeys_from_spec() -> bool {
        true
    }

    open spec fn from_spec(byte: u8) -> PPUMask {
        spec_mask_from_byte(byte)
    }
}

impl From<PPUMask> for u8 {
    fn from(mask: PPUMask) -> (r: u8) {
        mask_to_byte(mask)
    }
}

impl vstd::std_specs::convert::FromSpecImpl<PPUMask> for u8 {
    open spec fn obeys_from_spec() -> bool {
        true
    }

    open spec fn from_spec(mask: PPUMask) -> u8 {
        spec_mask_to_byte(mask)
    }
}

impl Default for PPUMask {
    fn default() -> (r: PPUMask)
        ensures
            r == spec_mask_from_byte(0),
    {
        mask_from_byte(0)
    }
}

/// The status register at `0x2002`.
#[derive(PartialEq, Eq, Clone, Copy, Debug, Structural)]
pub struct PPUStatus {
    /// The low five bits read back are those of the last byte written to a PPU register.
    pub lsb_of_previous_ppu_register: u8,
    pub sprite_overflow: bool,
    pub sprite_0_hit: bool,
    pub in_vblank: bool,
}

/// The status byte: vertical blank in bit 7, sprite 0 hit in bit 6, sprite overflow in
/// bit 5, and the low five bits of the last register write below.
pub open spec fn spec_status_byte(s: PPUStatus) -> u8 {
    (flag_value(s.in_vblank, 128) + flag_value(s.sprite_0_hit, 64) + flag_value(s.sprite_overflow, 32)
        + s.lsb_of_previous_ppu_register % 32) as u8
}

impl From<PPUStatus> for u8 {
    fn from(status: PPUStatus) -> (r: u8) {
        status_byte(status)
    }
}

impl vstd::std_specs::convert::FromSpecImpl<PPUStatus> for u8 {
    open spec fn obeys_from_spec() -> bool {
        true
    }

    open spec fn from_spec(status: PPUStatus) -> u8 {
        spec_status_byte(status)
    }
}

impl Default for PPUStatus {
    fn default() -> (r: PPUStatus)
        ensures
            r == (PPUStatus {
                lsb_of_previous_ppu_register: 0,
                sprite_overflow: false,
                sprite_0_hit: false,
                in_vblank: false,
            }),
    {
        PPUStatus { lsb_of_previous_ppu_register: 0, sprite_overflow: false, sprite_0_hit: false, in_vblank: false }
    }
}

/// The register state of the picture processing unit.
pub struct PpuView {
    pub ppuctrl: PPUCtrl,
    pub ppumask: PPUMask,
    pub ppustatus: PPUStatus,
    pub oam_addr: u8,
    pub oam_data: Seq<u8>,
    pub addr: u16,
    pub addr_latch: bool,
    pub horizontal_scroll: u8,
    pub vertical_scroll: u8,
    pub pixels: Seq<Pixel>,
}

/// Sprite memory holds 256 bytes and the framebuffer 256 by 240 pixels.
pub open spec fn ppu_wf(v: PpuView) -> bool {
    v.oam_data.len() == 256 && v.pixels.len() == 61440
}

/// The picture processing unit of the console (the RP2C02): its memory-mapped registers,
/// sprite memory and framebuffer.
pub struct RP2C02 {
    pub pixels: Vec<Pixel>,
    pub ppuctrl: PPUCtrl,
    pub ppumask: PPUMask,
    pub ppustatus: PPUStatus,
    pub oam_addr: u8,
    pub oam_data: Vec<u8>,
    /// The VRAM address that `0x2007` reads and writes.
    pub addr: u16,
    /// Whether the next write to `0x2005` or `0x2006` is the second of a pair. Shared by
    /// both registers and cleared by a read of `0x2002`.
    pub addr_latch: bool,
    pub horizontal_scroll: u8,
    pub vertical_scroll: u8,
}

impl View for RP2C02 {
    type V = PpuView;

    open spec fn view(&self) -> PpuView {
        PpuView {
            ppuctrl: self.ppuctrl,
            ppumask: self.ppumask,
            ppustatus: self.ppustatus,
            oam_addr: self.oam_addr,
            oam_data: self.oam_data@,
            addr: self.addr,
            addr_latch: self.addr_latch,
            horizontal_scroll: self.horizontal_scroll,
            vertical_scroll: self.vertical_scroll,
            pixels: self.pixels@,
        }
    }
}

/// The register that `address` (in `0x2000`-`0x3FFF`) selects: the eight registers repeat
/// every eight bytes.
pub open spec fn register_of(address: u16) -> u16 {
    (0x2000 + address % 8) as u16
}

/// `v` with the VRAM address moved on by the control register's increment.
pub open spec fn advanced(v: PpuView) -> PpuView {
    PpuView { addr: ((v.addr + v.ppuctrl.spec_increment()) % 0x10000) as u16, ..v }
}

/// A CPU read of `address`: the byte, the registers afterwards and the PPU bus afterwards.
/// `0x2002` returns the status and clears vertical blank and the address latch; `0x2004`
/// returns sprite memory at the sprite address; `0x2007` reads VRAM at the VRAM address
/// and advances it. The write-only registers read as `0`.
pub open spec fn spec_register_read<B: Bus>(v: PpuView, address: u16, state: B::V) -> (u8, PpuView, B::V) {
    let register = register_of(address);
    if register == 0x2002 {
        (
            spec_status_byte(v.ppustatus),
            PpuView { addr_latch: false, ppustatus: PPUStatus { in_vblank: false, ..v.ppustatus }, ..v },
            state,
        )
    } else if register == 0x2004 {
        (byte_at(v.oam_data, v.oam_addr as int), v, state)
    } else if register == 0x2007 {
        (B::peek(state, v.addr), advanced(v), B::after_read(state, v.addr))
    } else {
        (0, v, state)
    }
}

/// The registers after `data` is written to `0x2006`: the high byte of the VRAM address
/// first, then the low byte.
pub open spec fn spec_write_ppuaddr(v: PpuView, data: u8) -> PpuView {
    PpuView {
        addr: if v.addr_latch { word(data, hi_byte(v.addr)) } else { word(lo_byte(v.addr), data) },
        addr_latch: !v.addr_latch,
        ..v
    }
}

/// The registers after `data` is written to `0x2005`: horizontal scroll first, then vertical.
pub open spec fn spec_write_ppuscroll(v: PpuView, data: u8) -> PpuView {
    if v.addr_latch {
        PpuView { vertical_scroll: data, addr_latch: false, ..v }
    } else {
        PpuView { horizontal_scroll: data, addr_latch: true, ..v }
    }
}

/// The registers after `data` is written to `0x2004`: sprite memory at the sprite address
/// takes it, and the sprite address moves on, wrapping at 256.
pub open spec fn spec_write_oamdata(v: PpuView, data: u8) -> PpuView {
    PpuView {
        oam_data: set_byte(v.oam_data, v.oam_addr as int, data),
        oam_addr: ((v.oam_addr + 1) % 256) as u8,
        ..v
    }
}

/// A CPU write of `data` to `address`: the registers and the PPU bus afterwards. A write to
/// the status register (`0x2002`) is refused and changes nothing; every other write leaves
/// its low bits for the status register to read back.
pub open spec fn spec_register_write<B: Bus>(v: PpuView, address: u16, data: u8, state: B::V) -> (PpuView, B::V) {
    let register = register_of(address);
    if register == 0x2002 {
        (v, state)
    } else {
        spec_register_write_accepted::<B>(v, register, data, state)
    }
}

pub open spec fn spec_register_write_accepted<B: Bus>(v: PpuView, register: u16, data: u8, state: B::V) -> (
    PpuView,
    B::V,
) {
    let v = PpuView { ppustatus: PPUStatus { lsb_of_previous_ppu_register: data, ..v.ppustatus }, ..v };
    if register == 0x2000 {
        (PpuView { ppuctrl: PPUCtrl(data), ..v }, state)
    } else if register == 0x2001 {
        (PpuView { ppumask: spec_mask_from_byte(data), ..v }, state)
    } else if register == 0x2003 {
        (PpuView { oam_addr: data, ..v }, state)
    } else if register == 0x2004 {
        (spec_write_oamdata(v, data), state)
    } else if register == 0x2005 {
        (spec_write_ppuscroll(v, data), state)
    } else if register == 0x2006 {
        (spec_write_ppuaddr(v, data), state)
    } else if register == 0x2007 {
        (advanced(v), B::after_write(state, v.addr, data))
    } else {
        (v, state)
    }
}

/// Why a CPU access to a PPU register was refused.
#[derive(PartialEq, Eq, Clone, Copy, Debug, Structural)]
pub enum PpuError {
    /// The status register (`0x2002` and its mirrors) cannot be written.
    NotWritable(u16),
}

/// How many pattern-table bytes a PPU clock draws: 448 tiles of 16 bytes.
pub const DRAWN_PATTERN_BYTES: u16 = 0x1C00;

/// The screen after the first 448 tiles of `bytes` are drawn over `screen`, 256 pixels to a
/// row. Tile `i` goes to column `(i * 8) % 256`, row `(i / 16) * 8`, so the rows of 16 tiles
/// fill the left and the right half of the screen in turn; pixels that no tile covers keep
/// their value.
pub open spec fn drawn_screen(screen: Seq<Pixel>, bytes: Seq<u8>) -> Seq<Pixel> {
    Seq::new(
        screen.len(),
        |p: int|
            {
                let x = p % 256;
                let y = p / 256;
                let k = y / 8;
                let c = x / 8;
                if k < 28 && ((k % 2 == 0) == (c < 16)) {
                    tile_colour(bytes, 16 * k + c % 16, x % 8, y % 8)
                } else {
                    screen[p]
                }
            },
    )
}

/// One PPU clock: the first 7 KiB of pattern data are read from the PPU bus and drawn into
/// the framebuffer (see `drawn_screen`); the registers do not change.
pub open spec fn spec_clock<B: Bus>(v: PpuView, state: B::V) -> (PpuView, B::V) {
    let (bytes, s) = spec_read_run::<B>(state, DRAWN_PATTERN_BYTES as nat);
    (PpuView { pixels: drawn_screen(v.pixels, bytes), ..v }, s)
}

/// The registers of a PPU at power-on: all clear, sprite memory zeroed, the framebuffer
/// transparent.
pub open spec fn spec_power_on_ppu() -> PpuView {
    PpuView {
        ppuctrl: PPUCtrl(0),
        ppumask: spec_mask_from_byte(0),
        ppustatus: PPUStatus {
            lsb_of_previous_ppu_register: 0,
            sprite_overflow: false,
            sprite_0_hit: false,
            in_vblank: false,
        },
        oam_addr: 0,
        oam_data: Seq::new(256, |i: int| 0u8),
        addr: 0,
        addr_latch: false,
        horizontal_scroll: 0,
        vertical_scroll: 0,
        pixels: Seq::new(61440, |i: int| Pixel { red: 0, green: 0, blue: 0, alpha: 0 }),
    }
}

impl RP2C02 {
    pub const SCREEN_WIDTH: usize = 256;
    pub const SCREEN_HEIGHT: usize = 240;
    pub const SCREEN_PIXELS: usize = 61440;

    /// A PPU at the start of a frame with every register clear and a transparent framebuffer.
    pub fn new() -> (r: RP2C02)
        ensures
            r@ == spec_power_on_ppu(),
            ppu_wf(r@),
            r.pixels@.len() == 61440,
            r@.oam_data == Seq::new(256, |i: int| 0u8),
            r@.ppuctrl == PPUCtrl(0),
            r@.ppumask == spec_mask_from_byte(0),
            r@.ppustatus == (PPUStatus {
                lsb_of_previous_ppu_register: 0,
                sprite_overflow: false,
                sprite_0_hit: false,
                in_vblank: false,
            }),
            r@.oam_addr == 0 && r@.addr == 0 && !r@.addr_latch,
            r@.horizontal_scroll == 0 && r@.vertical_scroll == 0,
            r@.pixels == Seq::new(61440, |i: int| Pixel { red: 0, green: 0, blue: 0, alpha: 0 }),
    {
        let r = RP2C02 {
            pixels: vec![Pixel::empty(); 61440],
            ppuctrl: PPUCtrl::default(),
            ppumask: PPUMask::default(),
            ppustatus: PPUStatus::default(),
            oam_addr: 0,
            oam_data: vec![0u8; 256],
            addr: 0,
            addr_latch: false,
            horizontal_scroll: 0,
            vertical_scroll: 0,
        };
        assert(r@.oam_data =~= Seq::new(256, |i: int| 0u8));
        assert(r@.pixels =~= Seq::new(61440, |i: int| Pixel { red: 0, green: 0, blue: 0, alpha: 0 }));
        r
    }

    /// One PPU clock: reads the first 7 KiB of pattern data from `bus` and draws it into the
    /// framebuffer. The registers do not change.
    pub fn cycle<B: Bus>(&mut self, bus: &mut B)
        ensures
            (final(self)@, final(bus)@) == spec_clock::<B>(old(self)@, old(bus)@),
            B::inv(old(bus)@) ==> B::inv(final(bus)@),
            ppu_wf(old(self)@) ==> ppu_wf(final(self)@),
    {
        let mut bytes: Vec<u8> = Vec::new();
        let mut a: u16 = 0;
        while a < DRAWN_PATTERN_BYTES
            invariant
                a <= DRAWN_PATTERN_BYTES,
                (bytes@, bus@) == spec_read_run::<B>(old(bus)@, a as nat),
                B::inv(old(bus)@) ==> B::inv(bus@),
                *self == *old(self),
            decreases DRAWN_PATTERN_BYTES - a,
        {
            let byte = bus.read_u8(a);
            bytes.push(byte);
            a = a + 1;
        }
        proof {
            lemma_read_run_len::<B>(old(bus)@, DRAWN_PATTERN_BYTES as nat);
        }
        let ghost before = self.pixels@;
        let n = self.pixels.len();
        let mut p: usize = 0;
        while p < n
            invariant
                p <= n,
                n == self.pixels@.len(),
                n == before.len(),
                bytes@.len() == 0x1C00,
                (bytes@, bus@) == spec_read_run::<B>(old(bus)@, DRAWN_PATTERN_BYTES as nat),
                B::inv(old(bus)@) ==> B::inv(bus@),
                self@ == (PpuView { pixels: self.pixels@, ..old(self)@ }),
                before == old(self)@.pixels,
                self.pixels@ == Seq::new(
                    n as nat,
                    |q: int| if q < p { drawn_screen(before, bytes@)[q] } else { before[q] },
                ),
            decreases n - p,
        {
            let x = p % 256;
            let y = p / 256;
            let k = y / 8;
            let c = x / 8;
            if k < 28 && ((k % 2 == 0) == (c < 16)) {
                let base = 16 * (16 * k + c % 16);
                let row = y % 8;
                let shift = (7 - x % 8) as u8;
                let value = bit_of(bytes[base + row], shift) + 2 * bit_of(bytes[base + 8 + row], shift);
                self.pixels.set(p, colour(value));
            }
            p = p + 1;
            assert(self.pixels@ =~= Seq::new(
                n as nat,
                |q: int| if q < p { drawn_screen(before, bytes@)[q] } else { before[q] },
            ));
        }
        assert(self.pixels@ =~= drawn_screen(before, bytes@));
    }

    /// A CPU read of a register, `0x2000`-`0x3FFF`.
    pub fn cpu_mapped_read_u8<B: Bus>(&mut self, ppu_bus: &mut B, address: u16) -> (r: u8)
        requires
            0x2000 <= address <= 0x3FFF,
        ensures
            (r, final(self)@, final(ppu_bus)@) == spec_register_read::<B>(old(self)@, address, old(ppu_bus)@),
            final(self).pixels == old(self).pixels,
            B::inv(old(ppu_bus)@) ==> B::inv(final(ppu_bus)@),
            ppu_wf(old(self)@) ==> ppu_wf(final(self)@),
    {
        let register = 0x2000 + address % 8;
        if register == 0x2002 {
            status_byte(self.read_ppustatus())
        } else if register == 0x2004 {
            if (self.oam_addr as usize) < self.oam_data.len() {
                self.oam_data[self.oam_addr as usize]
            } else {
                0
            }
        } else if register == 0x2007 {
            self.read_ppudata(ppu_bus)
        } else {
            0
        }
    }

    /// A CPU write of a register, `0x2000`-`0x3FFF`. The status register is not writable:
    /// a write to it is refused with an error and changes nothing.
    pub fn cpu_mapped_write_u8<B: Bus>(&mut self, ppu_bus: &mut B, address: u16, data: u8) -> (r: Result<(), PpuError>)
        requires
            0x2000 <= address <= 0x3FFF,
        ensures
            (final(self)@, final(ppu_bus)@) == spec_register_write::<B>(old(self)@, address, data, old(ppu_bus)@),
            r is Err <==> register_of(address) == 0x2002,
            r is Err ==> r == Err::<(), PpuError>(PpuError::NotWritable(address)),
            B::inv(old(ppu_bus)@) ==> B::inv(final(ppu_bus)@),
            ppu_wf(old(self)@) ==> ppu_wf(final(self)@),
    {
        let register = 0x2000 + address % 8;
        if register == 0x2002 {
            return Err(PpuError::NotWritable(address));
        }
        self.ppustatus.lsb_of_previous_ppu_register = data;
        if register == 0x2000 {
            self.ppuctrl = PPUCtrl(data);
        } else if register == 0x2001 {
            self.ppumask = mask_from_byte(data);
        } else if register == 0x2003 {
            self.oam_addr = data;
        } else if register == 0x2004 {
            self.write_oamdata(data);
        } else if register == 0x2005 {
            self.write_ppuscroll(data);
        } else if register == 0x2006 {
            self.write_ppuaddr(data);
        } else if register == 0x2007 {
            self.write_ppudata(ppu_bus, data);
        }
        Ok(())
    }

    pub fn write_ppuaddr(&mut self, data: u8)
        ensures
            final(self)@ == spec_write_ppuaddr(old(self)@, data),
            final(self).pixels == old(self).pixels,
            ppu_wf(old(self)@) ==> ppu_wf(final(self)@),
    {
        let (lo, hi) = crate::bus::split_word(self.addr);
        self.addr = if self.addr_latch {
            crate::bus::make_word(data, hi)
        } else {
            crate::bus::make_word(lo, data)
        };
        self.addr_latch = !self.addr_latch;
    }

    pub fn write_ppuscroll(&mut self, data: u8)
        ensures
            final(self)@ == spec_write_ppuscroll(old(self)@, data),
            final(self).pixels == old(self).pixels,
            ppu_wf(old(self)@) ==> ppu_wf(final(self)@),
    {
        if !self.addr_latch {
            self.horizontal_scroll = data;
        } else {
            self.vertical_scroll = data;
        }
        self.addr_latch = !self.addr_latch;
    }

    /// Returns the status and clears vertical blank and the address latch.
    pub fn read_ppustatus(&mut self) -> (r: PPUStatus)
        ensures
            r == old(self)@.ppustatus,
            final(self)@ == (PpuView {
                addr_latch: false,
                ppustatus: PPUStatus { in_vblank: false, ..old(self)@.ppustatus },
                ..old(self)@
            }),
            final(self).pixels == old(self).pixels,
            ppu_wf(old(self)@) ==> ppu_wf(final(self)@),
    {
        self.addr_latch = false;
        let old_status = self.ppustatus;
        self.ppustatus.in_vblank = false;
        old_status
    }

    pub fn read_ppudata<B: Bus>(&mut self, bus: &mut B) -> (r: u8)
        ensures
            r == B::peek(old(bus)@, old(self).addr),
            final(bus)@ == B::after_read(old(bus)@, old(self).addr),
            final(self)@ == advanced(old(self)@),
            final(self).pixels == old(self).pixels,
            B::inv(old(bus)@) ==> B::inv(final(bus)@),
            ppu_wf(old(self)@) ==> ppu_wf(final(self)@),
    {
        let value = bus.read_u8(self.addr);
        self.addr = self.addr.wrapping_add(self.ppuctrl.vram_address_increment());
        value
    }

    pub fn write_ppudata<B: Bus>(&mut self, bus: &mut B, data: u8)
        ensures
            final(bus)@ == B::after_write(old(bus)@, old(self).addr, data),
            final(self)@ == advanced(old(self)@),
            final(self).pixels == old(self).pixels,
            B::inv(old(bus)@) ==> B::inv(final(bus)@),
            ppu_wf(old(self)@) ==> ppu_wf(final(self)@),
    {
        bus.write_u8(self.addr, data);
        self.addr = self.addr.wrapping_add(self.ppuctrl.vram_address_increment());
    }

    pub fn write_oamdata(&mut self, data: u8)
        ensures
            final(self)@ == spec_write_oamdata(old(self)@, data),
            final(self).pixels == old(self).pixels,
            ppu_wf(old(self)@) ==> ppu_wf(final(self)@),
    {
        if (self.oam_addr as usize) < self.oam_data.len() {
            self.oam_data.set(self.oam_addr as usize, data);
        }
        self.oam_addr = self.oam_addr.wrapping_add(1);
    }
}

} // verus!
