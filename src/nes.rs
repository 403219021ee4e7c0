use vstd::prelude::*;

use crate::bus::Bus;
use crate::cartridge::{
    byte_at, mapper_wf, mapper_cpu_peek, mapper_cpu_write, mapper_ppu_peek, mapper_ppu_write, set_byte, Cartridge,
    CartridgeError, NromView, spec_nrom_from_rom,
};
use crate::cpu::MOS6502;
use crate::cycle::tick;
use crate::dma::DMA;
use crate::error::Error;
use crate::interrupt::Interrupt;
use crate::ppu::{ppu_wf, spec_clock, spec_power_on_ppu, spec_register_read, spec_register_write, PpuView, RP2C02};
use crate::rom::NESROM;
use crate::texture::{decoded_pixels, Pixel, Texture};

verus! {

/// The console's direct-memory-access channel: a write to `0x4014` copies 256 bytes to
/// `0x2004`, the PPU's sprite data register.
pub open spec fn nes_dma() -> DMA {
    DMA { trigger_address: 0x4014, target_address: 0x2004, bytes_to_transfer: 256 }
}

/// The PPU's view of the cartridge: pattern tables and nametables.
pub struct PpuBus {
    pub cartridge: Cartridge,
}

impl View for PpuBus {
    type V = Option<NromView>;

    open spec fn view(&self) -> Option<NromView> {
        self.cartridge.mapper@
    }
}

impl Bus for PpuBus {
    open spec fn peek(state: Option<NromView>, address: u16) -> u8 {
        mapper_ppu_peek(state, address)
    }

    open spec fn after_read(state: Option<NromView>, address: u16) -> Option<NromView> {
        state
    }

    open spec fn inv(state: Option<NromView>) -> bool {
        mapper_wf(state)
    }

    open spec fn after_write(state: Option<NromView>, address: u16, data: u8) -> Option<NromView> {
        mapper_ppu_write(state, address, data)
    }

    fn read_u8(&mut self, address: u16) -> (r: u8) {
        self.cartridge.mapper.ppu_read_u8(address)
    }

    fn write_u8(&mut self, address: u16, data: u8) {
        self.cartridge.mapper.ppu_write_u8(address, data)
    }
}

/// Everything behind the CPU's address space, as the contracts see it.
pub struct CpuBusView {
    pub wram: Seq<u8>,
    pub ppu: PpuView,
    pub cartridge: Option<NromView>,
}

/// The CPU's address space: 2 KiB of work RAM at `0x0000`-`0x1FFF` (mirrored every 2 KiB),
/// the PPU registers at `0x2000`-`0x3FFF` (mirrored every 8 bytes) and the cartridge at
/// `0x4020`-`0xFFFF`. Other addresses read `0` and drop writes.
pub struct CpuBus {
    pub wram: Vec<u8>,
    pub ppu: RP2C02,
    pub ppu_bus: PpuBus,
}

impl View for CpuBus {
    type V = CpuBusView;

    open spec fn view(&self) -> CpuBusView {
        CpuBusView { wram: self.wram@, ppu: self.ppu@, cartridge: self.ppu_bus@ }
    }
}

pub open spec fn is_ppu_register(address: u16) -> bool {
    0x2000 <= address <= 0x3FFF
}

impl Bus for CpuBus {
    open spec fn peek(state: CpuBusView, address: u16) -> u8 {
        if address >= 0x4020 {
            mapper_cpu_peek(state.cartridge, address)
        } else if is_ppu_register(address) {
            spec_register_read::<PpuBus>(state.ppu, address, state.cartridge).0
        } else if address < 0x2000 {
            byte_at(state.wram, (address % 0x800) as int)
        } else {
            0
        }
    }

    /// 2 KiB of work RAM, and the PPU and cartridge storage at their sizes.
    open spec fn inv(state: CpuBusView) -> bool {
        state.wram.len() == 0x800 && ppu_wf(state.ppu) && mapper_wf(state.cartridge)
    }

    open spec fn after_read(state: CpuBusView, address: u16) -> CpuBusView {
        if address < 0x4020 && is_ppu_register(address) {
            let (_, ppu, cartridge) = spec_register_read::<PpuBus>(state.ppu, address, state.cartridge);
            CpuBusView { ppu, cartridge, ..state }
        } else {
            state
        }
    }

    open spec fn after_write(state: CpuBusView, address: u16, data: u8) -> CpuBusView {
        if address >= 0x4020 {
            CpuBusView { cartridge: mapper_cpu_write(state.cartridge, address, data), ..state }
        } else if is_ppu_register(address) {
            let (ppu, cartridge) = spec_register_write::<PpuBus>(state.ppu, address, data, state.cartridge);
            CpuBusView { ppu, cartridge, ..state }
        } else if address < 0x2000 {
            CpuBusView { wram: set_byte(state.wram, (address % 0x800) as int, data), ..state }
        } else {
            state
        }
    }

    fn read_u8(&mut self, address: u16) -> (r: u8) {
        if address >= 0x4020 {
            self.ppu_bus.cartridge.mapper.cpu_read_u8(address)
        } else if 0x2000 <= address && address <= 0x3FFF {
            self.ppu.cpu_mapped_read_u8(&mut self.ppu_bus, address)
        } else if address < 0x2000 {
            let i = (address % 0x800) as usize;
            if i < self.wram.len() {
                self.wram[i]
            } else {
                0
            }
        } else {
            0
        }
    }

    fn write_u8(&mut self, address: u16, data: u8) {
        if address >= 0x4020 {
            self.ppu_bus.cartridge.mapper.cpu_write_u8(address, data);
        } else if 0x2000 <= address && address <= 0x3FFF {
            // A write to the status register is refused by the PPU; the bus has no way to
            // report it, so it is dropped.
            let _ = self.ppu.cpu_mapped_write_u8(&mut self.ppu_bus, address, data);
        } else if address < 0x2000 {
            let i = (address % 0x800) as usize;
            if i < self.wram.len() {
                self.wram.set(i, data);
            }
        }
    }
}

/// Turns elapsed time into whole ticks of a fixed period, carrying the remainder over.
pub struct Ticker {
    /// The period of one tick, in nanoseconds.
    pub tick_speed: u64,
    /// Time elapsed since the last tick, in nanoseconds.
    pub tick_accumulator: u64,
}

impl Ticker {
    /// The remainder is shorter than a period.
    pub open spec fn wf(&self) -> bool {
        self.tick_speed > 0 && self.tick_accumulator < self.tick_speed
    }

    /// Adds `delta` nanoseconds and returns how many whole periods are now complete; what is
    /// left over stays for the next call.
    pub fn tick(&mut self, delta: u64) -> (r: u64)
        requires
            old(self).wf(),
        ensures
            final(self).wf(),
            final(self).tick_speed == old(self).tick_speed,
            r * old(self).tick_speed + final(self).tick_accumulator == old(self).tick_accumulator + delta,
            r == (old(self).tick_accumulator + delta) / (old(self).tick_speed as int),
            final(self).tick_accumulator == (old(self).tick_accumulator + delta) % (old(self).tick_speed as int),
    {
        let total = self.tick_accumulator as u128 + delta as u128;
        let speed = self.tick_speed as u128;
        let count = total / speed;
        assert(total < 0x1_0000_0000_0000_0000 + speed);
        self.tick_accumulator = (total % speed) as u64;
        proof {
            assert(count * speed + total % speed == total) by (nonlinear_arith)
                requires speed > 0, count == total / speed;
            assert(count <= total) by (nonlinear_arith)
                requires speed > 0, count == total / speed;
            assert(count <= delta) by (nonlinear_arith)
                requires
                    speed > 0,
                    count * speed + total % speed == total,
                    0 <= total % speed,
                    total < delta + speed,
                    count >= 0;
        }
        count as u64
    }
}

/// The console: CPU, work RAM, PPU and cartridge, with the clock that drives them.
pub struct Nestalgic {
    pub cpu: MOS6502,
    pub bus: CpuBus,
    pub ticker: Ticker,
}

/// The console's bus after one PPU clock, which draws the cartridge's pattern data into
/// the framebuffer.
pub open spec fn ppu_clock(v: CpuBusView) -> CpuBusView {
    let (ppu, cartridge) = spec_clock::<PpuBus>(v.ppu, v.cartridge);
    CpuBusView { ppu, cartridge, ..v }
}

/// The console after one `Nestalgic::cycle`: a CPU cycle, then, unless it failed, three PPU
/// clocks.
#[verifier::opaque]
pub open spec fn spec_console_cycle(cpu: MOS6502, bus: CpuBusView) -> (Result<(), Error>, MOS6502, CpuBusView) {
    let (res, c, b) = cpu.spec_cycle::<CpuBus>(bus);
    match res {
        Err(e) => (Err(e), c, b),
        Ok(()) => (Ok(()), c, ppu_clock(ppu_clock(ppu_clock(b)))),
    }
}

/// The console after `n` cycles, or after the first that failed.
pub open spec fn spec_run(cpu: MOS6502, bus: CpuBusView, n: nat) -> (Result<(), Error>, MOS6502, CpuBusView)
    decreases n,
{
    if n == 0 {
        (Ok(()), cpu, bus)
    } else {
        let (r, c, b) = spec_run(cpu, bus, (n - 1) as nat);
        match r {
            Err(e) => (Err(e), c, b),
            Ok(()) => spec_console_cycle(c, b),
        }
    }
}

/// Once a run has failed, running longer changes nothing.
pub proof fn lemma_run_stops_at_failure(cpu: MOS6502, bus: CpuBusView, k: nat, m: nat)
    requires
        k <= m,
        spec_run(cpu, bus, k).0 is Err,
    ensures
        spec_run(cpu, bus, m) == spec_run(cpu, bus, k),
    decreases m - k,
{
    if k < m {
        lemma_run_stops_at_failure(cpu, bus, k, (m - 1) as nat);
    }
}

/// The bytes the PPU sees at `start` onwards, `n` of them.
pub open spec fn ppu_bytes(cartridge: Option<NromView>, start: int, n: int) -> Seq<u8> {
    Seq::new(n as nat, |i: int| mapper_ppu_peek(cartridge, (start + i) as u16))
}

impl Nestalgic {
    pub const SCREEN_WIDTH: usize = 256;
    pub const SCREEN_HEIGHT: usize = 240;
    pub const SCREEN_PIXELS: usize = 61440;
    pub const PATTERN_TABLE_WIDTH: usize = 128;
    pub const PATTERN_TABLE_HEIGHT: usize = 128;
    pub const PATTERN_TABLE_PIXELS: usize = 16384;

    /// The length of one CPU cycle in nanoseconds (a 1.79 MHz clock).
    pub const MASTER_CLOCK_SPEED: u64 = 559;

    pub open spec fn wf(&self) -> bool {
        self.cpu.wf() && self.ticker.wf() && CpuBus::inv(self.bus@)
    }

    /// The console's CPU: a 6502 whose writes to `0x4014` copy 256 bytes to `0x2004`.
    pub fn nes_cpu() -> (r: MOS6502)
        ensures
            r.wf(),
            r.is_power_on(),
            r.wait_cycles == 0,
            r.dma@ == Map::<u16, DMA>::empty().insert(0x4014, nes_dma()),
    {
        let nes_dma = DMA { trigger_address: 0x4014, target_address: 0x2004, bytes_to_transfer: 256 };
        MOS6502::new().with_dma(nes_dma)
    }

    /// A console with `rom` inserted, after reset; fails when the cartridge's mapper is
    /// not implemented.
    pub fn new(rom: NESROM) -> (r: Result<Nestalgic, CartridgeError>)
        ensures
            rom.header.mapper_number == 0 <==> r is Ok,
            rom.header.mapper_number != 0 ==> r == Err::<Nestalgic, CartridgeError>(
                CartridgeError::UnsupportedMapper(rom.header.mapper_number),
            ),
            r is Ok ==> ({
                let n = r->Ok_0;
                let power_on = CpuBusView {
                    wram: Seq::new(0x800, |i: int| 0u8),
                    ppu: spec_power_on_ppu(),
                    cartridge: Some(spec_nrom_from_rom(rom)),
                };
                &&& n.wf()
                &&& n.ticker == (Ticker { tick_speed: 559, tick_accumulator: 0 })
                &&& exists|c0: MOS6502|
                    #![trigger c0.spec_interrupt::<CpuBus>(Interrupt::RESET, power_on)]
                    c0.is_power_on() && c0.dma@ == Map::<u16, DMA>::empty().insert(0x4014, nes_dma()) && (n.cpu, n.bus@)
                        == c0.spec_interrupt::<CpuBus>(Interrupt::RESET, power_on)
            }),
    {
        let cartridge = Cartridge::from_rom(rom)?;
        let mut nestalgic = Nestalgic {
            cpu: Nestalgic::nes_cpu(),
            bus: CpuBus { wram: vec![0u8; 0x800], ppu: RP2C02::new(), ppu_bus: PpuBus { cartridge } },
            ticker: Ticker { tick_speed: Nestalgic::MASTER_CLOCK_SPEED, tick_accumulator: 0 },
        };
        let ghost c0 = nestalgic.cpu;
        let ghost power_on = nestalgic.bus@;
        proof {
            assert(nestalgic.bus.wram@ =~= Seq::new(0x800, |i: int| 0u8));
            assert(power_on == (CpuBusView {
                wram: Seq::new(0x800, |i: int| 0u8),
                ppu: spec_power_on_ppu(),
                cartridge: Some(spec_nrom_from_rom(rom)),
            }));
            assert(c0 == (MOS6502 { wait_cycles: 0, active_dma: None, ..c0 }));
        }
        nestalgic.reset();
        assert(c0.is_power_on() && c0.dma@ == Map::<u16, DMA>::empty().insert(0x4014, nes_dma()) && (nestalgic.cpu, nestalgic.bus@)
            == c0.spec_interrupt::<CpuBus>(Interrupt::RESET, power_on));
        Ok(nestalgic)
    }

    /// Resets the CPU: the instruction or copy under way is abandoned and the reset
    /// sequence starts.
    pub fn reset(&mut self)
        requires
            old(self).wf(),
        ensures
            final(self).wf(),
            final(self).ticker == old(self).ticker,
            final(self).bus.wram@ == old(self).bus.wram@,
            ({
                let idle = MOS6502 { wait_cycles: 0, active_dma: None, ..old(self).cpu };
                (final(self).cpu, final(self).bus@) == idle.spec_interrupt::<CpuBus>(
                    Interrupt::RESET,
                    old(self).bus@,
                )
            }),
    {
        self.cpu.wait_cycles = 0;
        self.cpu.active_dma = None;
        let _ = self.cpu.reset(&mut self.bus);
    }

    /// One CPU cycle followed by three PPU clocks.
    pub fn cycle(&mut self) -> (r: Result<(), Error>)
        requires
            old(self).wf(),
        ensures
            final(self).wf(),
            final(self).ticker == old(self).ticker,
            (r, final(self).cpu, final(self).bus@) == spec_console_cycle(old(self).cpu, old(self).bus@),
    {
        reveal(spec_console_cycle);
        self.cpu.cycle(&mut self.bus)?;
        self.bus.ppu.cycle(&mut self.bus.ppu_bus);
        self.bus.ppu.cycle(&mut self.bus.ppu_bus);
        self.bus.ppu.cycle(&mut self.bus.ppu_bus);
        Ok(())
    }

    /// Moves the console forward by `delta` nanoseconds: one CPU cycle (and three PPU
    /// clocks) for each whole clock period completed. Stops at the first failing cycle.
    pub fn tick(&mut self, delta: u64) -> (r: Result<(), Error>)
        requires
            old(self).wf(),
        ensures
            final(self).wf(),
            final(self).ticker.tick_speed == old(self).ticker.tick_speed,
            final(self).ticker.tick_accumulator == (old(self).ticker.tick_accumulator + delta) % (
            old(self).ticker.tick_speed as int),
            (r, final(self).cpu, final(self).bus@) == spec_run(
                old(self).cpu,
                old(self).bus@,
                ((old(self).ticker.tick_accumulator + delta) / (old(self).ticker.tick_speed as int)) as nat,
            ),
    {
        let cycles = self.ticker.tick(delta);
        let ghost cpu0 = self.cpu;
        let ghost bus0 = self.bus@;
        assert(cpu0 == old(self).cpu && bus0 == old(self).bus@);
        let mut i: u64 = 0;
        while i < cycles
            invariant
                self.wf(),
                i <= cycles,
                self.ticker == (Ticker {
                    tick_speed: old(self).ticker.tick_speed,
                    tick_accumulator: ((old(self).ticker.tick_accumulator + delta) % (
                    old(self).ticker.tick_speed as int)) as u64,
                }),
                cpu0 == old(self).cpu,
                bus0 == old(self).bus@,
                cycles == (old(self).ticker.tick_accumulator + delta) / (old(self).ticker.tick_speed as int),
                spec_run(cpu0, bus0, i as nat).0 is Ok,
                spec_run(cpu0, bus0, i as nat).1 == self.cpu,
                spec_run(cpu0, bus0, i as nat).2 == self.bus@,
            decreases cycles - i,
        {
            let ghost before_cpu = self.cpu;
            let ghost before_bus = self.bus@;
            let r = self.cycle();
            proof {
                assert(spec_run(cpu0, bus0, (i + 1) as nat) == spec_console_cycle(before_cpu, before_bus));
            }
            if r.is_err() {
                proof {
                    lemma_run_stops_at_failure(cpu0, bus0, (i + 1) as nat, cycles as nat);
                }
                return r;
            }
            i = i + 1;
        }
        proof {
            crate::cycle::lemma_unit_result(spec_run(cpu0, bus0, i as nat).0);
        }
        Ok(())
    }

    /// The framebuffer, row by row.
    pub fn pixels(&self) -> (r: &[Pixel])
        ensures
            r@ == self.bus.ppu.pixels@,
    {
        self.bus.ppu.pixels.as_slice()
    }

    fn chr_bytes(&self, start: u16) -> (r: Vec<u8>)
        requires
            start <= 0x1000,
        ensures
            r@ == ppu_bytes(self.bus.ppu_bus@, start as int, 0x1000),
    {
        let mut bytes: Vec<u8> = Vec::new();
        let mut i: u16 = 0;
        while i < 0x1000
            invariant
                i <= 0x1000,
                start <= 0x1000,
                bytes@ == ppu_bytes(self.bus.ppu_bus@, start as int, i as int),
            decreases 0x1000 - i,
        {
            bytes.push(self.bus.ppu_bus.cartridge.mapper.ppu_read_u8(start + i));
            i = i + 1;
            assert(bytes@ =~= ppu_bytes(self.bus.ppu_bus@, start as int, i as int));
        }
        bytes
    }

    /// The left pattern table (`0x0000`-`0x0FFF`) as a 128 by 128 texture of 8 by 8 tiles.
    pub fn pattern_table_left(&self) -> (r: Texture)
        ensures
            r.pixels@ == decoded_pixels(ppu_bytes(self.bus.ppu_bus@, 0, 0x1000), 128, 16384),
            r.width == 128 && r.height == 128,
    {
        let chr = self.chr_bytes(0);
        Texture::from_bitplanes(chr.as_slice(), 16, 128, 128)
    }

    /// The right pattern table (`0x1000`-`0x1FFF`) as a 128 by 128 texture of 8 by 8 tiles.
    pub fn pattern_table_right(&self) -> (r: Texture)
        ensures
            r.pixels@ == decoded_pixels(ppu_bytes(self.bus.ppu_bus@, 0x1000, 0x1000), 128, 16384),
            r.width == 128 && r.height == 128,
    {
        let chr = self.chr_bytes(0x1000);
        Texture::from_bitplanes(chr.as_slice(), 16, 128, 128)
    }
}

} // verus!
