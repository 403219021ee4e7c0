use vstd::prelude::*;

verus! {

/// The value of a little-endian 16-bit word made of `lo` and `hi`.
pub open spec fn word(lo: u8, hi: u8) -> u16 {
    (lo + 256 * hi) as u16
}

/// The low byte of a 16-bit word.
pub open spec fn lo_byte(v: u16) -> u8 {
    (v % 256) as u8
}

/// The high byte of a 16-bit word.
pub open spec fn hi_byte(v: u16) -> u8 {
    (v / 256) as u8
}

/// The address after `address`, wrapping from `0xFFFF` to `0x0000`.
pub open spec fn next_address(address: u16) -> u16 {
    ((address + 1) % 0x10000) as u16
}

/// Builds a word from its two bytes.
pub fn make_word(lo: u8, hi: u8) -> (r: u16)
    ensures
        r == word(lo, hi),
{
    lo as u16 + 256 * (hi as u16)
}

/// Splits a word into its low and high bytes.
pub fn split_word(v: u16) -> (r: (u8, u8))
    ensures
        r == (lo_byte(v), hi_byte(v)),
        word(r.0, r.1) == v,
{
    ((v % 256) as u8, (v / 256) as u8)
}

/// A byte-wide, 16-bit address space that a processor reads and writes.
///
/// A read may change the state behind the bus (a status register that clears itself
/// when read, a data register that advances a pointer), so the contract describes a read by
/// the value it returns and the state it leaves, both as functions of the state before.
pub trait Bus: View + Sized {
    /// The byte a read of `address` returns in state `state`.
    spec fn peek(state: Self::V, address: u16) -> u8;

    /// The state after a read of `address`.
    spec fn after_read(state: Self::V, address: u16) -> Self::V;

    /// The state after `data` is written to `address`.
    spec fn after_write(state: Self::V, address: u16, data: u8) -> Self::V;

    /// What stays true of the state behind the bus through every read and write (the sizes
    /// of its memories).
    spec fn inv(state: Self::V) -> bool;

    fn read_u8(&mut self, address: u16) -> (r: u8)
        ensures
            r == Self::peek(old(self)@, address),
            final(self)@ == Self::after_read(old(self)@, address),
            Self::inv(old(self)@) ==> Self::inv(final(self)@),
    ;

    fn write_u8(&mut self, address: u16, data: u8)
        ensures
            final(self)@ == Self::after_write(old(self)@, address, data),
            Self::inv(old(self)@) ==> Self::inv(final(self)@),
    ;

    /// Reads a little-endian word: the low byte at `address`, the high byte at
    /// `address + 1`, wrapping at the end of the address space.
    fn read_u16(&mut self, address: u16) -> (r: u16)
        ensures
            r == word(
                Self::peek(old(self)@, address),
                Self::peek(Self::after_read(old(self)@, address), next_address(address)),
            ),
            final(self)@ == Self::after_read(
                Self::after_read(old(self)@, address),
                next_address(address),
            ),
            Self::inv(old(self)@) ==> Self::inv(final(self)@),
    {
        let lo = self.read_u8(address);
        let hi = self.read_u8(address.wrapping_add(1));
        make_word(lo, hi)
    }

    /// Writes a little-endian word: the low byte to `address`, then the high byte to
    /// `address + 1`, wrapping at the end of the address space.
    fn write_u16(&mut self, address: u16, value: u16)
        ensures
            final(self)@ == Self::after_write(
                Self::after_write(old(self)@, address, lo_byte(value)),
                next_address(address),
                hi_byte(value),
            ),
            Self::inv(old(self)@) ==> Self::inv(final(self)@),
    {
        let (lo, hi) = split_word(value);
        self.write_u8(address, lo);
        self.write_u8(address.wrapping_add(1), hi);
    }
}

/// The bytes of `n` reads at addresses `0` to `n - 1`, in that order, and the state they leave.
pub open spec fn spec_read_run<B: Bus>(state: B::V, n: nat) -> (Seq<u8>, B::V)
    decreases n,
{
    if n == 0 {
        (Seq::empty(), state)
    } else {
        let (bytes, s) = spec_read_run::<B>(state, (n - 1) as nat);
        (bytes.push(B::peek(s, (n - 1) as u16)), B::after_read(s, (n - 1) as u16))
    }
}

pub proof fn lemma_read_run_len<B: Bus>(state: B::V, n: nat)
    ensures
        spec_read_run::<B>(state, n).0.len() == n,
    decreases n,
{
    if n > 0 {
        lemma_read_run_len::<B>(state, (n - 1) as nat);
    }
}

/// Where the processor finds the address of its non-maskable interrupt handler.
pub const NMI_VECTOR_ADDRESS: u16 = 0xFFFA;

/// Where the processor finds the address it starts from after a reset.
pub const RESET_VECTOR_ADDRESS: u16 = 0xFFFC;

/// Where the processor finds the address of its maskable interrupt and `BRK` handler.
pub const IRQ_VECTOR_ADDRESS: u16 = 0xFFFE;

/// A bus with plain RAM behind every one of its 65536 addresses.
pub struct RamBus16kb {
    pub memory: Vec<u8>,
}

impl View for RamBus16kb {
    type V = Seq<u8>;

    open spec fn view(&self) -> Seq<u8> {
        self.memory@
    }
}

impl Bus for RamBus16kb {
    /// Addresses past the end of `memory` read as `0`.
    open spec fn peek(state: Seq<u8>, address: u16) -> u8 {
        if (address as int) < state.len() {
            state[address as int]
        } else {
            0
        }
    }

    open spec fn after_read(state: Seq<u8>, address: u16) -> Seq<u8> {
        state
    }

    /// The memory covers the whole address space.
    open spec fn inv(state: Seq<u8>) -> bool {
        state.len() == 0x10000
    }

    /// Writes past the end of `memory` are dropped.
    open spec fn after_write(state: Seq<u8>, address: u16, data: u8) -> Seq<u8> {
        if (address as int) < state.len() {
            state.update(address as int, data)
        } else {
            state
        }
    }

    fn read_u8(&mut self, address: u16) -> (r: u8) {
        if (address as usize) < self.memory.len() {
            self.memory[address as usize]
        } else {
            0
        }
    }

    fn write_u8(&mut self, address: u16, data: u8) {
        if (address as usize) < self.memory.len() {
            self.memory.set(address as usize, data);
        }
    }
}

/// The RAM contents after `bytes` are copied in from `start`.
pub open spec fn copied_at(memory: Seq<u8>, start: int, bytes: Seq<u8>) -> Seq<u8> {
    Seq::new(
        memory.len(),
        |i: int|
            if start <= i < start + bytes.len() {
                bytes[i - start]
            } else {
                memory[i]
            },
    )
}

impl RamBus16kb {
    /// A bus whose 65536 bytes are all zero.
    pub fn new() -> (r: RamBus16kb)
        ensures
            r@ == Seq::new(0x10000, |i: int| 0u8),
    {
        let r = RamBus16kb { memory: vec![0u8; 0x10000] };
        assert(r@ =~= Seq::new(0x10000, |i: int| 0u8));
        r
    }

    /// Stores `address` at the non-maskable interrupt vector.
    pub fn with_nmi_vector_address(self, address: u16) -> (r: RamBus16kb)
        requires
            self@.len() == 0x10000,
        ensures
            r@ == self@.update(0xFFFA, lo_byte(address)).update(0xFFFB, hi_byte(address)),
    {
        let mut bus = self;
        bus.write_u16(NMI_VECTOR_ADDRESS, address);
        bus
    }

    /// Places `bytes` so that they end just before the interrupt vectors at `0xFFFA`,
    /// and points the reset vector at their first byte.
    pub fn with_program(self, bytes: Vec<u8>) -> (r: RamBus16kb)
        requires
            self@.len() == 0x10000,
            bytes@.len() <= 0xFFFA,
        ensures
            r@ == copied_at(self@, 0xFFFA - bytes@.len(), bytes@).update(
                0xFFFC,
                lo_byte((0xFFFA - bytes@.len()) as u16),
            ).update(0xFFFD, hi_byte((0xFFFA - bytes@.len()) as u16)),
    {
        let start = NMI_VECTOR_ADDRESS as usize - bytes.len();
        let mut bus = self.with_memory_at(start, bytes);
        bus.write_u16(RESET_VECTOR_ADDRESS, start as u16);
        bus
    }

    /// Copies `bytes` into RAM from address `0x0000`.
    pub fn with_memory(self, bytes: Vec<u8>) -> (r: RamBus16kb)
        requires
            self@.len() == 0x10000,
            bytes@.len() <= 0x10000,
        ensures
            r@ == copied_at(self@, 0, bytes@),
    {
        self.with_memory_at(0, bytes)
    }

    /// Copies `bytes` into RAM from address `start`.
    pub fn with_memory_at(self, start: usize, bytes: Vec<u8>) -> (r: RamBus16kb)
        requires
            self@.len() == 0x10000,
            start + bytes@.len() <= 0x10000,
        ensures
            r@ == copied_at(self@, start as int, bytes@),
    {
        let mut bus = self;
        let ghost before = bus@;
        let mut i: usize = 0;
        while i < bytes.len()
            invariant
                0 <= i <= bytes@.len(),
                start + bytes@.len() <= 0x10000,
                bus@.len() == 0x10000,
                before.len() == 0x10000,
                bus@ =~= copied_at(before, start as int, bytes@.subrange(0, i as int)),
            decreases bytes@.len() - i,
        {
            bus.memory.set(start + i, bytes[i]);
            i = i + 1;
        }
        assert(bytes@.subrange(0, bytes@.len() as int) =~= bytes@);
        bus
    }
}

} // verus!
