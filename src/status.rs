use vstd::prelude::*;

verus! {

/// The bits of the processor status register `P`.
#[derive(PartialEq, Eq, Debug, Clone, Copy)]
pub enum StatusFlag {
    Carry,
    Zero,
    InterruptDisable,
    DecimalMode,
    Break,
    Unused,
    Overflow,
    Negative,
}

impl StatusFlag {
    /// Every flag, from bit 0 to bit 7.
    pub fn variants() -> (r: Vec<StatusFlag>)
        ensures
            r@.len() == 8,
            forall|i: int| 0 <= i < 8 ==> r@[i].spec_bit() == i,
    {
        vec![
            StatusFlag::Carry,
            StatusFlag::Zero,
            StatusFlag::InterruptDisable,
            StatusFlag::DecimalMode,
            StatusFlag::Break,
            StatusFlag::Unused,
            StatusFlag::Overflow,
            StatusFlag::Negative,
        ]
    }

    /// The bit position of the flag within `P`.
    pub open spec fn spec_bit(self) -> u8 {
        match self {
            StatusFlag::Carry => 0,
            StatusFlag::Zero => 1,
            StatusFlag::InterruptDisable => 2,
            StatusFlag::DecimalMode => 3,
            StatusFlag::Break => 4,
            StatusFlag::Unused => 5,
            StatusFlag::Overflow => 6,
            StatusFlag::Negative => 7,
        }
    }

    pub open spec fn spec_mask(self) -> u8 {
        (1u8 << self.spec_bit()) as u8
    }

    pub fn bit(self) -> (r: u8)
        ensures
            r == self.spec_bit(),
    {
        match self {
            StatusFlag::Carry => 0,
            StatusFlag::Zero => 1,
            StatusFlag::InterruptDisable => 2,
            StatusFlag::DecimalMode => 3,
            StatusFlag::Break => 4,
            StatusFlag::Unused => 5,
            StatusFlag::Overflow => 6,
            StatusFlag::Negative => 7,
        }
    }
}

/// The processor status register `P`.
#[derive(PartialEq, Eq, Debug, Clone, Copy)]
pub struct Status(pub u8);

impl Status {
    pub open spec fn spec_get(self, flag: StatusFlag) -> bool {
        self.0 & flag.spec_mask() != 0
    }

    pub fn get(&self, flag: StatusFlag) -> (r: bool)
        ensures
            r == self.spec_get(flag),
    {
        let bit = flag.bit();
        (self.0 & (1u8 << bit)) != 0
    }

    /// `P` with `flag` set to `value` and every other bit unchanged.
    pub open spec fn spec_set(self, flag: StatusFlag, value: bool) -> Status {
        if value {
            Status(self.0 | flag.spec_mask())
        } else {
            Status(self.0 & !flag.spec_mask())
        }
    }

    pub fn set(&mut self, flag: StatusFlag, value: bool)
        ensures
            *final(self) == old(self).spec_set(flag, value),
            final(self).spec_get(flag) == value,
            forall|other: StatusFlag| other != flag ==> final(self).spec_get(other) == old(self).spec_get(other),
    {
        let bit = flag.bit();
        if value {
            self.0 = self.0 | (1u8 << bit);
        } else {
            self.0 = self.0 & !(1u8 << bit);
        }
        proof {
            lemma_set_keeps_other_flags(old(self).0, flag, value);
        }
    }

    /// Sets `flag` to `value` and hands the register back for chaining.
    pub fn with(&mut self, flag: StatusFlag, value: bool) -> (r: &mut Self)
        ensures
            *r == old(self).spec_set(flag, value),
            *final(self) == *final(r),
    {
        self.set(flag, value);
        self
    }

    /// The byte that lands on the stack when `P` is pushed. `Break` has no storage in `P`:
    /// it is `1` in the pushed copy for `PHP` and `BRK` and `0` for a hardware interrupt.
    /// The always-one bit is `1`.
    pub open spec fn spec_pushed(self, software: bool) -> u8 {
        self.spec_set(StatusFlag::Break, software).spec_set(StatusFlag::Unused, true).0
    }

    pub fn pushed(&self, software: bool) -> (r: u8)
        ensures
            r == self.spec_pushed(software),
            Status(r).spec_get(StatusFlag::Break) == software,
            Status(r).spec_get(StatusFlag::Unused),
    {
        let mut copy = Status(self.0);
        copy.set(StatusFlag::Break, software);
        copy.set(StatusFlag::Unused, true);
        copy.0
    }

    /// `P` as loaded from a byte pulled off the stack: `Break` is dropped and the
    /// always-one bit is set.
    pub open spec fn spec_from_pulled(byte: u8) -> Status {
        Status(byte).spec_set(StatusFlag::Break, false).spec_set(StatusFlag::Unused, true)
    }

    pub fn from_pulled(byte: u8) -> (r: Status)
        ensures
            r == Status::spec_from_pulled(byte),
            !r.spec_get(StatusFlag::Break),
            r.spec_get(StatusFlag::Unused),
    {
        let mut status = Status(byte);
        status.set(StatusFlag::Break, false);
        status.set(StatusFlag::Unused, true);
        status
    }
}

pub proof fn lemma_set_keeps_other_flags(x: u8, flag: StatusFlag, value: bool)
    ensures
        Status(x).spec_set(flag, value).spec_get(flag) == value,
        forall|other: StatusFlag|
            other != flag ==> Status(x).spec_set(flag, value).spec_get(other) == Status(x).spec_get(other),
{
    let b = flag.spec_bit();
    assert(b < 8);
    assert forall|other: StatusFlag| other != flag implies
        Status(x).spec_set(flag, value).spec_get(other) == Status(x).spec_get(other) by {
        let c = other.spec_bit();
        assert(b != c);
        assert(c < 8);
        assert((x | (1u8 << b)) & (1u8 << c) != 0 <==> x & (1u8 << c) != 0) by (bit_vector)
            requires b < 8, c < 8, b != c;
        assert((x & !(1u8 << b)) & (1u8 << c) != 0 <==> x & (1u8 << c) != 0) by (bit_vector)
            requires b < 8, c < 8, b != c;
    }
    assert((x | (1u8 << b)) & (1u8 << b) != 0) by (bit_vector)
        requires b < 8;
    assert((x & !(1u8 << b)) & (1u8 << b) == 0) by (bit_vector)
        requires b < 8;
}

} // verus!
