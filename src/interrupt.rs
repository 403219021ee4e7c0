use vstd::prelude::*;

use crate::bus::{IRQ_VECTOR_ADDRESS, NMI_VECTOR_ADDRESS, RESET_VECTOR_ADDRESS};

verus! {

/// The four ways into an interrupt handler.
#[derive(PartialEq, Eq, Clone, Copy, Debug, Structural)]
pub enum Interrupt {
    NMI,
    RESET,
    IRQ,
    BRK,
}

impl Interrupt {
    /// Only `IRQ` is ignored while `InterruptDisable` is set.
    pub fn maskable(&self) -> (r: bool)
        ensures
            r == (*self == Interrupt::IRQ),
    {
        *self == Interrupt::IRQ
    }

    pub open spec fn spec_vector_address(self) -> u16 {
        match self {
            Interrupt::NMI => 0xFFFA,
            Interrupt::RESET => 0xFFFC,
            Interrupt::IRQ => 0xFFFE,
            Interrupt::BRK => 0xFFFE,
        }
    }

    /// Where the handler's address is stored.
    pub fn vector_address(&self) -> (r: u16)
        ensures
            r == self.spec_vector_address(),
    {
        match self {
            Interrupt::NMI => NMI_VECTOR_ADDRESS,
            Interrupt::RESET => RESET_VECTOR_ADDRESS,
            Interrupt::IRQ => IRQ_VECTOR_ADDRESS,
            Interrupt::BRK => IRQ_VECTOR_ADDRESS,
        }
    }
}

} // verus!
