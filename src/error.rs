use vstd::prelude::*;

use crate::addressable::AddressableTarget;
use crate::addressing::Addressing;

verus! {

/// Why a processor step failed.
#[derive(PartialEq, Eq, Clone, Copy, Debug, Structural)]
pub enum Error {
    /// The byte at the program counter is no instruction that the decoder knows.
    InvalidInstruction(u8),
    /// The addressing names no target (`Implied`).
    InvalidTargetAddressAttempt(Addressing),
    /// The target is a register or a literal, which has no address.
    InvalidAddressAttempt(AddressableTarget),
    /// The target is a literal, which cannot be written.
    InvalidAddressableWrite(AddressableTarget, u8),
    /// The target is a literal, which cannot be modified.
    InvalidAddressableModify(AddressableTarget),
}

} // verus!
