use vstd::prelude::*;

verus! {

/// The operation of an instruction, apart from where its operand comes from.
#[derive(PartialEq, Eq, Clone, Copy, Debug, Structural)]
pub enum Opcode {
    /// Load a byte into `A`.
    LDA,
    /// Load a byte into `X`.
    LDX,
    /// Load a byte into `Y`.
    LDY,
    /// Load a byte into `A` and `X` (unofficial).
    LAX,
    /// Store `A`.
    STA,
    /// Store `X`.
    STX,
    /// Store `Y`.
    STY,
    /// Store `A & X` (unofficial).
    SAX,
    /// Copy `A` into `X`.
    TAX,
    /// Copy `A` into `Y`.
    TAY,
    /// Copy `X` into `A`.
    TXA,
    /// Copy `Y` into `A`.
    TYA,
    /// Copy `S` into `X`.
    TSX,
    /// Copy `X` into `S`.
    TXS,
    /// Push `A`.
    PHA,
    /// Push `P` with `Break` set.
    PHP,
    /// Pull `A`.
    PLA,
    /// Pull `P`.
    PLP,
    /// `A &= M`.
    AND,
    /// `A ^= M`.
    EOR,
    /// `A |= M`.
    ORA,
    /// Test bits of `M` against `A`.
    BIT,
    /// Add with carry.
    ADC,
    /// Subtract with borrow.
    SBC,
    /// Compare with `A`.
    CMP,
    /// Compare with `X`.
    CPX,
    /// Compare with `Y`.
    CPY,
    /// Increment memory.
    INC,
    /// Increment `X`.
    INX,
    /// Increment `Y`.
    INY,
    /// Increment memory, then subtract it from `A` (unofficial).
    ISC,
    /// Decrement memory.
    DEC,
    /// Decrement `X`.
    DEX,
    /// Decrement `Y`.
    DEY,
    /// Decrement memory, then compare it with `A` (unofficial).
    DCP,
    /// Shift left.
    ASL,
    /// Shift right.
    LSR,
    /// Rotate left through carry.
    ROL,
    /// Rotate right through carry.
    ROR,
    /// Shift memory left, then `A |= M` (unofficial).
    SLO,
    /// Shift memory right, then `A ^= M` (unofficial).
    SRE,
    /// Rotate memory left, then `A &= M` (unofficial).
    RLA,
    /// Rotate memory right, then add it to `A` (unofficial).
    RRA,
    /// Jump.
    JMP,
    /// Jump to subroutine.
    JSR,
    /// Return from subroutine.
    RTS,
    /// Branch if carry set.
    BCS,
    /// Branch if carry clear.
    BCC,
    /// Branch if zero set.
    BEQ,
    /// Branch if zero clear.
    BNE,
    /// Branch if negative set.
    BMI,
    /// Branch if negative clear.
    BPL,
    /// Branch if overflow clear.
    BVC,
    /// Branch if overflow set.
    BVS,
    /// Clear carry.
    CLC,
    /// Clear decimal mode.
    CLD,
    /// Clear interrupt disable.
    CLI,
    /// Clear overflow.
    CLV,
    /// Set carry.
    SEC,
    /// Set decimal mode.
    SED,
    /// Set interrupt disable.
    SEI,
    /// Software interrupt.
    BRK,
    /// No operation (some forms read an operand).
    NOP,
    /// Return from interrupt.
    RTI,
}

} // verus!
