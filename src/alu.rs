use vstd::prelude::*;

verus! {

/// Whether `v`, read as a two's-complement byte, is negative.
pub open spec fn negative(v: u8) -> bool {
    v >= 128
}

/// `a + m + carry`: the result byte, the carry out (the 9-bit sum exceeds 255) and the
/// signed overflow (both operands share a sign that differs from the result's).
pub open spec fn spec_add_with_carry(a: u8, m: u8, carry: bool) -> (u8, bool, bool) {
    let sum = a + m + if carry { 1int } else { 0 };
    let result = (sum % 256) as u8;
    (result, sum > 255, negative(a) == negative(m) && negative(a) != negative(result))
}

/// `a - m - (1 - carry)`: the result byte, the carry out (set when no borrow occurred)
/// and the signed overflow (the operands differ in sign and the result's sign differs
/// from `a`'s).
pub open spec fn spec_subtract_with_borrow(a: u8, m: u8, carry: bool) -> (u8, bool, bool) {
    let diff = a - m - if carry { 0int } else { 1 };
    let result = ((diff + 512) % 256) as u8;
    (result, diff >= 0, negative(a) != negative(m) && negative(a) != negative(result))
}

/// The flags a comparison of `register` with `m` leaves: `Carry` (register >= m),
/// `Zero` (register == m) and `Negative` (bit 7 of register - m).
pub open spec fn spec_compare(register: u8, m: u8) -> (bool, bool, bool) {
    (register >= m, register == m, negative(((register - m + 256) % 256) as u8))
}

/// Binary addition with carry, as `ADC` does it.
pub fn add_with_carry(a: u8, m: u8, carry: bool) -> (r: (u8, bool, bool))
    ensures
        r == spec_add_with_carry(a, m, carry),
{
    let sum: u16 = a as u16 + m as u16 + if carry { 1 } else { 0 };
    let result = (sum % 256) as u8;
    (result, sum > 255, (a >= 128) == (m >= 128) && (a >= 128) != (result >= 128))
}

/// Binary subtraction with borrow, as `SBC` does it.
pub fn subtract_with_borrow(a: u8, m: u8, carry: bool) -> (r: (u8, bool, bool))
    ensures
        r == spec_subtract_with_borrow(a, m, carry),
{
    let borrow: u16 = if carry { 0 } else { 1 };
    let no_borrow = a as u16 >= m as u16 + borrow;
    let result = ((a as u16 + 512 - m as u16 - borrow) % 256) as u8;
    (result, no_borrow, (a >= 128) != (m >= 128) && (a >= 128) != (result >= 128))
}

/// The flags `CMP`, `CPX` and `CPY` set: carry, zero, negative.
pub fn compare(register: u8, m: u8) -> (r: (bool, bool, bool))
    ensures
        r == spec_compare(register, m),
{
    let difference = register.wrapping_sub(m);
    (register >= m, register == m, difference >= 128)
}

} // verus!
