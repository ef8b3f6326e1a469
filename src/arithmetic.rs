//! Eight- and sixteen-bit addition and subtraction with their flag effects.

use crate::flags_register::FlagsRegister;
use vstd::prelude::*;

verus! {

/// `left + right` wrapped to a byte.
pub open spec fn add_result(left: u8, right: u8) -> u8 {
    ((left + right) % 256) as u8
}

/// `left + right` wrapped to a byte, plus one when the addition carried.
pub open spec fn add_c_result(left: u8, right: u8) -> u8 {
    ((left + right) % 256 + (if left + right > 0xFF { 1int } else { 0 })) as u8
}

/// `left + right` wrapped to a word.
pub open spec fn add_hl_result(left: u16, right: u16) -> u16 {
    ((left + right) % 0x10000) as u16
}

/// `left - right` wrapped to a byte.
pub open spec fn sub_result(left: u8, right: u8) -> u8 {
    ((left - right) % 256) as u8
}

/// `left - right` wrapped to a byte, minus one when the subtraction borrowed.
pub open spec fn sub_c_result(left: u8, right: u8) -> u8 {
    ((left - right) % 256 - (if left < right { 1int } else { 0 })) as u8
}

/// Flags left by adding `left` and `right` as bytes.
pub open spec fn add_flags(left: u8, right: u8) -> FlagsRegister {
    FlagsRegister {
        zero: (left + right) % 256 == 0 && left + right <= 0xFF,
        subtract: false,
        half_carry: (left & 0xF) + (right & 0xF) > 0xF,
        carry: left + right > 0xFF,
    }
}

/// Flags left by adding `left` and `right` as words.
pub open spec fn add_hl_flags(left: u16, right: u16) -> FlagsRegister {
    FlagsRegister {
        zero: (left + right) % 0x10000 == 0 && left + right <= 0xFFFF,
        subtract: false,
        half_carry: (left & 0xFFF) + (right & 0xFFF) > 0xFFF,
        carry: left + right > 0xFFFF,
    }
}

/// Flags left by subtracting `right` from `left` as bytes.
pub open spec fn sub_flags(left: u8, right: u8) -> FlagsRegister {
    FlagsRegister {
        zero: (left - right) % 256 == 0 && left >= right,
        subtract: true,
        half_carry: (left & 0xF) < (right & 0xF),
        carry: left < right,
    }
}

/// Adds two bytes, wrapping modulo 256.
pub fn add(left: u8, right: u8, flags: &mut FlagsRegister) -> (r: u8)
    ensures
        r == add_result(left, right),
        *final(flags) == add_flags(left, right),
{
    let sum: u16 = left as u16 + right as u16;
    let did_overflow = sum > 0xFF;
    let result = left.wrapping_add(right);
    flags.zero = result == 0 && !did_overflow;
    flags.subtract = false;
    flags.carry = did_overflow;
    // A carry out of bit 3: the low nibbles add up past 0xF.
    flags.half_carry = (left & 0xF) as u16 + (right & 0xF) as u16 > 0xF;
    result
}

/// Adds two bytes, then one more when that addition carried out of bit 7.
/// The flags are those of the first addition.
pub fn add_c(left: u8, right: u8, flags: &mut FlagsRegister) -> (r: u8)
    ensures
        r == add_c_result(left, right),
        *final(flags) == add_flags(left, right),
{
    let mut new_value = crate::arithmetic::add(left, right, flags);
    if flags.carry {
        new_value += 0x01;
    }
    new_value
}

/// Adds two words, wrapping modulo 0x10000.
pub fn add_hl(left: u16, right: u16, flags: &mut FlagsRegister) -> (r: u16)
    ensures
        r == add_hl_result(left, right),
        *final(flags) == add_hl_flags(left, right),
{
    let sum: u32 = left as u32 + right as u32;
    let did_overflow = sum > 0xFFFF;
    let result = left.wrapping_add(right);
    flags.zero = result == 0 && !did_overflow;
    flags.subtract = false;
    flags.carry = did_overflow;
    // A carry out of bit 11: the low twelve bits add up past 0xFFF.
    flags.half_carry = (left & 0xFFF) as u32 + (right & 0xFFF) as u32 > 0xFFF;
    result
}

/// Subtracts `right` from `left`, wrapping modulo 256.
pub fn sub(left: u8, right: u8, flags: &mut FlagsRegister) -> (r: u8)
    ensures
        r == sub_result(left, right),
        *final(flags) == sub_flags(left, right),
{
    let did_borrow = left < right;
    let result = left.wrapping_sub(right);
    flags.zero = result == 0 && !did_borrow;
    flags.subtract = true;
    flags.carry = did_borrow;
    flags.half_carry = (left & 0x0F) < (right & 0x0F);
    result
}

/// Subtracts `right` from `left`, then one more when that subtraction
/// borrowed. The flags are those of the first subtraction.
pub fn sub_c(left: u8, right: u8, flags: &mut FlagsRegister) -> (r: u8)
    ensures
        r == sub_c_result(left, right),
        *final(flags) == sub_flags(left, right),
{
    let mut new_value = crate::arithmetic::sub(left, right, flags);
    if flags.carry {
        new_value -= 0x01;
    }
    new_value
}

} // verus!
