//! Bitwise AND, OR, XOR and complement with their flag effects.

use crate::flags_register::FlagsRegister;
use vstd::prelude::*;

verus! {

/// Flags left by a bitwise operation whose result is `result`; AND sets
/// the half-carry, OR and XOR clear it.
pub open spec fn logic_flags(result: u8, half_carry: bool) -> FlagsRegister {
    FlagsRegister { zero: result == 0, subtract: false, half_carry, carry: false }
}

pub fn and(left: u8, right: u8, flags: &mut FlagsRegister) -> (r: u8)
    ensures
        r == left & right,
        *final(flags) == logic_flags(r, true),
{
    let result = left & right;
    flags.zero = result == 0x00;
    flags.carry = false;
    flags.half_carry = true;
    flags.subtract = false;
    result
}

pub fn or(left: u8, right: u8, flags: &mut FlagsRegister) -> (r: u8)
    ensures
        r == left | right,
        *final(flags) == logic_flags(r, false),
{
    let result = left | right;
    flags.zero = result == 0;
    flags.carry = false;
    flags.half_carry = false;
    flags.subtract = false;
    result
}

pub fn xor(left: u8, right: u8, flags: &mut FlagsRegister) -> (r: u8)
    ensures
        r == left ^ right,
        *final(flags) == logic_flags(r, false),
{
    let result = left ^ right;
    flags.zero = result == 0;
    flags.carry = false;
    flags.half_carry = false;
    flags.subtract = false;
    result
}

/// Flags left by the complement of a byte into `result`.
pub open spec fn complement_flags(result: u8, carry: bool) -> FlagsRegister {
    FlagsRegister { zero: result == 0, subtract: true, half_carry: true, carry }
}

/// Flips every bit; the carry is left as it was.
pub fn complement(value: u8, flags: &mut FlagsRegister) -> (r: u8)
    ensures
        r == !value,
        *final(flags) == complement_flags(r, old(flags).carry),
{
    let new_value = !value;
    flags.zero = new_value == 0;
    flags.half_carry = true;
    flags.subtract = true;
    new_value
}

} // verus!
