//! Rotations, shifts and the nibble swap, with their flag effects.

use crate::flags_register::FlagsRegister;
use vstd::prelude::*;

verus! {

/// `value` rotated left by one bit: bit 7 comes round to bit 0.
pub open spec fn rotated_left(value: u8) -> u8 {
    (value << 1u8) | (value >> 7u8)
}

/// `value` rotated right by one bit: bit 0 comes round to bit 7.
pub open spec fn rotated_right(value: u8) -> u8 {
    (value >> 1u8) | (value << 7u8)
}

/// The left rotation with the incoming carry OR-ed into bit 0.
pub open spec fn rotated_left_through_carry(value: u8, carry: bool) -> u8 {
    rotated_left(value) | (if carry { 0x01u8 } else { 0x00u8 })
}

/// `value` shifted right by one bit with the incoming carry as bit 7.
pub open spec fn rotated_right_through_carry(value: u8, carry: bool) -> u8 {
    (value >> 1u8) | (if carry { 0x80u8 } else { 0x00u8 })
}

/// The high and low nibbles of `value` exchanged.
pub open spec fn swapped_nibbles(value: u8) -> u8 {
    ((value & 0x0F) << 4u8) | ((value & 0xF0) >> 4u8)
}

/// Flags left by a rotation, shift or swap: subtract and half-carry clear.
pub open spec fn shift_flags(zero: bool, carry: bool) -> FlagsRegister {
    FlagsRegister { zero, subtract: false, half_carry: false, carry }
}

/// Rotates left; the old bit 7 becomes the carry, the zero flag is kept.
pub fn rotate_left(value: u8, flags: &mut FlagsRegister) -> (r: u8)
    ensures
        r == rotated_left(value),
        *final(flags) == shift_flags(old(flags).zero, value & 0x80 != 0),
{
    let msb = value >> 7u8;
    let result = (value << 1u8) | msb;
    flags.carry = value & 0x80 != 0;
    flags.half_carry = false;
    flags.subtract = false;
    result
}

/// Rotates left and then sets bit 0 when the incoming carry was set; the
/// old bit 7 becomes the carry, the zero flag is kept.
pub fn rotate_left_through_carry(value: u8, flags: &mut FlagsRegister) -> (r: u8)
    ensures
        r == rotated_left_through_carry(value, old(flags).carry),
        *final(flags) == shift_flags(old(flags).zero, value & 0x80 != 0),
{
    let prev_carry = flags.carry;
    let rotated = rotate_left(value, flags);
    let carry_bit: u8 = if prev_carry { 0x01 } else { 0x00 };
    rotated | carry_bit
}

/// Rotates right; the old bit 0 becomes the carry, the zero flag is cleared.
pub fn rotate_right(value: u8, flags: &mut FlagsRegister) -> (r: u8)
    ensures
        r == rotated_right(value),
        *final(flags) == shift_flags(false, value & 0x01 != 0),
{
    let lsb = value & 0x01;
    let result = (value >> 1u8) | (value << 7u8);
    flags.carry = lsb != 0;
    flags.half_carry = false;
    flags.subtract = false;
    flags.zero = false;
    result
}

/// Shifts right with the incoming carry entering at bit 7; the old bit 0
/// becomes the carry, the zero flag is cleared.
pub fn rotate_right_through_carry(value: u8, flags: &mut FlagsRegister) -> (r: u8)
    ensures
        r == rotated_right_through_carry(value, old(flags).carry),
        *final(flags) == shift_flags(false, value & 0x01 != 0),
{
    let lsb = value & 0x01;
    let carry_bit: u8 = if flags.carry { 0x80 } else { 0x00 };
    let result = (value >> 1u8) | carry_bit;
    flags.carry = lsb != 0;
    flags.half_carry = false;
    flags.subtract = false;
    flags.zero = false;
    result
}

/// Shifts left, bit 0 becoming zero; the old bit 7 becomes the carry.
pub fn shift_left(value: u8, flags: &mut FlagsRegister) -> (r: u8)
    ensures
        r == value << 1u8,
        *final(flags) == shift_flags(r == 0, value & 0x80 != 0),
{
    let result = value << 1u8;
    flags.zero = result == 0;
    flags.carry = value & 0x80 != 0;
    flags.half_carry = false;
    flags.subtract = false;
    result
}

/// Shifts right, bit 7 becoming zero; the old bit 0 becomes the carry.
pub fn shift_right_logical(value: u8, flags: &mut FlagsRegister) -> (r: u8)
    ensures
        r == value >> 1u8,
        *final(flags) == shift_flags(r == 0, value & 0x01 != 0),
{
    let lsb = value & 0x01;
    let result = value >> 1u8;
    flags.zero = result == 0x00;
    flags.carry = lsb != 0;
    flags.half_carry = false;
    flags.subtract = false;
    result
}

/// Shifts right keeping bit 7 (the sign); the old bit 0 becomes the carry.
pub fn shift_right_arithmetic(value: u8, flags: &mut FlagsRegister) -> (r: u8)
    ensures
        r == (value >> 1u8) | (value & 0x80),
        *final(flags) == shift_flags(r == 0, value & 0x01 != 0),
{
    let lsb = value & 0x01;
    let result = (value >> 1u8) | (value & 0x80);
    flags.zero = result == 0x00;
    flags.carry = lsb != 0;
    flags.half_carry = false;
    flags.subtract = false;
    result
}

/// Exchanges the high and low nibbles; the carry is cleared.
pub fn swap_nibbles(value: u8, flags: &mut FlagsRegister) -> (r: u8)
    ensures
        r == swapped_nibbles(value),
        *final(flags) == shift_flags(r == 0, false),
{
    let upper_nibble = value & 0xF0;
    let lower_nibble = value & 0x0F;
    let result = (lower_nibble << 4u8) | (upper_nibble >> 4u8);
    flags.zero = result == 0x00;
    flags.carry = false;
    flags.half_carry = false;
    flags.subtract = false;
    result
}

/// Rotating left through the carry and then right through the carry that
/// the first rotation left behind gives back the original value, whatever
/// the incoming carry.
pub proof fn lemma_rotate_through_carry_round_trip(value: u8, carry: bool)
    ensures
        rotated_right_through_carry(
            rotated_left_through_carry(value, carry),
            value & 0x80 != 0,
        ) == value,
{
    assert((((value << 1u8) | (value >> 7u8)) | (if carry { 0x01u8 } else { 0x00u8 })) >> 1u8 | (
    if value & 0x80 != 0 {
        0x80u8
    } else {
        0x00u8
    }) == value) by (bit_vector);
}

/// Swapping the nibbles twice gives back the original value.
pub proof fn lemma_swap_nibbles_involutive(value: u8)
    ensures
        swapped_nibbles(swapped_nibbles(value)) == value,
{
    let once = swapped_nibbles(value);
    assert(once == ((value & 0x0F) << 4u8) | ((value & 0xF0) >> 4u8));
    assert(once == ((value & 0x0F) << 4u8) | ((value & 0xF0) >> 4u8) ==> ((once & 0x0F) << 4u8)
        | ((once & 0xF0) >> 4u8) == value) by (bit_vector);
}

} // verus!
