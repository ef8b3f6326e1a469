//! Single-bit test, set and reset, guarded by a validated bit index.

use crate::emulator_error::EmulatorError;
use crate::flags_register::FlagsRegister;
use vstd::prelude::*;

verus! {

/// A bit position within a byte, `0..=7`.
#[derive(Debug, PartialEq, Eq, Structural)]
pub struct BitIndex(pub u8);

impl BitIndex {
    pub fn build(value: u8) -> (r: Result<BitIndex, EmulatorError>)
        ensures
            value <= 7 ==> r == Ok::<BitIndex, EmulatorError>(BitIndex(value)),
            value > 7 ==> r == Err::<BitIndex, EmulatorError>(
                EmulatorError::OutOfBoundsIndex(value),
            ),
    {
        if value <= 7 {
            Ok(BitIndex(value))
        } else {
            Err(EmulatorError::OutOfBoundsIndex(value))
        }
    }
}

/// Bit `idx` of `value`.
pub open spec fn bit_of(value: u8, idx: u8) -> u8 {
    (value >> idx) & 0x01
}

/// Flags left by testing bit `idx` of `value`: the zero flag tells whether
/// the bit is clear; an index past 7 leaves `flags` as they were.
pub open spec fn bit_check_flags(value: u8, idx: u8, flags: FlagsRegister) -> FlagsRegister {
    if idx <= 7 {
        FlagsRegister {
            zero: bit_of(value, idx) == 0,
            subtract: false,
            half_carry: true,
            carry: flags.carry,
        }
    } else {
        flags
    }
}

/// `value` with bit `idx` set, or `value` itself for an index past 7.
pub open spec fn bit_set_result(value: u8, idx: u8) -> u8 {
    if idx <= 7 { (0x01u8 << idx) | value } else { value }
}

/// `value` with bit `idx` cleared, or `value` itself for an index past 7.
pub open spec fn bit_reset_result(value: u8, idx: u8) -> u8 {
    if idx <= 7 { !(0x01u8 << idx) & value } else { value }
}

/// Sets the zero flag to the complement of bit `idx` of `value`, sets the
/// half-carry and clears the subtract flag. An index past 7 changes nothing.
pub fn bit_check(value: u8, idx: u8, flags: &mut FlagsRegister)
    ensures
        *final(flags) == bit_check_flags(value, idx, *old(flags)),
{
    if let Ok(bit_idx) = BitIndex::build(idx) {
        let bit = (value >> bit_idx.0) & 0x01;
        flags.zero = bit == 0x00;
        flags.half_carry = true;
        flags.subtract = false;
    }
}

/// `value` with bit `idx` set; unchanged for an index past 7.
pub fn bit_set(value: u8, idx: u8) -> (r: u8)
    ensures
        r == bit_set_result(value, idx),
{
    if let Ok(bit_idx) = BitIndex::build(idx) {
        (0x01u8 << bit_idx.0) | value
    } else {
        value
    }
}

/// `value` with bit `idx` cleared; unchanged for an index past 7.
pub fn bit_reset(value: u8, idx: u8) -> (r: u8)
    ensures
        r == bit_reset_result(value, idx),
{
    if let Ok(bit_idx) = BitIndex::build(idx) {
        !(0x01u8 << bit_idx.0) & value
    } else {
        value
    }
}

} // verus!
