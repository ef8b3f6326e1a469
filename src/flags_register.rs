//! The four status flags and their packed one-byte form.

use vstd::prelude::*;

verus! {

/// Bit positions of the flags inside the packed byte.
pub const ZERO_FLAG_BYTE_POSITION: u8 = 7;
pub const SUBTRACT_FLAG_BYTE_POSITION: u8 = 6;
pub const HALF_CARRY_FLAG_BYTE_POSITION: u8 = 5;
pub const CARRY_FLAG_BYTE_POSITION: u8 = 4;

#[derive(Clone, Copy, Debug, PartialEq, Eq, Structural)]
pub struct FlagsRegister {
    pub zero: bool,
    pub subtract: bool,
    pub half_carry: bool,
    pub carry: bool,
}

/// `mask` when `set`, zero otherwise.
pub open spec fn flag_bits(set: bool, mask: u8) -> u8 {
    if set { mask } else { 0 }
}

impl FlagsRegister {
    /// The packed byte: zero, subtract, half-carry, carry from bit 7 down to
    /// bit 4; the low nibble is always clear.
    pub open spec fn packed(self) -> u8 {
        flag_bits(self.zero, 0x80) | flag_bits(self.subtract, 0x40) | flag_bits(
            self.half_carry,
            0x20,
        ) | flag_bits(self.carry, 0x10)
    }

    /// The flags held in the high nibble of `byte`.
    pub open spec fn unpacked(byte: u8) -> FlagsRegister {
        FlagsRegister {
            zero: byte & 0x80 != 0,
            subtract: byte & 0x40 != 0,
            half_carry: byte & 0x20 != 0,
            carry: byte & 0x10 != 0,
        }
    }

    pub fn from_byte(byte: u8) -> (r: FlagsRegister)
        ensures
            r == FlagsRegister::unpacked(byte),
    {
        let zero = (byte >> ZERO_FLAG_BYTE_POSITION) & 1 != 0;
        let subtract = (byte >> SUBTRACT_FLAG_BYTE_POSITION) & 1 != 0;
        let half_carry = (byte >> HALF_CARRY_FLAG_BYTE_POSITION) & 1 != 0;
        let carry = (byte >> CARRY_FLAG_BYTE_POSITION) & 1 != 0;
        assert(((byte >> 7u8) & 1 != 0) == (byte & 0x80 != 0)
            && ((byte >> 6u8) & 1 != 0) == (byte & 0x40 != 0)
            && ((byte >> 5u8) & 1 != 0) == (byte & 0x20 != 0)
            && ((byte >> 4u8) & 1 != 0) == (byte & 0x10 != 0)) by (bit_vector);
        FlagsRegister { zero, subtract, half_carry, carry }
    }

    pub fn to_byte(&self) -> (r: u8)
        ensures
            r == self.packed(),
    {
        let zero: u8 = if self.zero { 1u8 << ZERO_FLAG_BYTE_POSITION } else { 0 };
        let subtract: u8 = if self.subtract { 1u8 << SUBTRACT_FLAG_BYTE_POSITION } else { 0 };
        let half_carry: u8 = if self.half_carry { 1u8 << HALF_CARRY_FLAG_BYTE_POSITION } else { 0 };
        let carry: u8 = if self.carry { 1u8 << CARRY_FLAG_BYTE_POSITION } else { 0 };
        assert(1u8 << 7u8 == 0x80 && 1u8 << 6u8 == 0x40 && 1u8 << 5u8 == 0x20 && 1u8 << 4u8 == 0x10)
            by (bit_vector);
        zero | subtract | half_carry | carry
    }
}

impl From<u8> for FlagsRegister {
    fn from(byte: u8) -> (r: FlagsRegister) {
        FlagsRegister::from_byte(byte)
    }
}

impl vstd::std_specs::convert::FromSpecImpl<u8> for FlagsRegister {
    open spec fn obeys_from_spec() -> bool {
        true
    }

    open spec fn from_spec(byte: u8) -> FlagsRegister {
        FlagsRegister::unpacked(byte)
    }
}

impl From<FlagsRegister> for u8 {
    fn from(flags: FlagsRegister) -> (r: u8) {
        flags.to_byte()
    }
}

impl vstd::std_specs::convert::FromSpecImpl<FlagsRegister> for u8 {
    open spec fn obeys_from_spec() -> bool {
        true
    }

    open spec fn from_spec(flags: FlagsRegister) -> u8 {
        flags.packed()
    }
}

/// Packing the flags read from a byte gives back that byte's high nibble.
pub proof fn lemma_byte_round_trip(byte: u8)
    ensures
        FlagsRegister::unpacked(byte).packed() == byte & 0xF0,
{
    assert((if byte & 0x80 != 0 { 0x80u8 } else { 0u8 }) | (if byte & 0x40 != 0 {
        0x40u8
    } else {
        0u8
    }) | (if byte & 0x20 != 0 { 0x20u8 } else { 0u8 }) | (if byte & 0x10 != 0 {
        0x10u8
    } else {
        0u8
    }) == byte & 0xF0) by (bit_vector);
}

/// Unpacking a packed value gives back the same flags.
pub proof fn lemma_flags_round_trip(flags: FlagsRegister)
    ensures
        FlagsRegister::unpacked(flags.packed()) == flags,
{
    let (z, s, h, c) = (flags.zero, flags.subtract, flags.half_carry, flags.carry);
    let p = flags.packed();
    assert(p == (if z { 0x80u8 } else { 0u8 }) | (if s { 0x40u8 } else { 0u8 }) | (if h {
        0x20u8
    } else {
        0u8
    }) | (if c { 0x10u8 } else { 0u8 }));
    assert(p == (if z { 0x80u8 } else { 0u8 }) | (if s { 0x40u8 } else { 0u8 }) | (if h {
        0x20u8
    } else {
        0u8
    }) | (if c { 0x10u8 } else { 0u8 }) ==> (p & 0x80 != 0) == z && (p & 0x40 != 0) == s && (p
        & 0x20 != 0) == h && (p & 0x10 != 0) == c) by (bit_vector);
}

} // verus!
