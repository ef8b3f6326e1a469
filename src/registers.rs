//! The register file: seven byte registers, the flags, the stack pointer,
//! and the 16-bit pairs formed from two byte registers.

use crate::flags_register::FlagsRegister;
use vstd::prelude::*;

verus! {

/// The word whose high byte is `high` and low byte is `low`.
pub open spec fn pair_value(high: u8, low: u8) -> u16 {
    (high * 256 + low) as u16
}

/// The high byte of `value`.
pub open spec fn high_byte(value: u16) -> u8 {
    (value / 256) as u8
}

/// The low byte of `value`.
pub open spec fn low_byte(value: u16) -> u8 {
    (value % 256) as u8
}

pub(crate) proof fn lemma_pair_bits(high: u8, low: u8)
    ensures
        ((high as u16) << 8u16) | (low as u16) == pair_value(high, low),
{
    assert(((high as u16) << 8u16) | (low as u16) == (high * 256 + low) as u16) by (bit_vector);
}

proof fn lemma_split_bits(value: u16)
    ensures
        ((value & 0xFF00) >> 8u16) as u8 == high_byte(value),
        (value & 0xFF) as u8 == low_byte(value),
{
    assert(((value & 0xFF00) >> 8u16) as u8 == (value / 256) as u8 && (value & 0xFF) as u8 == (
    value % 256) as u8) by (bit_vector);
}

pub struct Registers {
    pub a: u8,
    pub b: u8,
    pub c: u8,
    pub d: u8,
    pub e: u8,
    pub f: FlagsRegister,
    pub h: u8,
    pub l: u8,
    pub sp: u16,
}

impl Registers {
    pub open spec fn bc(&self) -> u16 {
        pair_value(self.b, self.c)
    }

    pub open spec fn de(&self) -> u16 {
        pair_value(self.d, self.e)
    }

    pub open spec fn hl(&self) -> u16 {
        pair_value(self.h, self.l)
    }

    pub open spec fn af(&self) -> u16 {
        pair_value(self.a, self.f.packed())
    }

    /// All registers zero, all flags clear.
    pub open spec fn new_spec() -> Registers {
        Registers {
            a: 0,
            b: 0,
            c: 0,
            d: 0,
            e: 0,
            f: FlagsRegister { zero: false, subtract: false, half_carry: false, carry: false },
            h: 0,
            l: 0,
            sp: 0,
        }
    }

    pub fn new() -> (r: Registers)
        ensures
            r == Registers::new_spec(),
    {
        assert(0u8 & 0x80 == 0 && 0u8 & 0x40 == 0 && 0u8 & 0x20 == 0 && 0u8 & 0x10 == 0)
            by (bit_vector);
        Registers {
            a: 0x00,
            b: 0x00,
            c: 0x00,
            d: 0x00,
            e: 0x00,
            f: FlagsRegister::from_byte(0x00),
            h: 0x00,
            l: 0x00,
            sp: 0x0000,
        }
    }

    pub fn get_bc(&self) -> (r: u16)
        ensures
            r == self.bc(),
    {
        proof {
            lemma_pair_bits(self.b, self.c);
        }
        (self.b as u16) << 8u16 | self.c as u16
    }

    pub fn set_bc(&mut self, value: u16)
        ensures
            *final(self) == (Registers { b: high_byte(value), c: low_byte(value), ..*old(self) }),
    {
        proof {
            lemma_split_bits(value);
        }
        self.b = ((value & 0xFF00) >> 8u16) as u8;
        self.c = (value & 0xFF) as u8;
    }

    pub fn get_af(&self) -> (r: u16)
        ensures
            r == self.af(),
    {
        let flags = self.f.to_byte();
        proof {
            lemma_pair_bits(self.a, flags);
        }
        (self.a as u16) << 8u16 | flags as u16
    }

    /// The accumulator takes the high byte; the flags take the high nibble
    /// of the low byte.
    pub fn set_af(&mut self, value: u16)
        ensures
            *final(self) == (Registers {
                a: high_byte(value),
                f: FlagsRegister::unpacked(low_byte(value)),
                ..*old(self)
            }),
    {
        proof {
            lemma_split_bits(value);
        }
        self.a = ((value & 0xFF00) >> 8u16) as u8;
        self.f = FlagsRegister::from_byte((value & 0xFF) as u8);
    }

    pub fn get_de(&self) -> (r: u16)
        ensures
            r == self.de(),
    {
        proof {
            lemma_pair_bits(self.d, self.e);
        }
        (self.d as u16) << 8u16 | self.e as u16
    }

    pub fn set_de(&mut self, value: u16)
        ensures
            *final(self) == (Registers { d: high_byte(value), e: low_byte(value), ..*old(self) }),
    {
        proof {
            lemma_split_bits(value);
        }
        self.d = ((value & 0xFF00) >> 8u16) as u8;
        self.e = (value & 0xFF) as u8;
    }

    pub fn get_hl(&self) -> (r: u16)
        ensures
            r == self.hl(),
    {
        proof {
            lemma_pair_bits(self.h, self.l);
        }
        (self.h as u16) << 8u16 | self.l as u16
    }

    pub fn set_hl(&mut self, value: u16)
        ensures
            *final(self) == (Registers { h: high_byte(value), l: low_byte(value), ..*old(self) }),
    {
        proof {
            lemma_split_bits(value);
        }
        self.h = ((value & 0xFF00) >> 8u16) as u8;
        self.l = (value & 0xFF) as u8;
    }

    pub fn get_sp(&self) -> (r: u16)
        ensures
            r == self.sp,
    {
        self.sp
    }

    pub fn set_sp(&mut self, value: u16)
        ensures
            *final(self) == (Registers { sp: value, ..*old(self) }),
    {
        self.sp = value;
    }
}

/// Splitting a word into its bytes and joining them again gives the word
/// back: `set_bc` then `get_bc` (and likewise for DE and HL) returns the
/// value written.
pub proof fn lemma_pair_round_trip(value: u16)
    ensures
        pair_value(high_byte(value), low_byte(value)) == value,
{
    assert(((value / 256) as u8 * 256 + (value % 256) as u8) as u16 == value) by (bit_vector);
}

/// Writing AF and reading it back gives the value with the low nibble of
/// the flags byte cleared, since those four bits are not stored.
pub proof fn lemma_af_round_trip(value: u16)
    ensures
        pair_value(high_byte(value), FlagsRegister::unpacked(low_byte(value)).packed()) == value
            & 0xFFF0,
{
    crate::flags_register::lemma_byte_round_trip(low_byte(value));
    let low = low_byte(value);
    assert(((value / 256) as u8 * 256 + ((value % 256) as u8 & 0xF0)) as u16 == value & 0xFFF0)
        by (bit_vector);
}

} // verus!
