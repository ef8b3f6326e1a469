//! Word-width operands: the register pairs and the stack pointer.

use crate::cpu::{Machine, CPU};
use crate::registers::{high_byte, low_byte, Registers};
use vstd::prelude::*;

verus! {

#[derive(Clone, Copy, Debug, PartialEq, Eq, Structural)]
pub enum ArithmeticTargetPair {
    BC,
    DE,
    HL,
    SP,
}

/// The word that `target` denotes in `registers`.
pub open spec fn pair_target_value(registers: Registers, target: ArithmeticTargetPair) -> u16 {
    match target {
        ArithmeticTargetPair::BC => registers.bc(),
        ArithmeticTargetPair::DE => registers.de(),
        ArithmeticTargetPair::HL => registers.hl(),
        ArithmeticTargetPair::SP => registers.sp,
    }
}

/// `registers` with `value` stored into `target`.
pub open spec fn with_pair_target_value(
    registers: Registers,
    target: ArithmeticTargetPair,
    value: u16,
) -> Registers {
    match target {
        ArithmeticTargetPair::BC => {
            Registers { b: high_byte(value), c: low_byte(value), ..registers }
        },
        ArithmeticTargetPair::DE => {
            Registers { d: high_byte(value), e: low_byte(value), ..registers }
        },
        ArithmeticTargetPair::HL => {
            Registers { h: high_byte(value), l: low_byte(value), ..registers }
        },
        ArithmeticTargetPair::SP => Registers { sp: value, ..registers },
    }
}

pub fn get_value_in_arithmetic_target_pair(cpu: &CPU, target: &ArithmeticTargetPair) -> (r: u16)
    ensures
        r == pair_target_value(cpu.registers, *target),
{
    match target {
        ArithmeticTargetPair::BC => cpu.registers.get_bc(),
        ArithmeticTargetPair::DE => cpu.registers.get_de(),
        ArithmeticTargetPair::HL => cpu.registers.get_hl(),
        ArithmeticTargetPair::SP => cpu.registers.get_sp(),
    }
}

pub fn set_value_in_arithmetic_target_pair(
    cpu: &mut CPU,
    target: &ArithmeticTargetPair,
    new_value: u16,
)
    ensures
        final(cpu)@ == (Machine {
            registers: with_pair_target_value(old(cpu).registers, *target, new_value),
            ..old(cpu)@
        }),
{
    match target {
        ArithmeticTargetPair::BC => cpu.registers.set_bc(new_value),
        ArithmeticTargetPair::DE => cpu.registers.set_de(new_value),
        ArithmeticTargetPair::HL => cpu.registers.set_hl(new_value),
        ArithmeticTargetPair::SP => cpu.registers.set_sp(new_value),
    }
}

} // verus!
