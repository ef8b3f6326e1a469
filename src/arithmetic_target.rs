//! Byte-width operands: a register, the byte addressed by HL, or the
//! immediate byte after the opcode.

use crate::cpu::{Machine, CPU};
use crate::memory_bus::wrap16;
use crate::registers::Registers;
use vstd::prelude::*;

verus! {

#[derive(Clone, Copy, Debug, PartialEq, Eq, Structural)]
pub enum ArithmeticTarget {
    A,
    B,
    C,
    D,
    E,
    H,
    L,
    /// The byte in memory at the address held in HL.
    HL,
    /// The byte following the opcode.
    Constant,
}

/// The byte that `target` denotes in machine state `m`.
#[verifier::opaque]
pub open spec fn target_value(m: Machine, target: ArithmeticTarget) -> u8 {
    match target {
        ArithmeticTarget::A => m.registers.a,
        ArithmeticTarget::B => m.registers.b,
        ArithmeticTarget::C => m.registers.c,
        ArithmeticTarget::D => m.registers.d,
        ArithmeticTarget::E => m.registers.e,
        ArithmeticTarget::H => m.registers.h,
        ArithmeticTarget::L => m.registers.l,
        ArithmeticTarget::HL => m.memory[m.registers.hl() as int],
        ArithmeticTarget::Constant => m.memory[wrap16(m.pc + 1) as int],
    }
}

/// Bytes of instruction stream that an instruction on `target` takes:
/// two where an immediate byte follows the opcode, one otherwise.
pub open spec fn target_size(target: ArithmeticTarget) -> u16 {
    match target {
        ArithmeticTarget::Constant => 2,
        _ => 1,
    }
}

/// Machine state `m` with `value` stored into `target`; storing into the
/// immediate operand changes nothing.
pub open spec fn with_target_value(m: Machine, target: ArithmeticTarget, value: u8) -> Machine {
    match target {
        ArithmeticTarget::A => Machine { registers: Registers { a: value, ..m.registers }, ..m },
        ArithmeticTarget::B => Machine { registers: Registers { b: value, ..m.registers }, ..m },
        ArithmeticTarget::C => Machine { registers: Registers { c: value, ..m.registers }, ..m },
        ArithmeticTarget::D => Machine { registers: Registers { d: value, ..m.registers }, ..m },
        ArithmeticTarget::E => Machine { registers: Registers { e: value, ..m.registers }, ..m },
        ArithmeticTarget::H => Machine { registers: Registers { h: value, ..m.registers }, ..m },
        ArithmeticTarget::L => Machine { registers: Registers { l: value, ..m.registers }, ..m },
        ArithmeticTarget::HL => Machine {
            memory: m.memory.update(m.registers.hl() as int, value),
            ..m
        },
        ArithmeticTarget::Constant => m,
    }
}

/// Reads the operand, and the number of bytes its instruction takes.
pub fn get_value_in_arithmetic_target(cpu: &mut CPU, target: &ArithmeticTarget) -> (r: (u8, u16))
    ensures
        final(cpu)@ == old(cpu)@,
        r == (target_value(old(cpu)@, *target), target_size(*target)),
{
    reveal(target_value);
    match target {
        ArithmeticTarget::A => (cpu.registers.a, 1),
        ArithmeticTarget::B => (cpu.registers.b, 1),
        ArithmeticTarget::C => (cpu.registers.c, 1),
        ArithmeticTarget::D => (cpu.registers.d, 1),
        ArithmeticTarget::E => (cpu.registers.e, 1),
        ArithmeticTarget::H => (cpu.registers.h, 1),
        ArithmeticTarget::L => (cpu.registers.l, 1),
        ArithmeticTarget::HL => {
            let value = cpu.bus.read_byte(cpu.registers.get_hl());
            (value, 1)
        },
        ArithmeticTarget::Constant => (cpu.bus.read_byte(cpu.pc.wrapping_add(1)), 2),
    }
}

/// Stores `new_value` into the operand; a no-op for the immediate operand.
pub fn set_value_in_arithmetic_target(cpu: &mut CPU, target: &ArithmeticTarget, new_value: u8)
    ensures
        final(cpu)@ == with_target_value(old(cpu)@, *target, new_value),
{
    match target {
        ArithmeticTarget::A => cpu.registers.a = new_value,
        ArithmeticTarget::B => cpu.registers.b = new_value,
        ArithmeticTarget::C => cpu.registers.c = new_value,
        ArithmeticTarget::D => cpu.registers.d = new_value,
        ArithmeticTarget::E => cpu.registers.e = new_value,
        ArithmeticTarget::H => cpu.registers.h = new_value,
        ArithmeticTarget::L => cpu.registers.l = new_value,
        ArithmeticTarget::HL => {
            let address = cpu.registers.get_hl();
            cpu.bus.write_byte(address, new_value)
        },
        ArithmeticTarget::Constant => (),
    }
}

} // verus!
