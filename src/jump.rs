//! Condition codes and the absolute and relative jumps.

use crate::cpu::{Machine, CPU};
use crate::flags_register::FlagsRegister;
use crate::memory_bus::wrap16;
use crate::registers::pair_value;
use vstd::prelude::*;

verus! {

#[derive(Clone, Copy, Debug, PartialEq, Eq, Structural)]
pub enum JumpTest {
    NotZero,
    NotCarry,
    Zero,
    Carry,
    Always,
}

/// Whether the condition `test` holds under `flags`.
pub open spec fn condition_holds(flags: FlagsRegister, test: JumpTest) -> bool {
    match test {
        JumpTest::NotZero => !flags.zero,
        JumpTest::NotCarry => !flags.carry,
        JumpTest::Zero => flags.zero,
        JumpTest::Carry => flags.carry,
        JumpTest::Always => true,
    }
}

/// `byte` read as a two's-complement signed value.
pub open spec fn signed_byte(byte: u8) -> int {
    if byte < 128 {
        byte as int
    } else {
        byte - 256
    }
}

/// The little-endian address in the two bytes after the opcode.
pub open spec fn absolute_target(m: Machine) -> u16 {
    pair_value(m.memory[wrap16(m.pc + 2) as int], m.memory[wrap16(m.pc + 1) as int])
}

/// The address after a two-byte relative jump, moved by the signed
/// displacement in the byte after the opcode.
pub open spec fn relative_target(m: Machine) -> u16 {
    wrap16(m.pc + 2 + signed_byte(m.memory[wrap16(m.pc + 1) as int]))
}

/// The next program counter of a jump: `destination` when the condition
/// holds, the instruction after it otherwise.
#[verifier::opaque]
pub open spec fn jump_destination(
    m: Machine,
    test: JumpTest,
    instruction_size: u16,
    destination: u16,
) -> u16 {
    if condition_holds(m.registers.f, test) {
        destination
    } else {
        wrap16(m.pc + instruction_size)
    }
}

/// Absolute jump: three bytes, the target address stored low byte first.
pub fn jump(cpu: &CPU, test: JumpTest) -> (r: u16)
    ensures
        r == jump_destination(cpu@, test, 3, absolute_target(cpu@)),
{
    // Little endian: pc + 1 holds the low byte, pc + 2 the high byte.
    let least_significant_byte = cpu.bus.read_byte(cpu.pc.wrapping_add(1));
    let most_significant_byte = cpu.bus.read_byte(cpu.pc.wrapping_add(2));
    proof {
        crate::registers::lemma_pair_bits(most_significant_byte, least_significant_byte);
    }
    let destination = (most_significant_byte as u16) << 8u16 | least_significant_byte as u16;
    jump_internal(cpu, test, 3, destination)
}

/// Relative jump: two bytes, the second a signed displacement counted from
/// the instruction after the jump.
pub fn jump_relative(cpu: &CPU, test: JumpTest) -> (r: u16)
    ensures
        r == jump_destination(cpu@, test, 2, relative_target(cpu@)),
{
    let offset = cpu.bus.read_byte(cpu.pc.wrapping_add(1));
    let displacement: i16 = if offset < 128 {
        offset as i16
    } else {
        offset as i16 - 256
    };
    let destination = cpu.pc.wrapping_add(2).wrapping_add_signed(displacement);
    jump_internal(cpu, test, 2, destination)
}

fn jump_internal(cpu: &CPU, test: JumpTest, instruction_size: u16, destination: u16) -> (r: u16)
    ensures
        r == jump_destination(cpu@, test, instruction_size, destination),
{
    reveal(jump_destination);
    let should_jump = evaluate_test(&cpu.registers.f, test);
    if should_jump {
        destination
    } else {
        cpu.pc.wrapping_add(instruction_size)
    }
}

pub fn evaluate_test(flags: &FlagsRegister, test: JumpTest) -> (r: bool)
    ensures
        r == condition_holds(*flags, test),
{
    match test {
        JumpTest::NotZero => !flags.zero,
        JumpTest::NotCarry => !flags.carry,
        JumpTest::Zero => flags.zero,
        JumpTest::Carry => flags.carry,
        JumpTest::Always => true,
    }
}

} // verus!
