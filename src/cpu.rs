//! The CPU: registers, memory bus and program counter, with the
//! fetch-decode-execute step.

use crate::arithmetic::{
    add_c_result, add_flags, add_hl_flags, add_hl_result, add_result, sub_c_result, sub_flags,
    sub_result,
};
use crate::arithmetic_target::{
    get_value_in_arithmetic_target, set_value_in_arithmetic_target, target_size, target_value,
    with_target_value, ArithmeticTarget,
};
use crate::arithmetic_target_pair::{
    get_value_in_arithmetic_target_pair, pair_target_value, set_value_in_arithmetic_target_pair,
    with_pair_target_value, ArithmeticTargetPair,
};
use crate::bit::{
    bit_check, bit_check_flags, bit_reset, bit_reset_result, bit_set, bit_set_result,
};
use crate::emulator_error::EmulatorError;
use crate::flags_register::FlagsRegister;
use crate::instruction::{decoded, IndDecTarget, Instruction, PREFIX_BYTE};
use crate::jump::{
    absolute_target, jump, jump_destination, jump_relative, relative_target, signed_byte,
};
use crate::logical::{and, complement, complement_flags, logic_flags, or, xor};
use crate::memory_bus::{wrap16, MemoryBus};
use crate::registers::Registers;
use crate::rotation::{
    rotate_left, rotate_left_through_carry, rotate_right, rotate_right_through_carry,
    rotated_left, rotated_left_through_carry, rotated_right, rotated_right_through_carry,
    shift_flags, shift_left, shift_right_arithmetic, shift_right_logical, swap_nibbles,
    swapped_nibbles,
};
use vstd::prelude::*;

verus! {

pub struct CPU {
    pub registers: Registers,
    pub pc: u16,
    pub bus: MemoryBus,
}

/// The whole machine state as a mathematical value.
pub ghost struct Machine {
    pub registers: Registers,
    pub memory: Seq<u8>,
    pub pc: u16,
}

impl View for CPU {
    type V = Machine;

    open spec fn view(&self) -> Machine {
        Machine { registers: self.registers, memory: self.bus@, pc: self.pc }
    }
}

/// An instruction on `target` whose effect is on A and the flags: A and the flags take the given
/// values and the program counter moves past the instruction.
#[verifier::opaque]
pub open spec fn accumulator_step(
    m: Machine,
    target: ArithmeticTarget,
    a: u8,
    flags: FlagsRegister,
) -> Machine {
    Machine {
        registers: Registers { a, f: flags, ..m.registers },
        pc: wrap16(m.pc + target_size(target)),
        ..m
    }
}

/// An instruction that writes `value` back into `target` and leaves
/// `flags`; the program counter moves past the instruction.
#[verifier::opaque]
pub open spec fn target_step(
    m: Machine,
    target: ArithmeticTarget,
    value: u8,
    flags: FlagsRegister,
) -> Machine {
    let written = with_target_value(
        Machine { registers: Registers { f: flags, ..m.registers }, ..m },
        target,
        value,
    );
    Machine { pc: wrap16(m.pc + target_size(target)), ..written }
}

/// A one-byte instruction that only sets A and the flags.
#[verifier::opaque]
pub open spec fn implied_step(m: Machine, a: u8, flags: FlagsRegister) -> Machine {
    Machine { registers: Registers { a, f: flags, ..m.registers }, pc: wrap16(m.pc + 1), ..m }
}

/// ADD HL: the register pair `p` added into HL with the word-addition
/// flags; one byte long.
#[verifier::opaque]
pub open spec fn add_hl_step(m: Machine, p: ArithmeticTargetPair) -> Machine {
    let r = m.registers;
    let v = pair_target_value(r, p);
    Machine {
        registers: with_pair_target_value(
            Registers { f: add_hl_flags(r.hl(), v), ..r },
            ArithmeticTargetPair::HL,
            add_hl_result(r.hl(), v),
        ),
        pc: wrap16(m.pc + 1),
        ..m
    }
}

/// ADD SP: the signed immediate byte added to the stack pointer with the
/// word-addition flags, the zero flag cleared; two bytes long.
#[verifier::opaque]
pub open spec fn add_sp_step(m: Machine) -> Machine {
    let r = m.registers;
    let offset = wrap16(signed_byte(target_value(m, ArithmeticTarget::Constant)));
    Machine {
        registers: Registers {
            sp: add_hl_result(r.sp, offset),
            f: with_zero(add_hl_flags(r.sp, offset), false),
            ..r
        },
        pc: wrap16(m.pc + 2),
        ..m
    }
}

/// INC or DEC of a register pair: `p` moved by `delta`, wrapping; no flag
/// changes; one byte long.
#[verifier::opaque]
pub open spec fn pair_step(m: Machine, p: ArithmeticTargetPair, delta: int) -> Machine {
    let r = m.registers;
    Machine {
        registers: with_pair_target_value(r, p, wrap16(pair_target_value(r, p) + delta)),
        pc: wrap16(m.pc + 1),
        ..m
    }
}

/// `value` with its zero flag replaced.
pub open spec fn with_zero(flags: FlagsRegister, zero: bool) -> FlagsRegister {
    FlagsRegister { zero, ..flags }
}

/// Result and flags of an accumulator instruction (ADD, ADC, SUB, SBC,
/// AND, OR, XOR, CP) with A holding `a` and the operand `v`.
#[verifier::opaque]
pub open spec fn accumulator_outcome(
    instruction: Instruction,
    a: u8,
    v: u8,
) -> (u8, FlagsRegister) {
    match instruction {
        Instruction::ADD(_) => (add_result(a, v), add_flags(a, v)),
        Instruction::ADC(_) => (add_c_result(a, v), add_flags(a, v)),
        Instruction::SUB(_) => (sub_result(a, v), sub_flags(a, v)),
        Instruction::SBC(_) => (sub_c_result(a, v), sub_flags(a, v)),
        Instruction::AND(_) => (a & v, logic_flags(a & v, true)),
        Instruction::OR(_) => (a | v, logic_flags(a | v, false)),
        Instruction::XOR(_) => (a ^ v, logic_flags(a ^ v, false)),
        // CP compares: the flags of the subtraction, A unchanged.
        _ => (a, sub_flags(a, v)),
    }
}

/// Result and flags of a prefixed rotation, shift or swap (SRL, RR, RL,
/// RRC, RLC, SRA, SLA, SWAP) on the operand `v` with incoming flags `f`.
/// The rotations set the zero flag from their result.
#[verifier::opaque]
pub open spec fn prefixed_outcome(instruction: Instruction, v: u8, f: FlagsRegister) -> (
    u8,
    FlagsRegister,
) {
    match instruction {
        Instruction::SRL(_) => (v >> 1u8, shift_flags(v >> 1u8 == 0, v & 0x01 != 0)),
        Instruction::RR(_) => {
            let result = rotated_right_through_carry(v, f.carry);
            (result, shift_flags(result == 0, v & 0x01 != 0))
        },
        Instruction::RL(_) => {
            let result = rotated_left_through_carry(v, f.carry);
            (result, shift_flags(result == 0, v & 0x80 != 0))
        },
        Instruction::RRC(_) => {
            let result = rotated_right(v);
            (result, shift_flags(result == 0, v & 0x01 != 0))
        },
        Instruction::RLC(_) => {
            let result = rotated_left(v);
            (result, shift_flags(result == 0, v & 0x80 != 0))
        },
        Instruction::SRA(_) => {
            let result = (v >> 1u8) | (v & 0x80);
            (result, shift_flags(result == 0, v & 0x01 != 0))
        },
        Instruction::SLA(_) => {
            let result = v << 1u8;
            (result, shift_flags(result == 0, v & 0x80 != 0))
        },
        _ => {
            let result = swapped_nibbles(v);
            (result, shift_flags(result == 0, false))
        },
    }
}

/// A and flags after a one-byte instruction without operand (NOP, CCF, SCF,
/// RRA, RLA, RRCA, RLCA, CPL) with A holding `a` and flags `f`.
#[verifier::opaque]
pub open spec fn implied_outcome(instruction: Instruction, a: u8, f: FlagsRegister) -> (
    u8,
    FlagsRegister,
) {
    match instruction {
        Instruction::CCF => (a, FlagsRegister { carry: !f.carry, ..f }),
        Instruction::SCF => (a, FlagsRegister { carry: true, ..f }),
        Instruction::RRA => (
            rotated_right_through_carry(a, f.carry),
            shift_flags(false, a & 0x01 != 0),
        ),
        Instruction::RLA => (
            rotated_left_through_carry(a, f.carry),
            shift_flags(f.zero, a & 0x80 != 0),
        ),
        Instruction::RRCA => (rotated_right(a), shift_flags(false, a & 0x01 != 0)),
        Instruction::RLCA => (rotated_left(a), shift_flags(f.zero, a & 0x80 != 0)),
        Instruction::NOP => (a, f),
        _ => (!a, complement_flags(!a, f.carry)),
    }
}

/// The machine after executing `instruction` in state `m`; its program
/// counter is the address of the next instruction.
#[verifier::opaque]
pub open spec fn executed(m: Machine, instruction: Instruction) -> Machine {
    let r = m.registers;
    match instruction {
        Instruction::JP(test) => Machine {
            pc: jump_destination(m, test, 3, absolute_target(m)),
            ..m
        },
        Instruction::JPHL => Machine { pc: r.hl(), ..m },
        Instruction::JR(test) => Machine {
            pc: jump_destination(m, test, 2, relative_target(m)),
            ..m
        },
        Instruction::ADDHL(p) => add_hl_step(m, p),
        Instruction::ADDSP => add_sp_step(m),
        Instruction::ADD(t)
        | Instruction::ADC(t)
        | Instruction::SUB(t)
        | Instruction::SBC(t)
        | Instruction::AND(t)
        | Instruction::OR(t)
        | Instruction::XOR(t)
        | Instruction::CP(t) => {
            let (a, f) = accumulator_outcome(instruction, r.a, target_value(m, t));
            accumulator_step(m, t, a, f)
        },
        Instruction::INC(IndDecTarget::Byte(t)) => {
            let v = target_value(m, t);
            target_step(m, t, add_result(v, 1), add_flags(v, 1))
        },
        Instruction::DEC(IndDecTarget::Byte(t)) => {
            let v = target_value(m, t);
            target_step(m, t, sub_result(v, 1), sub_flags(v, 1))
        },
        Instruction::INC(IndDecTarget::Word(p)) => pair_step(m, p, 1),
        Instruction::DEC(IndDecTarget::Word(p)) => pair_step(m, p, -1),
        Instruction::BIT(idx, t) => accumulator_step(
            m,
            t,
            r.a,
            bit_check_flags(target_value(m, t), idx, r.f),
        ),
        Instruction::RES(idx, t) => {
            target_step(m, t, bit_reset_result(target_value(m, t), idx), r.f)
        },
        Instruction::SET(idx, t) => {
            target_step(m, t, bit_set_result(target_value(m, t), idx), r.f)
        },
        Instruction::SRL(t)
        | Instruction::RR(t)
        | Instruction::RL(t)
        | Instruction::RRC(t)
        | Instruction::RLC(t)
        | Instruction::SRA(t)
        | Instruction::SLA(t)
        | Instruction::SWAP(t) => {
            let (v, f) = prefixed_outcome(instruction, target_value(m, t), r.f);
            target_step(m, t, v, f)
        },
        _ => {
            let (a, f) = implied_outcome(instruction, r.a, r.f);
            implied_step(m, a, f)
        },
    }
}

/// Executing `instruction` from `before` left `after` and named `next` as
/// the following instruction's address; the program counter itself is not
/// yet moved.
pub open spec fn ran(before: Machine, after: Machine, next: u16, instruction: Instruction) -> bool {
    next == executed(before, instruction).pc && after == (Machine {
        pc: before.pc,
        ..executed(before, instruction)
    })
}

/// The opcode byte at the program counter, and whether it followed the
/// prefix byte (then it is the byte after the prefix).
pub open spec fn fetched(m: Machine) -> (u8, bool) {
    let lead = m.memory[m.pc as int];
    if lead == PREFIX_BYTE {
        (m.memory[wrap16(m.pc + 1) as int], true)
    } else {
        (lead, false)
    }
}

impl CPU {
    /// Registers zero, flags clear, program counter at 0, memory all zero.
    pub fn new() -> (r: CPU)
        ensures
            r.registers == Registers::new_spec(),
            r.pc == 0,
            forall|i: int| 0 <= i < crate::memory_bus::MEMORY_SIZE ==> r.bus@[i] == 0,
    {
        CPU { registers: Registers::new(), pc: 0, bus: MemoryBus::new() }
    }

    /// Fetches the instruction at the program counter, decodes it and
    /// executes it. An unmapped opcode stops with an unknown-instruction
    /// error and leaves the machine as it was.
    pub fn step(&mut self) -> (r: Result<(), EmulatorError>)
        ensures
            ({
                let (byte, prefixed) = fetched(old(self)@);
                match decoded(byte, prefixed) {
                    Some(instruction) => r == Ok::<(), EmulatorError>(()) && final(self)@
                        == executed(old(self)@, instruction),
                    None => r == Err::<(), EmulatorError>(EmulatorError::UnknownInstruction(byte))
                        && final(self)@ == old(self)@,
                }
            }),
    {
        let mut instruction_byte = self.bus.read_byte(self.pc);
        let prefixed = instruction_byte == PREFIX_BYTE;
        if prefixed {
            instruction_byte = self.bus.read_byte(self.pc.wrapping_add(1));
        }
        match Instruction::from_byte(instruction_byte, prefixed) {
            Ok(instruction) => {
                let next_pc = self.execute(instruction);
                self.pc = next_pc;
                Ok(())
            },
            Err(error) => Err(error),
        }
    }

    /// Executes `instruction` and returns the address of the next one; the
    /// program counter itself is left for the caller to set.
    pub fn execute(&mut self, instruction: Instruction) -> (r: u16)
        ensures
            ran(old(self)@, final(self)@, r, instruction),
    {
        match instruction {
            Instruction::JP(..)
            | Instruction::JPHL
            | Instruction::JR(..)
            | Instruction::ADDHL(..)
            | Instruction::ADDSP
            | Instruction::INC(..)
            | Instruction::DEC(..) => self.execute_control_and_counting(instruction),
            Instruction::ADD(..)
            | Instruction::ADC(..)
            | Instruction::SUB(..)
            | Instruction::SBC(..)
            | Instruction::AND(..)
            | Instruction::OR(..)
            | Instruction::XOR(..)
            | Instruction::CP(..)
            | Instruction::BIT(..)
            | Instruction::RES(..)
            | Instruction::SET(..) => self.execute_on_operand(instruction),
            _ => self.execute_rotations_and_implied(instruction),
        }
    }

    /// The rotations, shifts and swap of the prefixed space, and the one-byte
    /// instructions without operand.
    fn execute_rotations_and_implied(&mut self, instruction: Instruction) -> (r: u16)
        requires
            matches!(instruction, Instruction::SRL(..) | Instruction::RR(..) | Instruction::RL(..)
                | Instruction::RRC(..) | Instruction::RLC(..) | Instruction::SRA(..)
                | Instruction::SLA(..) | Instruction::SWAP(..) | Instruction::NOP
                | Instruction::CCF | Instruction::SCF | Instruction::RRA | Instruction::RLA
                | Instruction::RRCA | Instruction::RLCA | Instruction::CPL),
        ensures
            ran(old(self)@, final(self)@, r, instruction),
    {
        reveal(executed);
        match instruction {
            Instruction::SRL(target)
            | Instruction::RR(target)
            | Instruction::RL(target)
            | Instruction::RRC(target)
            | Instruction::RLC(target)
            | Instruction::SRA(target)
            | Instruction::SLA(target)
            | Instruction::SWAP(target) => self.execute_on_target(instruction, target),
            _ => self.execute_implied(instruction),
        }
    }

    /// Jumps, the word additions, INC and DEC.
    fn execute_control_and_counting(&mut self, instruction: Instruction) -> (r: u16)
        requires
            matches!(instruction, Instruction::JP(..) | Instruction::JPHL | Instruction::JR(..)
                | Instruction::ADDHL(..) | Instruction::ADDSP | Instruction::INC(..)
                | Instruction::DEC(..)),
        ensures
            ran(old(self)@, final(self)@, r, instruction),
    {
        reveal(executed);
        match instruction {
            Instruction::JP(test) => jump(self, test),
            Instruction::JPHL => self.registers.get_hl(),
            Instruction::JR(test) => jump_relative(self, test),
            Instruction::ADDHL(target) => self.execute_add_hl(target),
            Instruction::ADDSP => self.execute_add_sp(),
            Instruction::INC(IndDecTarget::Byte(target)) => {
                self.execute_inc_dec_byte(target, true)
            },
            Instruction::DEC(IndDecTarget::Byte(target)) => {
                self.execute_inc_dec_byte(target, false)
            },
            Instruction::INC(IndDecTarget::Word(target)) => {
                self.execute_inc_dec_word(target, true)
            },
            Instruction::DEC(IndDecTarget::Word(target)) => {
                self.execute_inc_dec_word(target, false)
            },
            // Excluded by the precondition: `execute` dispatches the rest.
            _ => self.pc,
        }
    }

    /// The accumulator instructions and BIT, RES, SET.
    fn execute_on_operand(&mut self, instruction: Instruction) -> (r: u16)
        requires
            matches!(instruction, Instruction::ADD(..) | Instruction::ADC(..) | Instruction::SUB(..)
                | Instruction::SBC(..) | Instruction::AND(..) | Instruction::OR(..)
                | Instruction::XOR(..) | Instruction::CP(..) | Instruction::BIT(..)
                | Instruction::RES(..) | Instruction::SET(..)),
        ensures
            ran(old(self)@, final(self)@, r, instruction),
    {
        reveal(executed);
        match instruction {
            Instruction::ADD(target)
            | Instruction::ADC(target)
            | Instruction::SUB(target)
            | Instruction::SBC(target)
            | Instruction::AND(target)
            | Instruction::OR(target)
            | Instruction::XOR(target)
            | Instruction::CP(target) => self.execute_on_accumulator(instruction, target),
            Instruction::BIT(idx, target) => self.execute_bit_check(idx, target),
            Instruction::RES(idx, target) => self.execute_bit_write(false, idx, target),
            Instruction::SET(idx, target) => self.execute_bit_write(true, idx, target),
            // Excluded by the precondition: `execute` dispatches the rest.
            _ => self.pc,
        }
    }

    /// ADD HL: adds a register pair into HL with the word-addition flags.
    fn execute_add_hl(&mut self, target: ArithmeticTargetPair) -> (r: u16)
        ensures
            r == add_hl_step(old(self)@, target).pc,
            final(self)@ == (Machine { pc: old(self).pc, ..add_hl_step(old(self)@, target) }),
    {
        reveal(add_hl_step);
        let value = get_value_in_arithmetic_target_pair(self, &target);
        let hl = self.registers.get_hl();
        let mut flags = self.registers.f;
        let new_value = crate::arithmetic::add_hl(hl, value, &mut flags);
        self.registers.f = flags;
        self.registers.set_hl(new_value);
        self.pc.wrapping_add(1)
    }

    /// ADD SP: adds the signed immediate byte to the stack pointer; the zero
    /// flag is always cleared.
    fn execute_add_sp(&mut self) -> (r: u16)
        ensures
            r == add_sp_step(old(self)@).pc,
            final(self)@ == (Machine { pc: old(self).pc, ..add_sp_step(old(self)@) }),
    {
        reveal(add_sp_step);
        reveal(target_value);
        let value = self.registers.get_sp();
        let (offset, pc_increment) = get_value_in_arithmetic_target(
            self,
            &ArithmeticTarget::Constant,
        );
        // The displacement is signed: sign-extend it to a word.
        let displacement: u16 = if offset < 128 {
            offset as u16
        } else {
            offset as u16 + 0xFF00
        };
        assert(displacement == wrap16(signed_byte(offset)));
        let mut flags = self.registers.f;
        let new_value = crate::arithmetic::add_hl(value, displacement, &mut flags);
        flags.zero = false;
        self.registers.f = flags;
        self.registers.set_sp(new_value);
        self.pc.wrapping_add(pc_increment)
    }

    /// The accumulator instructions: A and `target` in, A and the flags out.
    fn execute_on_accumulator(
        &mut self,
        instruction: Instruction,
        target: ArithmeticTarget,
    ) -> (r: u16)
        ensures
            ({
                let (a, f) = accumulator_outcome(
                    instruction,
                    old(self).registers.a,
                    target_value(old(self)@, target),
                );
                let after = accumulator_step(old(self)@, target, a, f);
                r == after.pc && final(self)@ == (Machine { pc: old(self).pc, ..after })
            }),
    {
        reveal(accumulator_outcome);
        reveal(accumulator_step);
        let (value, pc_increment) = get_value_in_arithmetic_target(self, &target);
        let a = self.registers.a;
        let mut flags = self.registers.f;
        let new_value = match instruction {
            Instruction::ADD(_) => crate::arithmetic::add(a, value, &mut flags),
            Instruction::ADC(_) => crate::arithmetic::add_c(a, value, &mut flags),
            Instruction::SUB(_) => crate::arithmetic::sub(a, value, &mut flags),
            Instruction::SBC(_) => crate::arithmetic::sub_c(a, value, &mut flags),
            Instruction::AND(_) => and(a, value, &mut flags),
            Instruction::OR(_) => or(a, value, &mut flags),
            Instruction::XOR(_) => xor(a, value, &mut flags),
            _ => {
                // CP compares: the flags of the subtraction, A unchanged.
                crate::arithmetic::sub(a, value, &mut flags);
                a
            },
        };
        self.registers.a = new_value;
        self.registers.f = flags;
        self.pc.wrapping_add(pc_increment)
    }

    /// INC (when `increment`) or DEC of a byte operand, with the flags of
    /// adding or subtracting one.
    fn execute_inc_dec_byte(&mut self, target: ArithmeticTarget, increment: bool) -> (r: u16)
        ensures
            ({
                let v = target_value(old(self)@, target);
                let after = if increment {
                    target_step(old(self)@, target, add_result(v, 1), add_flags(v, 1))
                } else {
                    target_step(old(self)@, target, sub_result(v, 1), sub_flags(v, 1))
                };
                r == after.pc && final(self)@ == (Machine { pc: old(self).pc, ..after })
            }),
    {
        reveal(target_step);
        let (value, pc_increment) = get_value_in_arithmetic_target(self, &target);
        let mut flags = self.registers.f;
        let new_value = if increment {
            crate::arithmetic::add(value, 0x01, &mut flags)
        } else {
            crate::arithmetic::sub(value, 0x01, &mut flags)
        };
        self.registers.f = flags;
        set_value_in_arithmetic_target(self, &target, new_value);
        self.pc.wrapping_add(pc_increment)
    }

    /// INC (when `increment`) or DEC of a register pair; no flag changes.
    fn execute_inc_dec_word(&mut self, target: ArithmeticTargetPair, increment: bool) -> (r: u16)
        ensures
            ({
                let after = pair_step(old(self)@, target, if increment { 1 } else { -1 });
                r == after.pc && final(self)@ == (Machine { pc: old(self).pc, ..after })
            }),
    {
        reveal(pair_step);
        let value = get_value_in_arithmetic_target_pair(self, &target);
        let new_value = if increment {
            value.wrapping_add(0x0001)
        } else {
            value.wrapping_sub(0x0001)
        };
        assert(new_value == wrap16(if increment { value + 1 } else { value - 1 }));
        set_value_in_arithmetic_target_pair(self, &target, new_value);
        self.pc.wrapping_add(1)
    }

    /// BIT: tests bit `idx` of `target` into the zero flag.
    fn execute_bit_check(&mut self, idx: u8, target: ArithmeticTarget) -> (r: u16)
        ensures
            ({
                let after = accumulator_step(
                    old(self)@,
                    target,
                    old(self).registers.a,
                    bit_check_flags(target_value(old(self)@, target), idx, old(self).registers.f),
                );
                r == after.pc && final(self)@ == (Machine { pc: old(self).pc, ..after })
            }),
    {
        reveal(accumulator_step);
        let (value, pc_increment) = get_value_in_arithmetic_target(self, &target);
        let mut flags = self.registers.f;
        bit_check(value, idx, &mut flags);
        self.registers.f = flags;
        self.pc.wrapping_add(pc_increment)
    }

    /// SET (when `set`) or RES of bit `idx` of `target`; no flag changes.
    fn execute_bit_write(&mut self, set: bool, idx: u8, target: ArithmeticTarget) -> (r: u16)
        ensures
            ({
                let v = target_value(old(self)@, target);
                let result = if set { bit_set_result(v, idx) } else { bit_reset_result(v, idx) };
                let after = target_step(old(self)@, target, result, old(self).registers.f);
                r == after.pc && final(self)@ == (Machine { pc: old(self).pc, ..after })
            }),
    {
        reveal(target_step);
        let (value, pc_increment) = get_value_in_arithmetic_target(self, &target);
        let new_value = if set {
            bit_set(value, idx)
        } else {
            bit_reset(value, idx)
        };
        set_value_in_arithmetic_target(self, &target, new_value);
        self.pc.wrapping_add(pc_increment)
    }

    /// The rotations, shifts and swap of the prefixed space: the result is
    /// written back into `target`.
    fn execute_on_target(&mut self, instruction: Instruction, target: ArithmeticTarget) -> (r: u16)
        ensures
            ({
                let (v, f) = prefixed_outcome(
                    instruction,
                    target_value(old(self)@, target),
                    old(self).registers.f,
                );
                let after = target_step(old(self)@, target, v, f);
                r == after.pc && final(self)@ == (Machine { pc: old(self).pc, ..after })
            }),
    {
        reveal(prefixed_outcome);
        reveal(target_step);
        let (value, pc_increment) = get_value_in_arithmetic_target(self, &target);
        let mut flags = self.registers.f;
        let new_value = match instruction {
            Instruction::SRL(_) => shift_right_logical(value, &mut flags),
            Instruction::SRA(_) => shift_right_arithmetic(value, &mut flags),
            Instruction::SLA(_) => shift_left(value, &mut flags),
            Instruction::RR(_) => rotate_right_through_carry(value, &mut flags),
            Instruction::RL(_) => rotate_left_through_carry(value, &mut flags),
            Instruction::RRC(_) => rotate_right(value, &mut flags),
            Instruction::RLC(_) => rotate_left(value, &mut flags),
            _ => swap_nibbles(value, &mut flags),
        };
        // The rotations of the prefixed space set the zero flag from their
        // result.
        if matches!(
            instruction,
            Instruction::RR(_) | Instruction::RL(_) | Instruction::RRC(_) | Instruction::RLC(_)
        ) {
            flags.zero = new_value == 0x00;
        }
        self.registers.f = flags;
        set_value_in_arithmetic_target(self, &target, new_value);
        self.pc.wrapping_add(pc_increment)
    }

    /// The one-byte instructions with no operand: NOP, the carry flag
    /// instructions, the accumulator rotations and the complement.
    fn execute_implied(&mut self, instruction: Instruction) -> (r: u16)
        ensures
            ({
                let r0 = old(self).registers;
                let (a, f) = implied_outcome(instruction, r0.a, r0.f);
                let after = implied_step(old(self)@, a, f);
                r == after.pc && final(self)@ == (Machine { pc: old(self).pc, ..after })
            }),
    {
        reveal(implied_outcome);
        reveal(implied_step);
        let mut flags = self.registers.f;
        match instruction {
            Instruction::NOP => {},
            Instruction::CCF => flags.carry = !flags.carry,
            Instruction::SCF => flags.carry = true,
            Instruction::RRA => {
                self.registers.a = rotate_right_through_carry(self.registers.a, &mut flags);
            },
            Instruction::RLA => {
                self.registers.a = rotate_left_through_carry(self.registers.a, &mut flags);
            },
            Instruction::RRCA => {
                self.registers.a = rotate_right(self.registers.a, &mut flags);
            },
            Instruction::RLCA => {
                self.registers.a = rotate_left(self.registers.a, &mut flags);
            },
            _ => {
                self.registers.a = complement(self.registers.a, &mut flags);
            },
        }
        self.registers.f = flags;
        self.pc.wrapping_add(1)
    }
}

} // verus!
