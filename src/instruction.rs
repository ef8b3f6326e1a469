//! Instructions and their decoding from opcode bytes.

use crate::arithmetic_target::ArithmeticTarget;
use crate::arithmetic_target_pair::ArithmeticTargetPair;
use crate::emulator_error::EmulatorError;
use crate::jump::JumpTest;
use vstd::prelude::*;

verus! {

/// The operand of INC and DEC: a byte, whose update sets flags, or a word,
/// whose update does not.
#[derive(Clone, Copy, Debug, PartialEq, Eq, Structural)]
pub enum IndDecTarget {
    Byte(ArithmeticTarget),
    Word(ArithmeticTargetPair),
}

#[derive(Clone, Copy, Debug, PartialEq, Eq, Structural)]
pub enum Instruction {
    NOP,
    JP(JumpTest),
    JPHL,
    JR(JumpTest),
    ADD(ArithmeticTarget),
    ADDHL(ArithmeticTargetPair),
    ADDSP,
    ADC(ArithmeticTarget),
    SUB(ArithmeticTarget),
    SBC(ArithmeticTarget),
    AND(ArithmeticTarget),
    OR(ArithmeticTarget),
    XOR(ArithmeticTarget),
    CP(ArithmeticTarget),
    INC(IndDecTarget),
    DEC(IndDecTarget),
    CCF,
    SCF,
    RRA,
    RLA,
    RRCA,
    RLCA,
    CPL,
    BIT(u8, ArithmeticTarget),
    RES(u8, ArithmeticTarget),
    SET(u8, ArithmeticTarget),
    SRL(ArithmeticTarget),
    RR(ArithmeticTarget),
    RL(ArithmeticTarget),
    RRC(ArithmeticTarget),
    RLC(ArithmeticTarget),
    SRA(ArithmeticTarget),
    SLA(ArithmeticTarget),
    SWAP(ArithmeticTarget),
}

/// The lead byte of a two-byte opcode.
pub const PREFIX_BYTE: u8 = 0xCB;

/// The byte operand that a three-bit field names, in encoding order.
pub open spec fn byte_operand(code: u8) -> ArithmeticTarget {
    match code % 8 {
        0 => ArithmeticTarget::B,
        1 => ArithmeticTarget::C,
        2 => ArithmeticTarget::D,
        3 => ArithmeticTarget::E,
        4 => ArithmeticTarget::H,
        5 => ArithmeticTarget::L,
        6 => ArithmeticTarget::HL,
        _ => ArithmeticTarget::A,
    }
}

/// The register pair that a two-bit field names, in encoding order.
pub open spec fn word_operand(code: u8) -> ArithmeticTargetPair {
    match code % 4 {
        0 => ArithmeticTargetPair::BC,
        1 => ArithmeticTargetPair::DE,
        2 => ArithmeticTargetPair::HL,
        _ => ArithmeticTargetPair::SP,
    }
}

/// The accumulator operation that a three-bit field names, on `target`.
pub open spec fn accumulator_operation(code: u8, target: ArithmeticTarget) -> Instruction {
    match code % 8 {
        0 => Instruction::ADD(target),
        1 => Instruction::ADC(target),
        2 => Instruction::SUB(target),
        3 => Instruction::SBC(target),
        4 => Instruction::AND(target),
        5 => Instruction::XOR(target),
        6 => Instruction::OR(target),
        _ => Instruction::CP(target),
    }
}

/// The condition that a two-bit field names in a conditional jump.
pub open spec fn jump_condition(code: u8) -> JumpTest {
    match code % 4 {
        0 => JumpTest::NotZero,
        1 => JumpTest::Zero,
        2 => JumpTest::NotCarry,
        _ => JumpTest::Carry,
    }
}

/// The instruction that follows the prefix byte: bits 7..3 pick the
/// operation (and, for BIT, RES and SET, the bit index), bits 2..0 the operand.
pub open spec fn decoded_prefixed(byte: u8) -> Instruction {
    let target = byte_operand(byte);
    let operation = byte / 8;
    if operation < 8 {
        match operation {
            0 => Instruction::RLC(target),
            1 => Instruction::RRC(target),
            2 => Instruction::RL(target),
            3 => Instruction::RR(target),
            4 => Instruction::SLA(target),
            5 => Instruction::SRA(target),
            6 => Instruction::SWAP(target),
            _ => Instruction::SRL(target),
        }
    } else if operation < 16 {
        Instruction::BIT(operation % 8, target)
    } else if operation < 24 {
        Instruction::RES(operation % 8, target)
    } else {
        Instruction::SET(operation % 8, target)
    }
}

/// The instruction that a single opcode byte stands for, if any.
pub open spec fn decoded_single(byte: u8) -> Option<Instruction> {
    if 0x80 <= byte < 0xC0 {
        Some(accumulator_operation(byte / 8, byte_operand(byte)))
    } else if byte >= 0xC0 && byte % 8 == 6 {
        Some(accumulator_operation(byte / 8, ArithmeticTarget::Constant))
    } else if byte < 0x40 && byte % 8 == 4 {
        Some(Instruction::INC(IndDecTarget::Byte(byte_operand(byte / 8))))
    } else if byte < 0x40 && byte % 8 == 5 {
        Some(Instruction::DEC(IndDecTarget::Byte(byte_operand(byte / 8))))
    } else if byte < 0x40 && byte % 16 == 0x3 {
        Some(Instruction::INC(IndDecTarget::Word(word_operand(byte / 16))))
    } else if byte < 0x40 && byte % 16 == 0xB {
        Some(Instruction::DEC(IndDecTarget::Word(word_operand(byte / 16))))
    } else if byte < 0x40 && byte % 16 == 0x9 {
        Some(Instruction::ADDHL(word_operand(byte / 16)))
    } else if 0x20 <= byte < 0x40 && byte % 8 == 0 {
        Some(Instruction::JR(jump_condition(byte / 8)))
    } else if 0xC0 <= byte < 0xE0 && byte % 8 == 2 {
        Some(Instruction::JP(jump_condition(byte / 8)))
    } else {
        match byte {
            0x00 => Some(Instruction::NOP),
            0x07 => Some(Instruction::RLCA),
            0x0F => Some(Instruction::RRCA),
            0x17 => Some(Instruction::RLA),
            0x18 => Some(Instruction::JR(JumpTest::Always)),
            0x1F => Some(Instruction::RRA),
            0x2F => Some(Instruction::CPL),
            0x37 => Some(Instruction::SCF),
            0x3F => Some(Instruction::CCF),
            0xC3 => Some(Instruction::JP(JumpTest::Always)),
            0xE8 => Some(Instruction::ADDSP),
            0xE9 => Some(Instruction::JPHL),
            _ => None,
        }
    }
}

/// The instruction that `byte` stands for, after the prefix byte when
/// `prefixed`; `None` where nothing is mapped.
pub open spec fn decoded(byte: u8, prefixed: bool) -> Option<Instruction> {
    if prefixed {
        Some(decoded_prefixed(byte))
    } else {
        decoded_single(byte)
    }
}

fn byte_operand_of(code: u8) -> (r: ArithmeticTarget)
    ensures
        r == byte_operand(code),
{
    match code % 8 {
        0 => ArithmeticTarget::B,
        1 => ArithmeticTarget::C,
        2 => ArithmeticTarget::D,
        3 => ArithmeticTarget::E,
        4 => ArithmeticTarget::H,
        5 => ArithmeticTarget::L,
        6 => ArithmeticTarget::HL,
        _ => ArithmeticTarget::A,
    }
}

fn word_operand_of(code: u8) -> (r: ArithmeticTargetPair)
    ensures
        r == word_operand(code),
{
    match code % 4 {
        0 => ArithmeticTargetPair::BC,
        1 => ArithmeticTargetPair::DE,
        2 => ArithmeticTargetPair::HL,
        _ => ArithmeticTargetPair::SP,
    }
}

fn accumulator_operation_of(code: u8, target: ArithmeticTarget) -> (r: Instruction)
    ensures
        r == accumulator_operation(code, target),
{
    match code % 8 {
        0 => Instruction::ADD(target),
        1 => Instruction::ADC(target),
        2 => Instruction::SUB(target),
        3 => Instruction::SBC(target),
        4 => Instruction::AND(target),
        5 => Instruction::XOR(target),
        6 => Instruction::OR(target),
        _ => Instruction::CP(target),
    }
}

fn jump_condition_of(code: u8) -> (r: JumpTest)
    ensures
        r == jump_condition(code),
{
    match code % 4 {
        0 => JumpTest::NotZero,
        1 => JumpTest::Zero,
        2 => JumpTest::NotCarry,
        _ => JumpTest::Carry,
    }
}

fn from_prefixed_byte(byte: u8) -> (r: Instruction)
    ensures
        r == decoded_prefixed(byte),
{
    let target = byte_operand_of(byte);
    let operation = byte / 8;
    if operation < 8 {
        match operation {
            0 => Instruction::RLC(target),
            1 => Instruction::RRC(target),
            2 => Instruction::RL(target),
            3 => Instruction::RR(target),
            4 => Instruction::SLA(target),
            5 => Instruction::SRA(target),
            6 => Instruction::SWAP(target),
            _ => Instruction::SRL(target),
        }
    } else if operation < 16 {
        Instruction::BIT(operation % 8, target)
    } else if operation < 24 {
        Instruction::RES(operation % 8, target)
    } else {
        Instruction::SET(operation % 8, target)
    }
}

fn from_single_byte(byte: u8) -> (r: Option<Instruction>)
    ensures
        r == decoded_single(byte),
{
    if 0x80 <= byte && byte < 0xC0 {
        Some(accumulator_operation_of(byte / 8, byte_operand_of(byte)))
    } else if byte >= 0xC0 && byte % 8 == 6 {
        Some(accumulator_operation_of(byte / 8, ArithmeticTarget::Constant))
    } else if byte < 0x40 && byte % 8 == 4 {
        Some(Instruction::INC(IndDecTarget::Byte(byte_operand_of(byte / 8))))
    } else if byte < 0x40 && byte % 8 == 5 {
        Some(Instruction::DEC(IndDecTarget::Byte(byte_operand_of(byte / 8))))
    } else if byte < 0x40 && byte % 16 == 0x3 {
        Some(Instruction::INC(IndDecTarget::Word(word_operand_of(byte / 16))))
    } else if byte < 0x40 && byte % 16 == 0xB {
        Some(Instruction::DEC(IndDecTarget::Word(word_operand_of(byte / 16))))
    } else if byte < 0x40 && byte % 16 == 0x9 {
        Some(Instruction::ADDHL(word_operand_of(byte / 16)))
    } else if 0x20 <= byte && byte < 0x40 && byte % 8 == 0 {
        Some(Instruction::JR(jump_condition_of(byte / 8)))
    } else if 0xC0 <= byte && byte < 0xE0 && byte % 8 == 2 {
        Some(Instruction::JP(jump_condition_of(byte / 8)))
    } else {
        match byte {
            0x00 => Some(Instruction::NOP),
            0x07 => Some(Instruction::RLCA),
            0x0F => Some(Instruction::RRCA),
            0x17 => Some(Instruction::RLA),
            0x18 => Some(Instruction::JR(JumpTest::Always)),
            0x1F => Some(Instruction::RRA),
            0x2F => Some(Instruction::CPL),
            0x37 => Some(Instruction::SCF),
            0x3F => Some(Instruction::CCF),
            0xC3 => Some(Instruction::JP(JumpTest::Always)),
            0xE8 => Some(Instruction::ADDSP),
            0xE9 => Some(Instruction::JPHL),
            _ => None,
        }
    }
}

impl Instruction {
    /// Decodes `byte`, read after the prefix byte when `prefixed`; an
    /// unmapped byte is an unknown instruction.
    pub fn from_byte(byte: u8, prefixed: bool) -> (r: Result<Instruction, EmulatorError>)
        ensures
            match decoded(byte, prefixed) {
                Some(instruction) => r == Ok::<Instruction, EmulatorError>(instruction),
                None => r == Err::<Instruction, EmulatorError>(
                    EmulatorError::UnknownInstruction(byte),
                ),
            },
    {
        if prefixed {
            Ok(from_prefixed_byte(byte))
        } else {
            match from_single_byte(byte) {
                Some(instruction) => Ok(instruction),
                None => Err(EmulatorError::UnknownInstruction(byte)),
            }
        }
    }
}

} // verus!
