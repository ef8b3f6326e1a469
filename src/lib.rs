//! Instruction-execution core of a Game Boy CPU: register file, flat memory
//! bus, ALU primitives with their exact flag effects, operand addressing,
//! instruction decoding and the fetch-decode-execute step.

pub mod flags_register;
pub mod emulator_error;
pub mod arithmetic;
pub mod logical;
pub mod rotation;
pub mod bit;
pub mod memory_bus;
pub mod registers;
pub mod cpu;
pub mod arithmetic_target;
pub mod arithmetic_target_pair;
pub mod jump;
pub mod instruction;
