//! The two ways an instruction can go wrong.

use vstd::prelude::*;

verus! {

#[derive(Debug, PartialEq, Eq, Structural)]
pub enum EmulatorError {
    /// A bit index outside `0..=7`.
    OutOfBoundsIndex(u8),
    /// An opcode byte with no instruction mapped to it.
    UnknownInstruction(u8),
}

} // verus!
