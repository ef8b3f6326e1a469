//! A flat byte store over the whole 16-bit address space.

use vstd::prelude::*;

verus! {

/// Number of addressable bytes: every 16-bit address has its own slot.
pub const MEMORY_SIZE: usize = 0x10000;

/// `value` reduced to a 16-bit address, wrapping around the address space.
pub open spec fn wrap16(value: int) -> u16 {
    (value % 0x10000) as u16
}

pub struct MemoryBus {
    memory: [u8; MEMORY_SIZE],
}

impl View for MemoryBus {
    type V = Seq<u8>;

    closed spec fn view(&self) -> Seq<u8> {
        self.memory@
    }
}

impl MemoryBus {
    /// A bus whose every byte is zero.
    pub fn new() -> (r: MemoryBus)
        ensures
            forall|i: int| 0 <= i < MEMORY_SIZE ==> r@[i] == 0,
    {
        MemoryBus { memory: [0x00u8; MEMORY_SIZE] }
    }

    pub fn read_byte(&self, address: u16) -> (r: u8)
        ensures
            r == self@[address as int],
    {
        self.memory[address as usize]
    }

    pub fn write_byte(&mut self, address: u16, new_value: u8)
        ensures
            final(self)@ == old(self)@.update(address as int, new_value),
    {
        self.memory[address as usize] = new_value;
    }
}

} // verus!
