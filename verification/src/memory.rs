//! The memory-device capability the CPU core consumes: a synchronous,
//! side-effect-free read of one byte at an arbitrary 16-bit address. Every
//! address is treated as readable; fault behaviour belongs to the device
//! itself and reaches this core only as a returned byte. A flat in-memory
//! byte array implements the capability so the core can be exercised without
//! the rest of an emulator.

use vstd::prelude::*;

verus! {

/// A device the CPU reads code and operand bytes from.
pub trait MemoryDevice: Sized {
    /// The byte the device holds at an address, as a mathematical function
    /// of the device's current state.
    spec fn spec_read(&self, address: u16) -> u8;

    /// Reads one byte at a 16-bit address. Always succeeds.
    fn read_byte(&self, address: u16) -> (r: u8)
        ensures
            r == self.spec_read(address),
    ;
}

/// A flat byte array behind the memory capability: addresses inside the
/// array read its bytes, addresses past its end read zero.
pub struct FlatMemory {
    pub bytes: Vec<u8>,
}

impl MemoryDevice for FlatMemory {
    open spec fn spec_read(&self, address: u16) -> u8 {
        if (address as int) < self.bytes@.len() {
            self.bytes@[address as int]
        } else {
            0
        }
    }

    fn read_byte(&self, address: u16) -> (r: u8) {
        if (address as usize) < self.bytes.len() {
            self.bytes[address as usize]
        } else {
            0
        }
    }
}

} // verus!
