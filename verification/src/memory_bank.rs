//! The data memory: a bounded, byte-addressable store of fixed capacity
//! with memory-mapped I/O at offset 0x20.  Addresses are 16-bit; address
//! arithmetic elsewhere in the core wraps modulo 2^16, never modulo the
//! capacity.

use vstd::prelude::*;

verus! {

/// A contiguous byte-addressable region of fixed capacity.  The core never
/// allocates, frees or resizes it; it only reads and writes bytes.
pub struct MemoryBank {
    pub data: Vec<u8>,
}

impl MemoryBank {
    /// The capacity is fixed at construction, at least one byte and at most
    /// the full 16-bit address space.
    pub open spec fn wf(&self) -> bool {
        1 <= self.data@.len() <= 0x10000
    }

    /// A fresh memory of `size` zero bytes.
    pub fn new(size: usize) -> (bank: MemoryBank)
        requires
            1 <= size <= 0x10000,
        ensures
            bank.wf(),
            bank.data@ =~= Seq::new(size as nat, |i: int| 0u8),
    {
        let mut data: Vec<u8> = Vec::new();
        let mut i: usize = 0;
        while i < size
            invariant
                i <= size,
                data@ =~= Seq::new(i as nat, |j: int| 0u8),
            decreases size - i,
        {
            data.push(0);
            i = i + 1;
        }
        MemoryBank { data }
    }

    /// The fixed capacity in bytes.
    pub fn data_size(&self) -> (n: usize)
        ensures
            n == self.data@.len(),
    {
        self.data.len()
    }

    /// Read the byte at `address`; the address must lie inside the region.
    pub fn get_data_byte(&self, address: u16) -> (b: u8)
        requires
            address < self.data@.len(),
        ensures
            b == self.data@[address as int],
    {
        self.data[address as usize]
    }

    /// Write the byte at `address`; the address must lie inside the region.
    pub fn set_data_byte(&mut self, address: u16, value: u8)
        requires
            address < old(self).data@.len(),
        ensures
            final(self).data@ == old(self).data@.update(address as int, value),
    {
        self.data.set(address as usize, value);
    }
}

} // verus!
