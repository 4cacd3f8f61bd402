//! The register bank: 32 general-purpose 8-bit registers, the 16-bit stack
//! pointer, and the status flags.  Owned by one emulated CPU instance and
//! mutated only through `execute`.

use vstd::prelude::*;

verus! {

/// The status register: five arithmetic flags plus the global
/// interrupt-enable flag.  Every carry-producing arithmetic operation
/// updates the arithmetic flags; the interrupt flag is only restored by a
/// return-from-interrupt.
#[derive(Clone, Copy, PartialEq, Eq, Structural, Debug)]
pub struct StatusFlags {
    /// Carry-out (addition) or borrow-out (subtraction) of the last
    /// arithmetic result: the ninth bit.
    pub carry: bool,
    /// The last result was zero.
    pub zero: bool,
    /// Sign bit of the last result.
    pub negative: bool,
    /// Two's-complement signed overflow of the last result.
    pub overflow: bool,
    /// Carry or borrow out of bit 3 into bit 4 of the last result.
    pub half_carry: bool,
    /// Global interrupt enable.
    pub interrupt: bool,
}

impl StatusFlags {
    /// All flags cleared, the reset state.
    pub open spec fn all_clear() -> StatusFlags {
        StatusFlags {
            carry: false,
            zero: false,
            negative: false,
            overflow: false,
            half_carry: false,
            interrupt: false,
        }
    }

    /// A fresh status register with every flag cleared.
    pub fn new() -> (f: StatusFlags)
        ensures
            f == StatusFlags::all_clear(),
    {
        StatusFlags {
            carry: false,
            zero: false,
            negative: false,
            overflow: false,
            half_carry: false,
            interrupt: false,
        }
    }
}

/// 32 one-byte registers, a 16-bit stack pointer into data-memory address
/// space, and the status flags.
pub struct RegisterBank {
    pub registers: Vec<u8>,
    pub stack_pointer: u16,
    pub flags: StatusFlags,
}

impl RegisterBank {
    /// The bank always holds exactly 32 register cells.
    pub open spec fn wf(&self) -> bool {
        self.registers@.len() == 32
    }

    /// A fresh bank: all registers zero, stack pointer zero, flags clear.
    pub fn new() -> (bank: RegisterBank)
        ensures
            bank.wf(),
            bank.registers@ =~= Seq::new(32, |i: int| 0u8),
            bank.stack_pointer == 0,
            bank.flags == StatusFlags::all_clear(),
    {
        let mut registers: Vec<u8> = Vec::new();
        let mut i: usize = 0;
        while i < 32
            invariant
                i <= 32,
                registers@ =~= Seq::new(i as nat, |j: int| 0u8),
            decreases 32 - i,
        {
            registers.push(0);
            i = i + 1;
        }
        RegisterBank { registers, stack_pointer: 0, flags: StatusFlags::new() }
    }

    /// The carry flag as the 0/1 value that carry-in arithmetic consumes.
    pub fn get_carry_as_u8(&self) -> (c: u8)
        ensures
            c == (if self.flags.carry { 1u8 } else { 0u8 }),
    {
        if self.flags.carry {
            1
        } else {
            0
        }
    }
}

} // verus!
