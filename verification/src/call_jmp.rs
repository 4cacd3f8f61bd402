//! Call, jump and return instructions.  The program counter lives in the
//! fetch loop, so these operations only move the stack and report the
//! transfer outward: a call pushes the return address (the word address of
//! the instruction after it, supplied by the fetch loop) through the same
//! stack mechanics as push, then signals the target; a return pops the
//! address back and signals it.

use vstd::prelude::*;
use crate::alu::Alu;
use crate::instruction::ControlSignal;
use crate::memory_bank::MemoryBank;
use crate::register_bank::{RegisterBank, StatusFlags};
use crate::transfer::push_wrap;

verus! {

/// Effect of a call or jump on the stack pointer and the memory, with the
/// signal handed to the fetch loop.  A call pushes the return address high
/// byte first, then the low byte; a jump pushes nothing.
pub open spec fn spec_calljmp(is_call: bool, relative: bool, address: u16, next_address: u16,
    sp: u16, mem: Seq<u8>) -> (u16, Seq<u8>, ControlSignal) {
    let signal = ControlSignal::Jump { relative, address };
    if is_call {
        let hi = (next_address / 256) as u8;
        let lo = (next_address % 256) as u8;
        let sp1 = push_wrap(sp, mem.len() as int);
        let mem1 = mem.update(sp1 as int, hi);
        let sp2 = push_wrap(sp1, mem.len() as int);
        let mem2 = mem1.update(sp2 as int, lo);
        (sp2, mem2, signal)
    } else {
        (sp, mem, signal)
    }
}

/// Effect of a return: two bytes are popped — low byte first, undoing the
/// push order of a call — and joined into the absolute target; a return
/// from interrupt additionally restores the global interrupt-enable flag.
pub open spec fn spec_ret(is_interrupt: bool, sp: u16, flags: StatusFlags, mem: Seq<u8>)
    -> (u16, StatusFlags, ControlSignal) {
    let sp1 = (sp + 1) as u16;
    let lo = mem[sp1 as int];
    let sp2 = (sp1 + 1) as u16;
    let hi = mem[sp2 as int];
    let address = (lo + 256 * hi) as u16;
    let flags2 = StatusFlags {
        carry: flags.carry,
        zero: flags.zero,
        negative: flags.negative,
        overflow: flags.overflow,
        half_carry: flags.half_carry,
        interrupt: flags.interrupt || is_interrupt,
    };
    (sp2, flags2, ControlSignal::Return { address })
}

impl Alu {
    /// Push one byte with the stack mechanics of `push_pop`: wrap a zero
    /// pointer to the top of the data space, move down one byte, write.
    fn push_byte(value: u8, register_bank: &mut RegisterBank, memory_bank: &mut MemoryBank)
        requires
            old(memory_bank).wf(),
            old(register_bank).stack_pointer <= old(memory_bank).data@.len(),
        ensures
            final(memory_bank).wf(),
            final(register_bank).stack_pointer == push_wrap(old(register_bank).stack_pointer,
                old(memory_bank).data@.len() as int),
            final(memory_bank).data@ == old(memory_bank).data@.update(
                final(register_bank).stack_pointer as int, value),
            final(register_bank).registers@ == old(register_bank).registers@,
            final(register_bank).flags == old(register_bank).flags,
    {
        if register_bank.stack_pointer == 0 {
            register_bank.stack_pointer = (memory_bank.data_size() - 1) as u16;
        } else {
            register_bank.stack_pointer = register_bank.stack_pointer - 1;
        }
        memory_bank.set_data_byte(register_bank.stack_pointer, value);
    }

    /// Pop one byte with the stack mechanics of `push_pop`: move up one
    /// byte, read the cell the pointer then names.
    fn pop_byte(register_bank: &mut RegisterBank, memory_bank: &MemoryBank) -> (value: u8)
        requires
            memory_bank.wf(),
            old(register_bank).stack_pointer + 1 < memory_bank.data@.len(),
        ensures
            final(register_bank).stack_pointer == old(register_bank).stack_pointer + 1,
            value == memory_bank.data@[final(register_bank).stack_pointer as int],
            final(register_bank).registers@ == old(register_bank).registers@,
            final(register_bank).flags == old(register_bank).flags,
    {
        register_bank.stack_pointer = register_bank.stack_pointer + 1;
        memory_bank.get_data_byte(register_bank.stack_pointer)
    }

    /// A call pushes the return address as two bytes (high byte first) and
    /// signals the target; a jump only signals the target.
    pub fn execute_calljmp(is_call: bool, relative: bool, address: u16, next_address: u16,
        register_bank: &mut RegisterBank, memory_bank: &mut MemoryBank) -> (signal: ControlSignal)
        requires
            old(register_bank).wf(),
            old(memory_bank).wf(),
            is_call ==> old(register_bank).stack_pointer <= old(memory_bank).data@.len(),
        ensures
            final(register_bank).wf(),
            final(memory_bank).wf(),
            (final(register_bank).stack_pointer, final(memory_bank).data@, signal)
                == spec_calljmp(is_call, relative, address, next_address,
                old(register_bank).stack_pointer, old(memory_bank).data@),
            final(register_bank).registers@ == old(register_bank).registers@,
            final(register_bank).flags == old(register_bank).flags,
    {
        if is_call {
            let hi = (next_address / 256) as u8;
            let lo = (next_address % 256) as u8;
            Alu::push_byte(hi, register_bank, memory_bank);
            Alu::push_byte(lo, register_bank, memory_bank);
        }
        ControlSignal::Jump { relative, address }
    }

    /// Pops the two-byte return address (low byte first) and signals it;
    /// a return from interrupt also re-enables interrupts.
    pub fn execute_ret(is_interrupt: bool, register_bank: &mut RegisterBank,
        memory_bank: &mut MemoryBank) -> (signal: ControlSignal)
        requires
            old(register_bank).wf(),
            old(memory_bank).wf(),
            old(register_bank).stack_pointer + 2 < old(memory_bank).data@.len(),
        ensures
            final(register_bank).wf(),
            final(memory_bank).wf(),
            (final(register_bank).stack_pointer, final(register_bank).flags, signal)
                == spec_ret(is_interrupt, old(register_bank).stack_pointer,
                old(register_bank).flags, old(memory_bank).data@),
            final(register_bank).registers@ == old(register_bank).registers@,
            final(memory_bank).data@ == old(memory_bank).data@,
    {
        let lo = Alu::pop_byte(register_bank, memory_bank);
        let hi = Alu::pop_byte(register_bank, memory_bank);
        let address: u16 = lo as u16 + 256 * (hi as u16);
        if is_interrupt {
            register_bank.flags = StatusFlags {
                carry: register_bank.flags.carry,
                zero: register_bank.flags.zero,
                negative: register_bank.flags.negative,
                overflow: register_bank.flags.overflow,
                half_carry: register_bank.flags.half_carry,
                interrupt: true,
            };
        }
        ControlSignal::Return { address }
    }
}

} // verus!
