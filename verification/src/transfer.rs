//! Transfer instructions: load-immediate, memory-mapped I/O, the stack
//! push/pop pair, and indexed load/store through a pointer register pair.

use vstd::prelude::*;
use crate::alu::Alu;
use crate::instruction::PointerRegister;
use crate::memory_bank::MemoryBank;
use crate::register_bank::RegisterBank;

verus! {

/// Data-memory address of an 8-bit I/O-space address: the I/O window is
/// mapped at offset 0x20.
pub open spec fn io_address(address: u8) -> int {
    address + 0x20
}

/// The stack pointer after a push: a pointer at zero first wraps to the
/// top of the data space (the convention of a descending stack seeded at
/// the top of RAM), then the pointer moves down one byte.
pub open spec fn push_wrap(sp: u16, capacity: int) -> u16 {
    if sp == 0 {
        (capacity - 1) as u16
    } else {
        (sp - 1) as u16
    }
}

/// Effect of the I/O transfer on the registers and the memory: `in` reads
/// the mapped cell into the register, `out` writes the register to the
/// mapped cell.
pub open spec fn spec_in_out(is_in: bool, reg: u8, address: u8, regs: Seq<u8>, mem: Seq<u8>)
    -> (Seq<u8>, Seq<u8>) {
    if is_in {
        (regs.update(reg as int, mem[io_address(address)]), mem)
    } else {
        (regs, mem.update(io_address(address), regs[reg as int]))
    }
}

/// Effect of push/pop on the registers, the stack pointer and the memory:
/// pop moves the pointer up one byte and reads the cell it then names;
/// push moves the pointer down one byte (wrapping at zero to the top of
/// the data space) and writes the register to the cell it then names.
pub open spec fn spec_push_pop(is_pop: bool, reg: u8, regs: Seq<u8>, sp: u16, mem: Seq<u8>)
    -> (Seq<u8>, u16, Seq<u8>) {
    if is_pop {
        let sp2 = (sp + 1) as u16;
        (regs.update(reg as int, mem[sp2 as int]), sp2, mem)
    } else {
        let sp2 = push_wrap(sp, mem.len() as int);
        (regs, sp2, mem.update(sp2 as int, regs[reg as int]))
    }
}

/// The data-memory address named by a pointer register pair plus an
/// unsigned 8-bit displacement, wrapping modulo 2^16 (never modulo the
/// capacity).
pub open spec fn indirect_address(regs: Seq<u8>, base_reg: PointerRegister, offset: u8) -> int {
    let b = base_reg.spec_low_index() as int;
    (regs[b] + 256 * regs[b + 1] + offset) % 0x10000
}

/// Effect of the indexed transfer on the registers and the memory: a load
/// reads the addressed cell into `reg`, a store writes `reg` to it.
pub open spec fn spec_transfer_indirect(is_load: bool, base_reg: PointerRegister, reg: u8,
    offset: u8, regs: Seq<u8>, mem: Seq<u8>) -> (Seq<u8>, Seq<u8>) {
    let address = indirect_address(regs, base_reg, offset);
    if is_load {
        (regs.update(reg as int, mem[address]), mem)
    } else {
        (regs, mem.update(address, regs[reg as int]))
    }
}

/// Law: a push with the stack pointer at zero first wraps it to the
/// capacity before decrementing, so the pointer lands on the last cell of
/// the data space and the register byte is written there.
pub proof fn push_wraps_at_zero(regs: Seq<u8>, mem: Seq<u8>, reg: u8)
    requires
        regs.len() == 32,
        reg < 32,
        1 <= mem.len() <= 0x10000,
    ensures
        ({
            let (regs1, sp1, mem1) = spec_push_pop(false, reg, regs, 0, mem);
            sp1 == mem.len() - 1 && mem1 == mem.update(mem.len() - 1, regs[reg as int])
                && regs1 == regs
        }),
{
}

/// Law: a push followed by a pop on the same register restores the stack
/// pointer whenever it did not start at zero.  The pair is not an inverse
/// on the register: the push writes one cell below the original pointer,
/// while the pop — which moves up before reading — rereads the cell at the
/// original pointer, so the register receives that memory byte instead of
/// its old value (and keeps its old value exactly when the two agree).
pub proof fn push_then_pop(regs: Seq<u8>, sp: u16, mem: Seq<u8>, reg: u8)
    requires
        regs.len() == 32,
        reg < 32,
        1 <= mem.len() <= 0x10000,
        0 < sp < mem.len(),
    ensures
        ({
            let (regs1, sp1, mem1) = spec_push_pop(false, reg, regs, sp, mem);
            let (regs2, sp2, mem2) = spec_push_pop(true, reg, regs1, sp1, mem1);
            sp2 == sp && mem1 == mem.update(sp - 1, regs[reg as int]) && mem2 == mem1
                && regs2 == regs.update(reg as int, mem[sp as int])
                && (mem[sp as int] == regs[reg as int] ==> regs2 =~= regs)
        }),
{
    let (regs1, sp1, mem1) = spec_push_pop(false, reg, regs, sp, mem);
    let (regs2, sp2, mem2) = spec_push_pop(true, reg, regs1, sp1, mem1);
    assert(mem1[sp as int] == mem[sp as int]);
}

/// Law: a store through a pointer register pair followed by a load at the
/// same base register and displacement returns the stored byte, so the
/// registers are unchanged and the memory holds the stored byte at the
/// resolved address.
pub proof fn store_then_load_round_trip(regs: Seq<u8>, mem: Seq<u8>,
    base_reg: PointerRegister, reg: u8, offset: u8)
    requires
        regs.len() == 32,
        reg < 32,
        indirect_address(regs, base_reg, offset) < mem.len(),
    ensures
        ({
            let a = indirect_address(regs, base_reg, offset);
            let (regs1, mem1) = spec_transfer_indirect(false, base_reg, reg, offset, regs, mem);
            let (regs2, mem2) = spec_transfer_indirect(true, base_reg, reg, offset, regs1,
                mem1);
            mem1 == mem.update(a, regs[reg as int]) && mem2 == mem1 && regs2 =~= regs
        }),
{
    let a = indirect_address(regs, base_reg, offset);
    let (regs1, mem1) = spec_transfer_indirect(false, base_reg, reg, offset, regs, mem);
    let (regs2, mem2) = spec_transfer_indirect(true, base_reg, reg, offset, regs1, mem1);
    assert(mem1[a] == regs[reg as int]);
    assert(regs2 =~= regs);
}

/// Law: an `out` to an I/O address followed by an `in` from the same
/// address returns the value written, and the one memory cell touched is
/// the address plus the 0x20 window offset.
pub proof fn out_then_in_round_trip(regs: Seq<u8>, mem: Seq<u8>, reg: u8, address: u8)
    requires
        regs.len() == 32,
        reg < 32,
        io_address(address) < mem.len(),
    ensures
        ({
            let (regs1, mem1) = spec_in_out(false, reg, address, regs, mem);
            let (regs2, mem2) = spec_in_out(true, reg, address, regs1, mem1);
            mem1 == mem.update(io_address(address), regs[reg as int]) && mem2 == mem1
                && regs2 =~= regs
        }),
{
    let (regs1, mem1) = spec_in_out(false, reg, address, regs, mem);
    let (regs2, mem2) = spec_in_out(true, reg, address, regs1, mem1);
    assert(mem1[io_address(address)] == regs[reg as int]);
    assert(regs2 =~= regs);
}

impl Alu {
    /// Unconditional register write of a constant; no flags change.
    pub fn load_immediate(rdu: usize, constant: u8, register_bank: &mut RegisterBank)
        requires
            old(register_bank).wf(),
            rdu < 32,
        ensures
            final(register_bank).wf(),
            final(register_bank).registers@ == old(register_bank).registers@.update(rdu as int,
                constant),
            final(register_bank).flags == old(register_bank).flags,
            final(register_bank).stack_pointer == old(register_bank).stack_pointer,
    {
        register_bank.registers.set(rdu, constant);
    }

    /// Memory-mapped I/O transfer: the 8-bit I/O-space address is mapped
    /// to data memory by adding 0x20; `is_in` reads memory into the
    /// register, otherwise the register is written to memory.
    pub fn in_out(is_in: bool, reg: u8, address: u8, register_bank: &mut RegisterBank,
        memory_bank: &mut MemoryBank)
        requires
            old(register_bank).wf(),
            old(memory_bank).wf(),
            reg < 32,
            io_address(address) < old(memory_bank).data@.len(),
        ensures
            final(register_bank).wf(),
            final(memory_bank).wf(),
            (final(register_bank).registers@, final(memory_bank).data@) == spec_in_out(is_in,
                reg, address, old(register_bank).registers@, old(memory_bank).data@),
            final(register_bank).flags == old(register_bank).flags,
            final(register_bank).stack_pointer == old(register_bank).stack_pointer,
    {
        let real_address: u16 = address as u16 + 0x20;
        if is_in {
            let data = memory_bank.get_data_byte(real_address);
            register_bank.registers.set(reg as usize, data);
        } else {
            let data = register_bank.registers[reg as usize];
            memory_bank.set_data_byte(real_address, data);
        }
    }

    /// Stack transfer: pop moves the stack pointer up one byte and reads
    /// the cell it then names into the register; push moves it down one
    /// byte — wrapping from zero to the top of the data space — and writes
    /// the register to the cell it then names.
    pub fn push_pop(is_pop: bool, reg: u8, register_bank: &mut RegisterBank,
        memory_bank: &mut MemoryBank)
        requires
            old(register_bank).wf(),
            old(memory_bank).wf(),
            reg < 32,
            is_pop ==> old(register_bank).stack_pointer + 1 < old(memory_bank).data@.len(),
            !is_pop ==> old(register_bank).stack_pointer <= old(memory_bank).data@.len(),
        ensures
            final(register_bank).wf(),
            final(memory_bank).wf(),
            (final(register_bank).registers@, final(register_bank).stack_pointer,
                final(memory_bank).data@) == spec_push_pop(is_pop, reg,
                old(register_bank).registers@, old(register_bank).stack_pointer,
                old(memory_bank).data@),
            final(register_bank).flags == old(register_bank).flags,
    {
        if is_pop {
            register_bank.stack_pointer = register_bank.stack_pointer + 1;
            let data = memory_bank.get_data_byte(register_bank.stack_pointer);
            register_bank.registers.set(reg as usize, data);
        } else {
            if register_bank.stack_pointer == 0 {
                register_bank.stack_pointer = (memory_bank.data_size() - 1) as u16;
            } else {
                register_bank.stack_pointer = register_bank.stack_pointer - 1;
            }
            let data = register_bank.registers[reg as usize];
            memory_bank.set_data_byte(register_bank.stack_pointer, data);
        }
    }

    /// Indexed transfer: resolves the pointer register pair to a 16-bit
    /// base address, adds the unsigned displacement with 16-bit wraparound,
    /// then loads into or stores from `reg` at that address.
    pub fn transfer_indirect(is_load: bool, base_reg: PointerRegister, reg: u8, offset: u8,
        register_bank: &mut RegisterBank, memory_bank: &mut MemoryBank)
        requires
            old(register_bank).wf(),
            old(memory_bank).wf(),
            reg < 32,
            indirect_address(old(register_bank).registers@, base_reg, offset)
                < old(memory_bank).data@.len(),
        ensures
            final(register_bank).wf(),
            final(memory_bank).wf(),
            (final(register_bank).registers@, final(memory_bank).data@)
                == spec_transfer_indirect(is_load, base_reg, reg, offset,
                old(register_bank).registers@, old(memory_bank).data@),
            final(register_bank).flags == old(register_bank).flags,
            final(register_bank).stack_pointer == old(register_bank).stack_pointer,
    {
        let base_reg_num = base_reg.low_index();
        let base_address_lo = register_bank.registers[base_reg_num as usize];
        let base_address_hi = register_bank.registers[base_reg_num as usize + 1];
        let wide: u32 = base_address_lo as u32 + 256 * (base_address_hi as u32)
            + offset as u32;
        let address: u16 = (wide % 0x10000) as u16;
        if is_load {
            let data = memory_bank.get_data_byte(address);
            register_bank.registers.set(reg as usize, data);
        } else {
            let data = register_bank.registers[reg as usize];
            memory_bank.set_data_byte(address, data);
        }
    }
}

} // verus!
