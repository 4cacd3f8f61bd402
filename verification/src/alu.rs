//! The execution unit: a total dispatcher over every instruction variant.
//! Side effects are confined to the register bank and the data memory; the
//! control-flow outcome is reported outward as a `ControlSignal`.
//!
//! `spec_execute` is the complete functional model of one execution step,
//! and `Alu::execute` is proved to realise it exactly.

use vstd::prelude::*;
use crate::arithmetic_logic::{spec_arith_with_constant, spec_arithmetic, spec_one_reg};
use crate::branch::spec_branch;
use crate::call_jmp::{spec_calljmp, spec_ret};
use crate::instruction::{ControlSignal, Instruction, PointerRegister};
use crate::memory_bank::MemoryBank;
use crate::register_bank::{RegisterBank, StatusFlags};
use crate::transfer::{indirect_address, io_address, spec_in_out, spec_push_pop,
    spec_transfer_indirect};

verus! {

/// Executes decoded instructions against a register bank and a memory bank.
pub struct Alu;

/// The mathematical state of one CPU instance: register contents, stack
/// pointer, status flags and data memory.
pub ghost struct CoreState {
    pub regs: Seq<u8>,
    pub sp: u16,
    pub flags: StatusFlags,
    pub mem: Seq<u8>,
}

/// The abstract state held by a register bank and a memory bank.
pub open spec fn state_of(register_bank: RegisterBank, memory_bank: MemoryBank) -> CoreState {
    CoreState {
        regs: register_bank.registers@,
        sp: register_bank.stack_pointer,
        flags: register_bank.flags,
        mem: memory_bank.data@,
    }
}

/// The inputs on which `execute` is defined: the instruction satisfies the
/// data-model range invariants that every decoded instruction has, and
/// every memory cell the instruction touches lies inside the data region
/// (an access beyond the region has no defined meaning in this model).
pub open spec fn exec_safe(instruction: Instruction, register_bank: RegisterBank,
    memory_bank: MemoryBank) -> bool {
    match instruction {
        Instruction::Nop => true,
        Instruction::TwoRegOp { op, rd, rr } => rd < 32 && rr < 32,
        Instruction::RegConstOp { op, rd, constant } => rd < 16,
        Instruction::OneRegOp { fields } => match fields {
            Some(f) => f.rd < 32,
            None => true,
        },
        Instruction::TransferIndirect { is_load, base_reg, reg, offset } => reg < 32
            && indirect_address(register_bank.registers@, base_reg, offset)
                < memory_bank.data@.len(),
        Instruction::PushPop { is_pop, reg } => reg < 32 && (if is_pop {
            register_bank.stack_pointer + 1 < memory_bank.data@.len()
        } else {
            register_bank.stack_pointer <= memory_bank.data@.len()
        }),
        Instruction::InOut { is_in, reg, address } => reg < 32
            && io_address(address) < memory_bank.data@.len(),
        Instruction::CallJmp { is_call, relative, address } => is_call
            ==> register_bank.stack_pointer <= memory_bank.data@.len(),
        Instruction::Ret { is_interrupt } => register_bank.stack_pointer + 2
            < memory_bank.data@.len(),
        Instruction::Branch { op, test_set, offset } => true,
        Instruction::Unsupported { instruction } => true,
    }
}

/// The functional model of one execution step: the state after the
/// instruction and the signal handed to the fetch loop.  `Unsupported`
/// words and the undecoded single-register marker change nothing — the
/// core never fails on them.
pub open spec fn spec_execute(instruction: Instruction, next_address: u16, s: CoreState)
    -> (CoreState, ControlSignal) {
    match instruction {
        Instruction::Nop => (s, ControlSignal::Proceed),
        Instruction::Branch { op, test_set, offset } => (s, spec_branch(op, test_set, offset,
            s.flags)),
        Instruction::CallJmp { is_call, relative, address } => {
            let (sp2, mem2, signal) = spec_calljmp(is_call, relative, address, next_address,
                s.sp, s.mem);
            (CoreState { sp: sp2, mem: mem2, ..s }, signal)
        },
        Instruction::InOut { is_in, reg, address } => {
            let (regs2, mem2) = spec_in_out(is_in, reg, address, s.regs, s.mem);
            (CoreState { regs: regs2, mem: mem2, ..s }, ControlSignal::Proceed)
        },
        Instruction::PushPop { is_pop, reg } => {
            let (regs2, sp2, mem2) = spec_push_pop(is_pop, reg, s.regs, s.sp, s.mem);
            (CoreState { regs: regs2, sp: sp2, mem: mem2, ..s }, ControlSignal::Proceed)
        },
        Instruction::RegConstOp { op, rd, constant } => {
            let (regs2, flags2) = spec_arith_with_constant(op, rd, constant, s.regs, s.flags);
            (CoreState { regs: regs2, flags: flags2, ..s }, ControlSignal::Proceed)
        },
        Instruction::Ret { is_interrupt } => {
            let (sp2, flags2, signal) = spec_ret(is_interrupt, s.sp, s.flags, s.mem);
            (CoreState { sp: sp2, flags: flags2, ..s }, signal)
        },
        Instruction::TransferIndirect { is_load, base_reg, reg, offset } => {
            let (regs2, mem2) = spec_transfer_indirect(is_load, base_reg, reg, offset, s.regs,
                s.mem);
            (CoreState { regs: regs2, mem: mem2, ..s }, ControlSignal::Proceed)
        },
        Instruction::TwoRegOp { op, rd, rr } => {
            let (regs2, flags2, skip) = spec_arithmetic(op, rd, rr, s.regs, s.flags);
            (CoreState { regs: regs2, flags: flags2, ..s }, if skip {
                ControlSignal::Skip
            } else {
                ControlSignal::Proceed
            })
        },
        Instruction::OneRegOp { fields } => match fields {
            Some(f) => {
                let (regs2, flags2) = spec_one_reg(f.op, f.rd, s.regs, s.flags);
                (CoreState { regs: regs2, flags: flags2, ..s }, ControlSignal::Proceed)
            },
            None => (s, ControlSignal::Proceed),
        },
        Instruction::Unsupported { instruction } => (s, ControlSignal::Proceed),
    }
}

/// Law: the decode fallback word and the undecoded single-register marker
/// are inert — executing either leaves every register, flag and memory
/// byte unchanged and lets the fetch loop proceed normally.
pub proof fn unhandled_instructions_are_inert(raw: u16, next_address: u16, s: CoreState)
    ensures
        spec_execute(Instruction::Unsupported { instruction: raw }, next_address, s)
            == (s, ControlSignal::Proceed),
        spec_execute(Instruction::OneRegOp { fields: None }, next_address, s)
            == (s, ControlSignal::Proceed),
{
}

impl Alu {
    /// Executes a decoded instruction, using the registers in
    /// `register_bank` and the data in `memory_bank`, and reports the
    /// control-flow outcome.  `next_address` is the word address of the
    /// instruction after this one, supplied by the fetch loop; only a call
    /// uses it, as the return address to push.  The step is exactly
    /// `spec_execute`.
    pub fn execute(instruction: &Instruction, next_address: u16,
        register_bank: &mut RegisterBank, memory_bank: &mut MemoryBank) -> (signal: ControlSignal)
        requires
            old(register_bank).wf(),
            old(memory_bank).wf(),
            exec_safe(*instruction, *old(register_bank), *old(memory_bank)),
        ensures
            final(register_bank).wf(),
            final(memory_bank).wf(),
            (state_of(*final(register_bank), *final(memory_bank)), signal) == spec_execute(
                *instruction, next_address,
                state_of(*old(register_bank), *old(memory_bank))),
    {
        match instruction {
            Instruction::Nop => ControlSignal::Proceed,
            Instruction::Branch { op, test_set, offset } => Alu::execute_branch(*op, *test_set,
                *offset, register_bank),
            Instruction::CallJmp { is_call, relative, address } => Alu::execute_calljmp(
                *is_call, *relative, *address, next_address, register_bank, memory_bank),
            Instruction::InOut { is_in, reg, address } => {
                Alu::execute_inout(*is_in, *reg, *address, register_bank, memory_bank);
                ControlSignal::Proceed
            },
            Instruction::PushPop { is_pop, reg } => {
                Alu::execute_push_pop(*is_pop, *reg, register_bank, memory_bank);
                ControlSignal::Proceed
            },
            Instruction::RegConstOp { op, rd, constant } => {
                Alu::execute_arith_with_constant(*op, *rd, *constant, register_bank);
                ControlSignal::Proceed
            },
            Instruction::Ret { is_interrupt } => Alu::execute_ret(*is_interrupt, register_bank,
                memory_bank),
            Instruction::TransferIndirect { is_load, base_reg, reg, offset } => {
                Alu::execute_transfer_indirect(*is_load, *base_reg, *reg, *offset,
                    register_bank, memory_bank);
                ControlSignal::Proceed
            },
            Instruction::TwoRegOp { op, rd, rr } => {
                let skip = Alu::execute_arithmetic(*op, *rd, *rr, register_bank);
                if skip {
                    ControlSignal::Skip
                } else {
                    ControlSignal::Proceed
                }
            },
            Instruction::OneRegOp { fields } => {
                match fields {
                    Some(f) => Alu::execute_one_reg_arithmetic(f.op, f.rd, register_bank),
                    None => (),
                }
                ControlSignal::Proceed
            },
            Instruction::Unsupported { instruction: _ } => ControlSignal::Proceed,
        }
    }

    /// Executes one two-register arithmetic or logic instruction and
    /// reports the compare-and-skip outcome.  A subcode outside the family
    /// changes nothing.
    pub fn execute_arithmetic(op: u16, rd: u8, rr: u8, register_bank: &mut RegisterBank)
        -> (skip: bool)
        requires
            old(register_bank).wf(),
            rd < 32,
            rr < 32,
        ensures
            final(register_bank).wf(),
            (final(register_bank).registers@, final(register_bank).flags, skip)
                == spec_arithmetic(op, rd, rr, old(register_bank).registers@,
                old(register_bank).flags),
            final(register_bank).stack_pointer == old(register_bank).stack_pointer,
    {
        let rdu = rd as usize;
        let rru = rr as usize;
        match op {
            0x1 => {
                let carry = register_bank.get_carry_as_u8();
                Alu::compare(rdu, rru, register_bank, carry);
                false
            },
            0x2 => {
                let carry = register_bank.get_carry_as_u8();
                Alu::substract(rdu, rru, register_bank, carry);
                false
            },
            0x3 => {
                Alu::add(rdu, rru, register_bank, 0);
                false
            },
            0x4 => Alu::comp_skip(rdu, rru, register_bank),
            0x5 => {
                Alu::compare(rdu, rru, register_bank, 0);
                false
            },
            0x6 => {
                Alu::substract(rdu, rru, register_bank, 0);
                false
            },
            0x7 => {
                let carry = register_bank.get_carry_as_u8();
                Alu::add(rdu, rru, register_bank, carry);
                false
            },
            0x8 => {
                Alu::and(rdu, rru, register_bank);
                false
            },
            0x9 => {
                Alu::eor(rdu, rru, register_bank);
                false
            },
            0xA => {
                Alu::or(rdu, rru, register_bank);
                false
            },
            0xB..=0xF => {
                Alu::mov(rdu, rru, register_bank);
                false
            },
            _ => false,
        }
    }

    /// Executes one register-versus-immediate instruction.  A subcode
    /// outside the family changes nothing.
    pub fn execute_arith_with_constant(op: u16, rd: u8, constant: u8,
        register_bank: &mut RegisterBank)
        requires
            old(register_bank).wf(),
            rd < 16,
        ensures
            final(register_bank).wf(),
            (final(register_bank).registers@, final(register_bank).flags)
                == spec_arith_with_constant(op, rd, constant, old(register_bank).registers@,
                old(register_bank).flags),
            final(register_bank).stack_pointer == old(register_bank).stack_pointer,
    {
        let rdu = rd as usize;
        match op {
            0x3 => Alu::cpi(rdu + 16, constant, register_bank),
            0x4 => Alu::sbci(rdu + 16, constant, register_bank),
            0x5 => Alu::subi(rdu + 16, constant, register_bank),
            0x6 => Alu::ori(rdu + 16, constant, register_bank),
            0x7 => Alu::andi(rdu + 16, constant, register_bank),
            // Technically a transfer instruction
            0xE => Alu::load_immediate(rdu + 16, constant, register_bank),
            0x96 => Alu::adiw(rdu, constant, register_bank),
            0x97 => Alu::sbiw(rdu, constant, register_bank),
            _ => (),
        }
    }

    /// Executes one single-register instruction.  A subcode outside the
    /// family changes nothing.
    pub fn execute_one_reg_arithmetic(op: u8, rd: u8, register_bank: &mut RegisterBank)
        requires
            old(register_bank).wf(),
            rd < 32,
        ensures
            final(register_bank).wf(),
            (final(register_bank).registers@, final(register_bank).flags) == spec_one_reg(op,
                rd, old(register_bank).registers@, old(register_bank).flags),
            final(register_bank).stack_pointer == old(register_bank).stack_pointer,
    {
        let rdu = rd as usize;
        match op {
            0x0 => Alu::com(rdu, register_bank),
            0x1 => Alu::neg(rdu, register_bank),
            0x2 => Alu::swap(rdu, register_bank),
            0x3 => Alu::inc(rdu, register_bank),
            0x5 => Alu::asr(rdu, register_bank),
            0x6 => Alu::lsr(rdu, register_bank),
            0x7 => Alu::ror(rdu, register_bank),
            _ => (),
        }
    }

    /// Executes the memory-mapped I/O transfer.
    pub fn execute_inout(is_in: bool, reg: u8, address: u8, register_bank: &mut RegisterBank,
        memory_bank: &mut MemoryBank)
        requires
            old(register_bank).wf(),
            old(memory_bank).wf(),
            reg < 32,
            io_address(address) < old(memory_bank).data@.len(),
        ensures
            final(register_bank).wf(),
            final(memory_bank).wf(),
            (final(register_bank).registers@, final(memory_bank).data@) == spec_in_out(is_in,
                reg, address, old(register_bank).registers@, old(memory_bank).data@),
            final(register_bank).flags == old(register_bank).flags,
            final(register_bank).stack_pointer == old(register_bank).stack_pointer,
    {
        Alu::in_out(is_in, reg, address, register_bank, memory_bank);
    }

    /// Executes the stack transfer.
    pub fn execute_push_pop(is_pop: bool, reg: u8, register_bank: &mut RegisterBank,
        memory_bank: &mut MemoryBank)
        requires
            old(register_bank).wf(),
            old(memory_bank).wf(),
            reg < 32,
            is_pop ==> old(register_bank).stack_pointer + 1 < old(memory_bank).data@.len(),
            !is_pop ==> old(register_bank).stack_pointer <= old(memory_bank).data@.len(),
        ensures
            final(register_bank).wf(),
            final(memory_bank).wf(),
            (final(register_bank).registers@, final(register_bank).stack_pointer,
                final(memory_bank).data@) == spec_push_pop(is_pop, reg,
                old(register_bank).registers@, old(register_bank).stack_pointer,
                old(memory_bank).data@),
            final(register_bank).flags == old(register_bank).flags,
    {
        Alu::push_pop(is_pop, reg, register_bank, memory_bank);
    }

    /// Executes the indexed transfer.
    pub fn execute_transfer_indirect(is_load: bool, base_reg: PointerRegister, reg: u8,
        offset: u8, register_bank: &mut RegisterBank, memory_bank: &mut MemoryBank)
        requires
            old(register_bank).wf(),
            old(memory_bank).wf(),
            reg < 32,
            indirect_address(old(register_bank).registers@, base_reg, offset)
                < old(memory_bank).data@.len(),
        ensures
            final(register_bank).wf(),
            final(memory_bank).wf(),
            (final(register_bank).registers@, final(memory_bank).data@)
                == spec_transfer_indirect(is_load, base_reg, reg, offset,
                old(register_bank).registers@, old(memory_bank).data@),
            final(register_bank).flags == old(register_bank).flags,
            final(register_bank).stack_pointer == old(register_bank).stack_pointer,
    {
        Alu::transfer_indirect(is_load, base_reg, reg, offset, register_bank, memory_bank);
    }
}

} // verus!
