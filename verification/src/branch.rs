//! Conditional relative branches: one status flag, selected by the branch
//! subcode, is tested against a polarity, and the decision plus the signed
//! word offset are reported to the fetch loop — the program counter itself
//! is never touched here.

use vstd::prelude::*;
use crate::alu::Alu;
use crate::instruction::ControlSignal;
use crate::register_bank::{RegisterBank, StatusFlags};

verus! {

/// Whether the branch subcode selects a flag this core holds.  The
/// numbering follows the status-register bit order: 0 carry, 1 zero,
/// 2 negative, 3 overflow, 5 half-carry, 7 interrupt; the remaining bit
/// positions have no flag here.
pub open spec fn branch_flag_known(op: u8) -> bool {
    op == 0 || op == 1 || op == 2 || op == 3 || op == 5 || op == 7
}

/// The value of the selected status flag.
pub open spec fn branch_flag(op: u8, f: StatusFlags) -> bool {
    if op == 0 {
        f.carry
    } else if op == 1 {
        f.zero
    } else if op == 2 {
        f.negative
    } else if op == 3 {
        f.overflow
    } else if op == 5 {
        f.half_carry
    } else {
        f.interrupt
    }
}

/// The branch decision: taken exactly when the selected flag matches the
/// polarity (`test_set` asks for a set flag, otherwise for a clear one).
/// A subcode that names no flag of this core is never taken.
pub open spec fn spec_branch(op: u8, test_set: bool, offset: i8, f: StatusFlags)
    -> ControlSignal {
    ControlSignal::Branch {
        taken: branch_flag_known(op) && branch_flag(op, f) == test_set,
        offset,
    }
}

impl Alu {
    /// Evaluates the selected status flag against the polarity and reports
    /// whether the branch is taken together with the signed word offset;
    /// no state changes.
    pub fn execute_branch(op: u8, test_set: bool, offset: i8, register_bank: &RegisterBank)
        -> (signal: ControlSignal)
        ensures
            signal == spec_branch(op, test_set, offset, register_bank.flags),
    {
        let flag_known = op == 0 || op == 1 || op == 2 || op == 3 || op == 5 || op == 7;
        let flag = if op == 0 {
            register_bank.flags.carry
        } else if op == 1 {
            register_bank.flags.zero
        } else if op == 2 {
            register_bank.flags.negative
        } else if op == 3 {
            register_bank.flags.overflow
        } else if op == 5 {
            register_bank.flags.half_carry
        } else {
            register_bank.flags.interrupt
        };
        ControlSignal::Branch { taken: flag_known && flag == test_set, offset }
    }
}

} // verus!
