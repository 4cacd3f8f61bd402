//! The shared instruction data model: the raw 16-bit word, the decoded
//! instruction variants, and the control-flow signal that `execute` reports
//! back to the fetch loop that owns the program counter.

use vstd::prelude::*;

verus! {

/// An unparsed 16-bit instruction word, as fetched from program memory.
pub type RawInstruction = u16;

/// The register pair used for 16-bit indirect addressing:
/// X = registers 26:27, Y = registers 28:29, Z = registers 30:31,
/// low byte first.
#[derive(Clone, Copy, PartialEq, Eq, Structural, Debug)]
pub enum PointerRegister {
    X,
    Y,
    Z,
}

impl PointerRegister {
    /// Index of the low register of the pair (the high byte lives at the
    /// next index up).
    pub open spec fn spec_low_index(self) -> u8 {
        match self {
            PointerRegister::X => 26,
            PointerRegister::Y => 28,
            PointerRegister::Z => 30,
        }
    }

    /// Executable form of `spec_low_index`.
    pub fn low_index(self) -> (i: u8)
        ensures
            i == self.spec_low_index(),
    {
        match self {
            PointerRegister::X => 26,
            PointerRegister::Y => 28,
            PointerRegister::Z => 30,
        }
    }
}

/// Operation and destination register of a fully decoded single-register
/// instruction.
#[derive(Clone, Copy, PartialEq, Eq, Structural, Debug)]
pub struct OneRegFields {
    pub op: u8,
    pub rd: u8,
}

/// A decoded instruction: one case per instruction shape.  The decoder is
/// total, so every 16-bit word maps to exactly one value of this type
/// (possibly `Unsupported`).
#[derive(Clone, Copy, PartialEq, Eq, Debug)]
pub enum Instruction {
    /// No effect.
    Nop,
    /// Two-register ALU family; `op` is the raw word shifted right by 10,
    /// kept unreduced as a 6-bit family discriminator.
    TwoRegOp { op: RawInstruction, rd: u8, rr: u8 },
    /// Register-versus-immediate family; `op` is the raw word shifted right
    /// by 12.  The destination index is offset by +16 before use, so only
    /// registers 16-31 are addressed.
    RegConstOp { op: RawInstruction, rd: u8, constant: u8 },
    /// Single-register ALU family.  The decoder recognises the family but
    /// does not extract its fields, so it always emits the undecoded marker
    /// (`fields == None`); a fully decoded value carries `op` and `rd`.
    OneRegOp { fields: Option<OneRegFields> },
    /// Indexed load (`is_load`) or store through a pointer register pair
    /// plus an unsigned 8-bit displacement.
    TransferIndirect { is_load: bool, base_reg: PointerRegister, reg: u8, offset: u8 },
    /// Stack transfer of one register.
    PushPop { is_pop: bool, reg: u8 },
    /// Memory-mapped I/O transfer between a register and an 8-bit I/O-space
    /// address.
    InOut { is_in: bool, reg: u8, address: u8 },
    /// Control transfer.  In the encoding covered here `relative` is always
    /// true and `address` is the low 12 bits of the word, a word-offset
    /// branch target interpreted by the fetch loop.
    CallJmp { is_call: bool, relative: bool, address: u16 },
    /// Return from a call, or from an interrupt when `is_interrupt` is set.
    Ret { is_interrupt: bool },
    /// Conditional relative branch: test one status flag, selected by `op`,
    /// against the polarity `test_set`.
    Branch { op: u8, test_set: bool, offset: i8 },
    /// Decode fallback for an unrecognised opcode; never fatal.
    Unsupported { instruction: RawInstruction },
}

/// What the fetch loop, which owns the program counter, must do after an
/// instruction was executed.  The core never mutates a program counter
/// itself; it only reports the decision.
#[derive(Clone, Copy, PartialEq, Eq, Debug)]
pub enum ControlSignal {
    /// Advance to the next instruction word as usual.
    Proceed,
    /// Compare-and-skip found its operands equal: advance one extra
    /// instruction word.
    Skip,
    /// Unconditional transfer to `address`; a word offset when `relative`
    /// is set, an absolute word address otherwise.  For a call the return
    /// address was already pushed onto the stack.
    Jump { relative: bool, address: u16 },
    /// Transfer to the absolute word address popped from the stack.
    Return { address: u16 },
    /// A conditional branch was evaluated: apply the signed word offset
    /// exactly when `taken` is set.
    Branch { taken: bool, offset: i8 },
}

} // verus!
